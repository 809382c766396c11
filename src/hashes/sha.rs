//! SHA digests computed in-process.

use vstd::prelude::*;
use crate::providers::sha::{
    sha1_digest, sha1_of, sha2_224_digest, sha2_224_of, sha2_256_digest, sha2_256_of,
    sha2_384_digest, sha2_384_of, sha2_512_digest, sha2_512_of, sha3_224_digest, sha3_224_of,
    sha3_256_digest, sha3_256_of, sha3_384_digest, sha3_384_of, sha3_512_digest, sha3_512_of,
};
use crate::result::{HashResult, hex_upper};

verus! {

/// The SHA-1 digest, two hexadecimal digits per byte.
pub fn sha1(data: &[u8]) -> (r: HashResult)
    ensures
        r.0@ == hex_upper(sha1_of(data@)),
        r.0@.len() == 40,
{
    let d = sha1_digest(data);
    HashResult::from_bytes(d.as_slice())
}

/// The SHA2-224 digest, two hexadecimal digits per byte.
pub fn sha2_224(data: &[u8]) -> (r: HashResult)
    ensures
        r.0@ == hex_upper(sha2_224_of(data@)),
        r.0@.len() == 56,
{
    let d = sha2_224_digest(data);
    HashResult::from_bytes(d.as_slice())
}

/// The SHA2-256 digest, two hexadecimal digits per byte.
pub fn sha2_256(data: &[u8]) -> (r: HashResult)
    ensures
        r.0@ == hex_upper(sha2_256_of(data@)),
        r.0@.len() == 64,
{
    let d = sha2_256_digest(data);
    HashResult::from_bytes(d.as_slice())
}

/// The SHA2-384 digest, two hexadecimal digits per byte.
pub fn sha2_384(data: &[u8]) -> (r: HashResult)
    ensures
        r.0@ == hex_upper(sha2_384_of(data@)),
        r.0@.len() == 96,
{
    let d = sha2_384_digest(data);
    HashResult::from_bytes(d.as_slice())
}

/// The SHA2-512 digest, two hexadecimal digits per byte.
pub fn sha2_512(data: &[u8]) -> (r: HashResult)
    ensures
        r.0@ == hex_upper(sha2_512_of(data@)),
        r.0@.len() == 128,
{
    let d = sha2_512_digest(data);
    HashResult::from_bytes(d.as_slice())
}

/// The SHA3-224 digest, two hexadecimal digits per byte.
pub fn sha3_224(data: &[u8]) -> (r: HashResult)
    ensures
        r.0@ == hex_upper(sha3_224_of(data@)),
        r.0@.len() == 56,
{
    let d = sha3_224_digest(data);
    HashResult::from_bytes(d.as_slice())
}

/// The SHA3-256 digest, two hexadecimal digits per byte.
pub fn sha3_256(data: &[u8]) -> (r: HashResult)
    ensures
        r.0@ == hex_upper(sha3_256_of(data@)),
        r.0@.len() == 64,
{
    let d = sha3_256_digest(data);
    HashResult::from_bytes(d.as_slice())
}

/// The SHA3-384 digest, two hexadecimal digits per byte.
pub fn sha3_384(data: &[u8]) -> (r: HashResult)
    ensures
        r.0@ == hex_upper(sha3_384_of(data@)),
        r.0@.len() == 96,
{
    let d = sha3_384_digest(data);
    HashResult::from_bytes(d.as_slice())
}

/// The SHA3-512 digest, two hexadecimal digits per byte.
pub fn sha3_512(data: &[u8]) -> (r: HashResult)
    ensures
        r.0@ == hex_upper(sha3_512_of(data@)),
        r.0@.len() == 128,
{
    let d = sha3_512_digest(data);
    HashResult::from_bytes(d.as_slice())
}

} // verus!
