//! MurmurHash2 digests computed in-process, with seed zero.

use vstd::prelude::*;
use crate::bytes::{be_bytes, be_bytes_u32, be_bytes_u64};
use crate::providers::murmur::{
    murmur2_hash, murmur2_of, murmur2a_hash, murmur2a_of, murmur64a_hash, murmur64a_of,
    murmur64b_hash, murmur64b_of,
};
use crate::result::{HashResult, hex_number};

verus! {

/// MurmurHash2 with seed zero, as a number in hexadecimal.
pub fn murmur2_32(data: &[u8]) -> (r: HashResult)
    ensures
        r.0@ == hex_number(be_bytes(murmur2_of(data@, 0) as nat, 4)),
        2 <= r.0@.len() <= 8,
{
    let b = be_bytes_u32(murmur2_hash(data, 0));
    HashResult::from_number(b.as_slice())
}

/// MurmurHash2A with seed zero, as a number in hexadecimal.
pub fn murmur2a_32(data: &[u8]) -> (r: HashResult)
    ensures
        r.0@ == hex_number(be_bytes(murmur2a_of(data@, 0) as nat, 4)),
        2 <= r.0@.len() <= 8,
{
    let b = be_bytes_u32(murmur2a_hash(data, 0));
    HashResult::from_number(b.as_slice())
}

/// MurmurHash64A with seed zero, as a number in hexadecimal.
pub fn murmur2a_64(data: &[u8]) -> (r: HashResult)
    ensures
        r.0@ == hex_number(be_bytes(murmur64a_of(data@, 0) as nat, 8)),
        2 <= r.0@.len() <= 16,
{
    let b = be_bytes_u64(murmur64a_hash(data, 0));
    HashResult::from_number(b.as_slice())
}

/// MurmurHash64B with seed zero, as a number in hexadecimal.
pub fn murmur2b_64(data: &[u8]) -> (r: HashResult)
    ensures
        r.0@ == hex_number(be_bytes(murmur64b_of(data@, 0) as nat, 8)),
        2 <= r.0@.len() <= 16,
{
    let b = be_bytes_u64(murmur64b_hash(data, 0));
    HashResult::from_number(b.as_slice())
}

} // verus!
