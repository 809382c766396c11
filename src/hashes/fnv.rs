//! FNV digests computed in-process.

use vstd::prelude::*;
use crate::providers::fnv::{FnvKind, FnvWidth, fnv_digest, fnv_digest_of};
use crate::result::{HashResult, hex_number};

verus! {

/// FNV-0 over 32-bit words, as a number in hexadecimal.
pub fn fnv0_32(data: &[u8]) -> (r: HashResult)
    ensures
        r.0@ == hex_number(fnv_digest(FnvKind::Fnv0, FnvWidth::W32, data@)),
        2 <= r.0@.len() <= 8,
{
    let d = fnv_digest_of(FnvKind::Fnv0, FnvWidth::W32, data);
    HashResult::from_number(d.as_slice())
}

/// FNV-0 over 64-bit words, as a number in hexadecimal.
pub fn fnv0_64(data: &[u8]) -> (r: HashResult)
    ensures
        r.0@ == hex_number(fnv_digest(FnvKind::Fnv0, FnvWidth::W64, data@)),
        2 <= r.0@.len() <= 16,
{
    let d = fnv_digest_of(FnvKind::Fnv0, FnvWidth::W64, data);
    HashResult::from_number(d.as_slice())
}

/// FNV-0 over 128-bit words, as a number in hexadecimal.
pub fn fnv0_128(data: &[u8]) -> (r: HashResult)
    ensures
        r.0@ == hex_number(fnv_digest(FnvKind::Fnv0, FnvWidth::W128, data@)),
        2 <= r.0@.len() <= 32,
{
    let d = fnv_digest_of(FnvKind::Fnv0, FnvWidth::W128, data);
    HashResult::from_number(d.as_slice())
}

/// FNV-0 over 256-bit words, as a number in hexadecimal.
pub fn fnv0_256(data: &[u8]) -> (r: HashResult)
    ensures
        r.0@ == hex_number(fnv_digest(FnvKind::Fnv0, FnvWidth::W256, data@)),
        2 <= r.0@.len() <= 64,
{
    let d = fnv_digest_of(FnvKind::Fnv0, FnvWidth::W256, data);
    HashResult::from_number(d.as_slice())
}

/// FNV-0 over 512-bit words, as a number in hexadecimal.
pub fn fnv0_512(data: &[u8]) -> (r: HashResult)
    ensures
        r.0@ == hex_number(fnv_digest(FnvKind::Fnv0, FnvWidth::W512, data@)),
        2 <= r.0@.len() <= 128,
{
    let d = fnv_digest_of(FnvKind::Fnv0, FnvWidth::W512, data);
    HashResult::from_number(d.as_slice())
}

/// FNV-0 over 1024-bit words, as a number in hexadecimal.
pub fn fnv0_1024(data: &[u8]) -> (r: HashResult)
    ensures
        r.0@ == hex_number(fnv_digest(FnvKind::Fnv0, FnvWidth::W1024, data@)),
        2 <= r.0@.len() <= 256,
{
    let d = fnv_digest_of(FnvKind::Fnv0, FnvWidth::W1024, data);
    HashResult::from_number(d.as_slice())
}

/// FNV-1 over 32-bit words, as a number in hexadecimal.
pub fn fnv1_32(data: &[u8]) -> (r: HashResult)
    ensures
        r.0@ == hex_number(fnv_digest(FnvKind::Fnv1, FnvWidth::W32, data@)),
        2 <= r.0@.len() <= 8,
{
    let d = fnv_digest_of(FnvKind::Fnv1, FnvWidth::W32, data);
    HashResult::from_number(d.as_slice())
}

/// FNV-1 over 64-bit words, as a number in hexadecimal.
pub fn fnv1_64(data: &[u8]) -> (r: HashResult)
    ensures
        r.0@ == hex_number(fnv_digest(FnvKind::Fnv1, FnvWidth::W64, data@)),
        2 <= r.0@.len() <= 16,
{
    let d = fnv_digest_of(FnvKind::Fnv1, FnvWidth::W64, data);
    HashResult::from_number(d.as_slice())
}

/// FNV-1 over 128-bit words, as a number in hexadecimal.
pub fn fnv1_128(data: &[u8]) -> (r: HashResult)
    ensures
        r.0@ == hex_number(fnv_digest(FnvKind::Fnv1, FnvWidth::W128, data@)),
        2 <= r.0@.len() <= 32,
{
    let d = fnv_digest_of(FnvKind::Fnv1, FnvWidth::W128, data);
    HashResult::from_number(d.as_slice())
}

/// FNV-1 over 256-bit words, as a number in hexadecimal.
pub fn fnv1_256(data: &[u8]) -> (r: HashResult)
    ensures
        r.0@ == hex_number(fnv_digest(FnvKind::Fnv1, FnvWidth::W256, data@)),
        2 <= r.0@.len() <= 64,
{
    let d = fnv_digest_of(FnvKind::Fnv1, FnvWidth::W256, data);
    HashResult::from_number(d.as_slice())
}

/// FNV-1 over 512-bit words, as a number in hexadecimal.
pub fn fnv1_512(data: &[u8]) -> (r: HashResult)
    ensures
        r.0@ == hex_number(fnv_digest(FnvKind::Fnv1, FnvWidth::W512, data@)),
        2 <= r.0@.len() <= 128,
{
    let d = fnv_digest_of(FnvKind::Fnv1, FnvWidth::W512, data);
    HashResult::from_number(d.as_slice())
}

/// FNV-1 over 1024-bit words, as a number in hexadecimal.
pub fn fnv1_1024(data: &[u8]) -> (r: HashResult)
    ensures
        r.0@ == hex_number(fnv_digest(FnvKind::Fnv1, FnvWidth::W1024, data@)),
        2 <= r.0@.len() <= 256,
{
    let d = fnv_digest_of(FnvKind::Fnv1, FnvWidth::W1024, data);
    HashResult::from_number(d.as_slice())
}

/// FNV-1a over 32-bit words, as a number in hexadecimal.
pub fn fnv1a_32(data: &[u8]) -> (r: HashResult)
    ensures
        r.0@ == hex_number(fnv_digest(FnvKind::Fnv1a, FnvWidth::W32, data@)),
        2 <= r.0@.len() <= 8,
{
    let d = fnv_digest_of(FnvKind::Fnv1a, FnvWidth::W32, data);
    HashResult::from_number(d.as_slice())
}

/// FNV-1a over 64-bit words, as a number in hexadecimal.
pub fn fnv1a_64(data: &[u8]) -> (r: HashResult)
    ensures
        r.0@ == hex_number(fnv_digest(FnvKind::Fnv1a, FnvWidth::W64, data@)),
        2 <= r.0@.len() <= 16,
{
    let d = fnv_digest_of(FnvKind::Fnv1a, FnvWidth::W64, data);
    HashResult::from_number(d.as_slice())
}

/// FNV-1a over 128-bit words, as a number in hexadecimal.
pub fn fnv1a_128(data: &[u8]) -> (r: HashResult)
    ensures
        r.0@ == hex_number(fnv_digest(FnvKind::Fnv1a, FnvWidth::W128, data@)),
        2 <= r.0@.len() <= 32,
{
    let d = fnv_digest_of(FnvKind::Fnv1a, FnvWidth::W128, data);
    HashResult::from_number(d.as_slice())
}

/// FNV-1a over 256-bit words, as a number in hexadecimal.
pub fn fnv1a_256(data: &[u8]) -> (r: HashResult)
    ensures
        r.0@ == hex_number(fnv_digest(FnvKind::Fnv1a, FnvWidth::W256, data@)),
        2 <= r.0@.len() <= 64,
{
    let d = fnv_digest_of(FnvKind::Fnv1a, FnvWidth::W256, data);
    HashResult::from_number(d.as_slice())
}

/// FNV-1a over 512-bit words, as a number in hexadecimal.
pub fn fnv1a_512(data: &[u8]) -> (r: HashResult)
    ensures
        r.0@ == hex_number(fnv_digest(FnvKind::Fnv1a, FnvWidth::W512, data@)),
        2 <= r.0@.len() <= 128,
{
    let d = fnv_digest_of(FnvKind::Fnv1a, FnvWidth::W512, data);
    HashResult::from_number(d.as_slice())
}

/// FNV-1a over 1024-bit words, as a number in hexadecimal.
pub fn fnv1a_1024(data: &[u8]) -> (r: HashResult)
    ensures
        r.0@ == hex_number(fnv_digest(FnvKind::Fnv1a, FnvWidth::W1024, data@)),
        2 <= r.0@.len() <= 256,
{
    let d = fnv_digest_of(FnvKind::Fnv1a, FnvWidth::W1024, data);
    HashResult::from_number(d.as_slice())
}

} // verus!
