//! xxHash digests computed in-process, with seed zero.

use vstd::prelude::*;
use crate::bytes::{be_bytes, be_bytes_u32, be_bytes_u64, be_bytes_u128};
use crate::providers::xxhash::{
    xxh32_hash, xxh32_of, xxh3_128_hash, xxh3_128_of, xxh3_64_hash, xxh3_64_of, xxh64_hash, xxh64_of,
};
use crate::result::{HashResult, hex_number};

verus! {

/// XXH32 with seed zero, as a number in hexadecimal.
pub fn xxh32(data: &[u8]) -> (r: HashResult)
    ensures
        r.0@ == hex_number(be_bytes(xxh32_of(data@, 0) as nat, 4)),
        2 <= r.0@.len() <= 8,
{
    let b = be_bytes_u32(xxh32_hash(data, 0));
    HashResult::from_number(b.as_slice())
}

/// XXH64 with seed zero, as a number in hexadecimal.
pub fn xxh64(data: &[u8]) -> (r: HashResult)
    ensures
        r.0@ == hex_number(be_bytes(xxh64_of(data@, 0) as nat, 8)),
        2 <= r.0@.len() <= 16,
{
    let b = be_bytes_u64(xxh64_hash(data, 0));
    HashResult::from_number(b.as_slice())
}

/// XXH3 with a 64-bit result, as a number in hexadecimal.
pub fn xxh3_64(data: &[u8]) -> (r: HashResult)
    ensures
        r.0@ == hex_number(be_bytes(xxh3_64_of(data@) as nat, 8)),
        2 <= r.0@.len() <= 16,
{
    let b = be_bytes_u64(xxh3_64_hash(data));
    HashResult::from_number(b.as_slice())
}

/// XXH3 with a 128-bit result, as a number in hexadecimal.
pub fn xxh3_128(data: &[u8]) -> (r: HashResult)
    ensures
        r.0@ == hex_number(be_bytes(xxh3_128_of(data@) as nat, 16)),
        2 <= r.0@.len() <= 32,
{
    let b = be_bytes_u128(xxh3_128_hash(data));
    HashResult::from_number(b.as_slice())
}

} // verus!
