//! The xxHash provider: XXH32, XXH64 and XXH3.

use vstd::prelude::*;
use crate::function::{HashFunction, flag_bits};
use crate::flags::HashFlags;
use crate::registry::{Entry, Record, Registry, apply_registrations};
use crate::buffer::Slice;
use crate::function::{STATUS_MISSING_INPUT, call_post};
use crate::options::CHashOptions;

verus! {

/// The shortest secret that the XXH3 functions taking a secret accept.
pub const SECRET_SIZE_MIN: usize = 136;

/// XXH32 of a byte sequence under a seed.
pub uninterp spec fn xxh32_of(data: Seq<u8>, seed: u32) -> u32;

/// XXH64 of a byte sequence under a seed.
pub uninterp spec fn xxh64_of(data: Seq<u8>, seed: u64) -> u64;

/// XXH3 with a 64-bit result and the default secret.
pub uninterp spec fn xxh3_64_of(data: Seq<u8>) -> u64;

/// XXH3 with a 64-bit result under a seed.
pub uninterp spec fn xxh3_64_seeded_of(data: Seq<u8>, seed: u64) -> u64;

/// XXH3 with a 64-bit result under a secret.
pub uninterp spec fn xxh3_64_secret_of(data: Seq<u8>, secret: Seq<u8>) -> u64;

/// XXH3 with a 128-bit result and the default secret.
pub uninterp spec fn xxh3_128_of(data: Seq<u8>) -> u128;

/// XXH3 with a 128-bit result under a seed.
pub uninterp spec fn xxh3_128_seeded_of(data: Seq<u8>, seed: u64) -> u128;

/// XXH3 with a 128-bit result under a secret.
pub uninterp spec fn xxh3_128_secret_of(data: Seq<u8>, secret: Seq<u8>) -> u128;

/// Relies on xxhash_rust's `xxh32::xxh32`.
#[verifier::external_body]
pub(crate) fn xxh32_hash(data: &[u8], seed: u32) -> (r: u32)
    ensures
        r == xxh32_of(data@, seed),
{
    xxhash_rust::xxh32::xxh32(data, seed)
}

/// Relies on xxhash_rust's `xxh64::xxh64`.
#[verifier::external_body]
pub(crate) fn xxh64_hash(data: &[u8], seed: u64) -> (r: u64)
    ensures
        r == xxh64_of(data@, seed),
{
    xxhash_rust::xxh64::xxh64(data, seed)
}

/// Relies on xxhash_rust's `xxh3::xxh3_64`.
#[verifier::external_body]
pub(crate) fn xxh3_64_hash(data: &[u8]) -> (r: u64)
    ensures
        r == xxh3_64_of(data@),
{
    xxhash_rust::xxh3::xxh3_64(data)
}

/// Relies on xxhash_rust's `xxh3::xxh3_64_with_seed`, which with seed zero computes
/// exactly what `xxh3_64` does.
#[verifier::external_body]
pub(crate) fn xxh3_64_seeded_hash(data: &[u8], seed: u64) -> (r: u64)
    ensures
        r == xxh3_64_seeded_of(data@, seed),
        seed == 0 ==> r == xxh3_64_of(data@),
{
    xxhash_rust::xxh3::xxh3_64_with_seed(data, seed)
}

/// Relies on xxhash_rust's `xxh3::xxh3_64_with_secret`, which asserts that the
/// secret is at least `SECRET_SIZE_MIN` bytes long.
#[verifier::external_body]
pub(crate) fn xxh3_64_secret_hash(data: &[u8], secret: &[u8]) -> (r: u64)
    requires
        secret@.len() >= SECRET_SIZE_MIN,
    ensures
        r == xxh3_64_secret_of(data@, secret@),
{
    xxhash_rust::xxh3::xxh3_64_with_secret(data, secret)
}

/// Relies on xxhash_rust's `xxh3::xxh3_128`.
#[verifier::external_body]
pub(crate) fn xxh3_128_hash(data: &[u8]) -> (r: u128)
    ensures
        r == xxh3_128_of(data@),
{
    xxhash_rust::xxh3::xxh3_128(data)
}

/// Relies on xxhash_rust's `xxh3::xxh3_128_with_seed`, which with seed zero computes
/// exactly what `xxh3_128` does.
#[verifier::external_body]
pub(crate) fn xxh3_128_seeded_hash(data: &[u8], seed: u64) -> (r: u128)
    ensures
        r == xxh3_128_seeded_of(data@, seed),
        seed == 0 ==> r == xxh3_128_of(data@),
{
    xxhash_rust::xxh3::xxh3_128_with_seed(data, seed)
}

/// Relies on xxhash_rust's `xxh3::xxh3_128_with_secret`, which asserts that the
/// secret is at least `SECRET_SIZE_MIN` bytes long.
#[verifier::external_body]
pub(crate) fn xxh3_128_secret_hash(data: &[u8], secret: &[u8]) -> (r: u128)
    requires
        secret@.len() >= SECRET_SIZE_MIN,
    ensures
        r == xxh3_128_secret_of(data@, secret@),
{
    xxhash_rust::xxh3::xxh3_128_with_secret(data, secret)
}

/// What this provider registers, in order: each name with its entry point's flags
/// and the entry point.
pub open spec fn registrations() -> Seq<(Seq<char>, Record)> {
    seq![
        ("XXH32"@, (HashFlags { bits: flag_bits(HashFunction::Xxh32) }, HashFunction::Xxh32)),
        ("XXH64"@, (HashFlags { bits: flag_bits(HashFunction::Xxh64) }, HashFunction::Xxh64)),
        ("XXH3_64"@, (HashFlags { bits: flag_bits(HashFunction::Xxh3_64) }, HashFunction::Xxh3_64)),
        ("XXH3_64_seeded"@, (HashFlags { bits: flag_bits(HashFunction::Xxh3_64_seeded) }, HashFunction::Xxh3_64_seeded)),
        ("XXH3_128"@, (HashFlags { bits: flag_bits(HashFunction::Xxh3_128) }, HashFunction::Xxh3_128)),
        ("XXH3_128_seeded"@, (HashFlags { bits: flag_bits(HashFunction::Xxh3_128_seeded) }, HashFunction::Xxh3_128_seeded)),
    ]
}

/// The registration handshake: announces each algorithm of this provider to the
/// registry, in order.
pub fn register_hashers(registry: &mut Registry)
    requires
        old(registry).wf(),
    ensures
        final(registry).wf(),
        final(registry)@ == apply_registrations(old(registry)@, registrations()),
{
    let regs = vec![
        Entry::new("XXH32", HashFunction::Xxh32.flags(), HashFunction::Xxh32),
        Entry::new("XXH64", HashFunction::Xxh64.flags(), HashFunction::Xxh64),
        Entry::new("XXH3_64", HashFunction::Xxh3_64.flags(), HashFunction::Xxh3_64),
        Entry::new("XXH3_64_seeded", HashFunction::Xxh3_64_seeded.flags(), HashFunction::Xxh3_64_seeded),
        Entry::new("XXH3_128", HashFunction::Xxh3_128.flags(), HashFunction::Xxh3_128),
        Entry::new("XXH3_128_seeded", HashFunction::Xxh3_128_seeded.flags(), HashFunction::Xxh3_128_seeded),
    ];
    assert(regs@.map_values(|e: Entry| e@) =~= registrations());
    registry.register_all(&regs);
}

/// The `xxh32` entry point; see `HashFunction::call`.
pub fn xxh32(data: Option<&mut Slice<u8>>, options: Option<&CHashOptions>) -> (r: i32)
    ensures
        data is None ==> r == STATUS_MISSING_INPUT,
        data is Some ==> call_post(HashFunction::Xxh32, *data->0, *final(data->0), options, r),
{
    HashFunction::Xxh32.call(data, options)
}

/// The `xxh64` entry point; see `HashFunction::call`.
pub fn xxh64(data: Option<&mut Slice<u8>>, options: Option<&CHashOptions>) -> (r: i32)
    ensures
        data is None ==> r == STATUS_MISSING_INPUT,
        data is Some ==> call_post(HashFunction::Xxh64, *data->0, *final(data->0), options, r),
{
    HashFunction::Xxh64.call(data, options)
}

/// The `xxh3_64` entry point; see `HashFunction::call`.
pub fn xxh3_64(data: Option<&mut Slice<u8>>, options: Option<&CHashOptions>) -> (r: i32)
    ensures
        data is None ==> r == STATUS_MISSING_INPUT,
        data is Some ==> call_post(HashFunction::Xxh3_64, *data->0, *final(data->0), options, r),
{
    HashFunction::Xxh3_64.call(data, options)
}

/// The `xxh3_64_seeded` entry point; see `HashFunction::call`.
pub fn xxh3_64_seeded(data: Option<&mut Slice<u8>>, options: Option<&CHashOptions>) -> (r: i32)
    ensures
        data is None ==> r == STATUS_MISSING_INPUT,
        data is Some ==> call_post(HashFunction::Xxh3_64_seeded, *data->0, *final(data->0), options, r),
{
    HashFunction::Xxh3_64_seeded.call(data, options)
}

/// The `xxh3_64_with_secret` entry point; see `HashFunction::call`.
pub fn xxh3_64_with_secret(data: Option<&mut Slice<u8>>, options: Option<&CHashOptions>) -> (r: i32)
    ensures
        data is None ==> r == STATUS_MISSING_INPUT,
        data is Some ==> call_post(HashFunction::Xxh3_64_with_secret, *data->0, *final(data->0), options, r),
{
    HashFunction::Xxh3_64_with_secret.call(data, options)
}

/// The `xxh3_128` entry point; see `HashFunction::call`.
pub fn xxh3_128(data: Option<&mut Slice<u8>>, options: Option<&CHashOptions>) -> (r: i32)
    ensures
        data is None ==> r == STATUS_MISSING_INPUT,
        data is Some ==> call_post(HashFunction::Xxh3_128, *data->0, *final(data->0), options, r),
{
    HashFunction::Xxh3_128.call(data, options)
}

/// The `xxh3_128_seeded` entry point; see `HashFunction::call`.
pub fn xxh3_128_seeded(data: Option<&mut Slice<u8>>, options: Option<&CHashOptions>) -> (r: i32)
    ensures
        data is None ==> r == STATUS_MISSING_INPUT,
        data is Some ==> call_post(HashFunction::Xxh3_128_seeded, *data->0, *final(data->0), options, r),
{
    HashFunction::Xxh3_128_seeded.call(data, options)
}

/// The `xxh3_128_with_secret` entry point; see `HashFunction::call`.
pub fn xxh3_128_with_secret(data: Option<&mut Slice<u8>>, options: Option<&CHashOptions>) -> (r: i32)
    ensures
        data is None ==> r == STATUS_MISSING_INPUT,
        data is Some ==> call_post(HashFunction::Xxh3_128_with_secret, *data->0, *final(data->0), options, r),
{
    HashFunction::Xxh3_128_with_secret.call(data, options)
}

} // verus!
