//! The Murmur provider: MurmurHash2 and MurmurHash3 variants, seeded.

use vstd::prelude::*;
use crate::function::{HashFunction, flag_bits};
use crate::flags::HashFlags;
use crate::registry::{Entry, Record, Registry, apply_registrations};
use crate::buffer::Slice;
use crate::function::{STATUS_MISSING_INPUT, call_post};
use crate::options::CHashOptions;

verus! {

/// MurmurHash2 (32-bit, little-endian reads) of a byte sequence under a seed.
pub uninterp spec fn murmur2_of(data: Seq<u8>, seed: u32) -> u32;

/// MurmurHash2A (32-bit) of a byte sequence under a seed.
pub uninterp spec fn murmur2a_of(data: Seq<u8>, seed: u32) -> u32;

/// MurmurHash64A of a byte sequence under a seed.
pub uninterp spec fn murmur64a_of(data: Seq<u8>, seed: u64) -> u64;

/// MurmurHash64B of a byte sequence under a seed.
pub uninterp spec fn murmur64b_of(data: Seq<u8>, seed: u64) -> u64;

/// MurmurHash3 (32-bit) of a byte sequence under a seed.
pub uninterp spec fn murmur3_32_of(data: Seq<u8>, seed: u32) -> u32;

/// MurmurHash3 (x64, 128-bit) of a byte sequence under a seed.
pub uninterp spec fn murmur3_x64_128_of(data: Seq<u8>, seed: u32) -> u128;

/// MurmurHash3 (x86, 128-bit) of a byte sequence under a seed.
pub uninterp spec fn murmur3_x86_128_of(data: Seq<u8>, seed: u32) -> u128;

/// The longest input murmur3's 32-bit hash takes: it counts the bytes it reads in a
/// `u32`.
pub const MURMUR3_32_MAX_LEN: u64 = 0xffff_ffff;

/// Relies on murmur2's `murmur2`.
#[verifier::external_body]
pub(crate) fn murmur2_hash(data: &[u8], seed: u32) -> (r: u32)
    ensures
        r == murmur2_of(data@, seed),
{
    murmur2::murmur2(data, seed)
}

/// Relies on murmur2's `murmur2a`.
#[verifier::external_body]
pub(crate) fn murmur2a_hash(data: &[u8], seed: u32) -> (r: u32)
    ensures
        r == murmur2a_of(data@, seed),
{
    murmur2::murmur2a(data, seed)
}

/// Relies on murmur2's `murmur64a`.
#[verifier::external_body]
pub(crate) fn murmur64a_hash(data: &[u8], seed: u64) -> (r: u64)
    ensures
        r == murmur64a_of(data@, seed),
{
    murmur2::murmur64a(data, seed)
}

/// Relies on murmur2's `murmur64b`.
#[verifier::external_body]
pub(crate) fn murmur64b_hash(data: &[u8], seed: u64) -> (r: u64)
    ensures
        r == murmur64b_of(data@, seed),
{
    murmur2::murmur64b(data, seed)
}

/// Relies on murmur3's `murmur3_32`, reading the input through an in-memory cursor,
/// whose reads never fail, so the hash is always returned.
/// Its byte counter is a `u32`: a longer input would overflow it.
#[verifier::external_body]
pub(crate) fn murmur3_32_hash(data: &[u8], seed: u32) -> (r: Option<u32>)
    requires
        data@.len() <= MURMUR3_32_MAX_LEN,
    ensures
        r == Some(murmur3_32_of(data@, seed)),
{
    murmur3::murmur3_32(&mut std::io::Cursor::new(data), seed).ok()
}

/// Relies on murmur3's `murmur3_x64_128`, reading the input through an in-memory cursor,
/// whose reads never fail, so the hash is always returned.
#[verifier::external_body]
pub(crate) fn murmur3_x64_128_hash(data: &[u8], seed: u32) -> (r: Option<u128>)
    ensures
        r == Some(murmur3_x64_128_of(data@, seed)),
{
    murmur3::murmur3_x64_128(&mut std::io::Cursor::new(data), seed).ok()
}

/// Relies on murmur3's `murmur3_x86_128`, reading the input through an in-memory cursor,
/// whose reads never fail, so the hash is always returned.
#[verifier::external_body]
pub(crate) fn murmur3_x86_128_hash(data: &[u8], seed: u32) -> (r: Option<u128>)
    ensures
        r == Some(murmur3_x86_128_of(data@, seed)),
{
    murmur3::murmur3_x86_128(&mut std::io::Cursor::new(data), seed).ok()
}

/// What this provider registers, in order: each name with its entry point's flags
/// and the entry point.
pub open spec fn registrations() -> Seq<(Seq<char>, Record)> {
    seq![
        ("Murmur2_32"@, (HashFlags { bits: flag_bits(HashFunction::Murmur2_32) }, HashFunction::Murmur2_32)),
        ("Murmur2a_32"@, (HashFlags { bits: flag_bits(HashFunction::Murmur2a_32) }, HashFunction::Murmur2a_32)),
        ("Murmur2a_64"@, (HashFlags { bits: flag_bits(HashFunction::Murmur2a_64) }, HashFunction::Murmur2a_64)),
        ("Murmur2b_64"@, (HashFlags { bits: flag_bits(HashFunction::Murmur2b_64) }, HashFunction::Murmur2b_64)),
        ("Murmur3_32"@, (HashFlags { bits: flag_bits(HashFunction::Murmur3_32) }, HashFunction::Murmur3_32)),
        ("Murmur3_x64_128"@, (HashFlags { bits: flag_bits(HashFunction::Murmur3_x64_128) }, HashFunction::Murmur3_x64_128)),
        ("Murmur3_x86_128"@, (HashFlags { bits: flag_bits(HashFunction::Murmur3_x86_128) }, HashFunction::Murmur3_x86_128)),
    ]
}

/// The registration handshake: announces each algorithm of this provider to the
/// registry, in order.
pub fn register_hashers(registry: &mut Registry)
    requires
        old(registry).wf(),
    ensures
        final(registry).wf(),
        final(registry)@ == apply_registrations(old(registry)@, registrations()),
{
    let regs = vec![
        Entry::new("Murmur2_32", HashFunction::Murmur2_32.flags(), HashFunction::Murmur2_32),
        Entry::new("Murmur2a_32", HashFunction::Murmur2a_32.flags(), HashFunction::Murmur2a_32),
        Entry::new("Murmur2a_64", HashFunction::Murmur2a_64.flags(), HashFunction::Murmur2a_64),
        Entry::new("Murmur2b_64", HashFunction::Murmur2b_64.flags(), HashFunction::Murmur2b_64),
        Entry::new("Murmur3_32", HashFunction::Murmur3_32.flags(), HashFunction::Murmur3_32),
        Entry::new("Murmur3_x64_128", HashFunction::Murmur3_x64_128.flags(), HashFunction::Murmur3_x64_128),
        Entry::new("Murmur3_x86_128", HashFunction::Murmur3_x86_128.flags(), HashFunction::Murmur3_x86_128),
    ];
    assert(regs@.map_values(|e: Entry| e@) =~= registrations());
    registry.register_all(&regs);
}

/// The `murmur2_32` entry point; see `HashFunction::call`.
pub fn murmur2_32(data: Option<&mut Slice<u8>>, options: Option<&CHashOptions>) -> (r: i32)
    ensures
        data is None ==> r == STATUS_MISSING_INPUT,
        data is Some ==> call_post(HashFunction::Murmur2_32, *data->0, *final(data->0), options, r),
{
    HashFunction::Murmur2_32.call(data, options)
}

/// The `murmur2a_32` entry point; see `HashFunction::call`.
pub fn murmur2a_32(data: Option<&mut Slice<u8>>, options: Option<&CHashOptions>) -> (r: i32)
    ensures
        data is None ==> r == STATUS_MISSING_INPUT,
        data is Some ==> call_post(HashFunction::Murmur2a_32, *data->0, *final(data->0), options, r),
{
    HashFunction::Murmur2a_32.call(data, options)
}

/// The `murmur2a_64` entry point; see `HashFunction::call`.
pub fn murmur2a_64(data: Option<&mut Slice<u8>>, options: Option<&CHashOptions>) -> (r: i32)
    ensures
        data is None ==> r == STATUS_MISSING_INPUT,
        data is Some ==> call_post(HashFunction::Murmur2a_64, *data->0, *final(data->0), options, r),
{
    HashFunction::Murmur2a_64.call(data, options)
}

/// The `murmur2b_64` entry point; see `HashFunction::call`.
pub fn murmur2b_64(data: Option<&mut Slice<u8>>, options: Option<&CHashOptions>) -> (r: i32)
    ensures
        data is None ==> r == STATUS_MISSING_INPUT,
        data is Some ==> call_post(HashFunction::Murmur2b_64, *data->0, *final(data->0), options, r),
{
    HashFunction::Murmur2b_64.call(data, options)
}

/// The `murmur3_32` entry point; see `HashFunction::call`.
pub fn murmur3_32(data: Option<&mut Slice<u8>>, options: Option<&CHashOptions>) -> (r: i32)
    ensures
        data is None ==> r == STATUS_MISSING_INPUT,
        data is Some ==> call_post(HashFunction::Murmur3_32, *data->0, *final(data->0), options, r),
{
    HashFunction::Murmur3_32.call(data, options)
}

/// The `murmur3_x64_128` entry point; see `HashFunction::call`.
pub fn murmur3_x64_128(data: Option<&mut Slice<u8>>, options: Option<&CHashOptions>) -> (r: i32)
    ensures
        data is None ==> r == STATUS_MISSING_INPUT,
        data is Some ==> call_post(HashFunction::Murmur3_x64_128, *data->0, *final(data->0), options, r),
{
    HashFunction::Murmur3_x64_128.call(data, options)
}

/// The `murmur3_x86_128` entry point; see `HashFunction::call`.
pub fn murmur3_x86_128(data: Option<&mut Slice<u8>>, options: Option<&CHashOptions>) -> (r: i32)
    ensures
        data is None ==> r == STATUS_MISSING_INPUT,
        data is Some ==> call_post(HashFunction::Murmur3_x86_128, *data->0, *final(data->0), options, r),
{
    HashFunction::Murmur3_x86_128.call(data, options)
}

} // verus!
