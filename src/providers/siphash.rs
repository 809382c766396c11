//! The SipHash provider: 64- and 128-bit SipHash, keyed.
//!
//! Like every digest, a 128-bit result is serialized big-endian. The number is the
//! one whose little-endian bytes siphasher's `Hash128::as_bytes` gives, so the digest
//! holds those bytes in reverse order, on every machine.

use vstd::prelude::*;
use crate::function::{HashFunction, flag_bits};
use crate::flags::HashFlags;
use crate::registry::{Entry, Record, Registry, apply_registrations};
use crate::buffer::Slice;
use crate::function::{STATUS_MISSING_INPUT, call_post};
use crate::options::CHashOptions;

verus! {

/// SipHash-1-3 with a 64-bit result, under a key pair.
pub uninterp spec fn sip13_of(data: Seq<u8>, key0: u64, key1: u64) -> u64;

/// SipHash-2-4 with a 64-bit result, under a key pair.
pub uninterp spec fn sip24_of(data: Seq<u8>, key0: u64, key1: u64) -> u64;

/// SipHash-1-3 with a 128-bit result, under a key pair, as the number whose
/// little-endian bytes siphasher's `Hash128::as_bytes` gives.
pub uninterp spec fn sip128_13_of(data: Seq<u8>, key0: u64, key1: u64) -> u128;

/// SipHash-2-4 with a 128-bit result, under a key pair, as the number whose
/// little-endian bytes siphasher's `Hash128::as_bytes` gives.
pub uninterp spec fn sip128_24_of(data: Seq<u8>, key0: u64, key1: u64) -> u128;

/// Relies on siphasher's `sip::SipHasher13::hash`.
#[verifier::external_body]
pub(crate) fn sip13_hash(data: &[u8], key0: u64, key1: u64) -> (r: u64)
    ensures
        r == sip13_of(data@, key0, key1),
{
    siphasher::sip::SipHasher13::new_with_keys(key0, key1).hash(data)
}

/// Relies on siphasher's `sip::SipHasher24::hash`.
#[verifier::external_body]
pub(crate) fn sip24_hash(data: &[u8], key0: u64, key1: u64) -> (r: u64)
    ensures
        r == sip24_of(data@, key0, key1),
{
    siphasher::sip::SipHasher24::new_with_keys(key0, key1).hash(data)
}

/// Relies on siphasher's `sip128::SipHasher13::hash` and `Hash128::as_bytes`, whose bytes do
/// not depend on the machine; they are read as a little-endian number.
#[verifier::external_body]
pub(crate) fn sip128_13_hash(data: &[u8], key0: u64, key1: u64) -> (r: u128)
    ensures
        r == sip128_13_of(data@, key0, key1),
{
    u128::from_le_bytes(siphasher::sip128::SipHasher13::new_with_keys(key0, key1).hash(data).as_bytes())
}

/// Relies on siphasher's `sip128::SipHasher24::hash` and `Hash128::as_bytes`, whose bytes do
/// not depend on the machine; they are read as a little-endian number.
#[verifier::external_body]
pub(crate) fn sip128_24_hash(data: &[u8], key0: u64, key1: u64) -> (r: u128)
    ensures
        r == sip128_24_of(data@, key0, key1),
{
    u128::from_le_bytes(siphasher::sip128::SipHasher24::new_with_keys(key0, key1).hash(data).as_bytes())
}

/// What this provider registers, in order: each name with its entry point's flags
/// and the entry point.
pub open spec fn registrations() -> Seq<(Seq<char>, Record)> {
    seq![
        ("SipHash32 1-3"@, (HashFlags { bits: flag_bits(HashFunction::Sip32_1_3) }, HashFunction::Sip32_1_3)),
        ("SipHash32 2-4"@, (HashFlags { bits: flag_bits(HashFunction::Sip32_2_4) }, HashFunction::Sip32_2_4)),
        ("SipHash128 1-3"@, (HashFlags { bits: flag_bits(HashFunction::Sip128_1_3) }, HashFunction::Sip128_1_3)),
        ("SipHash128 2-4"@, (HashFlags { bits: flag_bits(HashFunction::Sip128_2_4) }, HashFunction::Sip128_2_4)),
    ]
}

/// The registration handshake: announces each algorithm of this provider to the
/// registry, in order.
pub fn register_hashers(registry: &mut Registry)
    requires
        old(registry).wf(),
    ensures
        final(registry).wf(),
        final(registry)@ == apply_registrations(old(registry)@, registrations()),
{
    let regs = vec![
        Entry::new("SipHash32 1-3", HashFunction::Sip32_1_3.flags(), HashFunction::Sip32_1_3),
        Entry::new("SipHash32 2-4", HashFunction::Sip32_2_4.flags(), HashFunction::Sip32_2_4),
        Entry::new("SipHash128 1-3", HashFunction::Sip128_1_3.flags(), HashFunction::Sip128_1_3),
        Entry::new("SipHash128 2-4", HashFunction::Sip128_2_4.flags(), HashFunction::Sip128_2_4),
    ];
    assert(regs@.map_values(|e: Entry| e@) =~= registrations());
    registry.register_all(&regs);
}

/// The `sip32_1_3` entry point; see `HashFunction::call`.
pub fn sip32_1_3(data: Option<&mut Slice<u8>>, options: Option<&CHashOptions>) -> (r: i32)
    ensures
        data is None ==> r == STATUS_MISSING_INPUT,
        data is Some ==> call_post(HashFunction::Sip32_1_3, *data->0, *final(data->0), options, r),
{
    HashFunction::Sip32_1_3.call(data, options)
}

/// The `sip32_2_4` entry point; see `HashFunction::call`.
pub fn sip32_2_4(data: Option<&mut Slice<u8>>, options: Option<&CHashOptions>) -> (r: i32)
    ensures
        data is None ==> r == STATUS_MISSING_INPUT,
        data is Some ==> call_post(HashFunction::Sip32_2_4, *data->0, *final(data->0), options, r),
{
    HashFunction::Sip32_2_4.call(data, options)
}

/// The `sip128_1_3` entry point; see `HashFunction::call`.
pub fn sip128_1_3(data: Option<&mut Slice<u8>>, options: Option<&CHashOptions>) -> (r: i32)
    ensures
        data is None ==> r == STATUS_MISSING_INPUT,
        data is Some ==> call_post(HashFunction::Sip128_1_3, *data->0, *final(data->0), options, r),
{
    HashFunction::Sip128_1_3.call(data, options)
}

/// The `sip128_2_4` entry point; see `HashFunction::call`.
pub fn sip128_2_4(data: Option<&mut Slice<u8>>, options: Option<&CHashOptions>) -> (r: i32)
    ensures
        data is None ==> r == STATUS_MISSING_INPUT,
        data is Some ==> call_post(HashFunction::Sip128_2_4, *data->0, *final(data->0), options, r),
{
    HashFunction::Sip128_2_4.call(data, options)
}

} // verus!
