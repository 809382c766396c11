//! The SHA provider: SHA-1, SHA-2 and SHA-3.

use vstd::prelude::*;
use crate::function::{HashFunction, flag_bits};
use crate::flags::HashFlags;
use crate::registry::{Entry, Record, Registry, apply_registrations};
use crate::buffer::Slice;
use crate::function::{STATUS_MISSING_INPUT, call_post};
use crate::options::CHashOptions;
use sha2::Digest;

verus! {

/// The SHA-1 digest of a byte sequence.
pub uninterp spec fn sha1_of(data: Seq<u8>) -> Seq<u8>;

/// The SHA-224 digest of a byte sequence.
pub uninterp spec fn sha2_224_of(data: Seq<u8>) -> Seq<u8>;

/// The SHA-256 digest of a byte sequence.
pub uninterp spec fn sha2_256_of(data: Seq<u8>) -> Seq<u8>;

/// The SHA-384 digest of a byte sequence.
pub uninterp spec fn sha2_384_of(data: Seq<u8>) -> Seq<u8>;

/// The SHA-512 digest of a byte sequence.
pub uninterp spec fn sha2_512_of(data: Seq<u8>) -> Seq<u8>;

/// The SHA3-224 digest of a byte sequence.
pub uninterp spec fn sha3_224_of(data: Seq<u8>) -> Seq<u8>;

/// The SHA3-256 digest of a byte sequence.
pub uninterp spec fn sha3_256_of(data: Seq<u8>) -> Seq<u8>;

/// The SHA3-384 digest of a byte sequence.
pub uninterp spec fn sha3_384_of(data: Seq<u8>) -> Seq<u8>;

/// The SHA3-512 digest of a byte sequence.
pub uninterp spec fn sha3_512_of(data: Seq<u8>) -> Seq<u8>;

/// Relies on sha1's `Sha1::digest`: the 20-byte digest of the input.
#[verifier::external_body]
pub(crate) fn sha1_digest(data: &[u8]) -> (r: Vec<u8>)
    ensures
        r@ == sha1_of(data@),
        r@.len() == 20,
{
    sha1::Sha1::digest(data).to_vec()
}

/// Relies on sha2's `Sha224::digest`: the 28-byte digest of the input.
#[verifier::external_body]
pub(crate) fn sha2_224_digest(data: &[u8]) -> (r: Vec<u8>)
    ensures
        r@ == sha2_224_of(data@),
        r@.len() == 28,
{
    sha2::Sha224::digest(data).to_vec()
}

/// Relies on sha2's `Sha256::digest`: the 32-byte digest of the input.
#[verifier::external_body]
pub(crate) fn sha2_256_digest(data: &[u8]) -> (r: Vec<u8>)
    ensures
        r@ == sha2_256_of(data@),
        r@.len() == 32,
{
    sha2::Sha256::digest(data).to_vec()
}

/// Relies on sha2's `Sha384::digest`: the 48-byte digest of the input.
#[verifier::external_body]
pub(crate) fn sha2_384_digest(data: &[u8]) -> (r: Vec<u8>)
    ensures
        r@ == sha2_384_of(data@),
        r@.len() == 48,
{
    sha2::Sha384::digest(data).to_vec()
}

/// Relies on sha2's `Sha512::digest`: the 64-byte digest of the input.
#[verifier::external_body]
pub(crate) fn sha2_512_digest(data: &[u8]) -> (r: Vec<u8>)
    ensures
        r@ == sha2_512_of(data@),
        r@.len() == 64,
{
    sha2::Sha512::digest(data).to_vec()
}

/// Relies on sha3's `Sha3_224::digest`: the 28-byte digest of the input.
#[verifier::external_body]
pub(crate) fn sha3_224_digest(data: &[u8]) -> (r: Vec<u8>)
    ensures
        r@ == sha3_224_of(data@),
        r@.len() == 28,
{
    sha3::Sha3_224::digest(data).to_vec()
}

/// Relies on sha3's `Sha3_256::digest`: the 32-byte digest of the input.
#[verifier::external_body]
pub(crate) fn sha3_256_digest(data: &[u8]) -> (r: Vec<u8>)
    ensures
        r@ == sha3_256_of(data@),
        r@.len() == 32,
{
    sha3::Sha3_256::digest(data).to_vec()
}

/// Relies on sha3's `Sha3_384::digest`: the 48-byte digest of the input.
#[verifier::external_body]
pub(crate) fn sha3_384_digest(data: &[u8]) -> (r: Vec<u8>)
    ensures
        r@ == sha3_384_of(data@),
        r@.len() == 48,
{
    sha3::Sha3_384::digest(data).to_vec()
}

/// Relies on sha3's `Sha3_512::digest`: the 64-byte digest of the input.
#[verifier::external_body]
pub(crate) fn sha3_512_digest(data: &[u8]) -> (r: Vec<u8>)
    ensures
        r@ == sha3_512_of(data@),
        r@.len() == 64,
{
    sha3::Sha3_512::digest(data).to_vec()
}

/// What this provider registers, in order: each name with its entry point's flags
/// and the entry point.
pub open spec fn registrations() -> Seq<(Seq<char>, Record)> {
    seq![
        ("SHA1"@, (HashFlags { bits: flag_bits(HashFunction::Sha1) }, HashFunction::Sha1)),
        ("SHA2-224"@, (HashFlags { bits: flag_bits(HashFunction::Sha2_224) }, HashFunction::Sha2_224)),
        ("SHA2-256"@, (HashFlags { bits: flag_bits(HashFunction::Sha2_256) }, HashFunction::Sha2_256)),
        ("SHA2-384"@, (HashFlags { bits: flag_bits(HashFunction::Sha2_384) }, HashFunction::Sha2_384)),
        ("SHA2-512"@, (HashFlags { bits: flag_bits(HashFunction::Sha2_512) }, HashFunction::Sha2_512)),
        ("SHA3-224"@, (HashFlags { bits: flag_bits(HashFunction::Sha3_224) }, HashFunction::Sha3_224)),
        ("SHA3-256"@, (HashFlags { bits: flag_bits(HashFunction::Sha3_256) }, HashFunction::Sha3_256)),
        ("SHA3-384"@, (HashFlags { bits: flag_bits(HashFunction::Sha3_384) }, HashFunction::Sha3_384)),
        ("SHA3-512"@, (HashFlags { bits: flag_bits(HashFunction::Sha3_512) }, HashFunction::Sha3_512)),
    ]
}

/// The registration handshake: announces each algorithm of this provider to the
/// registry, in order.
pub fn register_hashers(registry: &mut Registry)
    requires
        old(registry).wf(),
    ensures
        final(registry).wf(),
        final(registry)@ == apply_registrations(old(registry)@, registrations()),
{
    let regs = vec![
        Entry::new("SHA1", HashFunction::Sha1.flags(), HashFunction::Sha1),
        Entry::new("SHA2-224", HashFunction::Sha2_224.flags(), HashFunction::Sha2_224),
        Entry::new("SHA2-256", HashFunction::Sha2_256.flags(), HashFunction::Sha2_256),
        Entry::new("SHA2-384", HashFunction::Sha2_384.flags(), HashFunction::Sha2_384),
        Entry::new("SHA2-512", HashFunction::Sha2_512.flags(), HashFunction::Sha2_512),
        Entry::new("SHA3-224", HashFunction::Sha3_224.flags(), HashFunction::Sha3_224),
        Entry::new("SHA3-256", HashFunction::Sha3_256.flags(), HashFunction::Sha3_256),
        Entry::new("SHA3-384", HashFunction::Sha3_384.flags(), HashFunction::Sha3_384),
        Entry::new("SHA3-512", HashFunction::Sha3_512.flags(), HashFunction::Sha3_512),
    ];
    assert(regs@.map_values(|e: Entry| e@) =~= registrations());
    registry.register_all(&regs);
}

/// The `sha1` entry point; see `HashFunction::call`.
pub fn sha1(data: Option<&mut Slice<u8>>, options: Option<&CHashOptions>) -> (r: i32)
    ensures
        data is None ==> r == STATUS_MISSING_INPUT,
        data is Some ==> call_post(HashFunction::Sha1, *data->0, *final(data->0), options, r),
{
    HashFunction::Sha1.call(data, options)
}

} // verus!
