//! The MD provider: MD2, MD4 and MD5.

use vstd::prelude::*;
use crate::function::{HashFunction, flag_bits};
use crate::flags::HashFlags;
use crate::registry::{Entry, Record, Registry, apply_registrations};
use md2::Digest;

verus! {

/// The MD2 digest of a byte sequence.
pub uninterp spec fn md2_of(data: Seq<u8>) -> Seq<u8>;

/// The MD4 digest of a byte sequence.
pub uninterp spec fn md4_of(data: Seq<u8>) -> Seq<u8>;

/// The MD5 digest of a byte sequence.
pub uninterp spec fn md5_of(data: Seq<u8>) -> Seq<u8>;

/// Relies on md2's `Md2::digest`: the 16-byte digest of the input.
#[verifier::external_body]
pub(crate) fn md2_digest(data: &[u8]) -> (r: Vec<u8>)
    ensures
        r@ == md2_of(data@),
        r@.len() == 16,
{
    md2::Md2::digest(data).to_vec()
}

/// Relies on md4's `Md4::digest`: the 16-byte digest of the input.
#[verifier::external_body]
pub(crate) fn md4_digest(data: &[u8]) -> (r: Vec<u8>)
    ensures
        r@ == md4_of(data@),
        r@.len() == 16,
{
    md4::Md4::digest(data).to_vec()
}

/// Relies on md5's `compute`: the 16-byte digest of the input.
#[verifier::external_body]
pub(crate) fn md5_digest(data: &[u8]) -> (r: Vec<u8>)
    ensures
        r@ == md5_of(data@),
        r@.len() == 16,
{
    md5::compute(data).0.to_vec()
}

/// What this provider registers, in order: each name with its entry point's flags
/// and the entry point.
pub open spec fn registrations() -> Seq<(Seq<char>, Record)> {
    seq![
        ("MD2"@, (HashFlags { bits: flag_bits(HashFunction::Md2) }, HashFunction::Md2)),
        ("MD4"@, (HashFlags { bits: flag_bits(HashFunction::Md4) }, HashFunction::Md4)),
        ("MD5"@, (HashFlags { bits: flag_bits(HashFunction::Md5) }, HashFunction::Md5)),
    ]
}

/// The registration handshake: announces each algorithm of this provider to the
/// registry, in order.
pub fn register_hashers(registry: &mut Registry)
    requires
        old(registry).wf(),
    ensures
        final(registry).wf(),
        final(registry)@ == apply_registrations(old(registry)@, registrations()),
{
    let regs = vec![
        Entry::new("MD2", HashFunction::Md2.flags(), HashFunction::Md2),
        Entry::new("MD4", HashFunction::Md4.flags(), HashFunction::Md4),
        Entry::new("MD5", HashFunction::Md5.flags(), HashFunction::Md5),
    ];
    assert(regs@.map_values(|e: Entry| e@) =~= registrations());
    registry.register_all(&regs);
}

} // verus!
