//! Digests computed in-process, rendered as hexadecimal text.

pub mod fnv;
pub mod murmur;
pub mod sha;
pub mod xxhash;

use vstd::prelude::*;
use std::hash::DefaultHasher;
use std::hash::Hasher;
use vstd::std_specs::hash::DefaultHasherAdditionalSpecFns;
use whirlpool::Digest;
use crate::bytes::{be_bytes, be_bytes_u64};
use crate::providers::fnv::{FnvKind, FnvWidth, fnv_digest};
use crate::providers::md::{md5_digest, md5_of};
use crate::providers::murmur::{murmur2_of, murmur2a_of, murmur64a_of, murmur64b_of};
use crate::providers::sha::{
    sha1_of, sha2_224_of, sha2_256_of, sha2_384_of, sha2_512_of, sha3_224_of, sha3_256_of,
    sha3_384_of, sha3_512_of,
};
use crate::providers::xxhash::{xxh32_of, xxh3_128_of, xxh3_64_of, xxh64_of};
use crate::result::{HashResult, hex_decoded, hex_number, hex_upper, is_hex_text};

verus! {

/// Options for the in-process digests; none of them reads any.
#[derive(Clone, Debug, Default)]
pub struct HashOptions {}

/// The algorithms computed in-process.
#[allow(non_camel_case_types)]
#[derive(Clone, Copy, Debug, PartialEq, Eq, Structural)]
pub enum HashingAlgorithm {
    Fnv0_32,
    Fnv1_32,
    Fnv1a_32,
    Fnv0_64,
    Fnv1_64,
    Fnv1a_64,
    Fnv0_128,
    Fnv1_128,
    Fnv1a_128,
    Fnv0_256,
    Fnv1_256,
    Fnv1a_256,
    Fnv0_512,
    Fnv1_512,
    Fnv1a_512,
    Fnv0_1024,
    Fnv1_1024,
    Fnv1a_1024,
    Md5,
    Murmur2_32,
    Murmur2a_32,
    Murmur2a_64,
    Murmur2b_64,
    SipHash,
    Sha1,
    Sha2_224,
    Sha2_256,
    Sha2_384,
    Sha2_512,
    Sha3_224,
    Sha3_256,
    Sha3_384,
    Sha3_512,
    XxHash32,
    XxHash64,
    XxHash3_64,
    XxHash3_128,
    Whirlpool,
}

/// The Whirlpool digest of a byte sequence.
pub uninterp spec fn whirlpool_of(data: Seq<u8>) -> Seq<u8>;

/// Relies on whirlpool's `Whirlpool::digest`: the 64-byte digest of the input.
#[verifier::external_body]
fn whirlpool_digest(data: &[u8]) -> (r: Vec<u8>)
    ensures
        r@ == whirlpool_of(data@),
        r@.len() == 64,
{
    whirlpool::Whirlpool::digest(data).to_vec()
}

/// SipHash through std's `DefaultHasher`, which every `DefaultHasher::new` builds
/// alike; the number in hexadecimal.
fn default_hash(data: &[u8]) -> (r: HashResult)
    ensures
        r.0@ == hex_number(be_bytes(DefaultHasher::spec_finish(seq![data@]) as nat, 8)),
        2 <= r.0@.len() <= 16,
{
    let mut hasher = DefaultHasher::new();
    hasher.write(data);
    let h = hasher.finish();
    assert(hasher@ =~= seq![data@]);
    let b = be_bytes_u64(h);
    HashResult::from_number(b.as_slice())
}

/// The longest text an algorithm renders: two digits per byte of its result.
pub open spec fn text_len(algorithm: HashingAlgorithm) -> nat {
    match algorithm {
        HashingAlgorithm::Fnv0_32 | HashingAlgorithm::Fnv1_32 | HashingAlgorithm::Fnv1a_32
        | HashingAlgorithm::Murmur2_32 | HashingAlgorithm::Murmur2a_32
        | HashingAlgorithm::XxHash32 => 8,
        HashingAlgorithm::Fnv0_64 | HashingAlgorithm::Fnv1_64 | HashingAlgorithm::Fnv1a_64
        | HashingAlgorithm::Murmur2a_64 | HashingAlgorithm::Murmur2b_64
        | HashingAlgorithm::SipHash | HashingAlgorithm::XxHash64
        | HashingAlgorithm::XxHash3_64 => 16,
        HashingAlgorithm::Fnv0_128 | HashingAlgorithm::Fnv1_128 | HashingAlgorithm::Fnv1a_128
        | HashingAlgorithm::XxHash3_128 | HashingAlgorithm::Md5 => 32,
        HashingAlgorithm::Fnv0_256 | HashingAlgorithm::Fnv1_256 | HashingAlgorithm::Fnv1a_256 => 64,
        HashingAlgorithm::Fnv0_512 | HashingAlgorithm::Fnv1_512 | HashingAlgorithm::Fnv1a_512 => 128,
        HashingAlgorithm::Fnv0_1024 | HashingAlgorithm::Fnv1_1024
        | HashingAlgorithm::Fnv1a_1024 => 256,
        HashingAlgorithm::Sha1 => 40,
        HashingAlgorithm::Sha2_224 | HashingAlgorithm::Sha3_224 => 56,
        HashingAlgorithm::Sha2_256 | HashingAlgorithm::Sha3_256 => 64,
        HashingAlgorithm::Sha2_384 | HashingAlgorithm::Sha3_384 => 96,
        HashingAlgorithm::Sha2_512 | HashingAlgorithm::Sha3_512
        | HashingAlgorithm::Whirlpool => 128,
    }
}

/// Whether an algorithm renders its result byte by byte, so that its text always has
/// the full length; the others render a number without leading zeros.
pub open spec fn renders_bytes(algorithm: HashingAlgorithm) -> bool {
    match algorithm {
        HashingAlgorithm::Md5 | HashingAlgorithm::Sha1 | HashingAlgorithm::Sha2_224
        | HashingAlgorithm::Sha2_256 | HashingAlgorithm::Sha2_384 | HashingAlgorithm::Sha2_512
        | HashingAlgorithm::Sha3_224 | HashingAlgorithm::Sha3_256 | HashingAlgorithm::Sha3_384
        | HashingAlgorithm::Sha3_512 | HashingAlgorithm::Whirlpool => true,
        _ => false,
    }
}

/// The text that an algorithm renders for `data`.
pub open spec fn rendered(algorithm: HashingAlgorithm, data: Seq<u8>) -> Seq<char> {
    match algorithm {
        HashingAlgorithm::Fnv0_32 => hex_number(fnv_digest(FnvKind::Fnv0, FnvWidth::W32, data)),
        HashingAlgorithm::Fnv1_32 => hex_number(fnv_digest(FnvKind::Fnv1, FnvWidth::W32, data)),
        HashingAlgorithm::Fnv1a_32 => hex_number(fnv_digest(FnvKind::Fnv1a, FnvWidth::W32, data)),
        HashingAlgorithm::Fnv0_64 => hex_number(fnv_digest(FnvKind::Fnv0, FnvWidth::W64, data)),
        HashingAlgorithm::Fnv1_64 => hex_number(fnv_digest(FnvKind::Fnv1, FnvWidth::W64, data)),
        HashingAlgorithm::Fnv1a_64 => hex_number(fnv_digest(FnvKind::Fnv1a, FnvWidth::W64, data)),
        HashingAlgorithm::Fnv0_128 => hex_number(fnv_digest(FnvKind::Fnv0, FnvWidth::W128, data)),
        HashingAlgorithm::Fnv1_128 => hex_number(fnv_digest(FnvKind::Fnv1, FnvWidth::W128, data)),
        HashingAlgorithm::Fnv1a_128 => hex_number(fnv_digest(FnvKind::Fnv1a, FnvWidth::W128, data)),
        HashingAlgorithm::Fnv0_256 => hex_number(fnv_digest(FnvKind::Fnv0, FnvWidth::W256, data)),
        HashingAlgorithm::Fnv1_256 => hex_number(fnv_digest(FnvKind::Fnv1, FnvWidth::W256, data)),
        HashingAlgorithm::Fnv1a_256 => hex_number(fnv_digest(FnvKind::Fnv1a, FnvWidth::W256, data)),
        HashingAlgorithm::Fnv0_512 => hex_number(fnv_digest(FnvKind::Fnv0, FnvWidth::W512, data)),
        HashingAlgorithm::Fnv1_512 => hex_number(fnv_digest(FnvKind::Fnv1, FnvWidth::W512, data)),
        HashingAlgorithm::Fnv1a_512 => hex_number(fnv_digest(FnvKind::Fnv1a, FnvWidth::W512, data)),
        HashingAlgorithm::Fnv0_1024 => hex_number(fnv_digest(FnvKind::Fnv0, FnvWidth::W1024, data)),
        HashingAlgorithm::Fnv1_1024 => hex_number(fnv_digest(FnvKind::Fnv1, FnvWidth::W1024, data)),
        HashingAlgorithm::Fnv1a_1024 => hex_number(fnv_digest(FnvKind::Fnv1a, FnvWidth::W1024, data)),
        HashingAlgorithm::Md5 => hex_upper(md5_of(data)),
        HashingAlgorithm::Murmur2_32 => hex_number(be_bytes(murmur2_of(data, 0) as nat, 4)),
        HashingAlgorithm::Murmur2a_32 => hex_number(be_bytes(murmur2a_of(data, 0) as nat, 4)),
        HashingAlgorithm::Murmur2a_64 => hex_number(be_bytes(murmur64a_of(data, 0) as nat, 8)),
        HashingAlgorithm::Murmur2b_64 => hex_number(be_bytes(murmur64b_of(data, 0) as nat, 8)),
        HashingAlgorithm::SipHash => hex_number(be_bytes(DefaultHasher::spec_finish(seq![data]) as nat, 8)),
        HashingAlgorithm::Sha1 => hex_upper(sha1_of(data)),
        HashingAlgorithm::Sha2_224 => hex_upper(sha2_224_of(data)),
        HashingAlgorithm::Sha2_256 => hex_upper(sha2_256_of(data)),
        HashingAlgorithm::Sha2_384 => hex_upper(sha2_384_of(data)),
        HashingAlgorithm::Sha2_512 => hex_upper(sha2_512_of(data)),
        HashingAlgorithm::Sha3_224 => hex_upper(sha3_224_of(data)),
        HashingAlgorithm::Sha3_256 => hex_upper(sha3_256_of(data)),
        HashingAlgorithm::Sha3_384 => hex_upper(sha3_384_of(data)),
        HashingAlgorithm::Sha3_512 => hex_upper(sha3_512_of(data)),
        HashingAlgorithm::XxHash32 => hex_number(be_bytes(xxh32_of(data, 0) as nat, 4)),
        HashingAlgorithm::XxHash64 => hex_number(be_bytes(xxh64_of(data, 0) as nat, 8)),
        HashingAlgorithm::XxHash3_64 => hex_number(be_bytes(xxh3_64_of(data) as nat, 8)),
        HashingAlgorithm::XxHash3_128 => hex_number(be_bytes(xxh3_128_of(data) as nat, 16)),
        HashingAlgorithm::Whirlpool => hex_upper(whirlpool_of(data)),
    }
}

impl HashingAlgorithm {
    /// Computes the algorithm over `data` and renders the result as text.
    pub fn hasher(&self, data: &[u8]) -> (r: HashResult)
        ensures
            r.0@ == rendered(*self, data@),
            2 <= r.0@.len() <= text_len(*self),
            renders_bytes(*self) ==> r.0@.len() == text_len(*self),
    {
        match self {
            HashingAlgorithm::Fnv0_32 => fnv::fnv0_32(data),
            HashingAlgorithm::Fnv1_32 => fnv::fnv1_32(data),
            HashingAlgorithm::Fnv1a_32 => fnv::fnv1a_32(data),
            HashingAlgorithm::Fnv0_64 => fnv::fnv0_64(data),
            HashingAlgorithm::Fnv1_64 => fnv::fnv1_64(data),
            HashingAlgorithm::Fnv1a_64 => fnv::fnv1a_64(data),
            HashingAlgorithm::Fnv0_128 => fnv::fnv0_128(data),
            HashingAlgorithm::Fnv1_128 => fnv::fnv1_128(data),
            HashingAlgorithm::Fnv1a_128 => fnv::fnv1a_128(data),
            HashingAlgorithm::Fnv0_256 => fnv::fnv0_256(data),
            HashingAlgorithm::Fnv1_256 => fnv::fnv1_256(data),
            HashingAlgorithm::Fnv1a_256 => fnv::fnv1a_256(data),
            HashingAlgorithm::Fnv0_512 => fnv::fnv0_512(data),
            HashingAlgorithm::Fnv1_512 => fnv::fnv1_512(data),
            HashingAlgorithm::Fnv1a_512 => fnv::fnv1a_512(data),
            HashingAlgorithm::Fnv0_1024 => fnv::fnv0_1024(data),
            HashingAlgorithm::Fnv1_1024 => fnv::fnv1_1024(data),
            HashingAlgorithm::Fnv1a_1024 => fnv::fnv1a_1024(data),
            HashingAlgorithm::Md5 => HashResult::from_bytes(md5_digest(data).as_slice()),
            HashingAlgorithm::Murmur2_32 => murmur::murmur2_32(data),
            HashingAlgorithm::Murmur2a_32 => murmur::murmur2a_32(data),
            HashingAlgorithm::Murmur2a_64 => murmur::murmur2a_64(data),
            HashingAlgorithm::Murmur2b_64 => murmur::murmur2b_64(data),
            HashingAlgorithm::SipHash => default_hash(data),
            HashingAlgorithm::Sha1 => sha::sha1(data),
            HashingAlgorithm::Sha2_224 => sha::sha2_224(data),
            HashingAlgorithm::Sha2_256 => sha::sha2_256(data),
            HashingAlgorithm::Sha2_384 => sha::sha2_384(data),
            HashingAlgorithm::Sha2_512 => sha::sha2_512(data),
            HashingAlgorithm::Sha3_224 => sha::sha3_224(data),
            HashingAlgorithm::Sha3_256 => sha::sha3_256(data),
            HashingAlgorithm::Sha3_384 => sha::sha3_384(data),
            HashingAlgorithm::Sha3_512 => sha::sha3_512(data),
            HashingAlgorithm::XxHash32 => xxhash::xxh32(data),
            HashingAlgorithm::XxHash64 => xxhash::xxh64(data),
            HashingAlgorithm::XxHash3_64 => xxhash::xxh3_64(data),
            HashingAlgorithm::XxHash3_128 => xxhash::xxh3_128(data),
            HashingAlgorithm::Whirlpool => HashResult::from_bytes(whirlpool_digest(data).as_slice()),
        }
    }
}

/// The same digest with its bytes in the opposite order.
pub fn flip_endian(hash: HashResult) -> (r: HashResult)
    requires
        is_hex_text(hash.0@),
    ensures
        r.0@ == hex_upper(hex_decoded(hash.0@).reverse()),
{
    hash.flip_endian()
}

} // verus!
