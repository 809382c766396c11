//! Algorithm entry points and the calling contract they all obey.

use vstd::prelude::*;
use crate::buffer::Slice;
use crate::bytes::{be_bytes, be_bytes_u32, be_bytes_u64, be_bytes_u128};
use crate::flags::{HashFlags, KEYED_BIT, SECRET_BIT, SEEDED_BIT};
use crate::options::{
    CHashOptions, OptionsData, keys_of, read_keys, read_secret, read_seed, secret_of, seed_of,
};
use crate::providers::fnv::{FnvKind, FnvWidth, fnv_digest, fnv_digest_of, width_bytes};
use crate::providers::md::{md2_digest, md2_of, md4_digest, md4_of, md5_digest, md5_of};
use crate::providers::murmur::{
    murmur2_hash, murmur2_of, murmur2a_hash, murmur2a_of, murmur3_32_hash, murmur3_32_of,
    murmur3_x64_128_hash, murmur3_x64_128_of, murmur3_x86_128_hash, murmur3_x86_128_of,
    murmur64a_hash, murmur64a_of, murmur64b_hash, murmur64b_of, MURMUR3_32_MAX_LEN,
};
use crate::providers::sha::{
    sha1_digest, sha1_of, sha2_224_digest, sha2_224_of, sha2_256_digest, sha2_256_of,
    sha2_384_digest, sha2_384_of, sha2_512_digest, sha2_512_of, sha3_224_digest, sha3_224_of,
    sha3_256_digest, sha3_256_of, sha3_384_digest, sha3_384_of, sha3_512_digest, sha3_512_of,
};
use crate::providers::siphash::{
    sip128_13_hash, sip128_13_of, sip128_24_hash, sip128_24_of, sip13_hash, sip13_of, sip24_hash,
    sip24_of,
};
use crate::providers::xxhash::{
    SECRET_SIZE_MIN, xxh32_hash, xxh32_of, xxh3_128_hash, xxh3_128_of, xxh3_128_secret_hash,
    xxh3_128_secret_of, xxh3_128_seeded_hash, xxh3_128_seeded_of, xxh3_64_hash, xxh3_64_of,
    xxh3_64_secret_hash, xxh3_64_secret_of, xxh3_64_seeded_hash, xxh3_64_seeded_of,
    xxh64_hash, xxh64_of,
};

verus! {

/// The call succeeded: the handle now owns the digest.
pub const STATUS_OK: i32 = 0;

/// The pointer to the buffer handle was null.
pub const STATUS_MISSING_INPUT: i32 = -1;

/// The buffer handle failed the validity gate, or the options were unusable.
pub const STATUS_MALFORMED_INPUT: i32 = -2;

/// The underlying computation reported a failure.
pub const STATUS_COMPUTATION_FAILED: i32 = -3;

/// An algorithm entry point. Every one obeys the same calling contract (see `call`).
#[allow(non_camel_case_types)]
#[derive(Clone, Copy, Debug, PartialEq, Eq, Structural)]
pub enum HashFunction {
    Fnv(FnvKind, FnvWidth),
    Md2,
    Md4,
    Md5,
    Murmur2_32,
    Murmur2a_32,
    Murmur2a_64,
    Murmur2b_64,
    Murmur3_32,
    Murmur3_x64_128,
    Murmur3_x86_128,
    Sha1,
    Sha2_224,
    Sha2_256,
    Sha2_384,
    Sha2_512,
    Sha3_224,
    Sha3_256,
    Sha3_384,
    Sha3_512,
    Sip32_1_3,
    Sip32_2_4,
    Sip128_1_3,
    Sip128_2_4,
    Xxh32,
    Xxh64,
    Xxh3_64,
    Xxh3_64_seeded,
    Xxh3_64_with_secret,
    Xxh3_128,
    Xxh3_128_seeded,
    Xxh3_128_with_secret,
}

/// The capability bits of an entry point: which auxiliary input it reads.
pub open spec fn flag_bits(f: HashFunction) -> u16 {
    match f {
        HashFunction::Murmur2_32 | HashFunction::Murmur2a_32 | HashFunction::Murmur2a_64
        | HashFunction::Murmur2b_64 | HashFunction::Murmur3_32 | HashFunction::Murmur3_x64_128
        | HashFunction::Murmur3_x86_128 | HashFunction::Xxh32 | HashFunction::Xxh64
        | HashFunction::Xxh3_64_seeded | HashFunction::Xxh3_128_seeded => SEEDED_BIT,
        HashFunction::Sip32_1_3 | HashFunction::Sip32_2_4 | HashFunction::Sip128_1_3
        | HashFunction::Sip128_2_4 => KEYED_BIT,
        HashFunction::Xxh3_64_with_secret | HashFunction::Xxh3_128_with_secret => SECRET_BIT,
        _ => 0,
    }
}

/// Whether the options let the entry point compute: a secret, where one is given, must
/// be long enough.
pub open spec fn accepts_options(f: HashFunction, options: Option<&CHashOptions>) -> bool {
    match f {
        HashFunction::Xxh3_64_with_secret | HashFunction::Xxh3_128_with_secret => match secret_of(
            options,
        ) {
            Some(secret) => secret.len() >= SECRET_SIZE_MIN,
            None => true,
        },
        _ => true,
    }
}

/// The length in bytes of an entry point's digest.
pub open spec fn digest_len(f: HashFunction) -> nat {
    match f {
        HashFunction::Fnv(_, width) => width_bytes(width),
        HashFunction::Md2 | HashFunction::Md4 | HashFunction::Md5 => 16,
        HashFunction::Murmur2_32 | HashFunction::Murmur2a_32 | HashFunction::Murmur3_32
        | HashFunction::Xxh32 => 4,
        HashFunction::Murmur2a_64 | HashFunction::Murmur2b_64 | HashFunction::Sip32_1_3
        | HashFunction::Sip32_2_4 | HashFunction::Xxh64 | HashFunction::Xxh3_64
        | HashFunction::Xxh3_64_seeded | HashFunction::Xxh3_64_with_secret => 8,
        HashFunction::Murmur3_x64_128 | HashFunction::Murmur3_x86_128 | HashFunction::Sip128_1_3
        | HashFunction::Sip128_2_4 | HashFunction::Xxh3_128 | HashFunction::Xxh3_128_seeded
        | HashFunction::Xxh3_128_with_secret => 16,
        HashFunction::Sha1 => 20,
        HashFunction::Sha2_224 | HashFunction::Sha3_224 => 28,
        HashFunction::Sha2_256 | HashFunction::Sha3_256 => 32,
        HashFunction::Sha2_384 | HashFunction::Sha3_384 => 48,
        HashFunction::Sha2_512 | HashFunction::Sha3_512 => 64,
    }
}

/// What an entry point computes over its input: the digest in bytes, or `None` where
/// the underlying computation fails.
pub open spec fn digest_of(f: HashFunction, input: Seq<u8>, options: Option<&CHashOptions>) -> Option<
    Seq<u8>,
> {
    let seed = seed_of(options);
    let (k0, k1) = keys_of(options);
    match f {
        HashFunction::Fnv(kind, width) => Some(fnv_digest(kind, width, input)),
        HashFunction::Md2 => Some(md2_of(input)),
        HashFunction::Md4 => Some(md4_of(input)),
        HashFunction::Md5 => Some(md5_of(input)),
        HashFunction::Murmur2_32 => Some(be_bytes(murmur2_of(input, seed as u32) as nat, 4)),
        HashFunction::Murmur2a_32 => Some(be_bytes(murmur2a_of(input, seed as u32) as nat, 4)),
        HashFunction::Murmur2a_64 => Some(be_bytes(murmur64a_of(input, seed) as nat, 8)),
        HashFunction::Murmur2b_64 => Some(be_bytes(murmur64b_of(input, seed) as nat, 8)),
        HashFunction::Murmur3_32 => if input.len() <= MURMUR3_32_MAX_LEN {
            Some(be_bytes(murmur3_32_of(input, seed as u32) as nat, 4))
        } else {
            None
        },
        HashFunction::Murmur3_x64_128 => Some(
            be_bytes(murmur3_x64_128_of(input, seed as u32) as nat, 16),
        ),
        HashFunction::Murmur3_x86_128 => Some(
            be_bytes(murmur3_x86_128_of(input, seed as u32) as nat, 16),
        ),
        HashFunction::Sha1 => Some(sha1_of(input)),
        HashFunction::Sha2_224 => Some(sha2_224_of(input)),
        HashFunction::Sha2_256 => Some(sha2_256_of(input)),
        HashFunction::Sha2_384 => Some(sha2_384_of(input)),
        HashFunction::Sha2_512 => Some(sha2_512_of(input)),
        HashFunction::Sha3_224 => Some(sha3_224_of(input)),
        HashFunction::Sha3_256 => Some(sha3_256_of(input)),
        HashFunction::Sha3_384 => Some(sha3_384_of(input)),
        HashFunction::Sha3_512 => Some(sha3_512_of(input)),
        HashFunction::Sip32_1_3 => Some(be_bytes(sip13_of(input, k0, k1) as nat, 8)),
        HashFunction::Sip32_2_4 => Some(be_bytes(sip24_of(input, k0, k1) as nat, 8)),
        HashFunction::Sip128_1_3 => Some(be_bytes(sip128_13_of(input, k0, k1) as nat, 16)),
        HashFunction::Sip128_2_4 => Some(be_bytes(sip128_24_of(input, k0, k1) as nat, 16)),
        HashFunction::Xxh32 => Some(be_bytes(xxh32_of(input, seed as u32) as nat, 4)),
        HashFunction::Xxh64 => Some(be_bytes(xxh64_of(input, seed) as nat, 8)),
        HashFunction::Xxh3_64 => Some(be_bytes(xxh3_64_of(input) as nat, 8)),
        HashFunction::Xxh3_64_seeded => if seed == 0 {
            Some(be_bytes(xxh3_64_of(input) as nat, 8))
        } else {
            Some(be_bytes(xxh3_64_seeded_of(input, seed) as nat, 8))
        },
        HashFunction::Xxh3_64_with_secret => match secret_of(options) {
            Some(secret) => Some(be_bytes(xxh3_64_secret_of(input, secret) as nat, 8)),
            None => Some(be_bytes(xxh3_64_of(input) as nat, 8)),
        },
        HashFunction::Xxh3_128 => Some(be_bytes(xxh3_128_of(input) as nat, 16)),
        HashFunction::Xxh3_128_seeded => if seed == 0 {
            Some(be_bytes(xxh3_128_of(input) as nat, 16))
        } else {
            Some(be_bytes(xxh3_128_seeded_of(input, seed) as nat, 16))
        },
        HashFunction::Xxh3_128_with_secret => match secret_of(options) {
            Some(secret) => Some(be_bytes(xxh3_128_secret_of(input, secret) as nat, 16)),
            None => Some(be_bytes(xxh3_128_of(input) as nat, 16)),
        },
    }
}

/// The calling contract, relating the handle before and after a call whose handle
/// pointer was not null, and the status returned.
///
/// A handle that fails the validity gate, or options that the entry point cannot
/// use, give `STATUS_MALFORMED_INPUT` and leave the handle as it was. Otherwise the
/// input is consumed and the handle is overwritten: with the digest and
/// `STATUS_OK`, or with an empty valid buffer and `STATUS_COMPUTATION_FAILED`.
pub open spec fn call_post(
    f: HashFunction,
    before: Slice<u8>,
    after: Slice<u8>,
    options: Option<&CHashOptions>,
    status: i32,
) -> bool {
    if !before.is_valid() || !accepts_options(f, options) {
        status == STATUS_MALFORMED_INPUT && after == before
    } else {
        match digest_of(f, before.contents(), options) {
            Some(d) => status == STATUS_OK && after.is_valid() && after.contents() == d
                && d.len() == digest_len(f),
            None => status == STATUS_COMPUTATION_FAILED && after.is_valid() && after.contents()
                =~= Seq::<u8>::empty(),
        }
    }
}

impl HashFunction {
    /// The capability flags the entry point is registered with.
    pub fn flags(&self) -> (r: HashFlags)
        ensures
            r.bits == flag_bits(*self),
    {
        match self {
            HashFunction::Murmur2_32 | HashFunction::Murmur2a_32 | HashFunction::Murmur2a_64
            | HashFunction::Murmur2b_64 | HashFunction::Murmur3_32
            | HashFunction::Murmur3_x64_128 | HashFunction::Murmur3_x86_128
            | HashFunction::Xxh32 | HashFunction::Xxh64 | HashFunction::Xxh3_64_seeded
            | HashFunction::Xxh3_128_seeded => HashFlags::seeded(),
            HashFunction::Sip32_1_3 | HashFunction::Sip32_2_4 | HashFunction::Sip128_1_3
            | HashFunction::Sip128_2_4 => HashFlags::keyed(),
            HashFunction::Xxh3_64_with_secret | HashFunction::Xxh3_128_with_secret => {
                HashFlags::secret()
            },
            _ => HashFlags::empty(),
        }
    }

    /// Whether the options let the entry point compute: a secret given to an entry
    /// point that takes one must be at least `SECRET_SIZE_MIN` bytes long.
    pub fn accepts(&self, options: Option<&CHashOptions>) -> (r: bool)
        ensures
            r == accepts_options(*self, options),
    {
        match self {
            HashFunction::Xxh3_64_with_secret | HashFunction::Xxh3_128_with_secret => {
                match read_secret(options) {
                    Some(s) => s.len() >= SECRET_SIZE_MIN,
                    None => true,
                }
            },
            _ => true,
        }
    }

    /// Computes the digest of `input`, reading from the options what the entry point's
    /// flags call for.
    pub fn digest(&self, input: &[u8], options: Option<&CHashOptions>) -> (r: Option<Vec<u8>>)
        requires
            accepts_options(*self, options),
        ensures
            r is Some <==> digest_of(*self, input@, options) is Some,
            r is Some ==> r->0@ == digest_of(*self, input@, options)->0,
            r is Some ==> r->0@.len() == digest_len(*self),
    {
        let seed = read_seed(options);
        let (k0, k1) = read_keys(options);
        match self {
            HashFunction::Fnv(kind, width) => {
                Some(fnv_digest_of(*kind, *width, input))
            },
            HashFunction::Md2 => Some(md2_digest(input)),
            HashFunction::Md4 => Some(md4_digest(input)),
            HashFunction::Md5 => Some(md5_digest(input)),
            HashFunction::Murmur2_32 => Some(be_bytes_u32(murmur2_hash(input, seed as u32))),
            HashFunction::Murmur2a_32 => Some(be_bytes_u32(murmur2a_hash(input, seed as u32))),
            HashFunction::Murmur2a_64 => Some(be_bytes_u64(murmur64a_hash(input, seed))),
            HashFunction::Murmur2b_64 => Some(be_bytes_u64(murmur64b_hash(input, seed))),
            HashFunction::Murmur3_32 => {
                if input.len() as u64 > MURMUR3_32_MAX_LEN {
                    None
                } else {
                    match murmur3_32_hash(input, seed as u32) {
                        Some(h) => Some(be_bytes_u32(h)),
                        None => None,
                    }
                }
            },
            HashFunction::Murmur3_x64_128 => match murmur3_x64_128_hash(input, seed as u32) {
                Some(h) => Some(be_bytes_u128(h)),
                None => None,
            },
            HashFunction::Murmur3_x86_128 => match murmur3_x86_128_hash(input, seed as u32) {
                Some(h) => Some(be_bytes_u128(h)),
                None => None,
            },
            HashFunction::Sha1 => Some(sha1_digest(input)),
            HashFunction::Sha2_224 => Some(sha2_224_digest(input)),
            HashFunction::Sha2_256 => Some(sha2_256_digest(input)),
            HashFunction::Sha2_384 => Some(sha2_384_digest(input)),
            HashFunction::Sha2_512 => Some(sha2_512_digest(input)),
            HashFunction::Sha3_224 => Some(sha3_224_digest(input)),
            HashFunction::Sha3_256 => Some(sha3_256_digest(input)),
            HashFunction::Sha3_384 => Some(sha3_384_digest(input)),
            HashFunction::Sha3_512 => Some(sha3_512_digest(input)),
            HashFunction::Sip32_1_3 => Some(be_bytes_u64(sip13_hash(input, k0, k1))),
            HashFunction::Sip32_2_4 => Some(be_bytes_u64(sip24_hash(input, k0, k1))),
            HashFunction::Sip128_1_3 => Some(be_bytes_u128(sip128_13_hash(input, k0, k1))),
            HashFunction::Sip128_2_4 => Some(be_bytes_u128(sip128_24_hash(input, k0, k1))),
            HashFunction::Xxh32 => Some(be_bytes_u32(xxh32_hash(input, seed as u32))),
            HashFunction::Xxh64 => Some(be_bytes_u64(xxh64_hash(input, seed))),
            HashFunction::Xxh3_64 => Some(be_bytes_u64(xxh3_64_hash(input))),
            HashFunction::Xxh3_64_seeded => Some(be_bytes_u64(xxh3_64_seeded_hash(input, seed))),
            HashFunction::Xxh3_64_with_secret => match read_secret(options) {
                Some(s) => Some(be_bytes_u64(xxh3_64_secret_hash(input, s.as_slice()))),
                None => Some(be_bytes_u64(xxh3_64_hash(input))),
            },
            HashFunction::Xxh3_128 => Some(be_bytes_u128(xxh3_128_hash(input))),
            HashFunction::Xxh3_128_seeded => Some(be_bytes_u128(xxh3_128_seeded_hash(input, seed))),
            HashFunction::Xxh3_128_with_secret => match read_secret(options) {
                Some(s) => Some(be_bytes_u128(xxh3_128_secret_hash(input, s.as_slice()))),
                None => Some(be_bytes_u128(xxh3_128_hash(input))),
            },
        }
    }

    /// Calls the entry point on the handle that `data` points at (`None` stands for a
    /// null pointer), with the options borrowed for the call.
    pub fn call(&self, data: Option<&mut Slice<u8>>, options: Option<&CHashOptions>) -> (r: i32)
        ensures
            data is None ==> r == STATUS_MISSING_INPUT,
            data is Some ==> call_post(*self, *data->0, *final(data->0), options, r),
            data is Some && data->0.ptr is None ==> r == STATUS_MALFORMED_INPUT,
    {
        match data {
            None => STATUS_MISSING_INPUT,
            Some(handle) => {
                if !handle.is_valid_handle() || !self.accepts(options) {
                    return STATUS_MALFORMED_INPUT;
                }
                let taken = handle.take();
                let input = match taken.into_boxed_slice() {
                    Some(b) => b.into_vec(),
                    None => Vec::new(),
                };
                match self.digest(input.as_slice(), options) {
                    Some(out) => {
                        *handle = Slice::from_vec(out);
                        STATUS_OK
                    },
                    None => {
                        *handle = Slice::from_vec(Vec::new());
                        STATUS_COMPUTATION_FAILED
                    },
                }
            },
        }
    }
}

/// Calling one entry point twice on equal inputs, with the same options, gives the
/// same status both times, and on success byte-identical digests.
pub proof fn lemma_call_deterministic(
    f: HashFunction,
    first_before: Slice<u8>,
    first_after: Slice<u8>,
    first_status: i32,
    second_before: Slice<u8>,
    second_after: Slice<u8>,
    second_status: i32,
    options: Option<&CHashOptions>,
)
    requires
        first_before.is_valid(),
        second_before.is_valid(),
        first_before.contents() == second_before.contents(),
        call_post(f, first_before, first_after, options, first_status),
        call_post(f, second_before, second_after, options, second_status),
    ensures
        first_status == second_status,
        first_status == STATUS_OK ==> first_after.contents() == second_after.contents(),
{
}

/// A null options descriptor and a descriptor whose inner pointer is null both mean
/// "no auxiliary input": every entry point computes the same from either.
pub proof fn lemma_null_options_agree(f: HashFunction, input: Seq<u8>, options: CHashOptions)
    requires
        options.data is None,
    ensures
        accepts_options(f, None) == accepts_options(f, Some(&options)),
        digest_of(f, input, None) == digest_of(f, input, Some(&options)),
{
}

/// A keyed entry point given a descriptor whose inner pointer is null does not fail:
/// it computes with the default key pair `(0, 0)`.
pub proof fn lemma_keyed_default(
    f: HashFunction,
    input: Seq<u8>,
    options: CHashOptions,
    zero_keys: CHashOptions,
)
    requires
        flag_bits(f) == KEYED_BIT,
        options.data is None,
        zero_keys.data == Some(OptionsData::Keys(0, 0)),
    ensures
        accepts_options(f, Some(&options)),
        digest_of(f, input, Some(&options)) is Some,
        digest_of(f, input, Some(&options)) == digest_of(f, input, Some(&zero_keys)),
{
}

} // verus!
