//! The FNV provider: FNV-0, FNV-1 and FNV-1a over words of 32 to 1024 bits.

use vstd::prelude::*;
use crate::function::{HashFunction, flag_bits};
use crate::flags::HashFlags;
use crate::registry::{Entry, Record, Registry, apply_registrations};
use vstd::arithmetic::div_mod::{lemma_fundamental_div_mod, lemma_fundamental_div_mod_converse};
use vstd::arithmetic::power2::pow2;
use crate::bytes::{be_bytes, lemma_be_bytes_len, be_bytes_u32, be_bytes_u64, be_bytes_u128};
use ruint::Uint;

verus! {

/// The three FNV variants.
#[derive(Clone, Copy, Debug, PartialEq, Eq, Structural)]
pub enum FnvKind {
    /// Starts from zero; multiplies, then mixes the byte in.
    Fnv0,
    /// Starts from the offset basis; multiplies, then mixes the byte in.
    Fnv1,
    /// Starts from the offset basis; mixes the byte in, then multiplies.
    Fnv1a,
}

/// The word widths in which FNV is computed.
#[derive(Clone, Copy, Debug, PartialEq, Eq, Structural)]
pub enum FnvWidth {
    W32,
    W64,
    W128,
    W256,
    W512,
    W1024,
}

/// The value of little-endian 64-bit limbs.
pub open spec fn limbs_value(s: Seq<u64>) -> nat
    decreases s.len(),
{
    if s.len() == 0 {
        0
    } else {
        (s[0] + 0x1_0000_0000_0000_0000 * limbs_value(s.drop_first())) as nat
    }
}

pub open spec fn prime_256_limbs() -> Seq<u64> {
    seq![0x0000000000000163u64, 0x0000000000000000, 0x0000010000000000, 0x0000000000000000]
}

pub open spec fn offset_256_limbs() -> Seq<u64> {
    seq![0x1023b4c8caee0535u64, 0xc8b1536847b6bbb3, 0x2d98c384c4e576cc, 0xdd268dbcaac55036]
}

pub open spec fn prime_512_limbs() -> Seq<u64> {
    seq![
        0x0000000000000157u64, 0, 0, 0, 0, 0x0000000001000000, 0, 0,
    ]
}

pub open spec fn offset_512_limbs() -> Seq<u64> {
    seq![
        0xac982aac4afe9fd9u64, 0x182036415f56e34b, 0x2ea79bc942dbe7ce, 0xe948f68a34c192f6,
        0x0000000000000d21, 0xac87d059c9000000, 0xdca1e50f309990ac, 0xb86db0b1171f4416,
    ]
}

pub open spec fn prime_1024_limbs() -> Seq<u64> {
    seq![
        0x000000000000018du64, 0, 0, 0, 0, 0, 0, 0,
        0, 0, 0x0000010000000000, 0, 0, 0, 0, 0,
    ]
}

pub open spec fn offset_1024_limbs() -> Seq<u64> {
    seq![
        0xaff4b16c71ee90b3u64, 0x6bde8cc9c6a93b21, 0x555f256cc005ae55, 0xeb6e73802734510a,
        0x000000000004c6d7, 0, 0, 0,
        0, 0, 0x9a21d90000000000, 0x6c3bf34eda3674da,
        0x4b29fc4223fdada1, 0x32e56d5a591028b7, 0x005f7a76758ecc4d, 0,
    ]
}

pub open spec fn width_bytes(w: FnvWidth) -> nat {
    match w {
        FnvWidth::W32 => 4,
        FnvWidth::W64 => 8,
        FnvWidth::W128 => 16,
        FnvWidth::W256 => 32,
        FnvWidth::W512 => 64,
        FnvWidth::W1024 => 128,
    }
}

/// Arithmetic is modulo two to the width.
pub open spec fn modulus(w: FnvWidth) -> nat {
    match w {
        FnvWidth::W32 => 0x1_0000_0000,
        FnvWidth::W64 => 0x1_0000_0000_0000_0000,
        FnvWidth::W128 => 0x1_0000_0000_0000_0000 * 0x1_0000_0000_0000_0000,
        FnvWidth::W256 => pow2(256),
        FnvWidth::W512 => pow2(512),
        FnvWidth::W1024 => pow2(1024),
    }
}

/// The FNV prime of a width.
pub open spec fn prime(w: FnvWidth) -> nat {
    match w {
        FnvWidth::W32 => 0x01000193,
        FnvWidth::W64 => 0x00000100000001b3,
        FnvWidth::W128 => 0x0000000001000000000000000000013b,
        FnvWidth::W256 => limbs_value(prime_256_limbs()),
        FnvWidth::W512 => limbs_value(prime_512_limbs()),
        FnvWidth::W1024 => limbs_value(prime_1024_limbs()),
    }
}

/// The FNV offset basis of a width.
pub open spec fn offset_basis(w: FnvWidth) -> nat {
    match w {
        FnvWidth::W32 => 0x811c9dc5,
        FnvWidth::W64 => 0xcbf29ce484222325,
        FnvWidth::W128 => 0x6c62272e07bb014262b821756295c58d,
        FnvWidth::W256 => limbs_value(offset_256_limbs()),
        FnvWidth::W512 => limbs_value(offset_512_limbs()),
        FnvWidth::W1024 => limbs_value(offset_1024_limbs()),
    }
}

pub open spec fn start(kind: FnvKind, w: FnvWidth) -> nat {
    match kind {
        FnvKind::Fnv0 => 0,
        _ => offset_basis(w),
    }
}

/// `h` with its low byte exclusive-ored with `b`.
pub open spec fn xor_byte(h: nat, b: u8) -> nat {
    (h / 256) * 256 + (((h % 256) as u8) ^ b) as nat
}

/// One FNV round over one byte.
pub open spec fn fnv_step(kind: FnvKind, w: FnvWidth, h: nat, b: u8) -> nat {
    match kind {
        FnvKind::Fnv1a => (xor_byte(h, b) * prime(w)) % modulus(w),
        _ => xor_byte((h * prime(w)) % modulus(w), b),
    }
}

/// The FNV hash of `data`, as a number below the modulus.
pub open spec fn fnv_hash(kind: FnvKind, w: FnvWidth, data: Seq<u8>) -> nat
    decreases data.len(),
{
    if data.len() == 0 {
        start(kind, w)
    } else {
        fnv_step(kind, w, fnv_hash(kind, w, data.drop_last()), data.last())
    }
}

/// The digest: the hash in big-endian bytes, as wide as the word.
pub open spec fn fnv_digest(kind: FnvKind, w: FnvWidth, data: Seq<u8>) -> Seq<u8> {
    be_bytes(fnv_hash(kind, w, data), width_bytes(w))
}

proof fn lemma_xor_u32(h: u32, b: u8)
    ensures
        (h ^ (b as u32)) as nat == xor_byte(h as nat, b),
{
    assert(h ^ (b as u32) == (h / 256) * 256 + (((h % 256) as u8) ^ b) as u32) by (bit_vector);
}

proof fn lemma_xor_u64(h: u64, b: u8)
    ensures
        (h ^ (b as u64)) as nat == xor_byte(h as nat, b),
{
    assert(h ^ (b as u64) == (h / 256) * 256 + (((h % 256) as u8) ^ b) as u64) by (bit_vector);
}

proof fn lemma_xor_u128(h: u128, b: u8)
    ensures
        (h ^ (b as u128)) as nat == xor_byte(h as nat, b),
{
    assert(h ^ (b as u128) == (h / 256) * 256 + (((h % 256) as u8) ^ b) as u128) by (bit_vector);
}

/// Mixing a byte into the lowest limb mixes it into the value's low byte.
proof fn lemma_xor_limbs(s: Seq<u64>, b: u8)
    requires
        s.len() > 0,
    ensures
        limbs_value(s.update(0, s[0] ^ (b as u64))) == xor_byte(limbs_value(s), b),
{
    let s0 = s[0];
    let t = s.update(0, s0 ^ (b as u64));
    assert(t.drop_first() =~= s.drop_first());
    let rest = limbs_value(s.drop_first());
    let v = limbs_value(s);
    lemma_xor_u64(s0, b);
    lemma_fundamental_div_mod(s0 as int, 256);
    let q = s0 as int / 256 + 0x1_0000_0000_0000_00 * rest;
    assert(v == q * 256 + s0 as int % 256) by (nonlinear_arith)
        requires
            v == s0 + 0x1_0000_0000_0000_0000 * rest,
            s0 as int == 256 * (s0 as int / 256) + s0 as int % 256,
            q == s0 as int / 256 + 0x1_0000_0000_0000_00 * rest,
    ;
    lemma_fundamental_div_mod_converse(v as int, 256, q, s0 as int % 256);
    assert(xor_byte(v, b) == (s0 as int / 256) * 256 + (((s0 % 256) as u8) ^ b) as nat
        + 0x1_0000_0000_0000_0000 * rest) by (nonlinear_arith)
        requires
            v as int / 256 == q,
            v as int % 256 == s0 as int % 256,
            q == s0 as int / 256 + 0x1_0000_0000_0000_00 * rest,
    ;
}

/// One FNV round over 32-bit words.
fn step_32(kind: FnvKind, h: u32, b: u8) -> (r: u32)
    ensures
        r as nat == fnv_step(kind, FnvWidth::W32, h as nat, b),
{
    let prime: u32 = 0x01000193;
    match kind {
        FnvKind::Fnv1a => {
            proof { lemma_xor_u32(h, b); }
            let x = h ^ (b as u32);
            x.wrapping_mul(prime)
        },
        _ => {
            let m = h.wrapping_mul(prime);
            proof { lemma_xor_u32(m, b); }
            m ^ (b as u32)
        },
    }
}

/// FNV over 32-bit words.
pub fn fnv_32(kind: FnvKind, data: &[u8]) -> (r: u32)
    ensures
        r as nat == fnv_hash(kind, FnvWidth::W32, data@),
{
    let mut h: u32 = match kind {
        FnvKind::Fnv0 => 0,
        _ => 0x811c9dc5,
    };
    let mut i: usize = 0;
    while i < data.len()
        invariant
            i <= data@.len(),
            h as nat == fnv_hash(kind, FnvWidth::W32, data@.subrange(0, i as int)),
        decreases data@.len() - i,
    {
        let b = data[i];
        assert(data@.subrange(0, i + 1).drop_last() =~= data@.subrange(0, i as int));
        assert(data@.subrange(0, i + 1).last() == b);
        h = step_32(kind, h, b);
        i = i + 1;
    }
    assert(data@.subrange(0, i as int) =~= data@);
    h
}

/// One FNV round over 64-bit words.
fn step_64(kind: FnvKind, h: u64, b: u8) -> (r: u64)
    ensures
        r as nat == fnv_step(kind, FnvWidth::W64, h as nat, b),
{
    let prime: u64 = 0x00000100000001b3;
    match kind {
        FnvKind::Fnv1a => {
            proof { lemma_xor_u64(h, b); }
            let x = h ^ (b as u64);
            x.wrapping_mul(prime)
        },
        _ => {
            let m = h.wrapping_mul(prime);
            proof { lemma_xor_u64(m, b); }
            m ^ (b as u64)
        },
    }
}

/// FNV over 64-bit words.
pub fn fnv_64(kind: FnvKind, data: &[u8]) -> (r: u64)
    ensures
        r as nat == fnv_hash(kind, FnvWidth::W64, data@),
{
    let mut h: u64 = match kind {
        FnvKind::Fnv0 => 0,
        _ => 0xcbf29ce484222325,
    };
    let mut i: usize = 0;
    while i < data.len()
        invariant
            i <= data@.len(),
            h as nat == fnv_hash(kind, FnvWidth::W64, data@.subrange(0, i as int)),
        decreases data@.len() - i,
    {
        let b = data[i];
        assert(data@.subrange(0, i + 1).drop_last() =~= data@.subrange(0, i as int));
        assert(data@.subrange(0, i + 1).last() == b);
        h = step_64(kind, h, b);
        i = i + 1;
    }
    assert(data@.subrange(0, i as int) =~= data@);
    h
}

/// One FNV round over 128-bit words.
fn step_128(kind: FnvKind, h: u128, b: u8) -> (r: u128)
    ensures
        r as nat == fnv_step(kind, FnvWidth::W128, h as nat, b),
{
    let prime: u128 = 0x0000000001000000000000000000013b;
    match kind {
        FnvKind::Fnv1a => {
            proof { lemma_xor_u128(h, b); }
            let x = h ^ (b as u128);
            x.wrapping_mul(prime)
        },
        _ => {
            let m = h.wrapping_mul(prime);
            proof { lemma_xor_u128(m, b); }
            m ^ (b as u128)
        },
    }
}

/// FNV over 128-bit words.
pub fn fnv_128(kind: FnvKind, data: &[u8]) -> (r: u128)
    ensures
        r as nat == fnv_hash(kind, FnvWidth::W128, data@),
{
    let mut h: u128 = match kind {
        FnvKind::Fnv0 => 0,
        _ => 0x6c62272e07bb014262b821756295c58d,
    };
    let mut i: usize = 0;
    while i < data.len()
        invariant
            i <= data@.len(),
            h as nat == fnv_hash(kind, FnvWidth::W128, data@.subrange(0, i as int)),
        decreases data@.len() - i,
    {
        let b = data[i];
        assert(data@.subrange(0, i + 1).drop_last() =~= data@.subrange(0, i as int));
        assert(data@.subrange(0, i + 1).last() == b);
        h = step_128(kind, h, b);
        i = i + 1;
    }
    assert(data@.subrange(0, i as int) =~= data@);
    h
}

/// Relies on ruint's `Uint::<256, 4>::wrapping_mul`: the product modulo 2^256, as
/// little-endian limbs.
#[verifier::external_body]
fn wrapping_mul_256(a: &Vec<u64>, b: &Vec<u64>) -> (r: Vec<u64>)
    requires
        a@.len() == 4,
        b@.len() == 4,
    ensures
        r@.len() == 4,
        limbs_value(r@) == (limbs_value(a@) * limbs_value(b@)) % pow2(256),
{
    let x = Uint::<256, 4>::from_limbs_slice(a);
    let y = Uint::<256, 4>::from_limbs_slice(b);
    x.wrapping_mul(y).into_limbs().to_vec()
}

/// Relies on ruint's `Uint::<256, 4>::to_be_bytes_vec`: the value in 32 big-endian
/// bytes.
#[verifier::external_body]
fn to_be_bytes_256(a: &Vec<u64>) -> (r: Vec<u8>)
    requires
        a@.len() == 4,
    ensures
        r@ == be_bytes(limbs_value(a@), 32),
{
    Uint::<256, 4>::from_limbs_slice(a).to_be_bytes_vec()
}

/// Relies on ruint's `Uint::<512, 8>::wrapping_mul`: the product modulo 2^512, as
/// little-endian limbs.
#[verifier::external_body]
fn wrapping_mul_512(a: &Vec<u64>, b: &Vec<u64>) -> (r: Vec<u64>)
    requires
        a@.len() == 8,
        b@.len() == 8,
    ensures
        r@.len() == 8,
        limbs_value(r@) == (limbs_value(a@) * limbs_value(b@)) % pow2(512),
{
    let x = Uint::<512, 8>::from_limbs_slice(a);
    let y = Uint::<512, 8>::from_limbs_slice(b);
    x.wrapping_mul(y).into_limbs().to_vec()
}

/// Relies on ruint's `Uint::<512, 8>::to_be_bytes_vec`: the value in 64 big-endian
/// bytes.
#[verifier::external_body]
fn to_be_bytes_512(a: &Vec<u64>) -> (r: Vec<u8>)
    requires
        a@.len() == 8,
    ensures
        r@ == be_bytes(limbs_value(a@), 64),
{
    Uint::<512, 8>::from_limbs_slice(a).to_be_bytes_vec()
}

/// Relies on ruint's `Uint::<1024, 16>::wrapping_mul`: the product modulo 2^1024, as
/// little-endian limbs.
#[verifier::external_body]
fn wrapping_mul_1024(a: &Vec<u64>, b: &Vec<u64>) -> (r: Vec<u64>)
    requires
        a@.len() == 16,
        b@.len() == 16,
    ensures
        r@.len() == 16,
        limbs_value(r@) == (limbs_value(a@) * limbs_value(b@)) % pow2(1024),
{
    let x = Uint::<1024, 16>::from_limbs_slice(a);
    let y = Uint::<1024, 16>::from_limbs_slice(b);
    x.wrapping_mul(y).into_limbs().to_vec()
}

/// Relies on ruint's `Uint::<1024, 16>::to_be_bytes_vec`: the value in 128 big-endian
/// bytes.
#[verifier::external_body]
fn to_be_bytes_1024(a: &Vec<u64>) -> (r: Vec<u8>)
    requires
        a@.len() == 16,
    ensures
        r@ == be_bytes(limbs_value(a@), 128),
{
    Uint::<1024, 16>::from_limbs_slice(a).to_be_bytes_vec()
}

/// The number of 64-bit limbs of a wide word.
pub open spec fn limb_count(w: FnvWidth) -> nat {
    match w {
        FnvWidth::W256 => 4,
        FnvWidth::W512 => 8,
        FnvWidth::W1024 => 16,
        _ => 0,
    }
}

pub open spec fn is_wide(w: FnvWidth) -> bool {
    limb_count(w) > 0
}

proof fn lemma_zero_limbs(s: Seq<u64>)
    requires
        forall|i: int| 0 <= i < s.len() ==> s[i] == 0,
    ensures
        limbs_value(s) == 0,
    decreases s.len(),
{
    if s.len() > 0 {
        lemma_zero_limbs(s.drop_first());
    }
}

fn wrapping_mul_wide(w: FnvWidth, a: &Vec<u64>, b: &Vec<u64>) -> (r: Vec<u64>)
    requires
        is_wide(w),
        a@.len() == limb_count(w),
        b@.len() == limb_count(w),
    ensures
        r@.len() == limb_count(w),
        limbs_value(r@) == (limbs_value(a@) * limbs_value(b@)) % modulus(w),
{
    match w {
        FnvWidth::W256 => wrapping_mul_256(a, b),
        FnvWidth::W512 => wrapping_mul_512(a, b),
        _ => wrapping_mul_1024(a, b),
    }
}

fn prime_limbs(w: FnvWidth) -> (r: Vec<u64>)
    requires
        is_wide(w),
    ensures
        r@.len() == limb_count(w),
        limbs_value(r@) == prime(w),
{
    match w {
        FnvWidth::W256 => {
            let v = vec![0x0000000000000163u64, 0x0000000000000000, 0x0000010000000000, 0x0000000000000000];
            assert(v@ =~= prime_256_limbs());
            v
        },
        FnvWidth::W512 => {
            let v = vec![0x0000000000000157u64, 0, 0, 0, 0, 0x0000000001000000, 0, 0];
            assert(v@ =~= prime_512_limbs());
            v
        },
        _ => {
            let v = vec![
                0x000000000000018du64, 0, 0, 0, 0, 0, 0, 0,
                0, 0, 0x0000010000000000, 0, 0, 0, 0, 0,
            ];
            assert(v@ =~= prime_1024_limbs());
            v
        },
    }
}

fn start_limbs(kind: FnvKind, w: FnvWidth) -> (r: Vec<u64>)
    requires
        is_wide(w),
    ensures
        r@.len() == limb_count(w),
        limbs_value(r@) == start(kind, w),
{
    match kind {
        FnvKind::Fnv0 => {
            let n: usize = match w {
                FnvWidth::W256 => 4,
                FnvWidth::W512 => 8,
                _ => 16,
            };
            let v = vec![0u64; n];
            proof { lemma_zero_limbs(v@); }
            v
        },
        _ => match w {
            FnvWidth::W256 => {
                let v = vec![0x1023b4c8caee0535u64, 0xc8b1536847b6bbb3, 0x2d98c384c4e576cc, 0xdd268dbcaac55036];
                assert(v@ =~= offset_256_limbs());
                v
            },
            FnvWidth::W512 => {
                let v = vec![
                    0xac982aac4afe9fd9u64, 0x182036415f56e34b, 0x2ea79bc942dbe7ce, 0xe948f68a34c192f6,
                    0x0000000000000d21, 0xac87d059c9000000, 0xdca1e50f309990ac, 0xb86db0b1171f4416,
                ];
                assert(v@ =~= offset_512_limbs());
                v
            },
            _ => {
                let v = vec![
                    0xaff4b16c71ee90b3u64, 0x6bde8cc9c6a93b21, 0x555f256cc005ae55, 0xeb6e73802734510a,
                    0x000000000004c6d7, 0, 0, 0,
                    0, 0, 0x9a21d90000000000, 0x6c3bf34eda3674da,
                    0x4b29fc4223fdada1, 0x32e56d5a591028b7, 0x005f7a76758ecc4d, 0,
                ];
                assert(v@ =~= offset_1024_limbs());
                v
            },
        },
    }
}

/// Mixes a byte into the lowest limb.
fn xor_low_limb(h: &mut Vec<u64>, b: u8)
    requires
        old(h)@.len() > 0,
    ensures
        final(h)@.len() == old(h)@.len(),
        limbs_value(final(h)@) == xor_byte(limbs_value(old(h)@), b),
{
    proof { lemma_xor_limbs(h@, b); }
    let low = h[0];
    h.set(0, low ^ (b as u64));
}

/// FNV over 256-, 512- or 1024-bit words, in big-endian bytes.
fn fnv_wide(kind: FnvKind, w: FnvWidth, data: &[u8]) -> (r: Vec<u8>)
    requires
        is_wide(w),
    ensures
        r@ == fnv_digest(kind, w, data@),
{
    let p = prime_limbs(w);
    let mut h = start_limbs(kind, w);
    let mut i: usize = 0;
    while i < data.len()
        invariant
            is_wide(w),
            i <= data@.len(),
            p@.len() == limb_count(w),
            limbs_value(p@) == prime(w),
            h@.len() == limb_count(w),
            limbs_value(h@) == fnv_hash(kind, w, data@.subrange(0, i as int)),
        decreases data@.len() - i,
    {
        let b = data[i];
        assert(data@.subrange(0, i + 1).drop_last() =~= data@.subrange(0, i as int));
        assert(data@.subrange(0, i + 1).last() == b);
        match kind {
            FnvKind::Fnv1a => {
                xor_low_limb(&mut h, b);
                h = wrapping_mul_wide(w, &h, &p);
            },
            _ => {
                h = wrapping_mul_wide(w, &h, &p);
                xor_low_limb(&mut h, b);
            },
        }
        i = i + 1;
    }
    assert(data@.subrange(0, i as int) =~= data@);
    match w {
        FnvWidth::W256 => to_be_bytes_256(&h),
        FnvWidth::W512 => to_be_bytes_512(&h),
        _ => to_be_bytes_1024(&h),
    }
}

/// The FNV digest of `data` in the given variant and width: the hash in big-endian
/// bytes.
pub fn fnv_digest_of(kind: FnvKind, w: FnvWidth, data: &[u8]) -> (r: Vec<u8>)
    ensures
        r@ == fnv_digest(kind, w, data@),
        r@.len() == width_bytes(w),
{
    proof { lemma_be_bytes_len(fnv_hash(kind, w, data@), width_bytes(w)); }
    match w {
        FnvWidth::W32 => be_bytes_u32(fnv_32(kind, data)),
        FnvWidth::W64 => be_bytes_u64(fnv_64(kind, data)),
        FnvWidth::W128 => be_bytes_u128(fnv_128(kind, data)),
        _ => fnv_wide(kind, w, data),
    }
}

/// What this provider registers, in order: each name with its entry point's flags
/// and the entry point.
pub open spec fn registrations() -> Seq<(Seq<char>, Record)> {
    seq![
        ("FNV-0_32"@, (HashFlags { bits: flag_bits(HashFunction::Fnv(FnvKind::Fnv0, FnvWidth::W32)) }, HashFunction::Fnv(FnvKind::Fnv0, FnvWidth::W32))),
        ("FNV-0_64"@, (HashFlags { bits: flag_bits(HashFunction::Fnv(FnvKind::Fnv0, FnvWidth::W64)) }, HashFunction::Fnv(FnvKind::Fnv0, FnvWidth::W64))),
        ("FNV-0_128"@, (HashFlags { bits: flag_bits(HashFunction::Fnv(FnvKind::Fnv0, FnvWidth::W128)) }, HashFunction::Fnv(FnvKind::Fnv0, FnvWidth::W128))),
        ("FNV-0_256"@, (HashFlags { bits: flag_bits(HashFunction::Fnv(FnvKind::Fnv0, FnvWidth::W256)) }, HashFunction::Fnv(FnvKind::Fnv0, FnvWidth::W256))),
        ("FNV-0_512"@, (HashFlags { bits: flag_bits(HashFunction::Fnv(FnvKind::Fnv0, FnvWidth::W512)) }, HashFunction::Fnv(FnvKind::Fnv0, FnvWidth::W512))),
        ("FNV-0_1024"@, (HashFlags { bits: flag_bits(HashFunction::Fnv(FnvKind::Fnv0, FnvWidth::W1024)) }, HashFunction::Fnv(FnvKind::Fnv0, FnvWidth::W1024))),
        ("FNV-1_32"@, (HashFlags { bits: flag_bits(HashFunction::Fnv(FnvKind::Fnv1, FnvWidth::W32)) }, HashFunction::Fnv(FnvKind::Fnv1, FnvWidth::W32))),
        ("FNV-1_64"@, (HashFlags { bits: flag_bits(HashFunction::Fnv(FnvKind::Fnv1, FnvWidth::W64)) }, HashFunction::Fnv(FnvKind::Fnv1, FnvWidth::W64))),
        ("FNV-1_128"@, (HashFlags { bits: flag_bits(HashFunction::Fnv(FnvKind::Fnv1, FnvWidth::W128)) }, HashFunction::Fnv(FnvKind::Fnv1, FnvWidth::W128))),
        ("FNV-1_256"@, (HashFlags { bits: flag_bits(HashFunction::Fnv(FnvKind::Fnv1, FnvWidth::W256)) }, HashFunction::Fnv(FnvKind::Fnv1, FnvWidth::W256))),
        ("FNV-1_512"@, (HashFlags { bits: flag_bits(HashFunction::Fnv(FnvKind::Fnv1, FnvWidth::W512)) }, HashFunction::Fnv(FnvKind::Fnv1, FnvWidth::W512))),
        ("FNV-1_1024"@, (HashFlags { bits: flag_bits(HashFunction::Fnv(FnvKind::Fnv1, FnvWidth::W1024)) }, HashFunction::Fnv(FnvKind::Fnv1, FnvWidth::W1024))),
        ("FNV-1a_32"@, (HashFlags { bits: flag_bits(HashFunction::Fnv(FnvKind::Fnv1a, FnvWidth::W32)) }, HashFunction::Fnv(FnvKind::Fnv1a, FnvWidth::W32))),
        ("FNV-1a_64"@, (HashFlags { bits: flag_bits(HashFunction::Fnv(FnvKind::Fnv1a, FnvWidth::W64)) }, HashFunction::Fnv(FnvKind::Fnv1a, FnvWidth::W64))),
        ("FNV-1a_128"@, (HashFlags { bits: flag_bits(HashFunction::Fnv(FnvKind::Fnv1a, FnvWidth::W128)) }, HashFunction::Fnv(FnvKind::Fnv1a, FnvWidth::W128))),
        ("FNV-1a_256"@, (HashFlags { bits: flag_bits(HashFunction::Fnv(FnvKind::Fnv1a, FnvWidth::W256)) }, HashFunction::Fnv(FnvKind::Fnv1a, FnvWidth::W256))),
        ("FNV-1a_512"@, (HashFlags { bits: flag_bits(HashFunction::Fnv(FnvKind::Fnv1a, FnvWidth::W512)) }, HashFunction::Fnv(FnvKind::Fnv1a, FnvWidth::W512))),
        ("FNV-1a_1024"@, (HashFlags { bits: flag_bits(HashFunction::Fnv(FnvKind::Fnv1a, FnvWidth::W1024)) }, HashFunction::Fnv(FnvKind::Fnv1a, FnvWidth::W1024))),
    ]
}

/// The registration handshake: announces each algorithm of this provider to the
/// registry, in order.
pub fn register_hashers(registry: &mut Registry)
    requires
        old(registry).wf(),
    ensures
        final(registry).wf(),
        final(registry)@ == apply_registrations(old(registry)@, registrations()),
{
    let regs = vec![
        Entry::new("FNV-0_32", HashFunction::Fnv(FnvKind::Fnv0, FnvWidth::W32).flags(), HashFunction::Fnv(FnvKind::Fnv0, FnvWidth::W32)),
        Entry::new("FNV-0_64", HashFunction::Fnv(FnvKind::Fnv0, FnvWidth::W64).flags(), HashFunction::Fnv(FnvKind::Fnv0, FnvWidth::W64)),
        Entry::new("FNV-0_128", HashFunction::Fnv(FnvKind::Fnv0, FnvWidth::W128).flags(), HashFunction::Fnv(FnvKind::Fnv0, FnvWidth::W128)),
        Entry::new("FNV-0_256", HashFunction::Fnv(FnvKind::Fnv0, FnvWidth::W256).flags(), HashFunction::Fnv(FnvKind::Fnv0, FnvWidth::W256)),
        Entry::new("FNV-0_512", HashFunction::Fnv(FnvKind::Fnv0, FnvWidth::W512).flags(), HashFunction::Fnv(FnvKind::Fnv0, FnvWidth::W512)),
        Entry::new("FNV-0_1024", HashFunction::Fnv(FnvKind::Fnv0, FnvWidth::W1024).flags(), HashFunction::Fnv(FnvKind::Fnv0, FnvWidth::W1024)),
        Entry::new("FNV-1_32", HashFunction::Fnv(FnvKind::Fnv1, FnvWidth::W32).flags(), HashFunction::Fnv(FnvKind::Fnv1, FnvWidth::W32)),
        Entry::new("FNV-1_64", HashFunction::Fnv(FnvKind::Fnv1, FnvWidth::W64).flags(), HashFunction::Fnv(FnvKind::Fnv1, FnvWidth::W64)),
        Entry::new("FNV-1_128", HashFunction::Fnv(FnvKind::Fnv1, FnvWidth::W128).flags(), HashFunction::Fnv(FnvKind::Fnv1, FnvWidth::W128)),
        Entry::new("FNV-1_256", HashFunction::Fnv(FnvKind::Fnv1, FnvWidth::W256).flags(), HashFunction::Fnv(FnvKind::Fnv1, FnvWidth::W256)),
        Entry::new("FNV-1_512", HashFunction::Fnv(FnvKind::Fnv1, FnvWidth::W512).flags(), HashFunction::Fnv(FnvKind::Fnv1, FnvWidth::W512)),
        Entry::new("FNV-1_1024", HashFunction::Fnv(FnvKind::Fnv1, FnvWidth::W1024).flags(), HashFunction::Fnv(FnvKind::Fnv1, FnvWidth::W1024)),
        Entry::new("FNV-1a_32", HashFunction::Fnv(FnvKind::Fnv1a, FnvWidth::W32).flags(), HashFunction::Fnv(FnvKind::Fnv1a, FnvWidth::W32)),
        Entry::new("FNV-1a_64", HashFunction::Fnv(FnvKind::Fnv1a, FnvWidth::W64).flags(), HashFunction::Fnv(FnvKind::Fnv1a, FnvWidth::W64)),
        Entry::new("FNV-1a_128", HashFunction::Fnv(FnvKind::Fnv1a, FnvWidth::W128).flags(), HashFunction::Fnv(FnvKind::Fnv1a, FnvWidth::W128)),
        Entry::new("FNV-1a_256", HashFunction::Fnv(FnvKind::Fnv1a, FnvWidth::W256).flags(), HashFunction::Fnv(FnvKind::Fnv1a, FnvWidth::W256)),
        Entry::new("FNV-1a_512", HashFunction::Fnv(FnvKind::Fnv1a, FnvWidth::W512).flags(), HashFunction::Fnv(FnvKind::Fnv1a, FnvWidth::W512)),
        Entry::new("FNV-1a_1024", HashFunction::Fnv(FnvKind::Fnv1a, FnvWidth::W1024).flags(), HashFunction::Fnv(FnvKind::Fnv1a, FnvWidth::W1024)),
    ];
    assert(regs@.map_values(|e: Entry| e@) =~= registrations());
    registry.register_all(&regs);
}

} // verus!
