//! Big-endian serialization of integers.

use vstd::prelude::*;

verus! {

/// The `len` low-order bytes of `n`, most significant first.
pub open spec fn be_bytes(n: nat, len: nat) -> Seq<u8>
    decreases len,
{
    if len == 0 {
        Seq::empty()
    } else {
        be_bytes(n / 256, (len - 1) as nat).push((n % 256) as u8)
    }
}

pub proof fn lemma_be_bytes_len(n: nat, len: nat)
    ensures
        be_bytes(n, len).len() == len,
    decreases len,
{
    if len > 0 {
        lemma_be_bytes_len(n / 256, (len - 1) as nat);
    }
}

/// The big-endian serialization of the `len` low-order bytes of `x`.
pub fn be_bytes_of(x: u128, len: usize) -> (r: Vec<u8>)
    ensures
        r@ == be_bytes(x as nat, len as nat),
        r@.len() == len,
{
    let mut v: Vec<u8> = Vec::new();
    let mut rest: u128 = x;
    let mut k: usize = 0;
    while k < len
        invariant
            k <= len,
            be_bytes(x as nat, len as nat) == be_bytes(rest as nat, (len - k) as nat) + v@,
        decreases len - k,
    {
        let byte = (rest % 256) as u8;
        proof {
            let tail = be_bytes(rest as nat / 256, (len - k - 1) as nat);
            assert(be_bytes(rest as nat, (len - k) as nat) == tail.push(byte));
            assert(tail.push(byte) + v@ =~= tail + (seq![byte] + v@));
        }
        let ghost before = v@;
        v.insert(0, byte);
        assert(v@ =~= seq![byte] + before);
        rest = rest / 256;
        k = k + 1;
    }
    assert(be_bytes(rest as nat, 0) + v@ =~= v@);
    proof { lemma_be_bytes_len(x as nat, len as nat); }
    v
}

pub fn be_bytes_u32(x: u32) -> (r: Vec<u8>)
    ensures
        r@ == be_bytes(x as nat, 4),
        r@.len() == 4,
{
    be_bytes_of(x as u128, 4)
}

pub fn be_bytes_u64(x: u64) -> (r: Vec<u8>)
    ensures
        r@ == be_bytes(x as nat, 8),
        r@.len() == 8,
{
    be_bytes_of(x as u128, 8)
}

pub fn be_bytes_u128(x: u128) -> (r: Vec<u8>)
    ensures
        r@ == be_bytes(x as nat, 16),
        r@.len() == 16,
{
    be_bytes_of(x, 16)
}

} // verus!
