//! Options descriptors: auxiliary data borrowed by an algorithm for one call.

use vstd::prelude::*;

verus! {

/// The auxiliary data that an options descriptor points at. Its layout is agreed
/// between the caller and the algorithm it calls.
pub enum OptionsData {
    /// A 64-bit seed, read by seeded algorithms.
    Seed(u64),
    /// A pair of 64-bit keys, read by keyed algorithms.
    Keys(u64, u64),
    /// A secret byte buffer, read by algorithms that take a secret.
    Secret(Vec<u8>),
}

/// An options descriptor, borrowed by an algorithm for the length of one call.
/// `data` is `None` where the descriptor's inner pointer is null.
pub struct CHashOptions {
    pub data: Option<OptionsData>,
}

/// The seed that a seeded algorithm reads: the descriptor's seed, or zero where the
/// descriptor, or its data, is missing or holds another layout.
pub open spec fn seed_of(options: Option<&CHashOptions>) -> u64 {
    match options {
        Some(o) => match o.data {
            Some(OptionsData::Seed(s)) => s,
            _ => 0,
        },
        None => 0,
    }
}

/// The key pair that a keyed algorithm reads, with `(0, 0)` as the default.
pub open spec fn keys_of(options: Option<&CHashOptions>) -> (u64, u64) {
    match options {
        Some(o) => match o.data {
            Some(OptionsData::Keys(k0, k1)) => (k0, k1),
            _ => (0, 0),
        },
        None => (0, 0),
    }
}

/// The secret that an algorithm taking a secret reads, or `None` where none is given
/// and the algorithm's default secret applies.
pub open spec fn secret_of(options: Option<&CHashOptions>) -> Option<Seq<u8>> {
    match options {
        Some(o) => match o.data {
            Some(OptionsData::Secret(s)) => Some(s@),
            _ => None,
        },
        None => None,
    }
}

impl CHashOptions {
    /// A descriptor whose inner pointer is null.
    pub fn null() -> (r: Self)
        ensures
            r.data is None,
    {
        CHashOptions { data: None }
    }

    pub fn with_seed(seed: u64) -> (r: Self)
        ensures
            r.data == Some(OptionsData::Seed(seed)),
    {
        CHashOptions { data: Some(OptionsData::Seed(seed)) }
    }

    pub fn with_keys(key0: u64, key1: u64) -> (r: Self)
        ensures
            r.data == Some(OptionsData::Keys(key0, key1)),
    {
        CHashOptions { data: Some(OptionsData::Keys(key0, key1)) }
    }

    pub fn with_secret(secret: Vec<u8>) -> (r: Self)
        ensures
            r.data is Some,
            secret_of(Some(&r)) == Some(secret@),
    {
        CHashOptions { data: Some(OptionsData::Secret(secret)) }
    }
}

/// Reads the seed, substituting zero where none is given.
pub fn read_seed(options: Option<&CHashOptions>) -> (r: u64)
    ensures
        r == seed_of(options),
{
    match options {
        Some(o) => match &o.data {
            Some(OptionsData::Seed(s)) => *s,
            _ => 0,
        },
        None => 0,
    }
}

/// Reads the key pair, substituting `(0, 0)` where none is given.
pub fn read_keys(options: Option<&CHashOptions>) -> (r: (u64, u64))
    ensures
        r == keys_of(options),
{
    match options {
        Some(o) => match &o.data {
            Some(OptionsData::Keys(k0, k1)) => (*k0, *k1),
            _ => (0, 0),
        },
        None => (0, 0),
    }
}

/// Borrows the secret, or `None` where none is given.
pub fn read_secret<'a>(options: Option<&'a CHashOptions>) -> (r: Option<&'a Vec<u8>>)
    ensures
        r is Some <==> secret_of(options) is Some,
        r is Some ==> r->0@ == secret_of(options)->0,
{
    match options {
        Some(o) => match &o.data {
            Some(OptionsData::Secret(s)) => Some(s),
            _ => None,
        },
        None => None,
    }
}

} // verus!
