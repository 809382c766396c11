//! The algorithm providers: each offers its algorithms to a registry through the
//! registration handshake.

pub mod fnv;
pub mod md;
pub mod murmur;
pub mod sha;
pub mod siphash;
pub mod xxhash;

use vstd::prelude::*;
use crate::registry::{Record, Registry, apply_registrations};

verus! {

/// A module that supplies algorithms.
#[derive(Clone, Copy, Debug, PartialEq, Eq, Structural)]
pub enum Provider {
    Fnv,
    Md,
    Murmur,
    Sha,
    SipHash,
    XxHash,
}

/// What a provider registers, in order.
pub open spec fn offered(p: Provider) -> Seq<(Seq<char>, Record)> {
    match p {
        Provider::Fnv => fnv::registrations(),
        Provider::Md => md::registrations(),
        Provider::Murmur => murmur::registrations(),
        Provider::Sha => sha::registrations(),
        Provider::SipHash => siphash::registrations(),
        Provider::XxHash => xxhash::registrations(),
    }
}

/// Whether a provider registers an algorithm of the given name.
pub open spec fn offers(p: Provider, name: Seq<char>) -> bool {
    exists|i: int| 0 <= i < offered(p).len() && offered(p)[i].0 == name
}

/// The short name of a provider.
pub open spec fn provider_name(p: Provider) -> Seq<char> {
    match p {
        Provider::Fnv => "fnv"@,
        Provider::Md => "md"@,
        Provider::Murmur => "murmur"@,
        Provider::Sha => "sha"@,
        Provider::SipHash => "siphash"@,
        Provider::XxHash => "xxhash"@,
    }
}

impl Provider {
    /// The module's short name.
    pub fn name(&self) -> (r: &'static str)
        ensures
            r@ == provider_name(*self),
    {
        match self {
            Provider::Fnv => "fnv",
            Provider::Md => "md",
            Provider::Murmur => "murmur",
            Provider::Sha => "sha",
            Provider::SipHash => "siphash",
            Provider::XxHash => "xxhash",
        }
    }

    /// Runs the provider's registration entry point against `registry`.
    pub fn register_hashers(&self, registry: &mut Registry)
        requires
            old(registry).wf(),
        ensures
            final(registry).wf(),
            final(registry)@ == apply_registrations(old(registry)@, offered(*self)),
    {
        match self {
            Provider::Fnv => fnv::register_hashers(registry),
            Provider::Md => md::register_hashers(registry),
            Provider::Murmur => murmur::register_hashers(registry),
            Provider::Sha => sha::register_hashers(registry),
            Provider::SipHash => siphash::register_hashers(registry),
            Provider::XxHash => xxhash::register_hashers(registry),
        }
    }
}

/// Every provider that this library carries, in loading order.
pub open spec fn all_providers_spec() -> Seq<Provider> {
    seq![
        Provider::Fnv,
        Provider::Md,
        Provider::Murmur,
        Provider::Sha,
        Provider::SipHash,
        Provider::XxHash,
    ]
}

/// Every provider that this library carries.
pub fn all_providers() -> (r: Vec<Provider>)
    ensures
        r@ == all_providers_spec(),
{
    let r = vec![
        Provider::Fnv,
        Provider::Md,
        Provider::Murmur,
        Provider::Sha,
        Provider::SipHash,
        Provider::XxHash,
    ];
    assert(r@ =~= seq![
        Provider::Fnv,
        Provider::Md,
        Provider::Murmur,
        Provider::Sha,
        Provider::SipHash,
        Provider::XxHash,
    ]);
    r
}

} // verus!
