//! The host session: resident modules, the registry they fill, and invocation.

use vstd::prelude::*;
use crate::buffer::Slice;
use crate::flags::HashFlags;
use crate::function::{
    STATUS_COMPUTATION_FAILED, STATUS_MALFORMED_INPUT, STATUS_OK, accepts_options, digest_of,
};
use crate::options::{CHashOptions, OptionsData};
use crate::providers::{Provider, offered, offers};
use crate::registry::{Record, Registry, apply_registrations, lemma_registered_names};

verus! {

/// The table that the given modules build when each is loaded in turn.
pub open spec fn loaded_table(modules: Seq<Provider>) -> Map<Seq<char>, Record>
    decreases modules.len(),
{
    if modules.len() == 0 {
        Map::empty()
    } else {
        apply_registrations(loaded_table(modules.drop_last()), offered(modules.last()))
    }
}

/// Why the host could not produce a digest.
#[derive(Clone, Copy, Debug, PartialEq, Eq, Structural)]
pub enum HashError {
    /// No algorithm of that name is registered.
    NotFound,
    /// The entry point returned this status.
    Status(i32),
    /// The entry point reported success but left no valid result.
    NullResult,
}

/// A host session: the resident modules and the registry that they filled. Every
/// registered algorithm comes from a resident module.
pub struct Host {
    registry: Registry,
    modules: Vec<Provider>,
}

impl Host {
    pub closed spec fn view(&self) -> Map<Seq<char>, Record> {
        self.registry@
    }

    /// The resident modules, in the order they were loaded.
    pub closed spec fn modules(&self) -> Seq<Provider> {
        self.modules@
    }

    pub closed spec fn wf(&self) -> bool {
        &&& self.registry.wf()
        &&& self.registry@ == loaded_table(self.modules@)
    }

    /// A session with no module loaded.
    pub fn new() -> (r: Self)
        ensures
            r.wf(),
            r.modules() == Seq::<Provider>::empty(),
            r@ == Map::<Seq<char>, Record>::empty(),
    {
        Host { registry: Registry::new(), modules: Vec::new() }
    }

    /// Loads a module: runs its registration and keeps it resident.
    pub fn load(&mut self, module: Provider)
        requires
            old(self).wf(),
        ensures
            final(self).wf(),
            final(self).modules() == old(self).modules().push(module),
            final(self)@ == apply_registrations(old(self)@, offered(module)),
    {
        module.register_hashers(&mut self.registry);
        let ghost before = self.modules@;
        self.modules.push(module);
        assert(self.modules@.drop_last() =~= before);
    }

    /// Clears the registry and the resident modules, then loads each of `available`
    /// in turn.
    pub fn reload(&mut self, available: &Vec<Provider>)
        requires
            old(self).wf(),
        ensures
            final(self).wf(),
            final(self).modules() == available@,
            final(self)@ == loaded_table(available@),
    {
        self.registry.clear();
        self.modules.clear();
        let n = available.len();
        let mut i: usize = 0;
        while i < n
            invariant
                self.wf(),
                n == available@.len(),
                i <= n,
                self.modules@ == available@.subrange(0, i as int),
            decreases n - i,
        {
            self.load(available[i]);
            assert(available@.subrange(0, i + 1) =~= available@.subrange(0, i as int).push(
                available@[i as int],
            ));
            i = i + 1;
        }
        assert(available@.subrange(0, n as int) =~= available@);
    }

    /// The flags and entry point registered under `name`.
    pub fn lookup(&self, name: &str) -> (r: Option<Record>)
        requires
            self.wf(),
        ensures
            r is Some <==> self@.contains_key(name@),
            r is Some ==> r->0 == self@[name@],
    {
        self.registry.lookup(name)
    }

    /// The registered names, in order and without duplicates.
    pub fn list_names(&self) -> (r: Vec<String>)
        requires
            self.wf(),
        ensures
            forall|i: int, j: int|
                0 <= i < j < r@.len() ==> crate::names::name_lt(r@[i]@, r@[j]@),
            forall|k: Seq<char>|
                self@.contains_key(k) <==> exists|i: int| 0 <= i < r@.len() && r@[i]@ == k,
    {
        self.registry.list_names()
    }

    /// Looks `name` up and calls its entry point on `input`, with `options` borrowed
    /// for the call.
    pub fn hash(&self, name: &str, input: Vec<u8>, options: Option<&CHashOptions>) -> (r: Result<
        Vec<u8>,
        HashError,
    >)
        requires
            self.wf(),
        ensures
            !self@.contains_key(name@) <==> r == Err::<Vec<u8>, HashError>(HashError::NotFound),
            self@.contains_key(name@) ==> {
                let f = self@[name@].1;
                if input@.len() > isize::MAX || !accepts_options(f, options) {
                    r == Err::<Vec<u8>, HashError>(HashError::Status(STATUS_MALFORMED_INPUT))
                } else {
                    match digest_of(f, input@, options) {
                        Some(d) => r is Ok && r->Ok_0@ == d,
                        None => r == Err::<Vec<u8>, HashError>(HashError::Status(STATUS_COMPUTATION_FAILED)),
                    }
                }
            },
    {
        match self.registry.lookup(name) {
            None => Err(HashError::NotFound),
            Some((_flags, f)) => {
                let mut data = Slice::from_vec(input);
                let status = f.call(Some(&mut data), options);
                if status != STATUS_OK {
                    return Err(HashError::Status(status));
                }
                match data.into_boxed_slice() {
                    Some(b) => Ok(b.into_vec()),
                    None => Err(HashError::NullResult),
                }
            },
        }
    }
}

/// The options that the host builds for an algorithm with the given flags: the seed
/// for a seeded algorithm, and a null inner pointer otherwise, so that keyed and
/// secret-taking algorithms fall back to their defaults.
pub fn options_for(flags: HashFlags, seed: u64) -> (r: CHashOptions)
    ensures
        flags.is_seeded() ==> r.data == Some(OptionsData::Seed(seed)),
        !flags.is_seeded() ==> r.data is None,
{
    let bits = flags.bits;
    if flags.contains(HashFlags::seeded()) {
        assert(bits & 1 != 0) by (bit_vector)
            requires
                bits & 1 == 1,
        ;
        CHashOptions::with_seed(seed)
    } else {
        assert(bits & 1 == 0) by (bit_vector)
            requires
                bits & 1 != 1,
        ;
        CHashOptions::null()
    }
}

/// Every name that a table built from modules holds, one of those modules offers.
pub proof fn lemma_loaded_names(modules: Seq<Provider>, name: Seq<char>)
    requires
        loaded_table(modules).contains_key(name),
    ensures
        exists|i: int| 0 <= i < modules.len() && offers(modules[i], name),
    decreases modules.len(),
{
    if modules.len() > 0 {
        let last = modules.last();
        lemma_registered_names(loaded_table(modules.drop_last()), offered(last), name);
        if loaded_table(modules.drop_last()).contains_key(name) {
            lemma_loaded_names(modules.drop_last(), name);
            let i = choose|i: int| 0 <= i < modules.drop_last().len() && offers(modules.drop_last()[i], name);
            assert(modules[i] == modules.drop_last()[i]);
        } else {
            assert(offers(modules[modules.len() - 1], name));
        }
    }
}

/// After a reload, a name that none of the newly loaded modules offers, such as one
/// that only a removed module provided, is not found.
pub proof fn lemma_reload_forgets(available: Seq<Provider>, name: Seq<char>)
    requires
        forall|i: int| 0 <= i < available.len() ==> !offers(#[trigger] available[i], name),
    ensures
        !loaded_table(available).contains_key(name),
{
    if loaded_table(available).contains_key(name) {
        lemma_loaded_names(available, name);
    }
}

} // verus!
