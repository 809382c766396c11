//! The front end's state and the decisions it makes on each evaluation.

use vstd::prelude::*;
use crate::flags::HashFlags;
use crate::function::{
    STATUS_COMPUTATION_FAILED, STATUS_MALFORMED_INPUT, accepts_options, digest_of,
};
use crate::host::{HashError, Host, loaded_table, options_for};
use crate::options::{CHashOptions, OptionsData};
use crate::loader::{discovered, failed, register_modules};
use crate::registry::Registry;
use crate::names::compare_names;
use crate::result::{HashResult, hex_upper};
use vstd::string::StrSliceExecFns;
use vstd::utf8::encode_utf8;

verus! {

/// Whether text is one or more ASCII decimal digits.
pub open spec fn is_decimal(s: Seq<char>) -> bool {
    &&& s.len() > 0
    &&& forall|i: int| 0 <= i < s.len() ==> '0' <= #[trigger] s[i] && s[i] <= '9'
}

/// The value of decimal digits.
pub open spec fn decimal_value(s: Seq<char>) -> nat
    decreases s.len(),
{
    if s.len() == 0 {
        0
    } else {
        decimal_value(s.drop_last()) * 10 + (s.last() as int - '0' as int) as nat
    }
}

/// What reading text as a `u64` gives: decimal digits after an optional `+`, with a
/// value that fits.
pub open spec fn parsed_u64(s: Seq<char>) -> Option<u64> {
    let digits = if s.len() > 0 && s[0] == '+' {
        s.drop_first()
    } else {
        s
    };
    if is_decimal(digits) && decimal_value(digits) <= u64::MAX {
        Some(decimal_value(digits) as u64)
    } else {
        None
    }
}

#[verifier::external_type_specification]
#[verifier::external_body]
pub struct ExParseIntError(core::num::ParseIntError);

/// Relies on `str::parse::<u64>`: decimal digits after an optional `+`; anything else,
/// or a value too large, is an error.
#[verifier::external_body]
fn parse_u64(s: &str) -> (r: Result<u64, core::num::ParseIntError>)
    ensures
        r is Ok <==> parsed_u64(s@) is Some,
        r is Ok ==> r->Ok_0 == parsed_u64(s@)->0,
{
    s.parse::<u64>()
}

/// The seed that seed text gives: its value, or zero where it is not a `u64`.
pub fn parse_seed(text: &str) -> (r: u64)
    ensures
        r == match parsed_u64(text@) {
            Some(v) => v,
            None => 0,
        },
{
    match parse_u64(text) {
        Ok(v) => v,
        Err(_) => 0,
    }
}

/// The registration callback: records one algorithm under its name, replacing any
/// earlier record of that name, as a provider's handshake does for each algorithm it
/// offers.
pub fn register(registry: &mut Registry, name: &str, flags: HashFlags, hasher: crate::function::HashFunction)
    requires
        old(registry).wf(),
    ensures
        final(registry).wf(),
        final(registry)@ == old(registry)@.insert(name@, (flags, hasher)),
{
    registry.insert_or_replace(String::from_str(name), flags, hasher);
}

/// What the front end shows for the current selection and input.
pub enum Outcome {
    /// No algorithm is selected.
    NoSelection,
    /// The selected name is not registered.
    NotFound,
    /// The entry point returned this failing status.
    Failed(i32),
    /// The entry point reported success but left no valid result.
    NullResult,
    /// The digest, as text.
    Digest(HashResult),
}

/// The front end's state: the input text, the selected algorithm's name and the
/// seed text with the seed last read from it.
pub struct AtlasApp {
    pub label: String,
    pub hasher: String,
    pub seed: String,
    pub seed_int: u64,
}

/// The name that stands for "no algorithm selected".
pub open spec fn no_selection() -> Seq<char> {
    "None"@
}

impl AtlasApp {
    /// Nothing typed, no algorithm selected.
    pub fn default() -> (r: Self)
        ensures
            r.label@ == Seq::<char>::empty(),
            r.hasher@ == no_selection(),
            r.seed@ == Seq::<char>::empty(),
            r.seed_int == 0,
    {
        AtlasApp {
            label: String::new(),
            hasher: String::from_str("None"),
            seed: String::new(),
            seed_int: 0,
        }
    }

    /// Registers the modules among `module_files` afresh and starts with the default
    /// state. Also returns the candidate files that failed to load.
    pub fn new(host: &mut Host, module_files: &Vec<String>) -> (r: (Self, Vec<String>))
        requires
            old(host).wf(),
        ensures
            final(host).wf(),
            final(host)@ == loaded_table(discovered(module_files@.map_values(|s: String| s@))),
            r.1@.map_values(|s: String| s@) == failed(module_files@.map_values(|s: String| s@)),
            r.0.label@ == Seq::<char>::empty(),
            r.0.hasher@ == no_selection(),
            r.0.seed@ == Seq::<char>::empty(),
            r.0.seed_int == 0,
    {
        let failures = register_modules(host, module_files);
        (Self::default(), failures)
    }

    /// Hashes the input with the selected algorithm. A seeded algorithm reads the seed
    /// from the seed text (zero where it is not a number), which is kept in
    /// `seed_int`.
    pub fn evaluate(&mut self, host: &Host) -> (r: Outcome)
        requires
            host.wf(),
        ensures
            final(self).label == old(self).label,
            final(self).hasher == old(self).hasher,
            final(self).seed == old(self).seed,
            old(self).hasher@ == no_selection() ==> r is NoSelection,
            old(self).hasher@ != no_selection() && !host@.contains_key(old(self).hasher@)
                ==> r is NotFound,
            old(self).hasher@ != no_selection() && host@.contains_key(old(self).hasher@) ==> {
                let (flags, f) = host@[old(self).hasher@];
                let seed = match parsed_u64(old(self).seed@) {
                    Some(v) => v,
                    None => 0,
                };
                let data = if flags.is_seeded() {
                    Some(OptionsData::Seed(seed))
                } else {
                    None
                };
                let options = CHashOptions { data };
                &&& flags.is_seeded() ==> final(self).seed_int == seed
                &&& !flags.is_seeded() ==> final(self).seed_int == old(self).seed_int
                &&& if encode_utf8(old(self).label@).len() > isize::MAX || !accepts_options(f, Some(&options)) {
                    r is Failed && r->Failed_0 == STATUS_MALFORMED_INPUT
                } else {
                    match digest_of(f, encode_utf8(old(self).label@), Some(&options)) {
                        Some(d) => r is Digest && r->Digest_0.0@ == hex_upper(d),
                        None => r is Failed && r->Failed_0 == STATUS_COMPUTATION_FAILED,
                    }
                }
            },
    {
        if compare_names(self.hasher.as_str(), "None") == 0 {
            return Outcome::NoSelection;
        }
        match host.lookup(self.hasher.as_str()) {
            None => Outcome::NotFound,
            Some((flags, _f)) => {
                let bits = flags.bits;
                assert((bits & 1 == 1) == (bits & 1 != 0)) by (bit_vector);
                if flags.contains(HashFlags::seeded()) {
                    self.seed_int = parse_seed(self.seed.as_str());
                }
                let options = options_for(flags, self.seed_int);
                let input = self.label.as_str().as_bytes_vec();
                match host.hash(self.hasher.as_str(), input, Some(&options)) {
                    Ok(bytes) => Outcome::Digest(HashResult::from_bytes(bytes.as_slice())),
                    Err(HashError::Status(s)) => Outcome::Failed(s),
                    Err(HashError::NullResult) => Outcome::NullResult,
                    Err(HashError::NotFound) => Outcome::NotFound,
                }
            },
        }
    }
}

} // verus!
