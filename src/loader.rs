//! Module discovery: which files are candidate modules and what they provide.

use vstd::prelude::*;
use crate::host::{Host, loaded_table};
use crate::names::compare_names;
use crate::providers::Provider;
use vstd::string::StrSliceExecFns;

verus! {

/// Whether a file name has the given extension: it ends with a dot and the
/// extension, and the dot is not the name's first character.
pub open spec fn has_extension(name: Seq<char>, ext: Seq<char>) -> bool {
    &&& name.len() > ext.len() + 1
    &&& name.subrange(name.len() - ext.len() - 1, name.len() as int) == seq!['.'] + ext
}

/// Whether a file is a candidate module: its extension is a native dynamic-module
/// suffix.
pub open spec fn is_module_file(name: Seq<char>) -> bool {
    has_extension(name, "so"@) || has_extension(name, "dll"@) || has_extension(name, "dylib"@)
}

/// The file stems under which each provider is built, without and with the `lib`
/// prefix that some platforms add.
pub open spec fn stem_provider(stem: Seq<char>) -> Option<Provider> {
    let base = if stem.len() >= 3 && stem.subrange(0, 3) == "lib"@ {
        stem.subrange(3, stem.len() as int)
    } else {
        stem
    };
    if base == "atlas_fnv"@ {
        Some(Provider::Fnv)
    } else if base == "atlas_md"@ {
        Some(Provider::Md)
    } else if base == "atlas_murmur"@ {
        Some(Provider::Murmur)
    } else if base == "atlas_sha"@ {
        Some(Provider::Sha)
    } else if base == "atlas_siphash"@ {
        Some(Provider::SipHash)
    } else if base == "atlas_xxhash"@ {
        Some(Provider::XxHash)
    } else {
        None
    }
}

/// The name without its extension.
pub open spec fn file_stem(name: Seq<char>) -> Seq<char> {
    if has_extension(name, "so"@) {
        name.subrange(0, name.len() - 3)
    } else if has_extension(name, "dll"@) {
        name.subrange(0, name.len() - 4)
    } else {
        name.subrange(0, name.len() - 6)
    }
}

/// What loading a candidate module file yields: its provider, or `None` where the
/// file holds no known provider.
pub open spec fn module_provider(name: Seq<char>) -> Option<Provider> {
    stem_provider(file_stem(name))
}

/// The providers that a list of files yields, in order: candidates that load.
pub open spec fn discovered(files: Seq<Seq<char>>) -> Seq<Provider>
    decreases files.len(),
{
    if files.len() == 0 {
        Seq::empty()
    } else {
        let rest = discovered(files.drop_last());
        let name = files.last();
        if is_module_file(name) && module_provider(name) is Some {
            rest.push(module_provider(name)->0)
        } else {
            rest
        }
    }
}

/// The candidates among a list of files that fail to load, in order.
pub open spec fn failed(files: Seq<Seq<char>>) -> Seq<Seq<char>>
    decreases files.len(),
{
    if files.len() == 0 {
        Seq::empty()
    } else {
        let rest = failed(files.drop_last());
        let name = files.last();
        if is_module_file(name) && module_provider(name) is None {
            rest.push(name)
        } else {
            rest
        }
    }
}

fn ends_with_extension(name: &str, ext: &str) -> (r: bool)
    ensures
        r == has_extension(name@, ext@),
{
    let n = name.unicode_len();
    let e = ext.unicode_len();
    if n <= e || n - e <= 1 {
        return false;
    }
    let start = n - e - 1;
    let tail = name.substring_char(start, n);
    let dot = ".";
    proof {
        reveal_strlit(".");
    }
    let wanted = String::from_str(dot).concat(ext);
    assert(wanted@ =~= seq!['.'] + ext@);
    compare_names(tail, wanted.as_str()) == 0
}

/// Whether a file is a candidate module, by its extension.
pub fn module_file(name: &str) -> (r: bool)
    ensures
        r == is_module_file(name@),
{
    ends_with_extension(name, "so") || ends_with_extension(name, "dll") || ends_with_extension(
        name,
        "dylib",
    )
}

fn provider_of_stem(stem: &str) -> (r: Option<Provider>)
    ensures
        r == stem_provider(stem@),
{
    let n = stem.unicode_len();
    let lib = "lib";
    proof {
        reveal_strlit("lib");
    }
    let base = if n >= 3 && compare_names(stem.substring_char(0, 3), lib) == 0 {
        stem.substring_char(3, n)
    } else {
        stem
    };
    if compare_names(base, "atlas_fnv") == 0 {
        Some(Provider::Fnv)
    } else if compare_names(base, "atlas_md") == 0 {
        Some(Provider::Md)
    } else if compare_names(base, "atlas_murmur") == 0 {
        Some(Provider::Murmur)
    } else if compare_names(base, "atlas_sha") == 0 {
        Some(Provider::Sha)
    } else if compare_names(base, "atlas_siphash") == 0 {
        Some(Provider::SipHash)
    } else if compare_names(base, "atlas_xxhash") == 0 {
        Some(Provider::XxHash)
    } else {
        None
    }
}

/// Loads a candidate module file: the provider it holds, or `None` where it holds none.
pub fn provider_of_file(name: &str) -> (r: Option<Provider>)
    requires
        is_module_file(name@),
    ensures
        r == module_provider(name@),
{
    let n = name.unicode_len();
    let cut: usize = if ends_with_extension(name, "so") {
        3
    } else if ends_with_extension(name, "dll") {
        4
    } else {
        6
    };
    proof {
        reveal_strlit("so");
        reveal_strlit("dll");
        reveal_strlit("dylib");
    }
    provider_of_stem(name.substring_char(0, n - cut))
}

/// Clears the host and loads every module among `files`, skipping the files that are
/// no candidates. Returns the candidates that failed to load; the others stay
/// resident.
pub fn register_modules(host: &mut Host, files: &Vec<String>) -> (r: Vec<String>)
    requires
        old(host).wf(),
    ensures
        final(host).wf(),
        final(host).modules() == discovered(files@.map_values(|s: String| s@)),
        final(host)@ == loaded_table(discovered(files@.map_values(|s: String| s@))),
        r@.map_values(|s: String| s@) == failed(files@.map_values(|s: String| s@)),
{
    let ghost names = files@.map_values(|s: String| s@);
    let mut found: Vec<Provider> = Vec::new();
    let mut failures: Vec<String> = Vec::new();
    let n = files.len();
    let mut i: usize = 0;
    while i < n
        invariant
            n == files@.len(),
            i <= n,
            names == files@.map_values(|s: String| s@),
            found@ == discovered(names.subrange(0, i as int)),
            failures@.map_values(|s: String| s@) == failed(names.subrange(0, i as int)),
        decreases n - i,
    {
        let name = files[i].as_str();
        let ghost prefix = names.subrange(0, i + 1);
        assert(prefix.drop_last() =~= names.subrange(0, i as int));
        assert(prefix.last() == name@);
        if module_file(name) {
            match provider_of_file(name) {
                Some(p) => found.push(p),
                None => {
                    let ghost before = failures@;
                    failures.push(files[i].clone());
                    assert(failures@.map_values(|s: String| s@) =~= before.map_values(
                        |s: String| s@,
                    ).push(name@));
                },
            }
        }
        i = i + 1;
    }
    assert(names.subrange(0, n as int) =~= names);
    host.reload(&found);
    failures
}

} // verus!
