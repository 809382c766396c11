use atlas::app::{AtlasApp, Outcome, parse_seed, register};
use atlas::loader::{module_file, provider_of_file, register_modules};
use atlas::flags::HashFlags;
use atlas::function::HashFunction;
use atlas::host::{HashError, Host, options_for};
use atlas::options::{CHashOptions, OptionsData};
use atlas::providers::{Provider, all_providers};
use atlas::registry::{Entry, Registry};

#[test]
fn registering_a_name_twice_keeps_the_last() {
    let mut r = Registry::new();
    r.insert_or_replace(String::from("X"), HashFlags::empty(), HashFunction::Md5);
    r.insert_or_replace(String::from("A"), HashFlags::empty(), HashFunction::Sha1);
    r.insert_or_replace(String::from("X"), HashFlags::seeded(), HashFunction::Xxh32);
    assert_eq!(r.lookup("X"), Some((HashFlags::seeded(), HashFunction::Xxh32)));
    assert_eq!(r.list_names(), vec![String::from("A"), String::from("X")]);
}

#[test]
fn register_all_applies_in_order() {
    let mut r = Registry::new();
    let regs = vec![
        Entry::new("dup", HashFlags::empty(), HashFunction::Md2),
        Entry::new("dup", HashFlags::keyed(), HashFunction::Sip32_2_4),
    ];
    r.register_all(&regs);
    assert_eq!(r.lookup("dup"), Some((HashFlags::keyed(), HashFunction::Sip32_2_4)));
    assert_eq!(r.list_names().len(), 1);
}

#[test]
fn names_are_listed_in_order_without_duplicates() {
    let mut host = Host::new();
    for p in all_providers() {
        host.load(p);
    }
    host.load(Provider::Sha);
    let names = host.list_names();
    assert_eq!(names.len(), 18 + 3 + 7 + 9 + 4 + 6);
    for w in names.windows(2) {
        assert!(w[0] < w[1]);
    }
    assert_eq!(names[0], "FNV-0_1024");
}

#[test]
fn lookup_of_absent_name_is_none() {
    let mut r = Registry::new();
    assert_eq!(r.lookup("MD5"), None);
    r.insert_or_replace(String::from("MD5"), HashFlags::empty(), HashFunction::Md5);
    assert!(r.lookup("MD5").is_some());
    assert_eq!(r.lookup("MD"), None);
    r.clear();
    assert_eq!(r.lookup("MD5"), None);
    assert!(r.list_names().is_empty());
}

#[test]
fn reload_forgets_removed_modules() {
    let mut host = Host::new();
    host.reload(&vec![Provider::Md, Provider::XxHash]);
    assert_eq!(host.lookup("MD5"), Some((HashFlags::empty(), HashFunction::Md5)));
    assert!(host.lookup("XXH32").is_some());
    host.reload(&vec![Provider::XxHash]);
    assert_eq!(host.lookup("MD5"), None);
    assert_eq!(host.lookup("MD2"), None);
    assert!(host.lookup("XXH32").is_some());
    assert_eq!(host.list_names().len(), 6);
}

#[test]
fn provider_registrations_carry_flags() {
    let mut host = Host::new();
    host.reload(&all_providers());
    assert_eq!(host.lookup("Murmur3_x64_128"), Some((HashFlags::seeded(), HashFunction::Murmur3_x64_128)));
    assert_eq!(host.lookup("SipHash128 2-4"), Some((HashFlags::keyed(), HashFunction::Sip128_2_4)));
    assert_eq!(host.lookup("XXH3_64"), Some((HashFlags::empty(), HashFunction::Xxh3_64)));
    assert_eq!(host.lookup("XXH3_64_with_secret"), None);
    assert_eq!(Provider::SipHash.name(), "siphash");
}

#[test]
fn host_hash_reports_missing_algorithm() {
    let host = Host::new();
    assert_eq!(host.hash("MD5", b"abc".to_vec(), None), Err(HashError::NotFound));
}

#[test]
fn host_hash_computes_digest() {
    let mut host = Host::new();
    host.reload(&all_providers());
    let out = host.hash("MD5", b"abc".to_vec(), None).unwrap();
    assert_eq!(out[0], 0x90);
    assert_eq!(out.len(), 16);
    let (flags, _) = host.lookup("XXH32").unwrap();
    let opts = options_for(flags, 0);
    assert_eq!(host.hash("XXH32", b"abc".to_vec(), Some(&opts)).unwrap(), vec![0x32, 0xD1, 0x53, 0xFF]);
}

#[test]
fn options_follow_flags() {
    assert!(matches!(options_for(HashFlags::seeded(), 9).data, Some(OptionsData::Seed(9))));
    assert!(options_for(HashFlags::keyed(), 9).data.is_none());
    assert!(options_for(HashFlags::empty(), 9).data.is_none());
    let _ = CHashOptions::null();
}

#[test]
fn flag_operations() {
    let both = HashFlags::seeded().union(HashFlags::keyed());
    assert_eq!(both.bits(), 5);
    assert!(both.contains(HashFlags::keyed()));
    assert!(!both.contains(HashFlags::secret()));
    assert_eq!(HashFlags::from_bits_truncate(0xff).bits(), 7);
}

#[test]
fn app_state_evaluates_selection() {
    let mut host = Host::new();
    let files = vec![String::from("libatlas_xxhash.so"), String::from("readme.txt")];
    let (mut app, failures) = AtlasApp::new(&mut host, &files);
    assert!(failures.is_empty());
    assert_eq!(app.label, "");
    assert_eq!(app.seed, "");
    assert_eq!(app.hasher, "None");
    assert!(matches!(app.evaluate(&host), Outcome::NoSelection));
    app.hasher = String::from("nope");
    assert!(matches!(app.evaluate(&host), Outcome::NotFound));
    app.hasher = String::from("XXH32");
    app.label = String::from("abc");
    app.seed = String::from("not a number");
    match app.evaluate(&host) {
        Outcome::Digest(h) => assert_eq!(h.0, "32D153FF"),
        _ => panic!("expected a digest"),
    }
    assert_eq!(app.seed_int, 0);
    app.seed = String::from("+7");
    let _ = app.evaluate(&host);
    assert_eq!(app.seed_int, 7);
    assert_eq!(parse_seed("18446744073709551615"), u64::MAX);
    assert_eq!(parse_seed("18446744073709551616"), 0);
    assert_eq!(parse_seed("-1"), 0);
    assert_eq!(parse_seed(""), 0);
}

#[test]
fn register_callback_inserts() {
    let mut r = Registry::new();
    register(&mut r, "MD5", HashFlags::empty(), HashFunction::Md5);
    assert_eq!(r.lookup("MD5"), Some((HashFlags::empty(), HashFunction::Md5)));
}

#[test]
fn module_files_are_chosen_by_extension() {
    assert!(module_file("libatlas_fnv.so"));
    assert!(module_file("atlas_md.dll"));
    assert!(module_file("libatlas_sha.dylib"));
    assert!(module_file("x.so"));
    assert!(!module_file(".so"));
    assert!(!module_file("so"));
    assert!(!module_file("notes.txt"));
    assert!(!module_file("lib.so.1"));
}

#[test]
fn module_files_name_their_provider() {
    assert_eq!(provider_of_file("libatlas_fnv.so"), Some(Provider::Fnv));
    assert_eq!(provider_of_file("atlas_md.dll"), Some(Provider::Md));
    assert_eq!(provider_of_file("libatlas_murmur.dylib"), Some(Provider::Murmur));
    assert_eq!(provider_of_file("atlas_siphash.so"), Some(Provider::SipHash));
    assert_eq!(provider_of_file("libatlas_xxhash.so"), Some(Provider::XxHash));
    assert_eq!(provider_of_file("libatlas_sha.so"), Some(Provider::Sha));
    assert_eq!(provider_of_file("libother.so"), None);
    assert_eq!(provider_of_file("liblibatlas_fnv.so"), None);
}

#[test]
fn registering_modules_skips_failures() {
    let mut host = Host::new();
    let files = vec![
        String::from("atlas_md.dll"),
        String::from("broken.so"),
        String::from("notes.txt"),
        String::from("libatlas_siphash.so"),
    ];
    let failures = register_modules(&mut host, &files);
    assert_eq!(failures, vec![String::from("broken.so")]);
    assert!(host.lookup("MD5").is_some());
    assert!(host.lookup("SipHash32 1-3").is_some());
    assert_eq!(host.lookup("XXH32"), None);
    assert_eq!(host.list_names().len(), 7);
}
