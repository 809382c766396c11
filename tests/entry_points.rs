use atlas::buffer::Slice;
use atlas::function::{
    HashFunction, STATUS_MALFORMED_INPUT, STATUS_MISSING_INPUT, STATUS_OK,
};
use atlas::options::CHashOptions;
use atlas::providers::fnv::{FnvKind, FnvWidth};
use atlas::providers::{murmur, sha, siphash, xxhash};

fn run(f: HashFunction, input: &[u8], options: Option<&CHashOptions>) -> (i32, Option<Vec<u8>>) {
    let mut data = Slice::from_vec(input.to_vec());
    let status = f.call(Some(&mut data), options);
    (status, data.into_boxed_slice().map(|b| b.into_vec()))
}

fn hex(bytes: &[u8]) -> String {
    bytes.iter().map(|b| format!("{b:02x}")).collect()
}

#[test]
fn null_handle_pointer_is_missing_input() {
    let all = [
        HashFunction::Md5,
        HashFunction::Sha1,
        HashFunction::Murmur3_32,
        HashFunction::Sip128_2_4,
        HashFunction::Xxh3_128,
        HashFunction::Fnv(FnvKind::Fnv1a, FnvWidth::W1024),
    ];
    for f in all {
        assert_eq!(f.call(None, None), STATUS_MISSING_INPUT);
        assert_eq!(f.call(None, Some(&CHashOptions::with_seed(3))), -1);
    }
}

#[test]
fn null_data_pointer_with_length_is_malformed() {
    let all = [HashFunction::Md2, HashFunction::Xxh64, HashFunction::Sip32_1_3];
    for f in all {
        let mut data: Slice<u8> = Slice { ptr: None, len: 16 };
        assert_eq!(f.call(Some(&mut data), None), STATUS_MALFORMED_INPUT);
        assert!(data.ptr.is_none());
        assert_eq!(data.len, 16);
    }
}

#[test]
fn named_entry_points_check_their_handle() {
    assert_eq!(murmur::murmur2_32(None, None), -1);
    assert_eq!(sha::sha1(None, None), -1);
    let mut data: Slice<u8> = Slice { ptr: None, len: 2 };
    assert_eq!(siphash::sip32_1_3(Some(&mut data), None), -2);
    assert_eq!(xxhash::xxh3_64(Some(&mut data), None), -2);
}

#[test]
fn entry_point_replaces_input_with_digest() {
    let mut data = Slice::from_vec(b"abc".to_vec());
    assert_eq!(sha::sha1(Some(&mut data), None), STATUS_OK);
    let out = data.into_boxed_slice().unwrap().into_vec();
    assert_eq!(hex(&out), "a9993e364706816aba3e25717850c26c9cd0d89d");
}

#[test]
fn same_call_twice_gives_same_bytes() {
    let opts = CHashOptions::with_seed(42);
    for f in [HashFunction::Murmur3_x64_128, HashFunction::Xxh3_64_seeded, HashFunction::Sha2_512] {
        let first = run(f, b"determinism", Some(&opts));
        let second = run(f, b"determinism", Some(&opts));
        assert_eq!(first.0, STATUS_OK);
        assert_eq!(first, second);
    }
}

#[test]
fn seeded_golden_vectors_xxh32() {
    let seed = CHashOptions::with_seed(0);
    let (s, out) = run(HashFunction::Xxh32, b"", Some(&seed));
    assert_eq!(s, 0);
    assert_eq!(out.unwrap(), vec![0x02, 0xCC, 0x5D, 0x05]);
    let (s, out) = run(HashFunction::Xxh32, b"abc", Some(&seed));
    assert_eq!(s, 0);
    assert_eq!(out.unwrap(), vec![0x32, 0xD1, 0x53, 0xFF]);
}

#[test]
fn seeded_golden_vectors_murmur3() {
    let seed = CHashOptions::with_seed(0);
    let (s, out) = run(HashFunction::Murmur3_32, b"", Some(&seed));
    assert_eq!(s, 0);
    assert_eq!(out.unwrap(), vec![0, 0, 0, 0]);
    let (s, out) = run(HashFunction::Murmur3_32, b"abc", Some(&seed));
    assert_eq!(s, 0);
    assert_eq!(out.unwrap(), vec![0xB3, 0xDD, 0x93, 0xFA]);
}

#[test]
fn seed_defaults_to_zero() {
    let explicit = run(HashFunction::Xxh64, b"abc", Some(&CHashOptions::with_seed(0)));
    let inner_null = run(HashFunction::Xxh64, b"abc", Some(&CHashOptions::null()));
    let null = run(HashFunction::Xxh64, b"abc", None);
    assert_eq!(explicit, inner_null);
    assert_eq!(explicit, null);
    assert_eq!(hex(&explicit.1.unwrap()), "44bc2cf5ad770999");
    let other = run(HashFunction::Xxh64, b"abc", Some(&CHashOptions::with_seed(1)));
    assert_ne!(other, inner_null);
}

#[test]
fn unflagged_null_descriptor_matches_null_inner_pointer() {
    for f in [HashFunction::Md5, HashFunction::Fnv(FnvKind::Fnv1, FnvWidth::W64), HashFunction::Xxh3_64] {
        assert_eq!(run(f, b"hello", None), run(f, b"hello", Some(&CHashOptions::null())));
    }
}

#[test]
fn keyed_null_inner_pointer_uses_zero_keys() {
    for f in [
        HashFunction::Sip32_1_3,
        HashFunction::Sip32_2_4,
        HashFunction::Sip128_1_3,
        HashFunction::Sip128_2_4,
    ] {
        let defaulted = run(f, b"abc", Some(&CHashOptions::null()));
        assert_eq!(defaulted.0, STATUS_OK);
        assert_eq!(defaulted, run(f, b"abc", Some(&CHashOptions::with_keys(0, 0))));
        assert_ne!(defaulted, run(f, b"abc", Some(&CHashOptions::with_keys(1, 2))));
    }
}

#[test]
fn sip_results_have_their_widths() {
    assert_eq!(run(HashFunction::Sip32_2_4, b"x", None).1.unwrap().len(), 8);
    assert_eq!(run(HashFunction::Sip128_1_3, b"x", None).1.unwrap().len(), 16);
}

#[test]
fn short_secret_is_malformed_and_leaves_handle() {
    let opts = CHashOptions::with_secret(vec![1u8; 10]);
    let mut data = Slice::from_vec(b"abc".to_vec());
    assert_eq!(xxhash::xxh3_64_with_secret(Some(&mut data), Some(&opts)), STATUS_MALFORMED_INPUT);
    assert_eq!(data.into_boxed_slice().unwrap().into_vec(), b"abc".to_vec());
    let opts = CHashOptions::with_secret(Vec::new());
    let mut data = Slice::from_vec(b"abc".to_vec());
    assert_eq!(xxhash::xxh3_128_with_secret(Some(&mut data), Some(&opts)), STATUS_MALFORMED_INPUT);
}

#[test]
fn missing_secret_uses_the_default_secret() {
    let with_default = run(HashFunction::Xxh3_64_with_secret, b"abc", Some(&CHashOptions::null()));
    assert_eq!(with_default.0, STATUS_OK);
    assert_eq!(with_default, run(HashFunction::Xxh3_64, b"abc", None));
    let with_default = run(HashFunction::Xxh3_128_with_secret, b"abc", None);
    assert_eq!(with_default.0, STATUS_OK);
    assert_eq!(with_default, run(HashFunction::Xxh3_128, b"abc", None));
}

#[test]
fn long_secret_is_used() {
    let secret: Vec<u8> = (0..192u32).map(|i| (i * 7 % 251) as u8).collect();
    let opts = CHashOptions::with_secret(secret.clone());
    let (s, out) = run(HashFunction::Xxh3_64_with_secret, b"abc", Some(&opts));
    assert_eq!(s, STATUS_OK);
    assert_eq!(out.unwrap().len(), 8);
    let (s, out) = run(HashFunction::Xxh3_128_with_secret, b"abc", Some(&opts));
    assert_eq!(s, STATUS_OK);
    assert_eq!(out.unwrap().len(), 16);
}

#[test]
fn fnv_vectors() {
    let f = |k, w, d: &[u8]| hex(&run(HashFunction::Fnv(k, w), d, None).1.unwrap());
    assert_eq!(f(FnvKind::Fnv1a, FnvWidth::W32, b"a"), "e40c292c");
    assert_eq!(f(FnvKind::Fnv1, FnvWidth::W32, b"a"), "050c5d7e");
    assert_eq!(f(FnvKind::Fnv1a, FnvWidth::W32, b""), "811c9dc5");
    assert_eq!(f(FnvKind::Fnv0, FnvWidth::W32, b""), "00000000");
    assert_eq!(f(FnvKind::Fnv1a, FnvWidth::W64, b"a"), "af63dc4c8601ec8c");
    assert_eq!(f(FnvKind::Fnv1a, FnvWidth::W128, b"a"), "d228cb696f1a8caf78912b704e4a8964");
    assert_eq!(
        f(FnvKind::Fnv0, FnvWidth::W256, b"ab"),
        "00000000000000000000610000000000000000000000000000000000000086e1"
    );
    assert_eq!(
        f(FnvKind::Fnv1a, FnvWidth::W256, b"a"),
        "63323fb0f35303ec28dc751d0a33bdfa4de6a99b7266494f6183b2716811637c"
    );
    assert_eq!(
        f(FnvKind::Fnv1a, FnvWidth::W512, b"a"),
        "e43a992dc8fc5ad7de493e3d696d6f85d64326ec07000000000000000011986f90c2532caf5be7d88291baa894a395225328b196bd6a8a643fe12cd87b27ff88"
    );
    assert_eq!(
        f(FnvKind::Fnv1a, FnvWidth::W1024, b"a"),
        "000000000000000098d7c19fbce653df221b9f717d3490ff95ca87fdaef30d1b823372f85b24a372f50e570000000000000000000000000000000000000000000000000000000000000000000000000000000000000000000000000007685cd81a491dbccc21ad06648d09a5c8cf5a78482054e91470b33dde77252caef695aa"
    );
    assert_eq!(
        f(FnvKind::Fnv1, FnvWidth::W1024, b"ab"),
        "00000000000000f46ef41cd23a4dcdd406834963b78e82241a6f5cb06f403cbd5a7c8903cef6a5f4fd72ce0000000000000000000000000000000000000000000000000000000000000000000000000000000000000000000000000b7cd7fb20c3631dc8903952e9eeb7f618698f4c87da23ad74b2c5f6f1fec4a64b541c1e1c"
    );
    assert_eq!(f(FnvKind::Fnv0, FnvWidth::W1024, b"").len(), 256);
    assert_eq!(f(FnvKind::Fnv1, FnvWidth::W512, b"").len(), 128);
    assert!(f(FnvKind::Fnv1, FnvWidth::W512, b"").starts_with("b86db0b1171f4416"));
}

#[test]
fn digest_vectors() {
    let f = |h, d: &[u8]| hex(&run(h, d, None).1.unwrap());
    assert_eq!(f(HashFunction::Md2, b""), "8350e5a3e24c153df2275c9f80692773");
    assert_eq!(f(HashFunction::Md4, b""), "31d6cfe0d16ae931b73c59d7e0c089c0");
    assert_eq!(f(HashFunction::Md5, b"abc"), "900150983cd24fb0d6963f7d28e17f72");
    assert_eq!(
        f(HashFunction::Sha2_256, b"abc"),
        "ba7816bf8f01cfea414140de5dae2223b00361a396177a9cb410ff61f20015ad"
    );
    assert_eq!(
        f(HashFunction::Sha3_256, b"abc"),
        "3a985da74fe225b2045c172d6bd390bd855f086e3e9d525b46bfe24511431532"
    );
    assert_eq!(
        f(HashFunction::Sha2_512, b"abc"),
        "ddaf35a193617abacc417349ae20413112e6fa4e89a97ea20a9eeee64b55d39a2192992a274fc1a836ba3c23a3feebbd454d4423643ce80e2a9ac94fa54ca49f"
    );
    assert_eq!(f(HashFunction::Sha2_224, b"abc").len(), 56);
    assert_eq!(f(HashFunction::Sha2_384, b"abc").len(), 96);
    assert_eq!(f(HashFunction::Sha3_224, b"abc").len(), 56);
    assert_eq!(f(HashFunction::Sha3_384, b"abc").len(), 96);
    assert_eq!(f(HashFunction::Sha3_512, b"abc").len(), 128);
    assert_eq!(f(HashFunction::Xxh3_64, b""), "2d06800538d394c2");
    assert_eq!(f(HashFunction::Murmur2_32, b""), "00000000");
    assert_eq!(f(HashFunction::Murmur3_x86_128, b"abc").len(), 32);
    assert_eq!(f(HashFunction::Murmur2a_64, b"abc").len(), 16);
    assert_eq!(f(HashFunction::Murmur2b_64, b"abc").len(), 16);
    assert_eq!(f(HashFunction::Murmur2a_32, b"abc").len(), 8);
    assert_eq!(f(HashFunction::Xxh3_128_seeded, b"abc").len(), 32);
    assert_eq!(f(HashFunction::Xxh3_64_seeded, b"abc").len(), 16);
    assert_eq!(f(HashFunction::Murmur3_x64_128, b"abc").len(), 32);
    assert_eq!(f(HashFunction::Xxh3_64_seeded, b""), f(HashFunction::Xxh3_64, b""));
}

#[test]
fn flags_of_entry_points() {
    assert_eq!(HashFunction::Xxh32.flags().bits(), 1);
    assert_eq!(HashFunction::Sip32_1_3.flags().bits(), 4);
    assert_eq!(HashFunction::Xxh3_64_with_secret.flags().bits(), 2);
    assert!(HashFunction::Sha1.flags().is_empty());
}

#[test]
fn sip128_digest_is_big_endian() {
    let opts = CHashOptions::with_keys(1, 2);
    let mut expected = siphasher::sip128::SipHasher13::new_with_keys(1, 2).hash(b"abc").as_bytes().to_vec();
    expected.reverse();
    let (s, out) = run(HashFunction::Sip128_1_3, b"abc", Some(&opts));
    assert_eq!(s, STATUS_OK);
    assert_eq!(out.unwrap(), expected);
    let mut expected = siphasher::sip128::SipHasher24::new_with_keys(1, 2).hash(b"abc").as_bytes().to_vec();
    expected.reverse();
    assert_eq!(run(HashFunction::Sip128_2_4, b"abc", Some(&opts)).1.unwrap(), expected);
}

#[test]
fn seed_zero_matches_unseeded_xxh3() {
    let zero = CHashOptions::with_seed(0);
    assert_eq!(
        run(HashFunction::Xxh3_64_seeded, b"abcdef", Some(&zero)),
        run(HashFunction::Xxh3_64, b"abcdef", None)
    );
    assert_eq!(
        run(HashFunction::Xxh3_128_seeded, b"abcdef", Some(&zero)),
        run(HashFunction::Xxh3_128, b"abcdef", None)
    );
}

#[test]
fn murmur3_in_memory_always_succeeds() {
    for f in [HashFunction::Murmur3_32, HashFunction::Murmur3_x64_128, HashFunction::Murmur3_x86_128] {
        let (s, out) = run(f, b"hello world", None);
        assert_eq!(s, STATUS_OK);
        assert_eq!(run(f, b"hello world", Some(&CHashOptions::with_seed(0))), (s, out));
    }
}
