use atlas::hashes::{self, HashingAlgorithm};
use atlas::result::HashResult;

#[test]
fn bytes_render_as_pairs() {
    assert_eq!(HashResult::from_bytes(&[0x0a, 0xff, 0x00]).0, "0AFF00");
    assert_eq!(HashResult::from_bytes(&[]).0, "");
}

#[test]
fn numbers_render_without_leading_zeros() {
    assert_eq!(HashResult::from_number(&[0, 0, 0x0a, 0xbc]).0, "ABC");
    assert_eq!(HashResult::from_number(&[0, 0, 0, 5]).0, "05");
    assert_eq!(HashResult::from_number(&[0, 0, 0, 0]).0, "00");
    assert_eq!(HashResult::from_number(&[0x12, 0x34]).0, "1234");
}

#[test]
fn flip_endian_reverses_bytes() {
    let r = HashResult(String::from("0aff10"));
    assert!(r.is_hex());
    assert_eq!(r.flip_endian().0, "10FF0A");
    assert_eq!(hashes::flip_endian(HashResult(String::from("A1B2"))).0, "B2A1");
    assert!(!HashResult(String::from("ABC")).is_hex());
    assert!(!HashResult(String::from("zz")).is_hex());
}

#[test]
fn in_process_fnv() {
    assert_eq!(HashingAlgorithm::Fnv1a_32.hasher(b"a").0, "E40C292C");
    assert_eq!(HashingAlgorithm::Fnv0_32.hasher(b"").0, "00");
    assert_eq!(hashes::fnv::fnv1_32(b"a").0, "50C5D7E");
    assert_eq!(hashes::fnv::fnv0_256(b"ab").0, "610000000000000000000000000000000000000086E1");
    assert_eq!(hashes::fnv::fnv1a_64(b"a").0, "AF63DC4C8601EC8C");
}

#[test]
fn in_process_digests() {
    assert_eq!(HashingAlgorithm::Md5.hasher(b"abc").0, "900150983CD24FB0D6963F7D28E17F72");
    assert_eq!(hashes::sha::sha1(b"abc").0, "A9993E364706816ABA3E25717850C26C9CD0D89D");
    assert_eq!(hashes::sha::sha1(b"").0.len(), 40);
    assert_eq!(HashingAlgorithm::Sha2_256.hasher(b"abc").0.len(), 64);
    assert_eq!(HashingAlgorithm::Whirlpool.hasher(b"").0.len(), 128);
    assert_eq!(HashingAlgorithm::XxHash32.hasher(b"").0, "2CC5D05");
    assert_eq!(hashes::xxhash::xxh32(b"abc").0, "32D153FF");
    assert_eq!(hashes::xxhash::xxh64(b"abc").0, "44BC2CF5AD770999");
    assert_eq!(hashes::xxhash::xxh3_64(b"").0, "2D06800538D394C2");
    assert!(hashes::xxhash::xxh3_128(b"abc").0.len() <= 32);
    assert_eq!(hashes::murmur::murmur2_32(b"").0, "00");
    assert!(hashes::murmur::murmur2b_64(b"abc").0.len() <= 16);
    let sip = HashingAlgorithm::SipHash.hasher(b"abc").0;
    assert!(sip.len() >= 2 && sip.len() <= 16);
    assert_eq!(sip, HashingAlgorithm::SipHash.hasher(b"abc").0);
}
