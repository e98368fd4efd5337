use hash_collisions::checksum::checksum_matches;
use hash_collisions::checksum::sha256_hex;
use hash_collisions::digest::ConstantDigester;
use hash_collisions::digest::Digester;
use hash_collisions::digest::Md5Digester;
use hash_collisions::hexfmt::to_hex;
use hash_collisions::hexfmt::to_hex_prefix;

#[test]
fn hex_renders_two_digits_per_byte() {
    assert_eq!(to_hex(&[]), "");
    assert_eq!(to_hex(&[0x00]), "00");
    assert_eq!(to_hex(&[0x00, 0xff, 0x1a]), "00ff1a");
    assert_eq!(to_hex(&[0xde, 0xad, 0xbe, 0xef]), "deadbeef");
}

#[test]
fn hex_prefix_takes_leading_digits() {
    assert_eq!(to_hex_prefix(&[0x00, 0xff, 0x1a], 3), "00f");
    assert_eq!(to_hex_prefix(&[0xab, 0xcd], 0), "");
    assert_eq!(to_hex_prefix(&[0xab, 0xcd], 4), "abcd");
}

#[test]
fn md5_digester_matches_known_vectors() {
    let d = Md5Digester::new();
    assert_eq!(to_hex(&d.digest(&b"abc".to_vec())), "900150983cd24fb0d6963f7d28e17f72");
    assert_eq!(to_hex(&d.digest(&Vec::new())), "d41d8cd98f00b204e9800998ecf8427e");
}

#[test]
fn constant_digester_always_returns_zeroes() {
    let d = ConstantDigester::new();
    assert_eq!(d.digest(&b"one".to_vec()), vec![0u8; 16]);
    assert_eq!(d.digest(&b"two".to_vec()), vec![0u8; 16]);
}

#[test]
fn sha256_matches_known_vectors() {
    assert_eq!(
        sha256_hex(&[]),
        "e3b0c44298fc1c149afbf4c8996fb92427ae41e4649b934ca495991b7852b855"
    );
    assert_eq!(
        sha256_hex(b"abc"),
        "ba7816bf8f01cfea414140de5dae2223b00361a396177a9cb410ff61f20015ad"
    );
}

#[test]
fn checksum_comparison_decides_by_content() {
    let expected = "ba7816bf8f01cfea414140de5dae2223b00361a396177a9cb410ff61f20015ad".to_string();
    assert!(checksum_matches(b"abc", &expected));
    assert!(!checksum_matches(b"abd", &expected));
}
