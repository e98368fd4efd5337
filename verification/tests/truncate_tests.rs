use hash_collisions::truncate::truncate_hash;

#[test]
fn truncate_single_byte() {
    let digest = [0xabu8, 0xcd, 0x12, 0x34, 0x56, 0x78, 0x9a, 0xbc, 0xde, 0xf0];
    assert_eq!(truncate_hash(&digest, 8), 0xab);
}

#[test]
fn truncate_sub_byte_width_masks_top_bits() {
    let digest = [0xabu8, 0xcd];
    // 4 bits: only the low nibble of the first byte survives.
    assert_eq!(truncate_hash(&digest, 4), 0x0b);
    // 12 bits: both bytes packed little-endian (0xcdab), masked to 12 bits.
    assert_eq!(truncate_hash(&digest, 12), 0xdab);
    // 1 bit: just the lowest bit of the first byte.
    assert_eq!(truncate_hash(&digest, 1), 0x1);
}

#[test]
fn truncate_has_no_bits_at_or_above_width() {
    let digest = [0xffu8; 16];
    for bits in 1..64u32 {
        let r = truncate_hash(&digest, bits);
        assert!(r < (1u64 << bits));
        assert_eq!(r, (1u64 << bits) - 1);
    }
}

#[test]
fn truncate_is_pure() {
    let digest = [0x01u8, 0x23, 0x45, 0x67, 0x89, 0xab, 0xcd, 0xef];
    for bits in [1u32, 7, 8, 9, 16, 24, 33, 63, 64] {
        assert_eq!(truncate_hash(&digest, bits), truncate_hash(&digest, bits));
    }
}

#[test]
fn truncate_full_width_uses_whole_accumulator() {
    let digest = [0x01u8, 0x23, 0x45, 0x67, 0x89, 0xab, 0xcd, 0xef, 0x11, 0x22];
    let packed = u64::from_le_bytes([0x01, 0x23, 0x45, 0x67, 0x89, 0xab, 0xcd, 0xef]);
    assert_eq!(truncate_hash(&digest, 64), packed);

    let all_ones = [0xffu8; 8];
    assert_eq!(truncate_hash(&all_ones, 64), u64::MAX);
}
