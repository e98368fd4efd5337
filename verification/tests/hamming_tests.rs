use hash_collisions::hamming::closeness_to_50_percent;
use hash_collisions::hamming::hamming_distance;

#[test]
fn hamming_counts_differing_bits() {
    assert_eq!(hamming_distance(&[0xff], &[0x00]), 8);
    assert_eq!(hamming_distance(&[0b1010], &[0b0101]), 4);
    assert_eq!(hamming_distance(&[0x0f, 0xf0], &[0x0f, 0xf0]), 0);
    assert_eq!(hamming_distance(&[], &[]), 0);
    assert_eq!(hamming_distance(&[0xff, 0xff, 0xff, 0xff], &[0x00, 0x00, 0x00, 0x00]), 32);
}

#[test]
fn hamming_stops_at_shorter_input() {
    assert_eq!(hamming_distance(&[0xff, 0xff], &[0x00]), 8);
    assert_eq!(hamming_distance(&[0x00], &[0xff, 0xff]), 8);
}

#[test]
fn closeness_measures_deviation_from_half_the_bits() {
    assert_eq!(closeness_to_50_percent(64, 128), 0);
    assert_eq!(closeness_to_50_percent(70, 128), 6);
    assert_eq!(closeness_to_50_percent(60, 128), 4);
    assert_eq!(closeness_to_50_percent(0, 32), 16);
    assert_eq!(closeness_to_50_percent(32, 32), 16);
}
