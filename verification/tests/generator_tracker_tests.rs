use hash_collisions::generator::MessageGenerator;
use hash_collisions::generator::candidate_message;
use hash_collisions::tracker::CollisionTracker;

#[test]
fn generator_counts_from_one() {
    let mut g = MessageGenerator::new();
    assert_eq!(g.next_candidate(), 1);
    assert_eq!(g.next_candidate(), 2);
    assert_eq!(g.next_candidate(), 3);
}

#[test]
fn generator_is_deterministic_across_restarts() {
    let mut g1 = MessageGenerator::new();
    let first: Vec<u64> = (0..100).map(|_| g1.next_candidate()).collect();
    let mut g2 = MessageGenerator::new();
    let second: Vec<u64> = (0..100).map(|_| g2.next_candidate()).collect();
    assert_eq!(first, second);
}

#[test]
fn candidate_message_is_little_endian() {
    assert_eq!(candidate_message(1), vec![1, 0, 0, 0, 0, 0, 0, 0]);
    assert_eq!(candidate_message(0x0102030405060708), vec![8, 7, 6, 5, 4, 3, 2, 1]);
    assert_eq!(candidate_message(258), 258u64.to_le_bytes().to_vec());
}

#[test]
fn tracker_reports_first_entry_on_repeat() {
    let mut t = CollisionTracker::new();
    assert_eq!(t.observe(42, 1, "aa".to_string()), None);
    assert_eq!(t.observe(7, 2, "bb".to_string()), None);
    assert_eq!(t.observe(42, 3, "cc".to_string()), Some((1, "aa".to_string())));
}

#[test]
fn tracker_never_overwrites_first_occurrence() {
    let mut t = CollisionTracker::new();
    assert_eq!(t.observe(5, 10, "first".to_string()), None);
    // Repeated observations keep reporting the original entry.
    assert_eq!(t.observe(5, 11, "second".to_string()), Some((10, "first".to_string())));
    assert_eq!(t.observe(5, 12, "third".to_string()), Some((10, "first".to_string())));
    assert_eq!(t.len(), 1);
}

#[test]
fn tracker_len_counts_distinct_values() {
    let mut t = CollisionTracker::new();
    assert_eq!(t.len(), 0);
    t.observe(1, 1, "a".to_string());
    t.observe(2, 2, "b".to_string());
    t.observe(1, 3, "c".to_string());
    assert_eq!(t.len(), 2);
}
