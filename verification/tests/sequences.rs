use r3wm::sequences::IgnoredSequences;
use r3wm::sequences::CAPACITY;

#[test]
fn recorded_sequence_is_ignored_exactly_once() {
    let mut s = IgnoredSequences::new();
    s.add(41);
    assert!(s.is_ignored(41, 7));
    assert!(!s.is_ignored(41, 7));
    assert!(!s.is_ignored(41, 8));
    assert_eq!(s.len(), 0);
}

#[test]
fn untyped_record_covers_any_type() {
    let mut s = IgnoredSequences::new();
    s.add(9);
    assert!(s.is_ignored(9, 123456));
}

#[test]
fn unknown_sequence_is_not_ignored() {
    let mut s = IgnoredSequences::new();
    assert!(!s.is_ignored(1, 7));
    s.add(2);
    assert!(!s.is_ignored(1, 7));
    assert_eq!(s.len(), 1);
}

#[test]
fn typed_record_covers_only_its_type() {
    let mut s = IgnoredSequences::new();
    s.add_with_type(5, 7);
    assert!(!s.is_ignored(5, 8));
    assert_eq!(s.len(), 1);
    assert!(s.is_ignored(5, 7));
    assert!(!s.is_ignored(5, 7));
    assert_eq!(s.len(), 0);
}

#[test]
fn asking_uses_up_every_record_that_covers() {
    let mut s = IgnoredSequences::new();
    s.add(5);
    s.add_with_type(5, 7);
    s.add_with_type(5, 8);
    s.add(6);
    assert!(s.is_ignored(5, 7));
    assert_eq!(s.len(), 2);
    assert!(!s.is_ignored(5, 7));
    assert!(s.is_ignored(5, 8));
    assert!(s.is_ignored(6, 8));
    assert_eq!(s.len(), 0);
}

#[test]
fn oldest_record_gives_way_when_full() {
    let mut s = IgnoredSequences::new();
    for i in 0..CAPACITY as u16 {
        s.add(i);
    }
    assert_eq!(s.len(), CAPACITY);
    s.add(1000);
    assert_eq!(s.len(), CAPACITY);
    // The first record is gone, the second and the newest are there.
    assert!(!s.is_ignored(0, 7));
    assert!(s.is_ignored(1, 7));
    assert!(s.is_ignored(1000, 7));
    assert_eq!(s.len(), CAPACITY - 2);
}

#[test]
fn records_never_exceed_capacity() {
    let mut s = IgnoredSequences::new();
    for i in 0..1000u16 {
        s.add_with_type(i, 7);
        assert!(s.len() <= CAPACITY);
    }
    assert_eq!(s.len(), CAPACITY);
    assert!(!s.is_ignored(1000 - CAPACITY as u16 - 1, 7));
    assert!(s.is_ignored(1000 - CAPACITY as u16, 7));
}
