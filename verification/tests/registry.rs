use r3wm::registry::FrameRegistry;

#[test]
fn new_registry_is_empty() {
    let r = FrameRegistry::new();
    assert_eq!(r.len(), 0);
    assert_eq!(r.get_by_left(1), None);
    assert_eq!(r.get_by_right(1), None);
}

#[test]
fn pair_is_found_from_either_side() {
    let mut r = FrameRegistry::new();
    assert!(r.insert(10, 100));
    assert!(r.insert(11, 101));
    assert_eq!(r.len(), 2);
    assert_eq!(r.get_by_left(10), Some(100));
    assert_eq!(r.get_by_left(11), Some(101));
    assert_eq!(r.get_by_right(100), Some(10));
    assert_eq!(r.get_by_right(101), Some(11));
    assert_eq!(r.get_by_left(100), None);
    assert_eq!(r.get_by_right(10), None);
}

#[test]
fn window_cannot_frame_itself() {
    let mut r = FrameRegistry::new();
    assert!(r.insert(10, 100));
    assert!(!r.insert(7, 7));
    assert!(!r.insert(10, 10));
    assert_eq!(r.len(), 1);
    assert_eq!(r.get_by_left(10), Some(100));
    assert_eq!(r.get_by_left(7), None);
}

#[test]
fn new_pair_replaces_pairs_it_collides_with() {
    let mut r = FrameRegistry::new();
    r.insert(10, 100);
    r.insert(11, 101);
    r.insert(12, 102);
    // Client 10 again, into the frame of 11.
    assert!(r.insert(10, 101));
    assert_eq!(r.len(), 2);
    assert_eq!(r.get_by_left(10), Some(101));
    assert_eq!(r.get_by_left(11), None);
    assert_eq!(r.get_by_right(100), None);
    assert_eq!(r.get_by_right(101), Some(10));
    assert_eq!(r.get_by_left(12), Some(102));
}

#[test]
fn window_is_never_client_and_frame_at_once() {
    let mut r = FrameRegistry::new();
    r.insert(10, 100);
    r.insert(11, 101);
    // The frame 100 becomes a client, the client 11 becomes a frame.
    assert!(r.insert(100, 11));
    assert_eq!(r.len(), 1);
    assert_eq!(r.get_by_left(100), Some(11));
    assert_eq!(r.get_by_right(11), Some(100));
    assert_eq!(r.get_by_left(10), None);
    assert_eq!(r.get_by_right(100), None);
    assert_eq!(r.get_by_left(11), None);
    assert_eq!(r.get_by_right(101), None);
}

#[test]
fn remove_by_left_takes_the_pair_out() {
    let mut r = FrameRegistry::new();
    r.insert(10, 100);
    r.insert(11, 101);
    assert_eq!(r.remove_by_left(10), Some(100));
    assert_eq!(r.len(), 1);
    assert_eq!(r.get_by_left(10), None);
    assert_eq!(r.get_by_right(100), None);
    assert_eq!(r.get_by_left(11), Some(101));
    assert_eq!(r.remove_by_left(10), None);
    assert_eq!(r.remove_by_left(101), None);
    assert_eq!(r.len(), 1);
}

#[test]
fn remove_by_right_takes_the_pair_out() {
    let mut r = FrameRegistry::new();
    r.insert(10, 100);
    r.insert(11, 101);
    assert_eq!(r.remove_by_right(101), Some(11));
    assert_eq!(r.len(), 1);
    assert_eq!(r.get_by_left(11), None);
    assert_eq!(r.remove_by_right(101), None);
    assert_eq!(r.remove_by_right(10), None);
    assert_eq!(r.get_by_right(100), Some(10));
}
