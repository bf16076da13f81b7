use pallet_cv::Item;

#[test]
fn new_keeps_the_parts_and_zeroes_the_score() {
    let item = Item::new(3, 10, 11, 1234, Some(5), Some(6), Some(7), 99, b"cv1".to_vec());
    assert_eq!(item.id, 3);
    assert_eq!(item.owner, 10);
    assert_eq!(item.created_by, 11);
    assert_eq!(item.created_at, 1234);
    assert_eq!(item.valid_from, Some(5));
    assert_eq!(item.valid_until, Some(6));
    assert_eq!(item.certificate_ref, Some(7));
    assert_eq!(item.score, 0);
    assert_eq!(item.metadata, vec![b'c', b'v', b'1']);
}

#[test]
fn new_leaves_absent_parts_absent() {
    let item = Item::new(0, 1, 1, 0, None, None, None, 0, Vec::new());
    assert_eq!(item.valid_from, None);
    assert_eq!(item.valid_until, None);
    assert_eq!(item.certificate_ref, None);
    assert_eq!(item.metadata, Vec::<u8>::new());
}

#[test]
fn a_clone_equals_the_record() {
    let item = Item::new(3, 10, 11, 1234, Some(5), None, Some(7), 99, vec![1, 2, 3]);
    let copy = item.clone();
    assert_eq!(copy, item);
    assert_eq!(copy.metadata, vec![1, 2, 3]);
}

#[test]
fn an_open_window_is_ordered() {
    assert!(Item::new(0, 1, 1, 0, None, None, None, 0, Vec::new()).has_ordered_window());
    assert!(Item::new(0, 1, 1, 0, Some(9), None, None, 0, Vec::new()).has_ordered_window());
    assert!(Item::new(0, 1, 1, 0, None, Some(9), None, 0, Vec::new()).has_ordered_window());
}

#[test]
fn a_closed_window_is_ordered_when_it_does_not_end_before_it_starts() {
    assert!(Item::new(0, 1, 1, 0, Some(5), Some(9), None, 0, Vec::new()).has_ordered_window());
    assert!(Item::new(0, 1, 1, 0, Some(9), Some(9), None, 0, Vec::new()).has_ordered_window());
    assert!(!Item::new(0, 1, 1, 0, Some(10), Some(9), None, 0, Vec::new()).has_ordered_window());
}
