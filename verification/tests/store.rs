use pallet_cv::store::position;
use pallet_cv::{Error, Item, RecordStore};

fn item(id: u64, owner: u64) -> Item {
    Item::new(id, owner, owner, 0, None, None, None, 0, Vec::new())
}

#[test]
fn new_store_holds_nothing() {
    let store = RecordStore::new();
    assert_eq!(store.get(0), None);
    assert_eq!(store.list_by_owner(0), Vec::<u64>::new());
}

#[test]
fn insert_files_the_record_both_ways() {
    let mut store = RecordStore::new();
    assert_eq!(store.insert(item(5, 1)), Ok(()));
    assert_eq!(store.get(5), Some(item(5, 1)));
    assert_eq!(store.list_by_owner(1), vec![5]);
    assert_eq!(store.list_by_owner(2), Vec::<u64>::new());
}

#[test]
fn insert_appends_to_the_owners_list() {
    let mut store = RecordStore::new();
    assert_eq!(store.insert(item(5, 1)), Ok(()));
    assert_eq!(store.insert(item(3, 1)), Ok(()));
    assert_eq!(store.insert(item(9, 1)), Ok(()));
    assert_eq!(store.list_by_owner(1), vec![5, 3, 9]);
}

#[test]
fn insert_refuses_a_live_identifier() {
    let mut store = RecordStore::new();
    assert_eq!(store.insert(item(5, 1)), Ok(()));
    assert_eq!(store.insert(item(5, 2)), Err(Error::DuplicateIdentifier));
    assert_eq!(store.get(5), Some(item(5, 1)));
    assert_eq!(store.list_by_owner(1), vec![5]);
    assert_eq!(store.list_by_owner(2), Vec::<u64>::new());
}

#[test]
fn remove_by_owner_deletes_the_record() {
    let mut store = RecordStore::new();
    assert_eq!(store.insert(item(5, 1)), Ok(()));
    assert_eq!(store.insert(item(6, 1)), Ok(()));
    assert_eq!(store.remove_by_owner(1, 5), Ok(()));
    assert_eq!(store.get(5), None);
    assert_eq!(store.get(6), Some(item(6, 1)));
    assert_eq!(store.list_by_owner(1), vec![6]);
}

#[test]
fn remove_by_owner_fails_for_an_identifier_not_listed() {
    let mut store = RecordStore::new();
    assert_eq!(store.insert(item(5, 1)), Ok(()));
    assert_eq!(store.remove_by_owner(1, 6), Err(Error::NotFound));
    assert_eq!(store.remove_by_owner(2, 5), Err(Error::NotFound));
    assert_eq!(store.get(5), Some(item(5, 1)));
    assert_eq!(store.list_by_owner(1), vec![5]);
}

#[test]
fn remove_by_owner_fails_the_second_time() {
    let mut store = RecordStore::new();
    assert_eq!(store.insert(item(5, 1)), Ok(()));
    assert_eq!(store.remove_by_owner(1, 5), Ok(()));
    assert_eq!(store.remove_by_owner(1, 5), Err(Error::NotFound));
    assert_eq!(store.list_by_owner(1), Vec::<u64>::new());
}

#[test]
fn a_removed_identifier_can_be_inserted_again() {
    let mut store = RecordStore::new();
    assert_eq!(store.insert(item(5, 1)), Ok(()));
    assert_eq!(store.remove_by_owner(1, 5), Ok(()));
    assert_eq!(store.insert(item(5, 2)), Ok(()));
    assert_eq!(store.get(5), Some(item(5, 2)));
    assert_eq!(store.list_by_owner(1), Vec::<u64>::new());
    assert_eq!(store.list_by_owner(2), vec![5]);
}

#[test]
fn remove_by_owner_swaps_the_last_entry_in() {
    let mut store = RecordStore::new();
    for id in [10u64, 11, 12, 13, 14] {
        assert_eq!(store.insert(item(id, 1)), Ok(()));
    }
    assert_eq!(store.remove_by_owner(1, 10), Ok(()));
    assert_eq!(store.list_by_owner(1), vec![14, 11, 12, 13]);
    assert_eq!(store.remove_by_owner(1, 13), Ok(()));
    assert_eq!(store.list_by_owner(1), vec![14, 11, 12]);
}

#[test]
fn get_returns_a_copy() {
    let mut store = RecordStore::new();
    let kept = Item::new(5, 1, 2, 3, Some(4), Some(6), Some(7), 8, vec![1, 2]);
    assert_eq!(store.insert(kept), Ok(()));
    let mut copy = store.get(5).unwrap();
    copy.metadata.push(3);
    copy.owner = 9;
    let again = store.get(5).unwrap();
    assert_eq!(again.metadata, vec![1, 2]);
    assert_eq!(again.owner, 1);
}

#[test]
fn list_by_owner_returns_a_copy() {
    let mut store = RecordStore::new();
    assert_eq!(store.insert(item(5, 1)), Ok(()));
    let mut list = store.list_by_owner(1);
    list.push(6);
    assert_eq!(store.list_by_owner(1), vec![5]);
}

#[test]
fn position_finds_the_first_occurrence() {
    assert_eq!(position(&vec![4, 7, 9, 7], 7), Some(1));
    assert_eq!(position(&vec![4, 7, 9], 4), Some(0));
    assert_eq!(position(&vec![4, 7, 9], 9), Some(2));
    assert_eq!(position(&vec![4, 7, 9], 5), None);
    assert_eq!(position(&Vec::new(), 5), None);
}
