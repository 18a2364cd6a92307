use local_ta::store;
use local_ta::store::{entry_name, IoFailure, RawEntry, StdDirIterator};
use local_ta::Error;

fn name(s: &str) -> RawEntry {
    RawEntry::Name(s.as_bytes().to_vec())
}

#[test]
fn what_was_read_is_handed_on_untouched() {
    assert_eq!(store::read(Ok(vec![1, 2, 3])), Ok(vec![1, 2, 3]));
    assert_eq!(store::read(Ok(vec![])), Ok(vec![]));
    assert_eq!(store::read(Ok(vec![0, 0xFF, 0x80])), Ok(vec![0, 0xFF, 0x80]));
}

#[test]
fn reading_a_blob_that_is_not_there_reports_not_found() {
    assert_eq!(store::read(Err(IoFailure::NotFound)), Err(Error::NotFound));
}

#[test]
fn a_read_that_hits_a_storage_fault_reports_internal() {
    assert_eq!(store::read(Err(IoFailure::Other)), Err(Error::Internal));
}

#[test]
fn a_write_that_fails_reports_internal() {
    assert_eq!(store::write(Ok(())), Ok(()));
    assert_eq!(store::write(Err(IoFailure::Other)), Err(Error::Internal));
    assert_eq!(store::write(Err(IoFailure::NotFound)), Err(Error::Internal));
}

#[test]
fn deleting_a_blob_that_is_not_there_reports_not_found() {
    assert_eq!(store::delete(Ok(())), Ok(()));
    assert_eq!(store::delete(Err(IoFailure::NotFound)), Err(Error::NotFound));
}

#[test]
fn a_delete_that_hits_a_storage_fault_reports_internal() {
    assert_eq!(store::delete(Err(IoFailure::Other)), Err(Error::Internal));
}

#[test]
fn a_directory_that_cannot_be_read_reports_internal() {
    assert!(matches!(store::list(Err(IoFailure::Other)), Err(Error::Internal)));
    assert!(matches!(store::list(Err(IoFailure::NotFound)), Err(Error::Internal)));
}

#[test]
fn listing_yields_every_name_once_and_in_order() {
    let mut it = store::list(Ok(vec![name("1000"), name("user-7"), name("a b.bin")])).unwrap();
    assert_eq!(it.next(), Some("1000".to_string()));
    assert_eq!(it.next(), Some("user-7".to_string()));
    assert_eq!(it.next(), Some("a b.bin".to_string()));
    assert_eq!(it.next(), None);
    assert_eq!(it.next(), None);
    assert_eq!(it.skipped(), 0);
}

#[test]
fn listing_an_empty_directory_yields_nothing() {
    let mut it = store::list(Ok(vec![])).unwrap();
    assert_eq!(it.next(), None);
    assert_eq!(it.skipped(), 0);
}

#[test]
fn entries_without_a_name_are_passed_over() {
    let mut it = StdDirIterator::new(vec![
        RawEntry::Name(vec![0xFF, 0xFE]),
        name("first"),
        RawEntry::Unreadable,
        RawEntry::Name(vec![b'a', 0xC3]),
        name("second"),
        RawEntry::Name(vec![0xED, 0xA0, 0x80]),
    ]);
    assert_eq!(it.skipped(), 0);
    assert_eq!(it.next(), Some("first".to_string()));
    assert_eq!(it.skipped(), 1);
    assert_eq!(it.next(), Some("second".to_string()));
    assert_eq!(it.skipped(), 3);
    assert_eq!(it.next(), None);
    assert_eq!(it.skipped(), 4);
    assert_eq!(it.next(), None);
    assert_eq!(it.skipped(), 4);
}

#[test]
fn names_are_decoded_as_utf8() {
    let mut it = StdDirIterator::new(vec![
        RawEntry::Name(vec![0x61, 0x62]),
        RawEntry::Name(vec![0xC3, 0xA9]),
        RawEntry::Name(vec![0xE2, 0x82, 0xAC, 0x31]),
        RawEntry::Name(vec![0xF0, 0x9F, 0x94, 0x91]),
        RawEntry::Name(vec![]),
    ]);
    assert_eq!(it.next(), Some("ab".to_string()));
    assert_eq!(it.next(), Some("\u{e9}".to_string()));
    assert_eq!(it.next(), Some("\u{20ac}1".to_string()));
    assert_eq!(it.next(), Some("\u{1f511}".to_string()));
    assert_eq!(it.next(), Some(String::new()));
    assert_eq!(it.next(), None);
    assert_eq!(it.skipped(), 0);
}

#[test]
fn an_entry_stands_for_a_name_only_if_its_bytes_are_utf8() {
    assert_eq!(entry_name(&name("counter")), Some("counter".to_string()));
    assert_eq!(entry_name(&RawEntry::Name(vec![0x80])), None);
    assert_eq!(entry_name(&RawEntry::Name(vec![0xC0, 0xAF])), None);
    assert_eq!(entry_name(&RawEntry::Name(vec![0xF4, 0x90, 0x80, 0x80])), None);
    assert_eq!(entry_name(&RawEntry::Unreadable), None);
}

#[test]
fn entries_may_be_handed_to_the_walk_one_by_one() {
    let mut it = store::list(Ok(vec![])).unwrap();
    assert_eq!(it.next(), None);
    it.push(RawEntry::Name(vec![0xFF]));
    it.push(name("first"));
    assert_eq!(it.next(), Some("first".to_string()));
    assert_eq!(it.skipped(), 1);
    assert_eq!(it.next(), None);
    it.push(RawEntry::Unreadable);
    assert_eq!(it.next(), None);
    assert_eq!(it.skipped(), 2);
    it.push(name("second"));
    it.push(name("third"));
    assert_eq!(it.next(), Some("second".to_string()));
    assert_eq!(it.next(), Some("third".to_string()));
    assert_eq!(it.next(), None);
    assert_eq!(it.skipped(), 2);
}

#[test]
fn the_walk_visits_no_entry_twice() {
    let mut it = StdDirIterator::new(vec![name("a"), name("b")]);
    assert_eq!(it.next(), Some("a".to_string()));
    it.push(name("c"));
    assert_eq!(it.next(), Some("b".to_string()));
    assert_eq!(it.next(), Some("c".to_string()));
    assert_eq!(it.next(), None);
    assert_eq!(it.next(), None);
}
