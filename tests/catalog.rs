use termirust::catalog::{EntryCatalog, EntryKind, EnumerationError};
use termirust::path::DirPath;

fn listing(items: &[(&str, EntryKind)]) -> Vec<(String, EntryKind)> {
    items.iter().map(|(n, k)| (n.to_string(), *k)).collect()
}

#[test]
fn enumerate_numbers_entries_in_listing_order() {
    let dir = DirPath::parse("/home/user");
    let l = listing(&[("docs", EntryKind::Directory), ("a.txt", EntryKind::File), ("b", EntryKind::Directory)]);
    let c = EntryCatalog::enumerate(dir, Ok(l)).unwrap();
    assert_eq!(c.len(), 3);
    let names = ["docs", "a.txt", "b"];
    let kinds = [EntryKind::Directory, EntryKind::File, EntryKind::Directory];
    for i in 0..3 {
        let e = c.entry(i).unwrap();
        assert_eq!(e.name, names[i]);
        assert_eq!(e.kind, kinds[i]);
        assert_eq!(e.stable_index, i);
    }
    assert!(c.entry(3).is_none());
    assert_eq!(c.dir().render(), "/home/user");
}

#[test]
fn enumerate_of_empty_directory() {
    let c = EntryCatalog::enumerate(DirPath::parse("/empty"), Ok(Vec::new())).unwrap();
    assert_eq!(c.len(), 0);
    assert!(c.entry(0).is_none());
}

#[test]
fn enumerate_hands_back_each_error() {
    for e in [EnumerationError::NotADirectory, EnumerationError::PermissionDenied, EnumerationError::PathNotFound] {
        let r = EntryCatalog::enumerate(DirPath::parse("/x"), Err(e));
        assert_eq!(r.err(), Some(e));
    }
}

#[test]
fn catalog_describes_its_directory_only() {
    let c = EntryCatalog::enumerate(DirPath::parse("/home/user"), Ok(Vec::new())).unwrap();
    assert!(c.describes(&DirPath::parse("/home/user/")));
    assert!(!c.describes(&DirPath::parse("/home")));
}
