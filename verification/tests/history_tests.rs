use joshuto_tab::fs::JoshutoDirEntry;
use joshuto_tab::fs::JoshutoDirList;
use joshuto_tab::history::PathMap;
use joshuto_tab::path::AbsPath;

fn p(parts: &[&str]) -> AbsPath {
    AbsPath::new(parts.iter().map(|s| s.to_string()).collect())
}

fn listing(entry_paths: &[&[&str]], index: Option<usize>) -> JoshutoDirList {
    let contents: Vec<JoshutoDirEntry> =
        entry_paths.iter().map(|parts| JoshutoDirEntry::new(p(parts))).collect();
    JoshutoDirList::new(contents, index)
}

#[test]
fn empty_map_has_nothing() {
    let map: PathMap<u32> = PathMap::new();
    assert!(map.get(&p(&["a"])).is_none());
    assert!(map.get(&AbsPath::root()).is_none());
    assert!(!map.contains_key(&p(&["a"])));
}

#[test]
fn get_returns_what_insert_stored() {
    let mut map: PathMap<u32> = PathMap::new();
    map.insert(p(&["a"]), 1);
    map.insert(p(&["a", "b"]), 2);
    assert_eq!(map.get(&p(&["a"])), Some(&1));
    assert_eq!(map.get(&p(&["a", "b"])), Some(&2));
    assert!(map.get(&p(&["b"])).is_none());
    assert!(map.contains_key(&p(&["a"])));
    assert!(!map.contains_key(&p(&["c"])));
}

#[test]
fn insert_replaces_the_old_value() {
    let mut map: PathMap<u32> = PathMap::new();
    map.insert(p(&["a"]), 1);
    map.insert(p(&["a"]), 9);
    assert_eq!(map.get(&p(&["a"])), Some(&9));
}

#[test]
fn get_mut_updates_in_place() {
    let mut map: PathMap<u32> = PathMap::new();
    map.insert(p(&["a"]), 1);
    assert!(map.get_mut(&p(&["b"])).is_none());
    let v = map.get_mut(&p(&["a"])).unwrap();
    *v = 7;
    assert_eq!(map.get(&p(&["a"])), Some(&7));
}

#[test]
fn listings_round_trip_through_the_cache() {
    let mut map: PathMap<JoshutoDirList> = PathMap::new();
    map.insert(p(&["home"]), listing(&[&["home", "u"], &["home", "v"]], Some(1)));
    let l = map.get(&p(&["home"])).unwrap();
    assert_eq!(l.len(), 2);
    assert_eq!(l.get_index(), Some(1));
    assert_eq!(l.entry_at(0).file_path(), &p(&["home", "u"]));
    assert_eq!(l.entry_at(1).file_path(), &p(&["home", "v"]));
}

#[test]
fn listing_selection_can_move_and_clear() {
    let mut l = listing(&[&["a"], &["b"], &["c"]], None);
    assert_eq!(l.get_index(), None);
    assert_eq!(l.len(), 3);
    l.set_index(Some(2));
    assert_eq!(l.get_index(), Some(2));
    l.set_index(None);
    assert_eq!(l.get_index(), None);
}
