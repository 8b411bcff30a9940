use joshuto_tab::path::AbsPath;

fn p(parts: &[&str]) -> AbsPath {
    AbsPath::new(parts.iter().map(|s| s.to_string()).collect())
}

#[test]
fn root_has_no_parent() {
    let root = AbsPath::root();
    assert!(root.is_root());
    assert_eq!(root.depth(), 0);
    assert!(root.parent().is_none());
}

#[test]
fn empty_component_list_is_root() {
    let root = p(&[]);
    assert!(root.is_root());
    assert!(root.parent().is_none());
    assert_eq!(root, AbsPath::root());
}

#[test]
fn parent_strips_last_component() {
    let path = p(&["home", "u", "docs"]);
    let parent = path.parent().unwrap();
    assert_eq!(parent, p(&["home", "u"]));
    let grandparent = parent.parent().unwrap();
    assert_eq!(grandparent, p(&["home"]));
    let top = grandparent.parent().unwrap();
    assert!(top.is_root());
    assert!(top.parent().is_none());
}

#[test]
fn components_are_kept_in_order() {
    let path = p(&["home", "u", "docs"]);
    assert_eq!(path.depth(), 3);
    assert_eq!(path.component(0).as_str(), "home");
    assert_eq!(path.component(1).as_str(), "u");
    assert_eq!(path.component(2).as_str(), "docs");
}

#[test]
fn equality_compares_components() {
    assert_eq!(p(&["home", "u"]), p(&["home", "u"]));
    assert_ne!(p(&["home", "u"]), p(&["home", "v"]));
    assert_ne!(p(&["home", "u"]), p(&["home"]));
    assert_ne!(p(&["home"]), p(&[]));
    assert!(p(&["a"]).same_path(&p(&["a"])));
    assert!(!p(&["a"]).same_path(&p(&["b"])));
}

#[test]
fn clone_path_copies_every_component() {
    let path = p(&["home", "u", "docs"]);
    let copy = path.clone_path();
    assert_eq!(copy, path);
    assert_eq!(copy.depth(), 3);
    assert_eq!(copy.component(2).as_str(), "docs");
}
