use guest_bridge::registry::{cascade_check, Registry};

fn filled_registry() -> Registry {
    let mut reg = Registry::new();
    assert!(reg.insert("root".to_owned(), 1));
    assert!(reg.insert("root.label".to_owned(), 2));
    assert!(reg.insert("root.label.glyph".to_owned(), 3));
    assert!(reg.insert("roots".to_owned(), 4));
    reg
}

#[test]
fn insert_and_lookup() {
    let mut reg = Registry::new();
    assert_eq!(reg.lookup(&"hud".to_owned()), None);
    assert!(reg.insert("hud".to_owned(), 7));
    assert_eq!(reg.lookup(&"hud".to_owned()), Some(7));
    assert_eq!(reg.lookup(&"hu".to_owned()), None);
    assert_eq!(reg.lookup(&"hud2".to_owned()), None);
}

#[test]
fn insert_refuses_live_name() {
    let mut reg = Registry::new();
    assert!(reg.insert("hud".to_owned(), 7));
    assert!(!reg.insert("hud".to_owned(), 8));
    assert_eq!(reg.lookup(&"hud".to_owned()), Some(7));
}

#[test]
fn name_reusable_after_removal() {
    let mut reg = Registry::new();
    assert!(reg.insert("hud".to_owned(), 7));
    let removed = reg.remove_cascade(&"hud".to_owned());
    assert_eq!(removed, vec![7]);
    assert!(reg.insert("hud".to_owned(), 8));
    assert_eq!(reg.lookup(&"hud".to_owned()), Some(8));
}

#[test]
fn remove_absent_name_is_noop() {
    let mut reg = filled_registry();
    let removed = reg.remove_cascade(&"missing".to_owned());
    assert!(removed.is_empty());
    assert_eq!(reg.lookup(&"root".to_owned()), Some(1));
    assert_eq!(reg.lookup(&"root.label".to_owned()), Some(2));
    assert_eq!(reg.lookup(&"root.label.glyph".to_owned()), Some(3));
    assert_eq!(reg.lookup(&"roots".to_owned()), Some(4));
}

#[test]
fn remove_absent_parent_does_not_cascade() {
    let mut reg = Registry::new();
    assert!(reg.insert("root.label".to_owned(), 2));
    let removed = reg.remove_cascade(&"root".to_owned());
    assert!(removed.is_empty());
    assert_eq!(reg.lookup(&"root.label".to_owned()), Some(2));
}

#[test]
fn remove_root_cascades_through_all_children() {
    let mut reg = filled_registry();
    let removed = reg.remove_cascade(&"root".to_owned());
    assert_eq!(removed, vec![1, 2, 3]);
    assert_eq!(reg.lookup(&"root".to_owned()), None);
    assert_eq!(reg.lookup(&"root.label".to_owned()), None);
    assert_eq!(reg.lookup(&"root.label.glyph".to_owned()), None);
    assert_eq!(reg.lookup(&"roots".to_owned()), Some(4));
}

#[test]
fn remove_inner_name_cascades_below_it_only() {
    let mut reg = filled_registry();
    let removed = reg.remove_cascade(&"root.label".to_owned());
    assert_eq!(removed, vec![2, 3]);
    assert_eq!(reg.lookup(&"root".to_owned()), Some(1));
    assert_eq!(reg.lookup(&"roots".to_owned()), Some(4));
}

#[test]
fn remove_sibling_without_separator_match_removes_nothing_else() {
    let mut reg = filled_registry();
    let removed = reg.remove_cascade(&"roots".to_owned());
    assert_eq!(removed, vec![4]);
    assert_eq!(reg.lookup(&"root".to_owned()), Some(1));
    assert_eq!(reg.lookup(&"root.label".to_owned()), Some(2));
    assert_eq!(reg.lookup(&"root.label.glyph".to_owned()), Some(3));
}

#[test]
fn cascade_check_requires_separator() {
    assert!(cascade_check(&"a".to_owned(), &"a".to_owned()));
    assert!(cascade_check(&"a".to_owned(), &"a.b".to_owned()));
    assert!(cascade_check(&"a".to_owned(), &"a.b.c".to_owned()));
    assert!(!cascade_check(&"a".to_owned(), &"ab".to_owned()));
    assert!(!cascade_check(&"a".to_owned(), &"b.a".to_owned()));
    assert!(!cascade_check(&"root".to_owned(), &"roots".to_owned()));
    assert!(!cascade_check(&"a.b".to_owned(), &"a".to_owned()));
}
