use rusty_dam::name_path::ClassificationNamePath;

#[test]
fn parse_and_print_path() {
    let p = ClassificationNamePath::from_str("/Brands/Armani/Jeans");
    assert_eq!(p.to_string(), "/Brands/Armani/Jeans");
    assert_eq!(p.name(), "Jeans");
}

#[test]
fn parse_ignores_repeated_and_trailing_separators() {
    let p = ClassificationNamePath::from_str("//Brands///Armani/");
    assert_eq!(p.to_string(), "/Brands/Armani");
    let q = ClassificationNamePath::from_str("Brands/Armani");
    assert!(p.same_path(&q));
}

#[test]
fn has_nodes_detects_empty_paths() {
    assert!(!ClassificationNamePath::has_nodes(""));
    assert!(!ClassificationNamePath::has_nodes("///"));
    assert!(ClassificationNamePath::has_nodes("/a"));
    assert!(ClassificationNamePath::has_nodes("a"));
}

#[test]
fn parent_drops_last_node() {
    let p = ClassificationNamePath::from_str("/a/b/c");
    let parent = p.parent().unwrap();
    assert_eq!(parent.to_string(), "/a/b");
    assert_eq!(parent.name(), "b");
    let root = ClassificationNamePath::from_str("/a");
    assert!(root.parent().is_none());
}

#[test]
fn append_then_parent_gives_back_path() {
    let mut p = ClassificationNamePath::from_str("/a/b");
    let before = ClassificationNamePath::from_str("/a/b");
    p.append_node_unchecked("c".to_string());
    assert_eq!(p.name(), "c");
    assert!(p.parent().unwrap().same_path(&before));
}

#[test]
fn set_name_replaces_last_node() {
    let mut p = ClassificationNamePath::from_str("/a/b");
    p.set_name("z".to_string());
    assert_eq!(p.to_string(), "/a/z");
}

#[test]
fn print_then_parse_round_trip() {
    let p = ClassificationNamePath::from_path(vec!["x".to_string(), "yy".to_string(), "zzz".to_string()]);
    let text = p.to_string();
    assert_eq!(text, "/x/yy/zzz");
    let q = ClassificationNamePath::from_str(&text);
    assert!(p.same_path(&q));
}

#[test]
fn parse_is_idempotent_on_printed_text() {
    let p = ClassificationNamePath::from_str("a//b/");
    let q = ClassificationNamePath::from_str(&p.to_string());
    assert!(p.same_path(&q));
}

#[test]
fn same_path_compares_nodes() {
    let a = ClassificationNamePath::from_str("/a/b");
    let b = ClassificationNamePath::from_str("/a/c");
    let c = ClassificationNamePath::from_str("/a");
    assert!(!a.same_path(&b));
    assert!(!a.same_path(&c));
    assert!(a.same_path(&a));
}
