use db_mg::paths::{
    base_name, is_absolute_path, is_canonical_path, join_path, parent_path, path_is_under,
    relative_path_from, resolve_against, str_eq, trim_str,
};

#[test]
fn absolute_detection() {
    assert!(is_absolute_path("/a"));
    assert!(is_absolute_path("/"));
    assert!(!is_absolute_path("a"));
    assert!(!is_absolute_path(""));
    assert!(!is_absolute_path("a/b"));
}

#[test]
fn join_inserts_single_separator() {
    assert_eq!(join_path("/base", "sub"), "/base/sub");
    assert_eq!(join_path("/base", "a/b"), "/base/a/b");
    assert_eq!(join_path("/", "x"), "/x");
    assert_eq!(join_path("", "x"), "x");
    assert_eq!(join_path("/base", ""), "/base/");
}

#[test]
fn resolve_against_current() {
    assert_eq!(resolve_against("/cur", "sub"), "/cur/sub");
    assert_eq!(resolve_against("/cur", "/abs/p"), "/abs/p");
    assert_eq!(resolve_against("/cur", "a/b/c"), "/cur/a/b/c");
}

#[test]
fn canonical_shape() {
    assert!(is_canonical_path("/a/b"));
    assert!(is_canonical_path("/"));
    assert!(is_canonical_path("/a"));
    assert!(!is_canonical_path("a"));
    assert!(!is_canonical_path(""));
    assert!(!is_canonical_path("/a/"));
    assert!(!is_canonical_path("/a//b"));
}

#[test]
fn containment_at_component_boundaries() {
    assert!(path_is_under("/a/b", "/a/b"));
    assert!(path_is_under("/a/b", "/a/b/c"));
    assert!(path_is_under("/a/b", "/a/b/c/d"));
    assert!(!path_is_under("/a/b", "/a/bc"));
    assert!(!path_is_under("/a/b", "/a"));
    assert!(!path_is_under("/a", "/b"));
    assert!(path_is_under("/", "/x"));
    assert!(path_is_under("/", "/"));
}

#[test]
fn parent_of_canonical_paths() {
    assert_eq!(parent_path("/a/b"), "/a");
    assert_eq!(parent_path("/a/b/c"), "/a/b");
    assert_eq!(parent_path("/a"), "/");
    assert_eq!(parent_path("/"), "/");
}

#[test]
fn base_name_of_paths() {
    assert_eq!(base_name("/a/b"), Some("b".to_string()));
    assert_eq!(base_name("/a/b.txt"), Some("b.txt".to_string()));
    assert_eq!(base_name("plain"), Some("plain".to_string()));
    assert_eq!(base_name("/a/b/"), None);
    assert_eq!(base_name("/"), None);
}

#[test]
fn relative_paths() {
    assert_eq!(relative_path_from("/a", "/a/b/c"), "b/c");
    assert_eq!(relative_path_from("/a", "/a"), "");
    assert_eq!(relative_path_from("/", "/x"), "x");
}

#[test]
fn string_equality_and_trim() {
    assert!(str_eq("abc", "abc"));
    assert!(!str_eq("abc", "abd"));
    assert!(!str_eq("abc", "ab"));
    assert_eq!(trim_str("  x \t"), "x");
    assert_eq!(trim_str("\r\n a b \n"), "a b");
    assert_eq!(trim_str(""), "");
    assert_eq!(trim_str("   "), "");
}
