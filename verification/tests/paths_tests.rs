use limage::paths::{base_name, last_slash, parent_dir};

#[test]
fn last_slash_position() {
    assert_eq!(last_slash("a/b/c"), Some(3));
    assert_eq!(last_slash("/x"), Some(0));
    assert_eq!(last_slash("abc"), None);
    assert_eq!(last_slash(""), None);
    assert_eq!(last_slash("a/"), Some(1));
}

#[test]
fn parent_of_nested_path() {
    assert_eq!(parent_dir("target/kernel.iso"), Some("target".to_string()));
    assert_eq!(parent_dir("a/b/c"), Some("a/b".to_string()));
}

#[test]
fn parent_of_bare_name() {
    assert_eq!(parent_dir("kernel.iso"), None);
    assert_eq!(parent_dir(""), None);
}

#[test]
fn base_name_of_paths() {
    assert_eq!(base_name("a/b/c"), "c");
    assert_eq!(base_name("deps"), "deps");
    assert_eq!(base_name("x/"), "");
    assert_eq!(base_name(""), "");
}
