use mk::text::{join_path, split_fields, split_words, starts_with_after_space};

fn strings(v: &[&str]) -> Vec<String> {
    v.iter().map(|s| s.to_string()).collect()
}

#[test]
fn words_split_at_any_white_space() {
    assert_eq!(split_words("  debug  release\t asan\n"), strings(&["debug", "release", "asan"]));
    assert_eq!(split_words("one"), strings(&["one"]));
    assert_eq!(split_words(""), Vec::<String>::new());
    assert_eq!(split_words(" \u{3000}\u{a0} "), Vec::<String>::new());
    assert_eq!(split_words("a\u{2003}b"), strings(&["a", "b"]));
}

#[test]
fn fields_keep_empty_pieces() {
    assert_eq!(split_fields("a::b", ':'), strings(&["a", "", "b"]));
    assert_eq!(split_fields("", ':'), strings(&[""]));
    assert_eq!(split_fields(":", ':'), strings(&["", ""]));
}

#[test]
fn paths_join_like_path_join() {
    assert_eq!(join_path("/p", "build"), "/p/build");
    assert_eq!(join_path("/p/", "build"), "/p/build");
    assert_eq!(join_path("/p", "/abs"), "/abs");
    assert_eq!(join_path("", "rel"), "rel");
    assert_eq!(join_path("/", ".github/mk"), "/.github/mk");
}

#[test]
fn keyword_after_leading_space() {
    assert!(starts_with_after_space("  project('x')", "project"));
    assert!(starts_with_after_space("project", "project"));
    assert!(!starts_with_after_space("# project", "project"));
    assert!(!starts_with_after_space("proj", "project"));
    assert!(!starts_with_after_space("", "project"));
}
