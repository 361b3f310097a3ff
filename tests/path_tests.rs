use stubby::path::split_path;

#[test]
fn test_split_path() {
    assert_eq!(split_path(""), vec![] as Vec<&str>);
    assert_eq!(split_path("/"), vec![] as Vec<&str>);
    assert_eq!(split_path("/foo"), vec!["foo"]);
    assert_eq!(split_path("/foo/"), vec!["foo"]);
    assert_eq!(split_path("/foo/bar"), vec!["foo", "bar"]);
}

#[test]
fn split_path_drops_repeated_slashes() {
    assert_eq!(split_path("/foo//bar/"), vec!["foo", "bar"]);
    assert_eq!(split_path("///"), vec![] as Vec<&str>);
    assert_eq!(split_path("a/b"), vec!["a", "b"]);
}

#[test]
fn split_path_keeps_non_ascii_segments() {
    assert_eq!(split_path("/h\u{e9}llo//w\u{f6}rld"), vec!["h\u{e9}llo", "w\u{f6}rld"]);
}
