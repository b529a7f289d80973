use esplora_client::segment::first_path_segment;

#[test]
fn test_first_path_segment() {
    let cases = [
        ("", ""),
        ("/", "/"),
        ("/tx", "/tx"),
        ("/tx/abc123", "/tx"),
        ("/tx/abc123/raw", "/tx"),
        ("/scripthash/abc123/txs", "/scripthash"),
    ];
    for (path, expected) in cases {
        assert_eq!(first_path_segment(path), expected, "path: {path}");
    }
}

#[test]
fn double_slash_ends_the_first_segment() {
    assert_eq!(first_path_segment("//tx"), "/");
    assert_eq!(first_path_segment("//"), "/");
}

#[test]
fn leading_character_need_not_be_a_slash() {
    assert_eq!(first_path_segment("tx/abc"), "tx");
    assert_eq!(first_path_segment("a"), "a");
}

#[test]
fn path_with_a_wide_leading_character_is_kept() {
    assert_eq!(first_path_segment("é/abc"), "é/abc");
}

#[test]
fn wide_characters_further_on_are_kept_whole() {
    assert_eq!(first_path_segment("/é/abc"), "/é");
    assert_eq!(first_path_segment("/é"), "/é");
}

#[test]
fn first_segment_is_a_prefix_and_its_own_first_segment() {
    for path in ["", "/", "/tx/abc/raw", "//x", "é/x", "/a/é/b"] {
        let segment = first_path_segment(path);
        assert!(path.starts_with(segment));
        assert_eq!(first_path_segment(segment), segment);
    }
}
