use rssh::path::{base_name, join};
use std::path::Path;

fn std_base_name(path: &str) -> Option<String> {
    Path::new(path).file_name().and_then(|name| name.to_str()).map(|name| name.to_string())
}

#[test]
fn base_name_is_the_last_component() {
    assert_eq!(base_name("report.txt"), Some("report.txt".to_string()));
    assert_eq!(base_name("tmp/foo.txt"), Some("foo.txt".to_string()));
    assert_eq!(base_name("/home/u/in/report.txt"), Some("report.txt".to_string()));
    assert_eq!(base_name("/tmp/file.txt"), Some("file.txt".to_string()));
    assert_eq!(base_name(".hidden"), Some(".hidden".to_string()));
    assert_eq!(base_name("a.."), Some("a..".to_string()));
    assert_eq!(base_name("..."), Some("...".to_string()));
}

#[test]
fn base_name_passes_over_trailing_separators_and_dots() {
    assert_eq!(base_name("/usr/bin/"), Some("bin".to_string()));
    assert_eq!(base_name("/usr/bin///"), Some("bin".to_string()));
    assert_eq!(base_name("foo.txt/."), Some("foo.txt".to_string()));
    assert_eq!(base_name("foo.txt/.//"), Some("foo.txt".to_string()));
    assert_eq!(base_name("a/./b/././"), Some("b".to_string()));
    assert_eq!(base_name("./a"), Some("a".to_string()));
}

#[test]
fn base_name_is_missing_where_nothing_is_named() {
    assert_eq!(base_name(""), None);
    assert_eq!(base_name("/"), None);
    assert_eq!(base_name("//"), None);
    assert_eq!(base_name("."), None);
    assert_eq!(base_name("./"), None);
    assert_eq!(base_name("/."), None);
    assert_eq!(base_name("./."), None);
}

#[test]
fn base_name_is_missing_for_the_parent() {
    assert_eq!(base_name(".."), None);
    assert_eq!(base_name("foo.txt/.."), None);
    assert_eq!(base_name("/home/u/.."), None);
    assert_eq!(base_name("a/../"), None);
    assert_eq!(base_name("a/.././"), None);
}

#[test]
fn base_name_keeps_characters_beyond_ascii() {
    assert_eq!(base_name("/données/résumé.txt"), Some("résumé.txt".to_string()));
    assert_eq!(base_name("日本/語/"), Some("語".to_string()));
}

#[test]
fn base_name_agrees_with_the_standard_library() {
    let paths = [
        "", "/", "//", ".", "..", "./", "../", "/.", "/..", "a", "a/", "a//", "a/.", "a/./", "a/..",
        "a/../", "a/b", "a/b/", "/a/b", "/a/b/.", "/a/b/..", "./a", "../a", "a/./b", "a/../b", ".a",
        "a.", "a..", "..a", "...", "a/...", "/home/u/in/report.txt", "foo.txt/.//", "a b/c d",
        "/./.", "/././a", "a/.b", "a/b.", ". ", " .", "./.", "././", "x/././.",
    ];
    for path in paths {
        assert_eq!(base_name(path), std_base_name(path), "{:?}", path);
    }
}

#[test]
fn join_puts_one_separator_between() {
    assert_eq!(join("/home/u/in", "report.txt"), "/home/u/in/report.txt");
    assert_eq!(join("dir", "file"), "dir/file");
    assert_eq!(join("/home/u", ".rss_ssh/config.json"), "/home/u/.rss_ssh/config.json");
}

#[test]
fn join_adds_no_separator_where_one_stands() {
    assert_eq!(join("/home/u/in/", "report.txt"), "/home/u/in/report.txt");
    assert_eq!(join("/", "x"), "/x");
    assert_eq!(join("a//", "x"), "a//x");
}

#[test]
fn join_of_nothing_with_a_name_is_the_name() {
    assert_eq!(join("", "x"), "x");
    assert_eq!(join("", ""), "");
    assert_eq!(join("a", ""), "a/");
}

#[test]
fn join_lets_a_rooted_name_stand_alone() {
    assert_eq!(join("/home/u", "/etc/hosts"), "/etc/hosts");
    assert_eq!(join("", "/x"), "/x");
}

#[test]
fn join_agrees_with_the_standard_library() {
    let dirs = ["", "/", "a", "a/", "/a", "/a/b", "/a/b/", ".", "..", "a//"];
    let names = ["", "x", "x/y", "/x", ".", "..", "x/", ".rss_ssh/config.json"];
    for dir in dirs {
        for name in names {
            let expected = Path::new(dir).join(name);
            assert_eq!(Some(join(dir, name).as_str()), expected.to_str(), "{:?} {:?}", dir, name);
        }
    }
}

#[test]
fn base_name_of_a_joined_name_is_the_name() {
    for dir in ["", "/", "a", "a/", "/home/u/in", "x/..", "x/."] {
        for name in ["report.txt", "a", ".hidden", "...", "a b"] {
            assert_eq!(base_name(&join(dir, name)), Some(name.to_string()));
        }
    }
}
