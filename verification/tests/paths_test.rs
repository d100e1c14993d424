use notes_cli::paths::{apply_extension, declares_extension, join_path};

#[test]
fn a_name_without_an_extension_gets_the_default() {
    assert_eq!(apply_extension("foo", "md"), "foo.md");
    assert_eq!(apply_extension("test_name-1234", "md"), "test_name-1234.md");
    assert_eq!(apply_extension("foo", "txt"), "foo.txt");
}

#[test]
fn a_declared_extension_is_not_overridden() {
    assert_eq!(apply_extension("foo.txt", "md"), "foo.txt");
    assert_eq!(apply_extension("foo.md", "md"), "foo.md");
    assert_eq!(apply_extension("archive.tar.gz", "md"), "archive.tar.gz");
    assert_eq!(apply_extension("foo.", "md"), "foo.");
}

#[test]
fn only_the_file_name_counts_for_the_extension() {
    assert_eq!(apply_extension("some.dir/foo", "md"), "some.dir/foo.md");
    assert_eq!(apply_extension("some.dir/foo.txt", "md"), "some.dir/foo.txt");
    assert_eq!(apply_extension("a/b/c", "md"), "a/b/c.md");
}

#[test]
fn a_leading_dot_declares_no_extension() {
    assert_eq!(apply_extension(".hidden", "md"), ".hidden.md");
    assert_eq!(apply_extension(".hidden.txt", "md"), ".hidden.txt");
    assert_eq!(apply_extension("dir/.hidden", "md"), "dir/.hidden.md");
}

#[test]
fn what_names_no_file_is_left_as_it_is() {
    assert_eq!(apply_extension("", "md"), "");
    assert_eq!(apply_extension("/", "md"), "/");
    assert_eq!(apply_extension("//", "md"), "//");
    assert_eq!(apply_extension(".", "md"), ".");
    assert_eq!(apply_extension("./", "md"), "./");
    assert_eq!(apply_extension("/.", "md"), "/.");
    assert_eq!(apply_extension("..", "md"), "..");
    assert_eq!(apply_extension("dir/..", "md"), "dir/..");
    assert_eq!(apply_extension("dir/../", "md"), "dir/../");
}

#[test]
fn slashes_after_the_file_name_are_passed_over() {
    assert_eq!(apply_extension("dir/", "md"), "dir.md");
    assert_eq!(apply_extension("dir//", "md"), "dir.md");
    assert_eq!(apply_extension("a/dir/", "md"), "a/dir.md");
    assert_eq!(apply_extension("dir/.", "md"), "dir.md");
    assert_eq!(apply_extension("dir/./", "md"), "dir.md");
    assert_eq!(apply_extension("foo.txt/", "md"), "foo.txt/");
    assert_eq!(apply_extension("foo.txt/.", "md"), "foo.txt/.");
}

#[test]
fn appending_agrees_with_the_standard_library() {
    let cases = [
        "foo", "dir/", "dir//", "a/dir/", "dir/.", "dir/./", "", "/", ".", "./", "/.", "..",
        "dir/..", "dir/../", ".hidden", "a/b/c", "a.b/c", "été", "x/./y", "./x",
    ];
    for name in cases {
        let mut expected = std::path::PathBuf::from(name);
        expected.set_extension("md");
        assert_eq!(apply_extension(name, "md"), expected.to_string_lossy(), "{:?}", name);
    }
}

#[test]
fn an_empty_extension_changes_nothing() {
    assert_eq!(apply_extension("foo", ""), "foo");
    assert_eq!(apply_extension("foo.txt", ""), "foo.txt");
}

#[test]
fn applying_the_extension_twice_is_applying_it_once() {
    for name in ["foo", "foo.txt", "dir/foo", ".hidden", "", "..", "été", "dir/", "dir/.", "."] {
        let once = apply_extension(name, "md");
        assert_eq!(apply_extension(&once, "md"), once);
    }
}

#[test]
fn the_extension_rule_counts_characters_not_bytes() {
    assert_eq!(apply_extension("été", "md"), "été.md");
    assert_eq!(apply_extension("日本語/ノート", "md"), "日本語/ノート.md");
    assert_eq!(apply_extension("é.txt", "md"), "é.txt");
}

#[test]
fn declares_extension_follows_the_same_rule() {
    assert!(declares_extension("foo.txt"));
    assert!(declares_extension("foo."));
    assert!(declares_extension("a/b.c"));
    assert!(declares_extension("..."));
    assert!(declares_extension(".a.b"));
    assert!(!declares_extension("foo"));
    assert!(!declares_extension(""));
    assert!(!declares_extension(".hidden"));
    assert!(!declares_extension(".."));
    assert!(!declares_extension("a.b/c"));
    assert!(declares_extension("a.b/"));
    assert!(declares_extension("a.b/."));
    assert!(!declares_extension("a/"));
    assert!(!declares_extension("."));
    assert!(!declares_extension("a/.."));
}

#[test]
fn join_path_puts_one_slash_between_directory_and_name() {
    assert_eq!(join_path("/tmp/x", "n.md"), "/tmp/x/n.md");
    assert_eq!(join_path("/tmp/x/", "n.md"), "/tmp/x/n.md");
    assert_eq!(join_path("notes", "sub/n.md"), "notes/sub/n.md");
    assert_eq!(join_path("/", "n.md"), "/n.md");
}

#[test]
fn join_path_lets_an_absolute_name_stand_for_itself() {
    assert_eq!(join_path("/tmp/x", "/etc/n.md"), "/etc/n.md");
    assert_eq!(join_path("", "/n.md"), "/n.md");
}

#[test]
fn join_path_with_an_empty_side() {
    assert_eq!(join_path("", "n.md"), "n.md");
    assert_eq!(join_path("/tmp/x", ""), "/tmp/x/");
    assert_eq!(join_path("/tmp/x/", ""), "/tmp/x/");
    assert_eq!(join_path("", ""), "");
}

#[test]
fn join_path_agrees_with_the_standard_library() {
    let cases = [
        ("/tmp/x", "n.md"),
        ("/tmp/x/", "n.md"),
        ("/tmp/x", "/abs"),
        ("", "n.md"),
        ("/tmp/x", ""),
        ("rel", "a/b"),
        ("/", "n"),
    ];
    for (dir, name) in cases {
        let expected = std::path::PathBuf::from(dir).join(name);
        assert_eq!(join_path(dir, name), expected.to_string_lossy());
    }
}

#[test]
fn declares_extension_agrees_with_the_standard_library() {
    let cases = [
        "foo", "foo.txt", "foo.", ".hidden", ".a.b", "..", "...", "a.b/c", "a/b.c", "", "a.b/",
        "a.b//", "a.b/.", "a/", ".", "./", "/.", "a/../", "x.y/./",
    ];
    for name in cases {
        let expected = std::path::Path::new(name).extension().is_some();
        assert_eq!(declares_extension(name), expected, "{}", name);
    }
}
