use now_playing::path::{same_components, same_path};

fn same(a: &str, b: &str) -> bool {
    same_components(a.as_bytes(), b.as_bytes())
}

#[test]
fn trailing_and_repeated_slashes_do_not_matter() {
    assert!(same("/a", "/a/"));
    assert!(same("/a//b", "/a/b"));
    assert!(same("//a", "/a"));
    assert!(same("a/", "a"));
}

#[test]
fn inner_dot_components_do_not_matter() {
    assert!(same("/a/./b", "/a/b"));
    assert!(same("a/.", "a"));
    assert!(same("./.", "."));
    assert!(same("/.", "/"));
}

#[test]
fn distinct_paths_differ() {
    assert!(!same("/a", "a"));
    assert!(!same("./a", "a"));
    assert!(!same("/a/../b", "/b"));
    assert!(!same("/a/b", "/a/c"));
    assert!(!same("", "/"));
}

#[test]
fn optional_paths_compare_as_paths() {
    assert!(same_path(&Some(b"/a/".to_vec()), &Some(b"/a".to_vec())));
    assert!(same_path(&None, &None));
    assert!(!same_path(&Some(b"/a".to_vec()), &None));
}

#[test]
fn agrees_with_std_path_equality() {
    let samples = [
        "", "/", "//", ".", "./", "./.", "..", "/..", "a", "a/", "a/.", "a/..", "./a", ".//a",
        "../a", "/a", "/a/", "/a//", "/a/./b", "/a/b", "/a//b", "/a/b/.", "/a/../b", "/b",
        "a/b", "a//b", "./a/b", "/.a", "/a.", "/a/.b/", "/a/ b", "/Música/x", "/M%C3%BA",
    ];
    for a in samples {
        for b in samples {
            assert_eq!(
                same_components(a.as_bytes(), b.as_bytes()),
                std::path::Path::new(a) == std::path::Path::new(b),
                "{a:?} vs {b:?}"
            );
        }
    }
}
