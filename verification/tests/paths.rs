//! Paths, held against the paths of the standard library.
use std::path::Path;
use steve::paths::{path_names, same_path, show_under, strip_prefix};

const PATHS: [&str; 28] = [
    "", "/", "//", ".", "./", "..", "a", "a/", "a//", "a/.", "a/./", "./a", ".//a/", "/a", "//a",
    "/a/b", "/a//b", "/a/./b", "/a/b/", "/a/b/.", "/a/../b", "/ab", "/a/b/c.txt", "/a/.b", "a/b",
    "./a/b", "/.", "/./a",
];

#[test]
fn paths_are_equal_where_their_components_are() {
    for a in PATHS {
        for b in PATHS {
            assert_eq!(same_path(a, b), Path::new(a) == Path::new(b), "{a:?} {b:?}");
        }
    }
}

#[test]
fn a_path_is_shown_from_its_root() {
    for root in PATHS {
        for path in PATHS {
            let rest = Path::new(path).strip_prefix(root).ok();
            let rest = rest.map(|p| p.display().to_string());
            assert_eq!(strip_prefix(root, path), rest, "{root:?} {path:?}");
        }
    }
    assert_eq!(show_under("/", "/AGENTS.md"), "AGENTS.md");
    assert_eq!(show_under("/work/", "/work/sub/AGENTS.md"), "sub/AGENTS.md");
    assert_eq!(show_under("/work", "/workshop/AGENTS.md"), "/workshop/AGENTS.md");
}

#[test]
fn a_path_consists_of_its_names() {
    assert_eq!(path_names("/a//b/./c/"), vec!["a", "b", "c"]);
    assert_eq!(path_names("../x"), vec!["..", "x"]);
    assert!(path_names("/").is_empty());
}
