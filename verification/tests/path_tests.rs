use krusty::evaluator::NameSpace;
use krusty::path::{
    absolute, bases_of_module, file_name_of, join, normalize_import_path, relative,
    replace_file_name, set_extension, split, tidied, under,
};

fn parts(s: &[&str]) -> Vec<Vec<char>> {
    s.iter().map(|p| p.chars().collect()).collect()
}

#[test]
fn a_path_splits_at_its_separators() {
    assert_eq!(split("a/b/c"), parts(&["a", "b", "c"]));
    assert_eq!(split("/a"), parts(&["", "a"]));
    assert_eq!(split("a/"), parts(&["a", ""]));
    assert_eq!(split(""), parts(&[""]));
    assert_eq!(split("a//b"), parts(&["a", "", "b"]));
}

#[test]
fn components_join_with_separators() {
    assert_eq!(join(&parts(&["a", "b", "c"])), "a/b/c");
    assert_eq!(join(&parts(&["", "a"])), "/a");
    assert_eq!(join(&parts(&[])), "");
    assert_eq!(join(&parts(&["a"])), "a");
}

#[test]
fn parent_directories_are_resolved() {
    assert_eq!(tidied(parts(&["a", "b", "..", "c"])), parts(&["a", "c"]));
    assert_eq!(tidied(parts(&["a", "..", ".."])), parts(&[]));
    assert_eq!(tidied(parts(&["", "a", "..", ".."])), parts(&[""]));
    assert_eq!(tidied(parts(&["a", ".", "b", "", "c"])), parts(&["a", "b", "c"]));
    assert_eq!(tidied(parts(&["..", "a"])), parts(&["a"]));
}

#[test]
fn a_path_as_seen_from_another() {
    let file = Some("/home/me/main.krt".to_string());
    assert_eq!(relative(&file, false, "lib"), "/home/me/lib");
    assert_eq!(relative(&file, false, "../lib/x"), "/home/lib/x");
    assert_eq!(relative(&file, true, "lib"), "/home/me/main.krt/lib");
    assert_eq!(relative(&file, false, "/abs/x"), "/abs/x");
    assert_eq!(relative(&file, false, "/abs/../x"), "/x");
    assert_eq!(relative(&None, false, "../lib"), "../lib");
    let bare = Some("main.krt".to_string());
    assert_eq!(relative(&bare, false, "lib"), "lib");
}

#[test]
fn a_namespace_sees_paths_from_its_module() {
    let root = NameSpace::new(Some("/a/b/main.krt".to_string()), None);
    let child = NameSpace::new(None, Some(&root));
    assert_eq!(child.get_relative_path(&"x".to_string(), false), "/a/b/x");
    assert_eq!(child.get_relative_path(&"../x".to_string(), false), "/a/x");
    assert_eq!(child.get_relative_path(&"x".to_string(), true), "/a/b/main.krt/x");
    let nowhere = NameSpace::new(None, None);
    assert_eq!(nowhere.get_relative_path(&"x/../y".to_string(), false), "x/../y");
    assert_eq!(nowhere.get_path(), None);
}

#[test]
fn an_extension_is_set() {
    assert_eq!(set_extension("a/b", "krt"), "a/b.krt");
    assert_eq!(set_extension("a/b.txt", "krt"), "a/b.krt");
    assert_eq!(set_extension("a.d/b", "krt"), "a.d/b.krt");
    assert_eq!(set_extension("a/.hidden", "krt"), "a/.hidden.krt");
    assert_eq!(set_extension("a/b.", "krt"), "a/b.krt");
    assert_eq!(set_extension("a/", "krt"), "a.krt");
    assert_eq!(set_extension("a/..", "krt"), "a/..");
    assert_eq!(set_extension("", "krt"), "");
    assert_eq!(set_extension("b.tar.gz", "krt"), "b.tar.krt");
}

#[test]
fn the_file_of_an_import() {
    assert_eq!(normalize_import_path("pkg/os", true), "pkg/os/__pkg__.krt");
    assert_eq!(normalize_import_path("pkg/os/", true), "pkg/os/__pkg__.krt");
    assert_eq!(normalize_import_path("lib", false), "lib.krt");
    assert_eq!(normalize_import_path("lib.krt", false), "lib.krt");
    assert_eq!(normalize_import_path("dir/krt", false), "dir/krt");
    assert_eq!(normalize_import_path("lib.txt", false), "lib.krt");
}

#[test]
fn file_names() {
    assert_eq!(file_name_of("a/b/c.krt"), "c.krt");
    assert_eq!(file_name_of("c"), "c");
    assert_eq!(file_name_of("a/"), "a");
    assert_eq!(replace_file_name("a/b/c", "libc.so"), "a/b/libc.so");
    assert_eq!(replace_file_name("c", "libc.so"), "libc.so");
    assert_eq!(under("a", "b"), "a/b");
    assert_eq!(under("a/", "b"), "a/b");
    assert_eq!(under("", "b"), "/b");
}

#[test]
fn absolute_paths_start_with_a_separator() {
    assert!(absolute("/a/b"));
    assert!(absolute("/"));
    assert!(!absolute("a/b"));
    assert!(!absolute(""));
    assert!(!absolute("./a"));
}

#[test]
fn the_bases_of_a_module() {
    let home = Some("/home/me".to_string());
    assert_eq!(
        bases_of_module("os", "/cwd", "/src/os".to_string(), &home),
        vec!["/cwd/os", "/src/os", "/home/me/.krusty/pkg/os"]
    );
    assert_eq!(bases_of_module("os", ".", "os".to_string(), &None), vec!["./os", "os"]);
}

#[test]
fn separators_at_the_end_are_passed_over() {
    assert_eq!(krusty::path::file_name_of("a/b/"), "b");
    assert_eq!(krusty::path::file_name_of("a/b//"), "b");
    assert_eq!(krusty::path::file_name_of("a/b"), "b");
    assert_eq!(krusty::path::file_name_of("b"), "b");
    assert_eq!(krusty::path::file_name_of("/"), "");
    assert_eq!(krusty::path::file_name_of(""), "");
    assert_eq!(krusty::path::replace_file_name("a/b/", "c"), "a/c");
    assert_eq!(krusty::path::replace_file_name("/b/", "c"), "/c");
    assert_eq!(krusty::path::set_extension("a/b/", "krt"), "a/b.krt");
    assert_eq!(krusty::path::set_extension("a/b.x/", "krt"), "a/b.krt");
    assert_eq!(krusty::path::set_extension("/", "krt"), "/");
    assert_eq!(krusty::path::set_extension("a/../", "krt"), "a/../");
    let os = krusty::pkg::Platform::Other;
    assert_eq!(krusty::pkg::to_native_dylib_name("a/b/", os).unwrap(), "a/libb.so");
    assert_eq!(krusty::pkg::to_native_dylib_name("b/", os).unwrap(), "libb.so");
    for p in ["", "/", "//", "..", "a/..", "a/../"] {
        assert!(krusty::pkg::to_native_dylib_name(p, os).is_err());
    }
}

#[test]
fn an_absolute_name_replaces_the_base() {
    assert_eq!(krusty::path::under("/cwd", "/abs/mod"), "/abs/mod");
    assert_eq!(krusty::path::under("/cwd", "mod"), "/cwd/mod");
    assert_eq!(krusty::path::under("/cwd/", "mod"), "/cwd/mod");
    let bases = krusty::path::bases_of_module(
        "/abs/mod",
        "/cwd",
        "/abs/mod".to_string(),
        &Some("/home/me".to_string()),
    );
    assert_eq!(bases, vec!["/abs/mod", "/abs/mod", "/abs/mod"]);
}
