use cargo_bundler::{
    base_dir, file_name, join_path, parent_dir, resource_destination, resource_relpath,
    strip_path_prefix,
};

#[test]
fn walked_file_keeps_its_subdirectory() {
    let dest = resource_destination("out", "build/static/*", "assets", "build/static/img/a.png");
    assert_eq!(dest, "out/assets/img/a.png");
}

#[test]
fn literal_directory_pattern_is_its_own_base() {
    let dest = resource_destination("out", "data", "foo/bar", "data/sub/file.txt");
    assert_eq!(dest, "out/foo/bar/sub/file.txt");
}

#[test]
fn file_outside_base_falls_back_to_file_name() {
    let dest = resource_destination("out", "build/static/*", "assets", "elsewhere/b.txt");
    assert_eq!(dest, "out/assets/b.txt");
}

#[test]
fn empty_destination_uses_relative_resource_path() {
    let dest = resource_destination("out", "../shared/*.png", "", "../shared/x.png");
    assert_eq!(dest, "out/_up_/shared/x.png");
    assert_eq!(resource_relpath("/abs/./dir/file"), "_root_/abs/dir/file");
    assert_eq!(resource_relpath("a//b"), "a/b");
}

#[test]
fn path_pieces() {
    assert_eq!(parent_dir("build/static/*"), "build/static");
    assert_eq!(parent_dir("file"), "");
    assert_eq!(parent_dir("/top"), "/");
    assert_eq!(base_dir("build/static/*"), "build/static");
    assert_eq!(base_dir("data"), "data");
    assert_eq!(file_name("a/b/c.txt"), "c.txt");
    assert_eq!(strip_path_prefix("a/b/c", "a/b"), Some("c".to_string()));
    assert_eq!(strip_path_prefix("a/bc", "a/b"), None);
    assert_eq!(strip_path_prefix("a/b", "a/b"), Some(String::new()));
    assert_eq!(join_path("a", "b"), "a/b");
    assert_eq!(join_path("a/", "b"), "a/b");
    assert_eq!(join_path("a", "/b"), "/b");
    assert_eq!(join_path("", "b"), "b");
}
