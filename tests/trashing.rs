use platform_file_ops::trashing::move_to_trash;
use platform_file_ops::trashing::path_ends_in_parent_dir;

const PREFIX: &str = "Error during a `trash` operation: ";

#[test]
fn missing_file_gives_a_described_error() {
    let r = move_to_trash("/nonexistent/missing.txt".to_string());
    let m = r.unwrap_err();
    assert!(!m.is_empty());
    assert!(m.starts_with(PREFIX));
    assert!(m.len() > PREFIX.len());
}

#[test]
fn empty_path_is_refused() {
    let m = move_to_trash(String::new()).unwrap_err();
    assert!(m.starts_with(PREFIX));
}

#[test]
fn root_is_refused() {
    let m = move_to_trash("/".to_string()).unwrap_err();
    assert!(m.starts_with(PREFIX));
}

#[test]
fn parent_of_root_is_refused_without_asking_the_trash() {
    let m = move_to_trash("/..".to_string()).unwrap_err();
    assert_eq!(m, "refusing to trash a path whose last component is `..`: /..");
    let m = move_to_trash("/../.".to_string()).unwrap_err();
    assert_eq!(m, "refusing to trash a path whose last component is `..`: /../.");
}

#[test]
fn last_component_parent_dir_is_recognised() {
    assert!(path_ends_in_parent_dir(".."));
    assert!(path_ends_in_parent_dir("/.."));
    assert!(path_ends_in_parent_dir("a/b/../"));
    assert!(path_ends_in_parent_dir("a/..//./."));
    assert!(!path_ends_in_parent_dir(""));
    assert!(!path_ends_in_parent_dir("/"));
    assert!(!path_ends_in_parent_dir("a.."));
    assert!(!path_ends_in_parent_dir("../a"));
    assert!(!path_ends_in_parent_dir("/tmp/x.txt"));
    assert!(!path_ends_in_parent_dir("."));
    assert!(!path_ends_in_parent_dir(".../"));
}
