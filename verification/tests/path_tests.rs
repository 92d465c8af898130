use redb_opfs::ErrorKind;
use redb_opfs::virtualize_path;

fn segments_of(path: &str) -> Vec<String> {
    virtualize_path(path).unwrap().segments().clone()
}

#[test]
fn plain_relative_path_splits_into_segments() {
    assert_eq!(
        segments_of("a/b/data.db"),
        vec!["a".to_string(), "b".to_string(), "data.db".to_string()]
    );
}

#[test]
fn absolute_path_is_rooted_at_the_storage_root() {
    assert_eq!(segments_of("/a/b"), vec!["a".to_string(), "b".to_string()]);
}

#[test]
fn empty_segments_are_dropped() {
    assert_eq!(segments_of("a//b"), vec!["a".to_string(), "b".to_string()]);
    assert_eq!(segments_of("a/b/"), vec!["a".to_string(), "b".to_string()]);
}

#[test]
fn current_directory_markers_are_dropped() {
    assert_eq!(segments_of("./a"), vec!["a".to_string()]);
    assert_eq!(segments_of("a/./b"), vec!["a".to_string(), "b".to_string()]);
    assert_eq!(segments_of("a/b/."), vec!["a".to_string(), "b".to_string()]);
}

#[test]
fn empty_and_root_paths_have_no_segments() {
    assert_eq!(segments_of(""), Vec::<String>::new());
    assert_eq!(segments_of("/"), Vec::<String>::new());
    assert_eq!(segments_of("."), Vec::<String>::new());
}

#[test]
fn parent_markers_are_rejected_as_invalid_input() {
    assert_eq!(virtualize_path("a/../b").unwrap_err().kind(), ErrorKind::InvalidInput);
    assert_eq!(virtualize_path("..").unwrap_err().kind(), ErrorKind::InvalidInput);
    assert_eq!(virtualize_path("a/..").unwrap_err().kind(), ErrorKind::InvalidInput);
    assert_eq!(virtualize_path("../a").unwrap_err().kind(), ErrorKind::InvalidInput);
}

#[test]
fn parent_rejection_carries_the_diagnostic() {
    let err = virtualize_path("a/../b").unwrap_err();
    assert_eq!(err.describe(), "only normal path components are supported".to_string());
}

#[test]
fn dots_inside_names_are_ordinary() {
    assert_eq!(segments_of("..."), vec!["...".to_string()]);
    assert_eq!(segments_of("a/.hidden"), vec!["a".to_string(), ".hidden".to_string()]);
    assert_eq!(segments_of("a.b/c..d"), vec!["a.b".to_string(), "c..d".to_string()]);
}

#[test]
fn file_name_is_the_final_segment() {
    let vp = virtualize_path("a/b/data.db").unwrap();
    assert_eq!(vp.file_name().unwrap().as_str(), "data.db");
    let root = virtualize_path("/").unwrap();
    assert!(root.file_name().is_none());
}

#[test]
fn dir_segments_are_everything_but_the_file_name() {
    let vp = virtualize_path("a/b/data.db").unwrap();
    assert_eq!(vp.dir_segments(), &["a".to_string(), "b".to_string()]);
    let flat = virtualize_path("data.db").unwrap();
    assert_eq!(flat.dir_segments(), &[] as &[String]);
    let root = virtualize_path("/").unwrap();
    assert_eq!(root.dir_segments(), &[] as &[String]);
}
