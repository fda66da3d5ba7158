use code_context::paths::ModulePath;

#[test]
fn test_is_valid_module() {
    let valid_path = "src/foo/bar.rs";
    let invalid_path = "src/foo/bar.txt";

    assert!(ModulePath::new(valid_path).is_valid_module());
    assert!(!ModulePath::new(invalid_path).is_valid_module());
}

#[test]
fn test_is_valid_module_rejects_derived_output() {
    assert!(!ModulePath::new("src/lib.rs.txt").is_valid_module());
}

#[test]
fn test_is_valid_module_trailing_separator() {
    // The eligibility rule reads the final component as the standard path
    // reading does: trailing separators and current-directory components
    // are ignored.
    assert!(ModulePath::new("dir.rs/").is_valid_module());
    assert!(ModulePath::new("dir.rs/.").is_valid_module());
    assert!(!ModulePath::new("foo.txt/").is_valid_module());
}

#[test]
fn test_is_valid_module_requires_stem() {
    assert!(!ModulePath::new(".rs").is_valid_module());
    assert!(!ModulePath::new("src/.rs").is_valid_module());
    assert!(ModulePath::new("a.rs").is_valid_module());
}
