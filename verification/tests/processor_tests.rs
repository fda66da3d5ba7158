use code_context::processor::{FileProcessor, OutputPathError, ProcessingStats};

#[test]
fn test_processor_options() {
    let processor = FileProcessor::with_options(true, true, true, true);
    assert!(processor.no_comments());
    assert!(processor.dry_run());
    assert!(processor.single_file());
}

#[test]
fn test_processing_stats_debug() {
    let stats = ProcessingStats { files_processed: 3, input_size: 150, output_size: 75 };
    let debug_str = format!("{:?}", stats);
    assert!(debug_str.contains("files_processed: 3"));
    assert!(debug_str.contains("input_size: 150"));
    assert!(debug_str.contains("output_size: 75"));
}

#[test]
fn test_get_output_path_errors() {
    assert!(FileProcessor::get_output_path("/", None, false).is_err());
}

#[test]
fn test_stats_default_is_zero() {
    let stats = ProcessingStats::default();
    assert_eq!(stats.files_processed, 0);
    assert_eq!(stats.input_size, 0);
    assert_eq!(stats.output_size, 0);
}

#[test]
fn test_stats_record_file() {
    let mut stats = ProcessingStats::default();
    stats.record_file(100, 50);
    stats.record_file(200, 100);
    assert_eq!(stats.files_processed, 2);
    assert_eq!(stats.input_size, 300);
    assert_eq!(stats.output_size, 150);
}

#[test]
fn test_output_path_for_file() {
    let out = FileProcessor::get_output_path("/tmp/test.rs", Some("test-output"), true).unwrap();
    assert_eq!(out, "/tmp/test-test-output");
}

#[test]
fn test_output_path_for_directory() {
    let out = FileProcessor::get_output_path("/tmp/src", Some("test-output"), false).unwrap();
    assert_eq!(out, "/tmp/src-test-output");
}

#[test]
fn test_output_path_without_parent() {
    let out = FileProcessor::get_output_path("file.rs", None, true).unwrap();
    assert_eq!(out, "file-code-context");
}

#[test]
fn test_output_path_default_name() {
    let out = FileProcessor::get_output_path("/work/project", None, false).unwrap();
    assert_eq!(out, "/work/project-code-context");
}

#[test]
fn test_output_path_top_level_file() {
    let out = FileProcessor::get_output_path("/main.rs", None, true).unwrap();
    assert_eq!(out, "/main-code-context");
}

#[test]
fn test_output_path_trailing_separator() {
    // Trailing separators and current-directory components are ignored when
    // the final component is read.
    let out = FileProcessor::get_output_path("foo/", None, false).unwrap();
    assert_eq!(out, "foo-code-context");
    let out = FileProcessor::get_output_path("src/", Some("test-output"), false).unwrap();
    assert_eq!(out, "src-test-output");
    let out = FileProcessor::get_output_path("foo.txt/.//", None, true).unwrap();
    assert_eq!(out, "foo-code-context");
}

#[test]
fn test_output_path_dot_components() {
    // A final current-directory or parent-directory component leaves no
    // name to derive an output directory from.
    let err = FileProcessor::get_output_path(".", None, false).unwrap_err();
    assert_eq!(err, OutputPathError::NoDirectoryName);
    assert!(err.message().contains("directory name"));
    let err = FileProcessor::get_output_path(".", None, true).unwrap_err();
    assert_eq!(err, OutputPathError::NoFileStem);
    assert!(err.message().contains("file stem"));
    let err = FileProcessor::get_output_path("..", None, false).unwrap_err();
    assert_eq!(err, OutputPathError::NoDirectoryName);
    let err = FileProcessor::get_output_path("work/..", None, false).unwrap_err();
    assert_eq!(err, OutputPathError::NoDirectoryName);
}

#[test]
fn test_output_path_root_spellings() {
    // Any spelling of the root — separators and current-directory
    // components only — is rejected as the root.
    assert_eq!(
        FileProcessor::get_output_path("//", None, false).unwrap_err(),
        OutputPathError::RootInput
    );
    assert_eq!(
        FileProcessor::get_output_path("/.", None, false).unwrap_err(),
        OutputPathError::RootInput
    );
}

#[test]
fn test_output_path_empty_input() {
    let err = FileProcessor::get_output_path("", None, false).unwrap_err();
    assert_eq!(err, OutputPathError::EmptyInput);
    assert!(err.message().contains("empty"));
}

#[test]
fn test_output_path_root_input() {
    let err = FileProcessor::get_output_path("/", Some("out"), true).unwrap_err();
    assert_eq!(err, OutputPathError::RootInput);
    assert!(err.message().contains("root directory"));
}
