use cudgel::error::Error;
use cudgel::indexer::{check_repository, IndexFilter};

#[test]
fn test_index_filter_validation_valid_languages() {
    let filter = IndexFilter::new().with_languages(vec![
        "python".to_string(),
        "rust".to_string(),
        "javascript".to_string(),
        "typescript".to_string(),
        "go".to_string(),
        "c".to_string(),
        "cpp".to_string(),
        "java".to_string(),
    ]);

    assert!(filter.validate().is_ok());
}

#[test]
fn test_index_filter_validation_invalid_language() {
    let filter = IndexFilter::new().with_languages(vec!["ruby".to_string()]);

    let result = filter.validate();
    assert!(result.is_err());
    let error = result.unwrap_err().message();
    assert!(error.contains("Unsupported language"));
    assert!(error.contains("ruby"));
}

#[test]
fn test_index_filter_validation_invalid_include_pattern() {
    let filter = IndexFilter::new().with_include_patterns(vec!["src/**/*[".to_string()]);

    let result = filter.validate();
    assert!(result.is_err());
    let error = result.unwrap_err().message();
    assert!(error.contains("Invalid include pattern"));
}

#[test]
fn test_index_filter_validation_invalid_exclude_pattern() {
    let filter = IndexFilter::new().with_exclude_patterns(vec!["target/**/*[".to_string()]);

    let result = filter.validate();
    assert!(result.is_err());
    let error = result.unwrap_err().message();
    assert!(error.contains("Invalid exclude pattern"));
}

#[test]
fn test_index_filter_empty_filter() {
    let filter = IndexFilter::new();
    assert!(filter.is_empty());
    assert!(filter.validate().is_ok());
}

#[test]
fn test_index_filter_language_filtering() {
    let filter = IndexFilter::new().with_languages(vec!["rust".to_string(), "python".to_string()]);

    assert!(filter.should_index_file("src/main.rs"));
    assert!(filter.should_index_file("test.py"));

    assert!(!filter.should_index_file("app.js"));
    assert!(!filter.should_index_file("Main.java"));
    assert!(!filter.should_index_file("main.go"));
}

#[test]
fn test_index_filter_include_patterns() {
    let filter = IndexFilter::new().with_include_patterns(vec!["**/src/**/*.rs".to_string()]);

    assert!(filter.should_index_file("project/src/main.rs"));
    assert!(filter.should_index_file("src/lib.rs"));

    assert!(!filter.should_index_file("tests/test.rs"));
    assert!(!filter.should_index_file("main.rs"));
}

#[test]
fn test_index_filter_exclude_patterns() {
    let filter = IndexFilter::new().with_exclude_patterns(vec![
        "**/target/**".to_string(),
        "**/node_modules/**".to_string(),
    ]);

    assert!(!filter.should_index_file("project/target/debug/main.rs"));
    assert!(!filter.should_index_file("app/node_modules/package/index.js"));

    assert!(filter.should_index_file("src/main.rs"));
    assert!(filter.should_index_file("app/src/index.js"));
}

#[test]
fn test_index_filter_exclude_takes_precedence() {
    let filter = IndexFilter::new()
        .with_include_patterns(vec!["**/*.rs".to_string()])
        .with_exclude_patterns(vec!["**/target/**".to_string()]);

    assert!(!filter.should_index_file("project/target/debug/main.rs"));
    assert!(filter.should_index_file("src/main.rs"));
}

#[test]
fn test_index_filter_combined_filters() {
    let filter = IndexFilter::new()
        .with_include_patterns(vec!["**/src/**".to_string()])
        .with_exclude_patterns(vec!["**/*test*.rs".to_string()])
        .with_languages(vec!["rust".to_string()]);

    assert!(filter.should_index_file("project/src/main.rs"));
    assert!(filter.should_index_file("src/lib.rs"));

    assert!(!filter.should_index_file("main.rs"));

    assert!(!filter.should_index_file("src/main_test.rs"));
    assert!(!filter.should_index_file("src/test_utils.rs"));

    assert!(!filter.should_index_file("src/main.py"));
}

#[test]
fn test_index_filter_wildcards() {
    let filter = IndexFilter::new().with_include_patterns(vec![
        "**/*.rs".to_string(),
        "src/**/*.py".to_string(),
    ]);

    assert!(filter.should_index_file("main.rs"));
    assert!(filter.should_index_file("lib.rs"));
    assert!(filter.should_index_file("src/main.rs"));

    assert!(filter.should_index_file("src/utils.py"));
    assert!(filter.should_index_file("src/nested/helper.py"));

    assert!(!filter.should_index_file("test.py"));
    assert!(!filter.should_index_file("scripts/build.py"));
}

#[test]
fn test_index_filter_accessor_methods() {
    let includes = vec!["*.rs".to_string()];
    let exclude = vec!["**/target/**".to_string()];
    let languages = vec!["rust".to_string()];

    let filter = IndexFilter::new()
        .with_include_patterns(includes.clone())
        .with_exclude_patterns(exclude.clone())
        .with_languages(languages.clone());

    assert_eq!(filter.include_patterns(), Some(&includes));
    assert_eq!(filter.exclude_patterns(), Some(&exclude));
    assert_eq!(filter.languages(), Some(&languages));
    assert!(!filter.is_empty());
}

#[test]
fn test_index_filter_empty_patterns() {
    let filter = IndexFilter::new()
        .with_include_patterns(vec![])
        .with_exclude_patterns(vec![])
        .with_languages(vec![]);

    assert!(filter.is_empty());
    assert_eq!(filter.include_patterns(), None);
    assert_eq!(filter.exclude_patterns(), None);
    assert_eq!(filter.languages(), None);
}

#[test]
fn test_index_filter_case_sensitivity() {
    let filter = IndexFilter::new().with_include_patterns(vec!["**/*.RS".to_string()]);

    let matches_lowercase = filter.should_index_file("src/main.rs");
    let matches_uppercase = filter.should_index_file("src/MAIN.RS");

    assert!(matches_lowercase || matches_uppercase);
}

#[test]
fn index_filter_validation_messages() {
    let f = IndexFilter::new().with_languages(vec!["rust".to_string(), "cobol".to_string()]);
    assert_eq!(
        f.validate().unwrap_err().message(),
        "Configuration error: Unsupported language: 'cobol'. Supported languages: python, javascript, typescript, rust, go, c, cpp, java"
    );
    let f = IndexFilter::new().with_include_patterns(vec!["ok/*.rs".to_string(), "a[".to_string()]);
    let m = f.validate().unwrap_err().message();
    assert!(m.starts_with("Configuration error: Invalid include pattern 'a[': "));
}

#[test]
fn empty_filter_admits_every_file_law() {
    let f = IndexFilter::new();
    for p in ["a.rs", "README", "x/y/z.weird", ""] {
        assert!(f.should_index_file(p));
    }
}

#[test]
fn repository_checks_come_in_order() {
    let bad = IndexFilter::new().with_languages(vec!["cobol".to_string()]);
    match check_repository("/no/such", false, false, &bad) {
        Err(Error::Io(m)) => assert_eq!(m, "Repository path does not exist: /no/such"),
        other => panic!("unexpected {:?}", other),
    }
    match check_repository("/etc/hosts", true, false, &bad) {
        Err(Error::Io(m)) => assert_eq!(m, "Repository path is not a directory: /etc/hosts"),
        other => panic!("unexpected {:?}", other),
    }
    assert!(matches!(check_repository("/repo", true, true, &bad), Err(Error::Config(_))));
    assert!(check_repository("/repo", true, true, &IndexFilter::new()).is_ok());
}
