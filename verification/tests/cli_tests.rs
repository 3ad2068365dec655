use cudgel::cli::{
    check_query, check_symbol_name, classify_index_pattern, dry_run_scan, is_confirmation,
    no_paths_error, shows_advice, task_repo_label, IndexPattern,
};
use cudgel::error::Error;
use cudgel::indexer::{FileCandidate, IndexFilter};

#[test]
fn index_patterns_are_recursive_glob_or_plain() {
    assert_eq!(classify_index_pattern("./..."), IndexPattern::Recursive(".".to_string()));
    assert_eq!(classify_index_pattern("src/..."), IndexPattern::Recursive("src".to_string()));
    assert_eq!(classify_index_pattern("/..."), IndexPattern::Recursive(".".to_string()));
    assert_eq!(classify_index_pattern("a/.../..."), IndexPattern::Recursive("a".to_string()));
    assert_eq!(classify_index_pattern("repos/*"), IndexPattern::Glob("repos/*".to_string()));
    assert_eq!(classify_index_pattern("r?po"), IndexPattern::Glob("r?po".to_string()));
    assert_eq!(classify_index_pattern("/home/me/code"), IndexPattern::Plain("/home/me/code".to_string()));
    assert!(matches!(no_paths_error(), Error::Other(m) if m == "No valid paths found to index. Check your path patterns."));
}

#[test]
fn dry_runs_count_what_would_be_indexed() {
    let files = vec![
        FileCandidate { path: "/r/a.rs".to_string(), is_file: true, size: None },
        FileCandidate { path: "/r/b.rs".to_string(), is_file: true, size: None },
        FileCandidate { path: "/r/c.py".to_string(), is_file: true, size: None },
        FileCandidate { path: "/r/README".to_string(), is_file: true, size: None },
        FileCandidate { path: "/r/sub".to_string(), is_file: false, size: None },
        FileCandidate { path: "/r/x.js".to_string(), is_file: true, size: None },
    ];
    let filter = IndexFilter::new().with_exclude_patterns(vec!["**/*.js".to_string()]);
    let s = dry_run_scan(&filter, &files);
    assert_eq!(s.total_files, 5);
    assert_eq!(s.filtered_out, 1);
    assert_eq!(s.supported_files, 3);
    assert_eq!(s.unsupported_files, 1);
    assert_eq!(s.files_by_language.get("rust"), 2);
    assert_eq!(s.files_by_language.get("python"), 1);
}

#[test]
fn messages_and_prompts() {
    assert!(check_query("find parser").is_ok());
    assert!(matches!(check_query("  "), Err(Error::Other(m)) if m == "Query cannot be empty. Please provide a meaningful search term."));
    assert!(matches!(check_symbol_name(""), Err(Error::Other(m)) if m == "Symbol name cannot be empty. Please provide a valid symbol name."));
    assert!(shows_advice(&Error::PostgresNotRunning));
    assert!(shows_advice(&Error::Embedding("x".to_string())));
    assert!(!shows_advice(&Error::Other("x".to_string())));
    assert_eq!(task_repo_label(Some("cudgel".to_string()), 3), "cudgel");
    assert_eq!(task_repo_label(None, 3), "Unknown (ID: 3)");
    assert!(is_confirmation(" Y \n"));
    assert!(is_confirmation("yes"));
    assert!(!is_confirmation("yep"));
    assert!(!is_confirmation(""));
}
