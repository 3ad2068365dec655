use cudgel::error::Error;
use cudgel::indexer::{
    check_file_content, classify_file, git_repo_name, git_tracked_paths, prepare_symbol,
    select_files, stored_file_action, FileCandidate, FileVerdict, IndexFilter, IndexingStats,
    StoredFileAction, Tally,
};
use cudgel::parser::Symbol;

fn candidate(path: &str, is_file: bool, size: Option<u64>) -> FileCandidate {
    FileCandidate { path: path.to_string(), is_file, size }
}

fn symbol(name: &str, start: usize, end: usize) -> Symbol {
    Symbol {
        name: name.to_string(),
        kind: "function".to_string(),
        signature: Some("fn f()".to_string()),
        docstring: Some("Does f.".to_string()),
        start_line: start,
        end_line: end,
        text: "fn f() {}".to_string(),
    }
}

#[test]
fn file_verdicts_follow_the_order_of_the_checks() {
    let f = IndexFilter::new();
    assert_eq!(classify_file(&f, &candidate("a.rs", false, Some(10)), 100), FileVerdict::NotAFile);
    assert_eq!(classify_file(&f, &candidate("a.txt", true, Some(10)), 100), FileVerdict::Unsupported);
    assert_eq!(classify_file(&f, &candidate("a.rs", true, None), 100), FileVerdict::NoMetadata);
    assert_eq!(classify_file(&f, &candidate("a.rs", true, Some(101)), 100), FileVerdict::TooLarge);
    assert_eq!(classify_file(&f, &candidate("a.rs", true, Some(100)), 100), FileVerdict::Index);
    assert_eq!(classify_file(&f, &candidate("a.rs", true, Some(0)), 100), FileVerdict::Empty);
    let py = IndexFilter::new().with_languages(vec!["python".to_string()]);
    assert_eq!(classify_file(&py, &candidate("a.rs", true, Some(10)), 100), FileVerdict::Filtered);
}

#[test]
fn selection_keeps_order_and_counts_skips() {
    let f = IndexFilter::new().with_exclude_patterns(vec!["**/vendor/**".to_string()]);
    let cs = vec![
        candidate("/r/src/a.rs", true, Some(5)),
        candidate("/r/vendor/b.rs", true, Some(5)),
        candidate("/r/notes.txt", true, Some(5)),
        candidate("/r/big.py", true, Some(5000)),
        candidate("/r/empty.go", true, Some(0)),
        candidate("/r/gone.c", true, None),
        candidate("/r/dir", false, None),
        candidate("/r/src/c.py", true, Some(7)),
    ];
    let s = select_files(&f, &cs, 1000);
    assert_eq!(s.files, vec!["/r/src/a.rs".to_string(), "/r/src/c.py".to_string()]);
    assert_eq!(s.skipped_by_filter, 1);
    assert_eq!(s.skipped_unsupported, 1);
    assert_eq!(s.skipped_large, 1);
    assert_eq!(s.skipped_no_metadata, 1);
}

#[test]
fn stats_keep_at_most_ten_errors() {
    let mut stats = IndexingStats::new(12);
    for i in 0..12 {
        stats.record_failure(format!("error {}", i));
    }
    assert_eq!(stats.failed_files, 12);
    assert_eq!(stats.errors.len(), 10);
    assert_eq!(stats.errors[9], "error 9");
    stats.record_indexed();
    assert_eq!(stats.indexed_files, 1);
}

#[test]
fn stats_count_languages_and_kinds() {
    let mut stats = IndexingStats::new(3);
    stats.record_language("rust");
    stats.record_language("python");
    stats.record_language("rust");
    stats.record_symbols(3);
    stats.record_symbol_kind("function");
    stats.record_symbol_kind("class");
    stats.record_symbol_kind("function");
    assert_eq!(stats.files_by_language.get("rust"), 2);
    assert_eq!(stats.files_by_language.get("python"), 1);
    assert_eq!(stats.files_by_language.get("go"), 0);
    assert_eq!(stats.symbols_by_kind.get("function"), 2);
    assert_eq!(stats.total_symbols, 3);
    let entries = stats.files_by_language.entries();
    assert_eq!(entries, &vec![("rust".to_string(), 2), ("python".to_string(), 1)]);
    let t = Tally::new();
    assert_eq!(t.get("x"), 0);
}

#[test]
fn symbols_are_checked_before_storing() {
    match prepare_symbol(&symbol("", 1, 2)) {
        Err(Error::Parse(m)) => assert_eq!(m, "Symbol name cannot be empty"),
        _ => panic!("expected a parse error"),
    }
    let long = "x".repeat(1001);
    match prepare_symbol(&symbol(&long, 1, 2)) {
        Err(Error::Parse(m)) => assert_eq!(m, "Symbol name too long: 1001 characters (max: 1000)"),
        _ => panic!("expected a parse error"),
    }
    match prepare_symbol(&symbol("f", 5, 2)) {
        Err(Error::Parse(m)) => assert_eq!(m, "Invalid line numbers for symbol 'f': start=5, end=2"),
        _ => panic!("expected a parse error"),
    }
    let p = prepare_symbol(&symbol("f", 2, 2)).unwrap();
    assert_eq!(p.embedding_text, "f fn f() Does f.");
    assert_eq!(p.signature.as_deref(), Some("fn f()"));
}

#[test]
fn long_signatures_are_cut_to_ten_thousand_bytes() {
    let mut s = symbol("f", 0, 1);
    s.signature = Some("a".repeat(10005));
    s.docstring = None;
    let p = prepare_symbol(&s).unwrap();
    assert_eq!(p.signature.as_ref().unwrap().len(), 10000);
    assert_eq!(p.embedding_text.len(), 1 + 1 + 10000);
}

#[test]
fn repository_names() {
    assert_eq!(git_repo_name(Some("git@github.com:me/cudgel.git\n"), "/x/y"), "cudgel");
    assert_eq!(git_repo_name(Some("https://h/a/b.git.git"), "/x/y"), "b");
    assert_eq!(git_repo_name(Some("plain"), "/x/y"), "plain");
    assert_eq!(git_repo_name(None, "/home/me/project"), "project");
    assert_eq!(git_repo_name(None, "/"), "unknown");
}

#[test]
fn tracked_paths_are_joined_to_the_repository() {
    let listing = "src/main.rs\r\n  lib.rs \nREADME.md";
    assert_eq!(
        git_tracked_paths("/repo", listing),
        vec![
            "/repo/src/main.rs".to_string(),
            "/repo/lib.rs".to_string(),
            "/repo/README.md".to_string()
        ]
    );
    assert!(git_tracked_paths("/repo", "").is_empty());
}

#[test]
fn stored_files_are_kept_replaced_or_stored() {
    assert_eq!(stored_file_action(Some("h1"), "h1", Some(7)), StoredFileAction::KeepExisting(7));
    assert_eq!(stored_file_action(Some("h1"), "h2", Some(7)), StoredFileAction::ReplaceSymbols(7));
    assert_eq!(stored_file_action(Some("h1"), "h1", None), StoredFileAction::Store);
    assert_eq!(stored_file_action(None, "h1", Some(7)), StoredFileAction::Store);
}

#[test]
fn blank_files_are_not_indexed() {
    match check_file_content("a.rs", " \n\t") {
        Err(Error::Parse(m)) => assert_eq!(m, "File is empty: a.rs"),
        _ => panic!("expected a parse error"),
    }
    assert!(check_file_content("a.rs", "fn main() {}").is_ok());
}

#[test]
fn every_candidate_gets_exactly_one_verdict() {
    let f = IndexFilter::new().with_languages(vec!["rust".to_string(), "go".to_string()]);
    let cs = vec![
        candidate("/r/a.rs", true, Some(5)),
        candidate("/r/b.py", true, Some(5)),
        candidate("/r/c.go", true, Some(0)),
        candidate("/r/d.go", true, Some(9000)),
        candidate("/r/e", false, None),
        candidate("/r/f.rs", true, None),
    ];
    let s = select_files(&f, &cs, 1000);
    let verdicts: Vec<FileVerdict> = cs.iter().map(|c| classify_file(&f, c, 1000)).collect();
    let not_files = verdicts.iter().filter(|v| **v == FileVerdict::NotAFile).count();
    let empty = verdicts.iter().filter(|v| **v == FileVerdict::Empty).count();
    let indexed = verdicts.iter().filter(|v| **v == FileVerdict::Index).count();
    assert_eq!(s.files.len(), indexed);
    assert_eq!(
        s.files.len() + s.skipped_by_filter + s.skipped_unsupported + s.skipped_large
            + s.skipped_no_metadata + not_files + empty,
        cs.len()
    );
    assert_eq!((s.files.len(), s.skipped_by_filter, s.skipped_large, s.skipped_no_metadata), (1, 1, 1, 1));
    assert_eq!((not_files, empty), (1, 1));
}

#[test]
fn stored_symbol_lines_count_from_one() {
    let p = prepare_symbol(&symbol("f", 0, 4)).unwrap();
    assert_eq!((p.start_line, p.end_line), (1, 5));
    let far = prepare_symbol(&symbol("g", usize::MAX - 1, usize::MAX)).unwrap();
    assert_eq!((far.start_line, far.end_line), (i32::MAX, i32::MAX));
}
