//! The decisions of the command-line program: reading its arguments, which
//! paths to index, what a dry run reports, and how errors and schedules are
//! shown.  Reading the file system, prompting and printing are the
//! program's.
use vstd::prelude::*;
use crate::database::{MAX_INTERVAL_HOURS, MIN_INTERVAL_HOURS};
use crate::error::{Error, Result};
use crate::indexer::{FileCandidate, IndexFilter, Tally};
use crate::parser::{detect_language, detected_language};
use crate::text::{
    cat, cat3, chars_of, contains, dec, dec_int, ends_with, parse_signed, parse_signed_exec,
    str_contains, str_ends_with, str_eq, string_of, trim, trim_str,
};

verus! {

// ---------------------------------------------------------------------------
// Schedules
// ---------------------------------------------------------------------------

pub open spec fn schedule_error_message(s: Seq<char>) -> Seq<char> {
    "Invalid schedule: '"@ + s
        + "'. Use 'hourly', 'daily', 'weekly', or a number of hours (1-8760)"@
}

pub open spec fn interval_range_message() -> Seq<char> {
    "Schedule interval must be between 1 and 8760 hours (1 year)"@
}

/// The interval that a schedule names: `hourly` is 1 hour, `daily` 24,
/// `weekly` 168, and a number (as `i32::from_str` reads it) is that many
/// hours.
pub open spec fn schedule_hours(s: Seq<char>) -> Option<int> {
    if s == "hourly"@ {
        Some(1)
    } else if s == "daily"@ {
        Some(24)
    } else if s == "weekly"@ {
        Some(168)
    } else {
        parse_signed(s, i32::MIN as int, i32::MAX as int)
    }
}

/// Reads a schedule: its interval in hours, which must lie between
/// `MIN_INTERVAL_HOURS` and `MAX_INTERVAL_HOURS`.
pub fn parse_schedule(s: &str) -> (res: Result<i32>)
    ensures
        match schedule_hours(s@) {
            None => res matches Err(Error::Other(m)) && m@ == schedule_error_message(s@),
            Some(h) => if 1 <= h <= 8760 {
                res == Ok::<i32, Error>(h as i32)
            } else {
                res matches Err(Error::Other(m)) && m@ == interval_range_message()
            },
        },
{
    let hours: i32 = if str_eq(s, "hourly") {
        1
    } else if str_eq(s, "daily") {
        24
    } else if str_eq(s, "weekly") {
        168
    } else {
        match parse_signed_exec(s, i32::MIN as i64, i32::MAX as i64) {
            Some(v) => v as i32,
            None => {
                return Err(
                    Error::Other(
                        cat3(
                            "Invalid schedule: '",
                            s,
                            "'. Use 'hourly', 'daily', 'weekly', or a number of hours (1-8760)",
                        ),
                    ),
                );
            },
        }
    };
    if hours < MIN_INTERVAL_HOURS || hours > MAX_INTERVAL_HOURS {
        return Err(
            Error::Other(String::from_str("Schedule interval must be between 1 and 8760 hours (1 year)")),
        );
    }
    Ok(hours)
}

/// "every N hour" or "every N hours".
pub open spec fn interval_text(hours: int) -> Seq<char> {
    "every "@ + dec_int(hours) + if hours == 1 {
        " hour"@
    } else {
        " hours"@
    }
}

/// How an interval is described to the user.
pub fn describe_interval(hours: i32) -> (res: String)
    ensures
        res@ == interval_text(hours as int),
{
    let n = crate::text::fmt_i64(hours as i64);
    if hours == 1 {
        cat3("every ", n.as_str(), " hour")
    } else {
        cat3("every ", n.as_str(), " hours")
    }
}

// ---------------------------------------------------------------------------
// Command-line bounds
// ---------------------------------------------------------------------------

pub open spec fn not_a_number(s: Seq<char>) -> Seq<char> {
    "'"@ + s + "' is not a valid number"@
}

/// Reads a result limit: a number from 1 to 1000.
pub fn validate_limit(s: &str) -> (res: core::result::Result<i64, String>)
    ensures
        match parse_signed(s@, i64::MIN as int, i64::MAX as int) {
            None => res matches Err(m) && m@ == not_a_number(s@),
            Some(v) => if v < 1 {
                res matches Err(m) && m@ == "limit must be at least 1"@
            } else if v > 1000 {
                res matches Err(m) && m@ == "limit cannot exceed 1000"@
            } else {
                res == Ok::<i64, String>(v as i64)
            },
        },
{
    let value = match parse_signed_exec(s, i64::MIN, i64::MAX) {
        Some(v) => v,
        None => {
            return Err(cat3("'", s, "' is not a valid number"));
        },
    };
    if value < 1 {
        Err(String::from_str("limit must be at least 1"))
    } else if value > 1000 {
        Err(String::from_str("limit cannot exceed 1000"))
    } else {
        Ok(value)
    }
}

/// Reads a graph depth: a number from 1 to 10.
pub fn validate_depth(s: &str) -> (res: core::result::Result<usize, String>)
    ensures
        match crate::text::parse_unsigned(s@, usize::MAX as int) {
            None => res matches Err(m) && m@ == not_a_number(s@),
            Some(v) => if v < 1 {
                res matches Err(m) && m@ == "depth must be at least 1"@
            } else if v > 10 {
                res matches Err(m) && m@ == "depth cannot exceed 10"@
            } else {
                res == Ok::<usize, String>(v as usize)
            },
        },
{
    let max: u64 = usize::MAX as u64;
    assert(max as int == usize::MAX as int);
    let value = match crate::text::parse_unsigned_exec(s, max) {
        Some(v) => {
            proof {
                let pv = crate::text::parse_unsigned(s@, max as int);
                let body = if s@.len() > 0 && s@[0] == '+' { s@.drop_first() } else { s@ };
                crate::text::lemma_digits_value_nonneg(body);
                assert(pv is Some);
                assert(pv.unwrap() <= max as int);
                assert(v == pv.unwrap() as u64);
            }
            v as usize
        },
        None => {
            return Err(cat3("'", s, "' is not a valid number"));
        },
    };
    if value < 1 {
        Err(String::from_str("depth must be at least 1"))
    } else if value > 10 {
        Err(String::from_str("depth cannot exceed 10"))
    } else {
        Ok(value)
    }
}


// ---------------------------------------------------------------------------
// Paths to index
// ---------------------------------------------------------------------------

/// What a path argument of `index` stands for.
#[derive(Debug, Clone, PartialEq, Eq)]
pub enum IndexPattern {
    /// `dir/...`: the directory itself, taken recursively
    Recursive(String),
    /// A glob pattern: the directories that it matches
    Glob(String),
    /// A plain path, which must be a directory
    Plain(String),
}

/// `s` with every trailing `/...` removed (`str::trim_end_matches("/...")`).
pub open spec fn strip_recursive_suffixes(s: Seq<char>) -> Seq<char>
    decreases s.len(),
{
    if s.len() >= 4 && s.subrange(s.len() - 4, s.len() as int) == seq!['/', '.', '.', '.'] {
        strip_recursive_suffixes(s.subrange(0, s.len() - 4))
    } else {
        s
    }
}

/// A character that makes a path argument a glob pattern.
pub open spec fn has_glob_char(s: Seq<char>) -> bool {
    s.contains('*') || s.contains('?') || s.contains('[')
}

/// What a path argument stands for: one that ends in `/...` (or is
/// `./...`) is its base taken recursively, the base being `.` when it is
/// empty or `.`; one with `*`, `?` or `[` is a glob pattern; any other is a
/// plain path.
pub open spec fn pattern_kind(p: Seq<char>) -> (int, Seq<char>) {
    if ends_with(p, "/..."@) || p == "./..."@ {
        let base = strip_recursive_suffixes(p);
        (0, if base.len() == 0 || base == seq!['.'] {
            seq!['.']
        } else {
            base
        })
    } else if has_glob_char(p) {
        (1, p)
    } else {
        (2, p)
    }
}

fn has_glob_char_exec(p: &str) -> (b: bool)
    ensures
        b == has_glob_char(p@),
{
    let v = chars_of(p);
    let mut i: usize = 0;
    while i < v.len()
        invariant
            i <= v.len(),
            v@ == p@,
            forall|k: int| 0 <= k < i ==> v@[k] != '*' && v@[k] != '?' && v@[k] != '[',
        decreases v.len() - i,
    {
        if v[i] == '*' || v[i] == '?' || v[i] == '[' {
            assert(p@.contains(v@[i as int]));
            return true;
        }
        i = i + 1;
    }
    assert(!p@.contains('*') && !p@.contains('?') && !p@.contains('['));
    false
}

/// Reads a path argument of `index` (see [`pattern_kind`]).
pub fn classify_index_pattern(p: &str) -> (res: IndexPattern)
    ensures
        match res {
            IndexPattern::Recursive(b) => pattern_kind(p@) == (0int, b@),
            IndexPattern::Glob(g) => pattern_kind(p@) == (1int, g@),
            IndexPattern::Plain(q) => pattern_kind(p@) == (2int, q@),
        },
{
    if str_ends_with(p, "/...") || str_eq(p, "./...") {
        let v = chars_of(p);
        let mut end: usize = v.len();
        assert(v@.subrange(0, end as int) =~= p@);
        while end >= 4 && v[end - 4] == '/' && v[end - 3] == '.' && v[end - 2] == '.' && v[end - 1] == '.'
            invariant
                end <= v.len(),
                v@ == p@,
                strip_recursive_suffixes(v@.subrange(0, end as int)) == strip_recursive_suffixes(p@),
            decreases end,
        {
            let ghost cur = v@.subrange(0, end as int);
            assert(cur.subrange(cur.len() - 4, cur.len() as int) =~= seq!['/', '.', '.', '.']);
            assert(cur.subrange(0, cur.len() - 4) =~= v@.subrange(0, end - 4));
            end = end - 4;
        }
        let ghost cur = v@.subrange(0, end as int);
        assert(strip_recursive_suffixes(cur) == cur) by {
            if cur.len() >= 4 && cur.subrange(cur.len() - 4, cur.len() as int) == seq!['/', '.', '.', '.'] {
                assert(cur.subrange(cur.len() - 4, cur.len() as int)[0] == v@[end - 4]);
                assert(cur.subrange(cur.len() - 4, cur.len() as int)[1] == v@[end - 3]);
                assert(cur.subrange(cur.len() - 4, cur.len() as int)[2] == v@[end - 2]);
                assert(cur.subrange(cur.len() - 4, cur.len() as int)[3] == v@[end - 1]);
            }
        }
        if end == 0 || (end == 1 && v[0] == '.') {
            proof {
                reveal_strlit(".");
            }
            assert(end == 1 ==> cur =~= seq!['.']);
            let dot = String::from_str(".");
            assert(dot@ =~= seq!['.']);
            return IndexPattern::Recursive(dot);
        }
        let mut out: Vec<char> = Vec::new();
        let mut k: usize = 0;
        while k < end
            invariant
                k <= end <= v.len(),
                out@ =~= v@.subrange(0, k as int),
            decreases end - k,
        {
            out.push(v[k]);
            k = k + 1;
        }
        assert(cur != seq!['.']) by {
            if cur == seq!['.'] {
                assert(cur.len() == 1 && cur[0] == '.');
            }
        }
        return IndexPattern::Recursive(string_of(out.as_slice()));
    }
    if has_glob_char_exec(p) {
        IndexPattern::Glob(String::from_str(p))
    } else {
        IndexPattern::Plain(String::from_str(p))
    }
}

/// No path argument named a directory to index.
pub fn no_paths_error() -> (e: Error)
    ensures
        e matches Error::Other(m) && m@ == "No valid paths found to index. Check your path patterns."@,
{
    Error::Other(String::from_str("No valid paths found to index. Check your path patterns."))
}

// ---------------------------------------------------------------------------
// Dry runs
// ---------------------------------------------------------------------------

/// What a dry run found among the files that git tracks.
#[derive(Debug, Clone)]
pub struct DryRunSummary {
    /// Regular files found
    pub total_files: usize,
    /// Left out by the filter
    pub filtered_out: usize,
    /// Of a supported language, and so to be indexed
    pub supported_files: usize,
    /// Of no supported language
    pub unsupported_files: usize,
    /// The files to be indexed, by language
    pub files_by_language: Tally,
}

/// How a dry run counts a file: 0 not counted (not a regular file), 1 left
/// out by the filter, 2 of a supported language, 3 of none.
pub open spec fn dry_run_class(f: IndexFilter, c: FileCandidate) -> int {
    if !c.is_file {
        0
    } else if !f.admits(c.path@) {
        1
    } else if detected_language(c.path@) is Some {
        2
    } else {
        3
    }
}

/// How many files of `cs` a dry run counts in class `k`.
pub open spec fn dry_run_count(f: IndexFilter, cs: Seq<FileCandidate>, k: int) -> nat
    decreases cs.len(),
{
    if cs.len() == 0 {
        0
    } else {
        dry_run_count(f, cs.drop_last(), k) + if dry_run_class(f, cs.last()) == k {
            1nat
        } else {
            0nat
        }
    }
}

/// How many files of `cs` a dry run would index in language `l`.
pub open spec fn dry_run_language_count(f: IndexFilter, cs: Seq<FileCandidate>, l: Seq<char>) -> nat
    decreases cs.len(),
{
    if cs.len() == 0 {
        0
    } else {
        dry_run_language_count(f, cs.drop_last(), l) + if dry_run_class(f, cs.last()) == 2
            && detected_language(cs.last().path@) == Some(l) {
            1nat
        } else {
            0nat
        }
    }
}

proof fn lemma_language_count_bound(f: IndexFilter, cs: Seq<FileCandidate>, l: Seq<char>)
    ensures
        dry_run_language_count(f, cs, l) <= cs.len(),
    decreases cs.len(),
{
    if cs.len() > 0 {
        lemma_language_count_bound(f, cs.drop_last(), l);
    }
}

/// Scans the files that git tracks as a dry run of indexing with `filter`.
pub fn dry_run_scan(filter: &IndexFilter, files: &Vec<FileCandidate>) -> (s: DryRunSummary)
    ensures
        s.files_by_language.wf(),
        s.total_files == files@.len() - dry_run_count(*filter, files@, 0),
        s.filtered_out == dry_run_count(*filter, files@, 1),
        s.supported_files == dry_run_count(*filter, files@, 2),
        s.unsupported_files == dry_run_count(*filter, files@, 3),
        forall|l: Seq<char>| s.files_by_language.count(l) == dry_run_language_count(*filter, files@, l),
{
    let ghost f = *filter;
    let mut s = DryRunSummary {
        total_files: 0,
        filtered_out: 0,
        supported_files: 0,
        unsupported_files: 0,
        files_by_language: Tally::new(),
    };
    let mut skipped: usize = 0;
    let mut i: usize = 0;
    assert(files@.take(0) =~= Seq::<FileCandidate>::empty());
    while i < files.len()
        invariant
            i <= files.len(),
            f == *filter,
            s.files_by_language.wf(),
            skipped == dry_run_count(f, files@.take(i as int), 0),
            s.filtered_out == dry_run_count(f, files@.take(i as int), 1),
            s.supported_files == dry_run_count(f, files@.take(i as int), 2),
            s.unsupported_files == dry_run_count(f, files@.take(i as int), 3),
            s.total_files + skipped == i,
            skipped + s.filtered_out + s.supported_files + s.unsupported_files == i,
            forall|l: Seq<char>| s.files_by_language.count(l) == dry_run_language_count(f, files@.take(i as int), l),
        decreases files.len() - i,
    {
        let ghost prefix = files@.take(i + 1);
        assert(prefix.drop_last() =~= files@.take(i as int));
        assert(prefix.last() == files@[i as int]);
        let c = &files[i];
        if !c.is_file {
            skipped = skipped + 1;
        } else {
            s.total_files = s.total_files + 1;
            if !filter.should_index_file(c.path.as_str()) {
                s.filtered_out = s.filtered_out + 1;
            } else {
                match detect_language(c.path.as_str()) {
                    Some(lang) => {
                        proof {
                            lemma_language_count_bound(f, files@.take(i as int), lang@);
                        }
                        s.files_by_language.bump(lang.as_str());
                        s.supported_files = s.supported_files + 1;
                    },
                    None => {
                        s.unsupported_files = s.unsupported_files + 1;
                    },
                }
            }
        }
        i = i + 1;
    }
    assert(files@.take(i as int) =~= files@);
    s
}

// ---------------------------------------------------------------------------
// Messages
// ---------------------------------------------------------------------------

/// A search query must hold something besides white space.
pub fn check_query(query: &str) -> (res: Result<()>)
    ensures
        trim(query@).len() != 0 ==> res is Ok,
        trim(query@).len() == 0 ==> (res matches Err(Error::Other(m)) && m@
            == "Query cannot be empty. Please provide a meaningful search term."@),
{
    if crate::text::is_blank(query) {
        return Err(Error::Other(String::from_str("Query cannot be empty. Please provide a meaningful search term.")));
    }
    Ok(())
}

/// A symbol name must hold something besides white space.
pub fn check_symbol_name(symbol: &str) -> (res: Result<()>)
    ensures
        trim(symbol@).len() != 0 ==> res is Ok,
        trim(symbol@).len() == 0 ==> (res matches Err(Error::Other(m)) && m@
            == "Symbol name cannot be empty. Please provide a valid symbol name."@),
{
    if crate::text::is_blank(symbol) {
        return Err(Error::Other(String::from_str("Symbol name cannot be empty. Please provide a valid symbol name.")));
    }
    Ok(())
}

/// The errors that are shown with their troubleshooting advice; the others
/// are shown as their plain message.
pub open spec fn advised(e: Error) -> bool {
    e is PostgresNotRunning || e is PgvectorNotInstalled || e is SchemaNotInitialized
        || e is RepositoryNotFound || e is UnsupportedLanguage || e is Embedding
}

/// Whether an error that ends the program is shown with its
/// troubleshooting advice.
pub fn shows_advice(e: &Error) -> (b: bool)
    ensures
        b == advised(*e),
{
    match e {
        Error::PostgresNotRunning | Error::PgvectorNotInstalled | Error::SchemaNotInitialized
        | Error::RepositoryNotFound(_) | Error::UnsupportedLanguage(_) | Error::Embedding(_) => true,
        _ => false,
    }
}

/// The name shown for the repository of a scheduled task: its name, or
/// `Unknown (ID: n)` when it has none.
pub fn task_repo_label(name: Option<String>, repo_id: i32) -> (res: String)
    ensures
        res@ == match name {
            Some(n) => n@,
            None => "Unknown (ID: "@ + dec_int(repo_id as int) + ")"@,
        },
{
    match name {
        Some(n) => n,
        None => {
            let id = crate::text::fmt_i64(repo_id as i64);
            cat3("Unknown (ID: ", id.as_str(), ")")
        },
    }
}


/// An answer to a yes/no prompt is a yes when, trimmed and lowercased, it
/// is `y` or `yes`.
pub fn is_confirmation(input: &str) -> (b: bool)
    ensures
        b == (crate::embeddings::fallback::to_lowercase(trim(input@)) == "y"@
            || crate::embeddings::fallback::to_lowercase(trim(input@)) == "yes"@),
{
    let t = trim_str(input);
    let l = crate::embeddings::fallback::lowercased(t.as_str());
    str_eq(l.as_str(), "y") || str_eq(l.as_str(), "yes")
}

} // verus!
