//! Indexing: which files of a repository get indexed, how each symbol is
//! checked and prepared before it is stored, and the statistics of a run.
use vstd::prelude::*;
use crate::error::{Error, Result};
use crate::parser::{
    detect_language, detected_language, is_supported, is_supported_language, Symbol,
};
use crate::paths::{file_name, file_name_exec, join, join_path};
use crate::text::{
    cat, cat3, cat4, cat5, chars_of, ends_with, fmt_u64, lines, lines_of, str_eq, string_of,
    strings, trim, trim_str, dec,
};
use vstd::utf8::{encode_utf8, is_char_boundary};
use vstd::string::StringSliceAdditionalSpecFns;

verus! {

// ---------------------------------------------------------------------------
// Glob patterns (the `glob` crate)
// ---------------------------------------------------------------------------

/// What `glob::Pattern::new(pattern)` reports: `None` when the pattern
/// compiles, else the `Display` text of its `PatternError`.
pub uninterp spec fn glob_compile_error(pattern: Seq<char>) -> Option<Seq<char>>;

/// `glob::Pattern::matches(path)` for the compiled `pattern`.
pub uninterp spec fn glob_matches(pattern: Seq<char>, path: Seq<char>) -> bool;

/// Compiles `pattern` with `glob::Pattern::new` and returns the text of the
/// error, if there is one.  The contract says only that the outcome is the
/// one that `glob_compile_error` names for this pattern.
#[verifier::external_body]
fn glob_pattern_error(pattern: &str) -> (res: Option<String>)
    ensures
        match glob_compile_error(pattern@) {
            None => res.is_none(),
            Some(m) => res.is_some() && res.unwrap()@ == m,
        },
{
    glob::Pattern::new(pattern).err().map(|e| e.to_string())
}

/// Compiles `pattern` with `glob::Pattern::new` and, when it compiles, asks
/// `Pattern::matches` about `path`; a pattern that does not compile matches
/// nothing.
#[verifier::external_body]
fn glob_is_match(pattern: &str, path: &str) -> (b: bool)
    ensures
        b == (glob_compile_error(pattern@) is None && glob_matches(pattern@, path@)),
{
    glob::Pattern::new(pattern).map_or(false, |g| g.matches(path))
}

// ---------------------------------------------------------------------------
// File filters
// ---------------------------------------------------------------------------

/// File filtering configuration for selective indexing: include and exclude
/// glob patterns, and the languages to index.  An absent list means "no
/// filtering of this kind"; an empty list is never stored.
#[derive(Debug, Clone)]
pub struct IndexFilter {
    include_patterns: Option<Vec<String>>,
    exclude_patterns: Option<Vec<String>>,
    languages: Option<Vec<String>>,
}

/// `patterns` as an optional list: `None` when it is empty.
pub open spec fn non_empty(patterns: Vec<String>) -> Option<Vec<String>> {
    if patterns@.len() == 0 {
        None
    } else {
        Some(patterns)
    }
}

/// Some pattern of `ps` matches `path`.
pub open spec fn any_matches(ps: Seq<String>, path: Seq<char>) -> bool {
    exists|i: int|
        0 <= i < ps.len() && glob_compile_error(ps[i]@) is None && #[trigger] glob_matches(
            ps[i]@,
            path,
        )
}

/// The first language of `ls` that cudgel cannot parse.
pub open spec fn first_unsupported(ls: Seq<String>) -> Option<Seq<char>>
    decreases ls.len(),
{
    if ls.len() == 0 {
        None
    } else if !is_supported_language(ls[0]@) {
        Some(ls[0]@)
    } else {
        first_unsupported(ls.drop_first())
    }
}

/// The first pattern of `ps` that does not compile, with its error text.
pub open spec fn first_invalid(ps: Seq<String>) -> Option<(Seq<char>, Seq<char>)>
    decreases ps.len(),
{
    if ps.len() == 0 {
        None
    } else if glob_compile_error(ps[0]@) is Some {
        Some((ps[0]@, glob_compile_error(ps[0]@).unwrap()))
    } else {
        first_invalid(ps.drop_first())
    }
}

pub open spec fn supported_list() -> Seq<char> {
    "python, javascript, typescript, rust, go, c, cpp, java"@
}

impl IndexFilter {
    /// The include patterns.
    pub closed spec fn includes(&self) -> Option<Vec<String>> {
        self.include_patterns
    }

    /// The exclude patterns.
    pub closed spec fn excludes(&self) -> Option<Vec<String>> {
        self.exclude_patterns
    }

    /// The chosen languages.
    pub closed spec fn langs(&self) -> Option<Vec<String>> {
        self.languages
    }

    /// No list is stored empty.
    pub open spec fn wf(&self) -> bool {
        &&& (self.includes() matches Some(v) ==> v@.len() > 0)
        &&& (self.excludes() matches Some(v) ==> v@.len() > 0)
        &&& (self.langs() matches Some(v) ==> v@.len() > 0)
    }

    /// Whether the file at `path` passes the filter: its language is one of
    /// the chosen ones (when languages are chosen), no exclude pattern
    /// matches it, and some include pattern matches it (when include
    /// patterns are given).
    pub open spec fn admits(&self, path: Seq<char>) -> bool {
        &&& match self.langs() {
            None => true,
            Some(ls) => match detected_language(path) {
                None => false,
                Some(l) => strings(ls@).contains(l),
            },
        }
        &&& match self.excludes() {
            None => true,
            Some(ex) => !any_matches(ex@, path),
        }
        &&& match self.includes() {
            None => true,
            Some(inc) => any_matches(inc@, path),
        }
    }

    /// The message of the first problem that `validate` reports.
    pub open spec fn problem(&self) -> Option<Seq<char>> {
        let unsupported = match self.langs() {
            None => None,
            Some(ls) => first_unsupported(ls@),
        };
        let bad_include = match self.includes() {
            None => None,
            Some(ps) => first_invalid(ps@),
        };
        let bad_exclude = match self.excludes() {
            None => None,
            Some(ps) => first_invalid(ps@),
        };
        if unsupported is Some {
            Some("Unsupported language: '"@ + unsupported.unwrap() + "'. Supported languages: "@
                + supported_list())
        } else if bad_include is Some {
            Some("Invalid include pattern '"@ + bad_include.unwrap().0 + "': "@
                + bad_include.unwrap().1)
        } else if bad_exclude is Some {
            Some("Invalid exclude pattern '"@ + bad_exclude.unwrap().0 + "': "@
                + bad_exclude.unwrap().1)
        } else {
            None
        }
    }

    /// Creates a new empty filter (no filtering applied).
    pub fn new() -> (f: IndexFilter)
        ensures
            f.includes() is None,
            f.excludes() is None,
            f.langs() is None,
            f.wf(),
    {
        IndexFilter { include_patterns: None, exclude_patterns: None, languages: None }
    }

    /// Sets the include glob patterns; an empty list means "include all".
    pub fn with_include_patterns(self, patterns: Vec<String>) -> (f: IndexFilter)
        ensures
            f.includes() == non_empty(patterns),
            f.excludes() == self.excludes(),
            f.langs() == self.langs(),
            self.wf() ==> f.wf(),
    {
        let mut f = self;
        f.include_patterns = if patterns.len() == 0 {
            None
        } else {
            Some(patterns)
        };
        f
    }

    /// Sets the exclude glob patterns; an empty list means "exclude none".
    pub fn with_exclude_patterns(self, patterns: Vec<String>) -> (f: IndexFilter)
        ensures
            f.includes() == self.includes(),
            f.excludes() == non_empty(patterns),
            f.langs() == self.langs(),
            self.wf() ==> f.wf(),
    {
        let mut f = self;
        f.exclude_patterns = if patterns.len() == 0 {
            None
        } else {
            Some(patterns)
        };
        f
    }

    /// Sets the language filter; an empty list means "all languages".
    pub fn with_languages(self, langs: Vec<String>) -> (f: IndexFilter)
        ensures
            f.includes() == self.includes(),
            f.excludes() == self.excludes(),
            f.langs() == non_empty(langs),
            self.wf() ==> f.wf(),
    {
        let mut f = self;
        f.languages = if langs.len() == 0 {
            None
        } else {
            Some(langs)
        };
        f
    }

    /// The include patterns, if any.
    pub fn include_patterns(&self) -> (res: Option<&Vec<String>>)
        ensures
            match self.includes() {
                None => res.is_none(),
                Some(v) => res.is_some() && *res.unwrap() == v,
            },
    {
        self.include_patterns.as_ref()
    }

    /// The exclude patterns, if any.
    pub fn exclude_patterns(&self) -> (res: Option<&Vec<String>>)
        ensures
            match self.excludes() {
                None => res.is_none(),
                Some(v) => res.is_some() && *res.unwrap() == v,
            },
    {
        self.exclude_patterns.as_ref()
    }

    /// The language filter, if any.
    pub fn languages(&self) -> (res: Option<&Vec<String>>)
        ensures
            match self.langs() {
                None => res.is_none(),
                Some(v) => res.is_some() && *res.unwrap() == v,
            },
    {
        self.languages.as_ref()
    }

    /// Checks that every language is one cudgel supports and that every
    /// pattern compiles; the first problem found is reported.
    pub fn validate(&self) -> (res: Result<()>)
        ensures
            match self.problem() {
                None => res.is_ok(),
                Some(m) => res matches Err(Error::Config(msg)) && msg@ == m,
            },
    {
        if let Some(ls) = &self.languages {
            if let Some(i) = find_unsupported(ls) {
                let head = cat3("Unsupported language: '", ls[i].as_str(), "'. Supported languages: ");
                return Err(
                    Error::Config(
                        cat(head.as_str(), "python, javascript, typescript, rust, go, c, cpp, java"),
                    ),
                );
            }
        }
        if let Some(ps) = &self.include_patterns {
            if let Some((i, e)) = find_invalid(ps) {
                return Err(
                    Error::Config(
                        cat4("Invalid include pattern '", ps[i].as_str(), "': ", e.as_str()),
                    ),
                );
            }
        }
        if let Some(ps) = &self.exclude_patterns {
            if let Some((i, e)) = find_invalid(ps) {
                return Err(
                    Error::Config(
                        cat4("Invalid exclude pattern '", ps[i].as_str(), "': ", e.as_str()),
                    ),
                );
            }
        }
        Ok(())
    }

    /// Whether a file should be indexed: see [`IndexFilter::admits`].
    pub fn should_index_file(&self, file_path: &str) -> (b: bool)
        ensures
            b == self.admits(file_path@),
    {
        if let Some(ls) = &self.languages {
            match detect_language(file_path) {
                Some(l) => {
                    if !list_contains(ls, l.as_str()) {
                        return false;
                    }
                },
                None => {
                    return false;
                },
            }
        }
        if let Some(ex) = &self.exclude_patterns {
            if any_pattern_matches(ex, file_path) {
                return false;
            }
        }
        if let Some(inc) = &self.include_patterns {
            if !any_pattern_matches(inc, file_path) {
                return false;
            }
        }
        true
    }

    /// Whether no filter of any kind is set.
    pub fn is_empty(&self) -> (b: bool)
        ensures
            b == (self.includes() is None && self.excludes() is None && self.langs() is None),
    {
        self.include_patterns.is_none() && self.exclude_patterns.is_none()
            && self.languages.is_none()
    }
}

fn find_unsupported(ls: &Vec<String>) -> (res: Option<usize>)
    ensures
        match first_unsupported(ls@) {
            None => res.is_none(),
            Some(l) => res matches Some(i) && i < ls@.len() && ls@[i as int]@ == l,
        },
{
    let mut i: usize = 0;
    assert(ls@.skip(0) =~= ls@);
    while i < ls.len()
        invariant
            i <= ls.len(),
            first_unsupported(ls@.skip(i as int)) == first_unsupported(ls@),
        decreases ls.len() - i,
    {
        assert(ls@.skip(i as int)[0] == ls@[i as int]);
        if !is_supported(ls[i].as_str()) {
            return Some(i);
        }
        assert(ls@.skip(i as int).drop_first() =~= ls@.skip(i + 1));
        i = i + 1;
    }
    assert(ls@.skip(i as int).len() == 0);
    None
}

fn find_invalid(ps: &Vec<String>) -> (res: Option<(usize, String)>)
    ensures
        match first_invalid(ps@) {
            None => res.is_none(),
            Some((p, e)) => res matches Some((i, m)) && i < ps@.len() && ps@[i as int]@ == p && m@
                == e,
        },
{
    let mut i: usize = 0;
    assert(ps@.skip(0) =~= ps@);
    while i < ps.len()
        invariant
            i <= ps.len(),
            first_invalid(ps@.skip(i as int)) == first_invalid(ps@),
        decreases ps.len() - i,
    {
        assert(ps@.skip(i as int)[0] == ps@[i as int]);
        if let Some(e) = glob_pattern_error(ps[i].as_str()) {
            return Some((i, e));
        }
        assert(ps@.skip(i as int).drop_first() =~= ps@.skip(i + 1));
        i = i + 1;
    }
    assert(ps@.skip(i as int).len() == 0);
    None
}

fn list_contains(ls: &Vec<String>, l: &str) -> (b: bool)
    ensures
        b == strings(ls@).contains(l@),
{
    let mut i: usize = 0;
    while i < ls.len()
        invariant
            i <= ls.len(),
            forall|k: int| 0 <= k < i ==> strings(ls@)[k] != l@,
        decreases ls.len() - i,
    {
        assert(strings(ls@)[i as int] == ls@[i as int]@);
        if crate::text::str_eq(ls[i].as_str(), l) {
            assert(strings(ls@)[i as int] == l@);
            return true;
        }
        i = i + 1;
    }
    assert(!strings(ls@).contains(l@)) by {
        if strings(ls@).contains(l@) {
            let k = choose|k: int| 0 <= k < strings(ls@).len() && strings(ls@)[k] == l@;
            assert(strings(ls@)[k] != l@);
        }
    }
    false
}

fn any_pattern_matches(ps: &Vec<String>, path: &str) -> (b: bool)
    ensures
        b == any_matches(ps@, path@),
{
    let mut i: usize = 0;
    while i < ps.len()
        invariant
            i <= ps.len(),
            forall|k: int|
                0 <= k < i ==> !(glob_compile_error(ps@[k]@) is None && #[trigger] glob_matches(
                    ps@[k]@,
                    path@,
                )),
        decreases ps.len() - i,
    {
        if glob_is_match(ps[i].as_str(), path) {
            return true;
        }
        i = i + 1;
    }
    false
}

// ---------------------------------------------------------------------------
// Choosing the files of a repository
// ---------------------------------------------------------------------------

/// What is known of a file that git tracks before it is read: its path,
/// whether it is a regular file, and its size in bytes when its metadata
/// could be read.
#[derive(Debug, Clone)]
pub struct FileCandidate {
    pub path: String,
    pub is_file: bool,
    pub size: Option<u64>,
}

/// Whether a tracked file is indexed, and if not, why.
#[derive(Debug, Clone, Copy, PartialEq, Eq)]
pub enum FileVerdict {
    /// Not a regular file
    NotAFile,
    /// Left out by the include/exclude/language filter
    Filtered,
    /// Written in a language that cudgel cannot parse
    Unsupported,
    /// Its metadata could not be read
    NoMetadata,
    /// Larger than the configured maximum
    TooLarge,
    /// Of size zero
    Empty,
    /// To be indexed
    Index,
}

/// The verdict on one file: the checks are made in this order, the first
/// that fails deciding.
pub open spec fn verdict(f: IndexFilter, c: FileCandidate, max_file_size: int) -> FileVerdict {
    if !c.is_file {
        FileVerdict::NotAFile
    } else if !f.admits(c.path@) {
        FileVerdict::Filtered
    } else if detected_language(c.path@) is None {
        FileVerdict::Unsupported
    } else {
        match c.size {
            None => FileVerdict::NoMetadata,
            Some(size) => if size > max_file_size {
                FileVerdict::TooLarge
            } else if size == 0 {
                FileVerdict::Empty
            } else {
                FileVerdict::Index
            },
        }
    }
}

/// The paths of the files of `cs` to index, in order.
pub open spec fn selected(f: IndexFilter, cs: Seq<FileCandidate>, max_file_size: int) -> Seq<
    Seq<char>,
>
    decreases cs.len(),
{
    if cs.len() == 0 {
        Seq::empty()
    } else {
        let rest = selected(f, cs.drop_last(), max_file_size);
        if verdict(f, cs.last(), max_file_size) == FileVerdict::Index {
            rest.push(cs.last().path@)
        } else {
            rest
        }
    }
}

/// How many files of `cs` get the verdict `v`.
pub open spec fn tally(f: IndexFilter, cs: Seq<FileCandidate>, max_file_size: int, v: FileVerdict) -> nat
    decreases cs.len(),
{
    if cs.len() == 0 {
        0
    } else {
        tally(f, cs.drop_last(), max_file_size, v) + if verdict(f, cs.last(), max_file_size) == v {
            1nat
        } else {
            0nat
        }
    }
}

/// Checks a repository before it is indexed, given whether its path exists
/// and whether it is a directory: a missing path is an error, then a path
/// that is no directory, then a filter with a problem, in that order.
pub fn check_repository(path: &str, exists: bool, is_dir: bool, filter: &IndexFilter) -> (res: Result<()>)
    ensures
        !exists ==> (res matches Err(Error::Io(m)) && m@ == "Repository path does not exist: "@ + path@),
        exists && !is_dir ==> (res matches Err(Error::Io(m)) && m@ == "Repository path is not a directory: "@
            + path@),
        exists && is_dir ==> match filter.problem() {
            None => res is Ok,
            Some(p) => res matches Err(Error::Config(m)) && m@ == p,
        },
{
    if !exists {
        return Err(Error::Io(cat("Repository path does not exist: ", path)));
    }
    if !is_dir {
        return Err(Error::Io(cat("Repository path is not a directory: ", path)));
    }
    filter.validate()
}

/// Every tracked file is accounted for once: it is either selected for
/// indexing or has exactly one of the reasons for being skipped.
pub proof fn law_selection_accounts_for_every_file(
    f: IndexFilter,
    cs: Seq<FileCandidate>,
    max_file_size: int,
)
    ensures
        selected(f, cs, max_file_size).len() + tally(f, cs, max_file_size, FileVerdict::NotAFile)
            + tally(f, cs, max_file_size, FileVerdict::Filtered) + tally(
            f,
            cs,
            max_file_size,
            FileVerdict::Unsupported,
        ) + tally(f, cs, max_file_size, FileVerdict::NoMetadata) + tally(
            f,
            cs,
            max_file_size,
            FileVerdict::TooLarge,
        ) + tally(f, cs, max_file_size, FileVerdict::Empty) == cs.len(),
        selected(f, cs, max_file_size).len() == tally(f, cs, max_file_size, FileVerdict::Index),
    decreases cs.len(),
{
    if cs.len() > 0 {
        law_selection_accounts_for_every_file(f, cs.drop_last(), max_file_size);
    }
}

/// The files to index, and how many were skipped for each reason that is
/// reported.
#[derive(Debug, Clone)]
pub struct FileSelection {
    pub files: Vec<String>,
    pub skipped_by_filter: usize,
    pub skipped_unsupported: usize,
    pub skipped_large: usize,
    pub skipped_no_metadata: usize,
}

/// The verdict on one tracked file.
pub fn classify_file(filter: &IndexFilter, candidate: &FileCandidate, max_file_size: usize) -> (v:
    FileVerdict)
    ensures
        v == verdict(*filter, *candidate, max_file_size as int),
{
    if !candidate.is_file {
        return FileVerdict::NotAFile;
    }
    if !filter.should_index_file(candidate.path.as_str()) {
        return FileVerdict::Filtered;
    }
    if detect_language(candidate.path.as_str()).is_none() {
        return FileVerdict::Unsupported;
    }
    match candidate.size {
        None => FileVerdict::NoMetadata,
        Some(size) => {
            if size > max_file_size as u64 {
                FileVerdict::TooLarge
            } else if size == 0 {
                FileVerdict::Empty
            } else {
                FileVerdict::Index
            }
        },
    }
}

/// Chooses, among the files that git tracks, those to index: regular files
/// that pass `filter`, in a supported language, whose size is known and
/// neither zero nor above `max_file_size`.  Repository indexing without a
/// filter passes an empty one, which admits every file.
pub fn select_files(filter: &IndexFilter, candidates: &Vec<FileCandidate>, max_file_size: usize) -> (s:
    FileSelection)
    ensures
        strings(s.files@) == selected(*filter, candidates@, max_file_size as int),
        s.skipped_by_filter == tally(*filter, candidates@, max_file_size as int, FileVerdict::Filtered),
        s.skipped_unsupported == tally(
            *filter,
            candidates@,
            max_file_size as int,
            FileVerdict::Unsupported,
        ),
        s.skipped_large == tally(*filter, candidates@, max_file_size as int, FileVerdict::TooLarge),
        s.skipped_no_metadata == tally(
            *filter,
            candidates@,
            max_file_size as int,
            FileVerdict::NoMetadata,
        ),
{
    let ghost f = *filter;
    let ghost m = max_file_size as int;
    let mut files: Vec<String> = Vec::new();
    let mut by_filter: usize = 0;
    let mut unsupported: usize = 0;
    let mut large: usize = 0;
    let mut no_metadata: usize = 0;
    let mut i: usize = 0;
    assert(candidates@.take(0) =~= Seq::<FileCandidate>::empty());
    assert(strings(files@) =~= Seq::<Seq<char>>::empty());
    while i < candidates.len()
        invariant
            i <= candidates.len(),
            f == *filter,
            m == max_file_size as int,
            strings(files@) == selected(f, candidates@.take(i as int), m),
            by_filter == tally(f, candidates@.take(i as int), m, FileVerdict::Filtered),
            unsupported == tally(f, candidates@.take(i as int), m, FileVerdict::Unsupported),
            large == tally(f, candidates@.take(i as int), m, FileVerdict::TooLarge),
            no_metadata == tally(f, candidates@.take(i as int), m, FileVerdict::NoMetadata),
            by_filter <= i,
            unsupported <= i,
            large <= i,
            no_metadata <= i,
        decreases candidates.len() - i,
    {
        let ghost prefix = candidates@.take(i + 1);
        assert(prefix.drop_last() =~= candidates@.take(i as int));
        assert(prefix.last() == candidates@[i as int]);
        let v = classify_file(filter, &candidates[i], max_file_size);
        match v {
            FileVerdict::Filtered => {
                by_filter = by_filter + 1;
            },
            FileVerdict::Unsupported => {
                unsupported = unsupported + 1;
            },
            FileVerdict::TooLarge => {
                large = large + 1;
            },
            FileVerdict::NoMetadata => {
                no_metadata = no_metadata + 1;
            },
            FileVerdict::Index => {
                let ghost before = files@;
                files.push(candidates[i].path.clone());
                assert(strings(files@) =~= strings(before).push(candidates@[i as int].path@));
            },
            _ => {},
        }
        i = i + 1;
    }
    assert(candidates@.take(i as int) =~= candidates@);
    FileSelection {
        files,
        skipped_by_filter: by_filter,
        skipped_unsupported: unsupported,
        skipped_large: large,
        skipped_no_metadata: no_metadata,
    }
}

// ---------------------------------------------------------------------------
// Statistics of a run
// ---------------------------------------------------------------------------

/// Counts by name (symbols by kind, files by language), each name once, in
/// the order in which the names first came.
#[derive(Debug, Clone)]
pub struct Tally {
    entries: Vec<(String, usize)>,
}

impl Tally {
    /// No name occurs twice.
    pub closed spec fn wf(&self) -> bool {
        forall|i: int, j: int|
            0 <= i < j < self.entries@.len() ==> #[trigger] self.entries@[i].0@
                != #[trigger] self.entries@[j].0@
    }

    /// The count recorded for `key` (0 when it has none).
    pub closed spec fn count(&self, key: Seq<char>) -> nat {
        if exists|i: int| 0 <= i < self.entries@.len() && #[trigger] self.entries@[i].0@ == key {
            self.entries@[choose|i: int|
                0 <= i < self.entries@.len() && #[trigger] self.entries@[i].0@ == key].1 as nat
        } else {
            0
        }
    }

    proof fn lemma_count_at(&self, i: int)
        requires
            self.wf(),
            0 <= i < self.entries@.len(),
        ensures
            self.count(self.entries@[i].0@) == self.entries@[i].1,
    {
        let key = self.entries@[i].0@;
        let j = choose|j: int| 0 <= j < self.entries@.len() && #[trigger] self.entries@[j].0@ == key;
        assert(self.entries@[j].0@ == key);
        if j != i {
            if j < i {
                assert(self.entries@[j].0@ != self.entries@[i].0@);
            } else {
                assert(self.entries@[i].0@ != self.entries@[j].0@);
            }
        }
    }

    /// A tally with no counts.
    pub fn new() -> (t: Tally)
        ensures
            t.wf(),
            forall|k: Seq<char>| t.count(k) == 0,
    {
        Tally { entries: Vec::new() }
    }

    /// The count recorded for `key`.
    pub fn get(&self, key: &str) -> (n: usize)
        requires
            self.wf(),
        ensures
            n == self.count(key@),
    {
        let mut i: usize = 0;
        while i < self.entries.len()
            invariant
                i <= self.entries.len(),
                self.wf(),
                forall|k: int| 0 <= k < i ==> #[trigger] self.entries@[k].0@ != key@,
            decreases self.entries.len() - i,
        {
            if str_eq(self.entries[i].0.as_str(), key) {
                proof {
                    self.lemma_count_at(i as int);
                }
                return self.entries[i].1;
            }
            i = i + 1;
        }
        0
    }

    /// Adds one to the count of `key`.
    pub fn bump(&mut self, key: &str)
        requires
            old(self).wf(),
            old(self).count(key@) < usize::MAX,
        ensures
            final(self).wf(),
            final(self).count(key@) == old(self).count(key@) + 1,
            forall|k: Seq<char>| k != key@ ==> final(self).count(k) == old(self).count(k),
    {
        let ghost old_t = *self;
        let mut i: usize = 0;
        while i < self.entries.len()
            invariant
                i <= self.entries.len(),
                *self == old_t,
                old_t == *old(self),
                old_t.wf(),
                old_t.count(key@) < usize::MAX,
                forall|k: int| 0 <= k < i ==> #[trigger] self.entries@[k].0@ != key@,
            decreases self.entries.len() - i,
        {
            if str_eq(self.entries[i].0.as_str(), key) {
                proof {
                    self.lemma_count_at(i as int);
                }
                let c = self.entries[i].1;
                let name = self.entries[i].0.clone();
                self.entries.set(i, (name, c + 1));
                proof {
                    assert(self.wf()) by {
                        assert forall|a: int, b: int|
                            0 <= a < b < self.entries@.len() implies #[trigger] self.entries@[a].0@
                            != #[trigger] self.entries@[b].0@ by {
                            assert(old_t.entries@[a].0@ != old_t.entries@[b].0@);
                        }
                    }
                    self.lemma_count_at(i as int);
                    assert forall|k: Seq<char>| k != key@ implies self.count(k) == old_t.count(k) by {
                        if exists|j: int| 0 <= j < self.entries@.len() && #[trigger] self.entries@[j].0@ == k {
                            let j = choose|j: int|
                                0 <= j < self.entries@.len() && #[trigger] self.entries@[j].0@ == k;
                            self.lemma_count_at(j);
                            old_t.lemma_count_at(j);
                        } else {
                            assert(!exists|j: int|
                                0 <= j < old_t.entries@.len() && #[trigger] old_t.entries@[j].0@ == k) by {
                                if exists|j: int|
                                    0 <= j < old_t.entries@.len() && #[trigger] old_t.entries@[j].0@ == k {
                                    let j = choose|j: int|
                                        0 <= j < old_t.entries@.len() && #[trigger] old_t.entries@[j].0@
                                            == k;
                                    assert(self.entries@[j].0@ == k);
                                }
                            }
                        }
                    }
                }
                return;
            }
            i = i + 1;
        }
        assert(!exists|j: int| 0 <= j < old_t.entries@.len() && #[trigger] old_t.entries@[j].0@ == key@);
        self.entries.push((String::from_str(key), 1));
        proof {
            let n = old_t.entries@.len() as int;
            assert(self.entries@[n].0@ == key@);
            assert(self.wf()) by {
                assert forall|a: int, b: int|
                    0 <= a < b < self.entries@.len() implies #[trigger] self.entries@[a].0@
                    != #[trigger] self.entries@[b].0@ by {
                    if b < n {
                        assert(old_t.entries@[a].0@ != old_t.entries@[b].0@);
                    } else {
                        assert(self.entries@[a] == old_t.entries@[a]);
                    }
                }
            }
            self.lemma_count_at(n);
            assert forall|k: Seq<char>| k != key@ implies self.count(k) == old_t.count(k) by {
                if exists|j: int| 0 <= j < self.entries@.len() && #[trigger] self.entries@[j].0@ == k {
                    let j = choose|j: int|
                        0 <= j < self.entries@.len() && #[trigger] self.entries@[j].0@ == k;
                    assert(j < n);
                    self.lemma_count_at(j);
                    old_t.lemma_count_at(j);
                } else {
                    assert(!exists|j: int|
                        0 <= j < old_t.entries@.len() && #[trigger] old_t.entries@[j].0@ == k) by {
                        if exists|j: int|
                            0 <= j < old_t.entries@.len() && #[trigger] old_t.entries@[j].0@ == k {
                            let j = choose|j: int|
                                0 <= j < old_t.entries@.len() && #[trigger] old_t.entries@[j].0@ == k;
                            assert(self.entries@[j].0@ == k);
                        }
                    }
                }
            }
        }
    }

    /// The names and their counts, in the order in which the names first
    /// came: each name once, with its count.
    pub fn entries(&self) -> (res: &Vec<(String, usize)>)
        requires
            self.wf(),
        ensures
            forall|i: int| 0 <= i < res@.len() ==> self.count(#[trigger] res@[i].0@) == res@[i].1,
            forall|k: Seq<char>| self.count(k) > 0 ==> exists|i: int| 0 <= i < res@.len() && #[trigger] res@[i].0@ == k,
    {
        proof {
            assert forall|i: int| 0 <= i < self.entries@.len() implies self.count(
                #[trigger] self.entries@[i].0@,
            ) == self.entries@[i].1 by {
                self.lemma_count_at(i);
            }
        }
        &self.entries
    }
}

/// How many error messages a run keeps.
pub const MAX_RECORDED_ERRORS: usize = 10;

/// Statistics collected during repository indexing.
#[derive(Debug, Clone)]
pub struct IndexingStats {
    /// Number of files chosen for indexing
    pub total_files: usize,
    /// Number of files indexed
    pub indexed_files: usize,
    /// Number of files that failed to index
    pub failed_files: usize,
    /// Number of symbols extracted
    pub total_symbols: usize,
    /// Symbols by kind
    pub symbols_by_kind: Tally,
    /// Files by language
    pub files_by_language: Tally,
    /// The first error messages of the run
    pub errors: Vec<String>,
}

impl IndexingStats {
    /// The tallies are well formed and no more errors are kept than
    /// `MAX_RECORDED_ERRORS`.
    pub open spec fn wf(&self) -> bool {
        &&& self.symbols_by_kind.wf()
        &&& self.files_by_language.wf()
        &&& self.errors@.len() <= MAX_RECORDED_ERRORS
    }

    /// The statistics of a run over `total_files` files, before any is indexed.
    pub fn new(total_files: usize) -> (s: IndexingStats)
        ensures
            s.wf(),
            s.total_files == total_files,
            s.indexed_files == 0,
            s.failed_files == 0,
            s.total_symbols == 0,
            forall|k: Seq<char>| s.symbols_by_kind.count(k) == 0,
            forall|k: Seq<char>| s.files_by_language.count(k) == 0,
            s.errors@.len() == 0,
    {
        IndexingStats {
            total_files,
            indexed_files: 0,
            failed_files: 0,
            total_symbols: 0,
            symbols_by_kind: Tally::new(),
            files_by_language: Tally::new(),
            errors: Vec::new(),
        }
    }

    /// Records a file indexed.
    pub fn record_indexed(&mut self)
        requires
            old(self).indexed_files < usize::MAX,
        ensures
            *final(self) == (IndexingStats { indexed_files: (old(self).indexed_files + 1) as usize, ..*old(self) }),
    {
        self.indexed_files = self.indexed_files + 1;
    }

    /// Records a file that failed, keeping its message if fewer than
    /// `MAX_RECORDED_ERRORS` are kept.
    pub fn record_failure(&mut self, message: String)
        requires
            old(self).failed_files < usize::MAX,
        ensures
            final(self).failed_files == old(self).failed_files + 1,
            final(self).errors@ == if old(self).errors@.len() < MAX_RECORDED_ERRORS {
                old(self).errors@.push(message)
            } else {
                old(self).errors@
            },
            final(self).total_files == old(self).total_files,
            final(self).indexed_files == old(self).indexed_files,
            final(self).total_symbols == old(self).total_symbols,
            final(self).symbols_by_kind == old(self).symbols_by_kind,
            final(self).files_by_language == old(self).files_by_language,
            old(self).wf() ==> final(self).wf(),
    {
        self.failed_files = self.failed_files + 1;
        if self.errors.len() < MAX_RECORDED_ERRORS {
            self.errors.push(message);
        }
    }

    /// Records a stored file of language `language`.
    pub fn record_language(&mut self, language: &str)
        requires
            old(self).wf(),
            old(self).files_by_language.count(language@) < usize::MAX,
        ensures
            final(self).wf(),
            final(self).files_by_language.count(language@) == old(self).files_by_language.count(language@) + 1,
            forall|k: Seq<char>| k != language@ ==> final(self).files_by_language.count(k) == old(self).files_by_language.count(k),
            final(self).symbols_by_kind == old(self).symbols_by_kind,
            final(self).errors == old(self).errors,
            final(self).total_files == old(self).total_files,
            final(self).indexed_files == old(self).indexed_files,
            final(self).failed_files == old(self).failed_files,
            final(self).total_symbols == old(self).total_symbols,
    {
        self.files_by_language.bump(language);
    }

    /// Records `n` symbols extracted from a file.
    pub fn record_symbols(&mut self, n: usize)
        requires
            old(self).total_symbols + n <= usize::MAX,
        ensures
            *final(self) == (IndexingStats { total_symbols: (old(self).total_symbols + n) as usize, ..*old(self) }),
    {
        self.total_symbols = self.total_symbols + n;
    }

    /// Records one symbol of kind `kind`.
    pub fn record_symbol_kind(&mut self, kind: &str)
        requires
            old(self).wf(),
            old(self).symbols_by_kind.count(kind@) < usize::MAX,
        ensures
            final(self).wf(),
            final(self).symbols_by_kind.count(kind@) == old(self).symbols_by_kind.count(kind@) + 1,
            forall|k: Seq<char>| k != kind@ ==> final(self).symbols_by_kind.count(k) == old(self).symbols_by_kind.count(k),
            final(self).files_by_language == old(self).files_by_language,
            final(self).errors == old(self).errors,
            final(self).total_files == old(self).total_files,
            final(self).indexed_files == old(self).indexed_files,
            final(self).failed_files == old(self).failed_files,
            final(self).total_symbols == old(self).total_symbols,
    {
        self.symbols_by_kind.bump(kind);
    }
}

// ---------------------------------------------------------------------------
// Reading a file and storing its symbols
// ---------------------------------------------------------------------------

/// A file whose content is nothing but white space is not indexed.
pub fn check_file_content(path: &str, content: &str) -> (res: Result<()>)
    ensures
        trim(content@).len() != 0 ==> res is Ok,
        trim(content@).len() == 0 ==> (res matches Err(Error::Parse(m)) && m@ == "File is empty: "@
            + path@),
{
    if crate::text::is_blank(content) {
        return Err(Error::Parse(cat("File is empty: ", path)));
    }
    Ok(())
}

/// What to do with a file whose content hash is `new_hash`, given the hash
/// and id stored for it by an earlier run.
#[derive(Debug, Clone, Copy, PartialEq, Eq)]
pub enum StoredFileAction {
    /// The file is unchanged: keep the stored file and its symbols.
    KeepExisting(i32),
    /// The file changed: delete the stored symbols, then store it again.
    ReplaceSymbols(i32),
    /// Store the file.
    Store,
}

/// The file is kept when the stored hash equals the new one and its id is
/// known; its symbols are replaced when the hash differs and its id is
/// known; otherwise it is stored.
pub fn stored_file_action(stored_hash: Option<&str>, new_hash: &str, stored_id: Option<i32>) -> (a:
    StoredFileAction)
    ensures
        a == match (stored_hash, stored_id) {
            (Some(h), Some(id)) => if h@ == new_hash@ {
                StoredFileAction::KeepExisting(id)
            } else {
                StoredFileAction::ReplaceSymbols(id)
            },
            _ => StoredFileAction::Store,
        },
{
    match (stored_hash, stored_id) {
        (Some(h), Some(id)) => {
            if str_eq(h, new_hash) {
                StoredFileAction::KeepExisting(id)
            } else {
                StoredFileAction::ReplaceSymbols(id)
            }
        },
        _ => StoredFileAction::Store,
    }
}

/// The longest symbol name (in bytes) that is stored.
pub const MAX_SYMBOL_NAME_LENGTH: usize = 1000;

/// Signatures and docstrings are cut to this many bytes.
pub const MAX_TEXT_LENGTH: usize = 10000;

/// The UTF-8 length of a text.
pub open spec fn byte_len(s: Seq<char>) -> nat {
    encode_utf8(s).len()
}

/// Why a symbol is not stored, if it is not.
pub open spec fn symbol_problem(sym: Symbol) -> Option<Seq<char>> {
    if sym.name@.len() == 0 {
        Some("Symbol name cannot be empty"@)
    } else if byte_len(sym.name@) > MAX_SYMBOL_NAME_LENGTH {
        Some("Symbol name too long: "@ + dec(byte_len(sym.name@)) + " characters (max: 1000)"@)
    } else if sym.end_line < sym.start_line {
        Some("Invalid line numbers for symbol '"@ + sym.name@ + "': start="@ + dec(
            sym.start_line as nat,
        ) + ", end="@ + dec(sym.end_line as nat))
    } else {
        None
    }
}

/// `t` is `s` cut to its first `MAX_TEXT_LENGTH` bytes (or all of `s` when
/// it is not longer).
pub open spec fn clipped(s: Seq<char>, t: Seq<char>) -> bool {
    if byte_len(s) > MAX_TEXT_LENGTH {
        encode_utf8(t) == encode_utf8(s).subrange(0, MAX_TEXT_LENGTH as int)
    } else {
        t == s
    }
}

/// `s` can be cut at `MAX_TEXT_LENGTH` bytes without splitting a character
/// (which a text that is not longer always can).
pub open spec fn clippable(s: Seq<char>) -> bool {
    byte_len(s) > MAX_TEXT_LENGTH ==> is_char_boundary(encode_utf8(s), MAX_TEXT_LENGTH as int)
}

/// The text from which a symbol's embedding is computed: its name, then its
/// (cut) signature and docstring, each after a space.
pub open spec fn embedding_text(name: Seq<char>, sig: Option<Seq<char>>, doc: Option<Seq<char>>) -> Seq<char> {
    name + match sig {
        None => Seq::empty(),
        Some(s) => seq![' '] + s,
    } + match doc {
        None => Seq::empty(),
        Some(d) => seq![' '] + d,
    }
}

/// A symbol ready to be stored: its cut signature and docstring, and the
/// text to embed.
#[derive(Debug, Clone)]
pub struct PreparedSymbol {
    pub signature: Option<String>,
    pub docstring: Option<String>,
    pub embedding_text: String,
    /// The first line, counted from 1, as the database stores it
    pub start_line: i32,
    /// The last line, counted from 1, as the database stores it
    pub end_line: i32,
}

/// The line, counted from 1, of a row counted from 0; rows past the range
/// of an `i32` store its largest value.
pub open spec fn stored_line(row: usize) -> i32 {
    if row < i32::MAX {
        (row + 1) as i32
    } else {
        i32::MAX
    }
}

fn stored_line_of(row: usize) -> (l: i32)
    ensures
        l == stored_line(row),
{
    if row < i32::MAX as usize {
        (row + 1) as i32
    } else {
        i32::MAX
    }
}

fn clip_text(s: &String) -> (res: String)
    requires
        clippable(s@),
    ensures
        clipped(s@, res@),
{
    let t = s.as_str();
    if t.as_bytes().len() > MAX_TEXT_LENGTH {
        let (head, _tail) = t.split_at(MAX_TEXT_LENGTH);
        let res = String::from_str(head);
        assert(encode_utf8(res@) == head.spec_bytes());
        res
    } else {
        s.clone()
    }
}

fn clip_option(s: &Option<String>) -> (res: Option<String>)
    requires
        s matches Some(t) ==> clippable(t@),
    ensures
        match s {
            None => res is None,
            Some(t) => res matches Some(r) && clipped(t@, r@),
        },
{
    match s {
        None => None,
        Some(t) => Some(clip_text(t)),
    }
}

/// Checks a symbol before it is stored and prepares it: the name must be
/// non-empty and at most `MAX_SYMBOL_NAME_LENGTH` bytes, the end line must
/// not come before the start line; the signature and docstring are cut to
/// `MAX_TEXT_LENGTH` bytes.
pub fn prepare_symbol(sym: &Symbol) -> (res: Result<PreparedSymbol>)
    requires
        symbol_problem(*sym) is None ==> (sym.signature matches Some(s) ==> clippable(s@)),
        symbol_problem(*sym) is None ==> (sym.docstring matches Some(d) ==> clippable(d@)),
    ensures
        match symbol_problem(*sym) {
            Some(m) => res matches Err(Error::Parse(e)) && e@ == m,
            None => res matches Ok(p) && match (sym.signature, sym.docstring) {
                (sig, doc) => p.start_line == stored_line(sym.start_line) && p.end_line
                    == stored_line(sym.end_line) && (match sig {
                    None => p.signature is None,
                    Some(s) => p.signature matches Some(c) && clipped(s@, c@),
                }) && (match doc {
                    None => p.docstring is None,
                    Some(d) => p.docstring matches Some(c) && clipped(d@, c@),
                }) && p.embedding_text@ == embedding_text(
                    sym.name@,
                    match p.signature {
                        None => None,
                        Some(c) => Some(c@),
                    },
                    match p.docstring {
                        None => None,
                        Some(c) => Some(c@),
                    },
                ),
            },
        },
{
    if sym.name.as_str().is_empty() {
        return Err(Error::Parse(String::from_str("Symbol name cannot be empty")));
    }
    let name_len = sym.name.as_str().as_bytes().len();
    if name_len > MAX_SYMBOL_NAME_LENGTH {
        let n = fmt_u64(name_len as u64);
        return Err(Error::Parse(cat3("Symbol name too long: ", n.as_str(), " characters (max: 1000)")));
    }
    if sym.end_line < sym.start_line {
        let start = fmt_u64(sym.start_line as u64);
        let end = fmt_u64(sym.end_line as u64);
        let head = cat3("Invalid line numbers for symbol '", sym.name.as_str(), "': start=");
        let msg = cat4(head.as_str(), start.as_str(), ", end=", end.as_str());
        assert(msg@ == "Invalid line numbers for symbol '"@ + sym.name@ + "': start="@ + dec(
            sym.start_line as nat,
        ) + ", end="@ + dec(sym.end_line as nat));
        return Err(Error::Parse(msg));
    }
    let signature = clip_option(&sym.signature);
    let docstring = clip_option(&sym.docstring);
    let mut text = sym.name.clone();
    proof {
        reveal_strlit(" ");
    }
    match &signature {
        None => {},
        Some(s) => {
            text.append(" ");
            text.append(s.as_str());
        },
    }
    match &docstring {
        None => {},
        Some(d) => {
            text.append(" ");
            text.append(d.as_str());
        },
    }
    let start_line = stored_line_of(sym.start_line);
    let end_line = stored_line_of(sym.end_line);
    Ok(PreparedSymbol { signature, docstring, embedding_text: text, start_line, end_line })
}

// ---------------------------------------------------------------------------
// What git says of a repository
// ---------------------------------------------------------------------------

/// What follows the last `/` of `s` (all of `s` when it has none).
pub open spec fn last_segment(s: Seq<char>) -> Seq<char>
    decreases s.len(),
{
    if s.len() == 0 {
        s
    } else if s.last() == '/' {
        Seq::empty()
    } else {
        last_segment(s.drop_last()).push(s.last())
    }
}

/// `s` with every trailing `.git` removed (`str::trim_end_matches(".git")`).
pub open spec fn strip_git_suffixes(s: Seq<char>) -> Seq<char>
    decreases s.len(),
{
    if s.len() >= 4 && s.subrange(s.len() - 4, s.len() as int) == seq!['.', 'g', 'i', 't'] {
        strip_git_suffixes(s.subrange(0, s.len() - 4))
    } else {
        s
    }
}

/// The repository name in the URL of its `origin` remote: the last path
/// segment of the trimmed URL, without `.git`.
pub open spec fn remote_repo_name(url: Seq<char>) -> Seq<char> {
    strip_git_suffixes(last_segment(trim(url)))
}

/// The name of a repository: from the URL of its `origin` remote when git
/// reports one, else the last component of its path, else `unknown`.
pub open spec fn repo_name(remote_url: Option<Seq<char>>, repo_path: Seq<char>) -> Seq<char> {
    match remote_url {
        Some(url) => remote_repo_name(url),
        None => match file_name(repo_path) {
            Some(n) => n,
            None => "unknown"@,
        },
    }
}

/// The name of a repository (see [`repo_name`]); `remote_url` is what
/// `git remote get-url origin` printed, when it succeeded.
#[verifier::spinoff_prover]
#[verifier::rlimit(40)]
pub fn git_repo_name(remote_url: Option<&str>, repo_path: &str) -> (res: String)
    ensures
        res@ == repo_name(
            match remote_url {
                Some(u) => Some(u@),
                None => None,
            },
            repo_path@,
        ),
{
    match remote_url {
        Some(url) => {
            let t = chars_of(trim_str(url).as_str());
            let mut start: usize = t.len();
            assert(t@.subrange(start as int, t@.len() as int) =~= Seq::<char>::empty());
            assert(t@.subrange(0, start as int) =~= t@);
            while start > 0 && t[start - 1] != '/'
                invariant
                    start <= t.len(),
                    last_segment(t@) == last_segment(t@.subrange(0, start as int)) + t@.subrange(
                        start as int,
                        t@.len() as int,
                    ),
                decreases start,
            {
                let ghost p = t@.subrange(0, start as int);
                assert(p.drop_last() =~= t@.subrange(0, start - 1));
                assert(t@.subrange(start - 1, t@.len() as int) =~= seq![p.last()] + t@.subrange(
                    start as int,
                    t@.len() as int,
                ));
                assert(last_segment(p) == last_segment(p.drop_last()).push(p.last()));
                assert(last_segment(p.drop_last()).push(p.last()) + t@.subrange(
                    start as int,
                    t@.len() as int,
                ) =~= last_segment(p.drop_last()) + (seq![p.last()] + t@.subrange(
                    start as int,
                    t@.len() as int,
                )));
                start = start - 1;
            }
            assert(last_segment(t@.subrange(0, start as int)) =~= Seq::<char>::empty());
            let mut end: usize = t.len();
            assert(last_segment(t@) =~= t@.subrange(start as int, end as int));
            while end - start >= 4 && t[end - 4] == '.' && t[end - 3] == 'g' && t[end - 2] == 'i'
                && t[end - 1] == 't'
                invariant
                    start <= end <= t.len(),
                    strip_git_suffixes(t@.subrange(start as int, end as int)) == strip_git_suffixes(
                        last_segment(t@),
                    ),
                decreases end,
            {
                let ghost cur = t@.subrange(start as int, end as int);
                assert(cur.subrange(cur.len() - 4, cur.len() as int) =~= seq!['.', 'g', 'i', 't']);
                assert(cur.subrange(0, cur.len() - 4) =~= t@.subrange(start as int, end - 4));
                end = end - 4;
            }
            let ghost cur = t@.subrange(start as int, end as int);
            assert(!(cur.len() >= 4 && cur.subrange(cur.len() - 4, cur.len() as int) == seq![
                '.',
                'g',
                'i',
                't',
            ])) by {
                if cur.len() >= 4 && cur.subrange(cur.len() - 4, cur.len() as int) == seq![
                    '.',
                    'g',
                    'i',
                    't',
                ] {
                    assert(cur.subrange(cur.len() - 4, cur.len() as int)[0] == t@[end - 4]);
                    assert(cur.subrange(cur.len() - 4, cur.len() as int)[1] == t@[end - 3]);
                    assert(cur.subrange(cur.len() - 4, cur.len() as int)[2] == t@[end - 2]);
                    assert(cur.subrange(cur.len() - 4, cur.len() as int)[3] == t@[end - 1]);
                }
            }
            let mut out: Vec<char> = Vec::new();
            let mut k: usize = start;
            while k < end
                invariant
                    start <= k <= end <= t.len(),
                    out@ =~= t@.subrange(start as int, k as int),
                decreases end - k,
            {
                out.push(t[k]);
                k = k + 1;
            }
            string_of(out.as_slice())
        },
        None => match file_name_exec(repo_path) {
            Some(n) => string_of(n.as_slice()),
            None => String::from_str("unknown"),
        },
    }
}

/// The files that `git ls-files` listed, each line trimmed and joined to the
/// repository path.
pub open spec fn tracked_paths(repo_path: Seq<char>, listing: Seq<char>) -> Seq<Seq<char>> {
    lines(listing).map_values(|l: Seq<char>| join(repo_path, trim(l)))
}

/// The paths of the files listed by `git ls-files` (see [`tracked_paths`]).
pub fn git_tracked_paths(repo_path: &str, listing: &str) -> (res: Vec<String>)
    ensures
        strings(res@) == tracked_paths(repo_path@, listing@),
{
    let ls = lines_of(listing);
    let mut out: Vec<String> = Vec::new();
    let mut i: usize = 0;
    while i < ls.len()
        invariant
            i <= ls.len(),
            strings(ls@) == lines(listing@),
            strings(out@) =~= tracked_paths(repo_path@, listing@).take(i as int),
        decreases ls.len() - i,
    {
        assert(strings(ls@)[i as int] == ls@[i as int]@);
        let t = trim_str(ls[i].as_str());
        let p = join_path(repo_path, t.as_str());
        let ghost before = out@;
        out.push(p);
        assert(strings(out@) =~= strings(before).push(p@));
        assert(tracked_paths(repo_path@, listing@).take(i + 1) =~= tracked_paths(
            repo_path@,
            listing@,
        ).take(i as int).push(p@));
        i = i + 1;
    }
    assert(tracked_paths(repo_path@, listing@).take(i as int) =~= tracked_paths(
        repo_path@,
        listing@,
    ));
    out
}

// ---------------------------------------------------------------------------
// Laws of the filter
// ---------------------------------------------------------------------------

/// A filter with nothing set admits every file.
pub proof fn law_empty_filter_admits_all(f: IndexFilter, path: Seq<char>)
    requires
        f.includes() is None,
        f.excludes() is None,
        f.langs() is None,
    ensures
        f.admits(path),
{
}

/// Exclude patterns take precedence: a file that some exclude pattern
/// matches is never admitted, whatever the include patterns say.
pub proof fn law_exclude_takes_precedence(f: IndexFilter, path: Seq<char>, i: int)
    requires
        f.excludes() matches Some(ex) && 0 <= i < ex@.len() && glob_compile_error(ex@[i]@) is None
            && glob_matches(ex@[i]@, path),
    ensures
        !f.admits(path),
{
}

/// With a language filter, a file is admitted only if its detected language
/// is one of the chosen ones, and so only files of supported languages.
pub proof fn law_language_filter_admits_chosen_languages(f: IndexFilter, path: Seq<char>)
    requires
        f.langs() is Some,
        f.admits(path),
    ensures
        detected_language(path) matches Some(l) && strings(f.langs().unwrap()@).contains(l)
            && is_supported_language(l),
{
}

} // verus!
