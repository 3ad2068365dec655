//! Character-level text primitives shared by the rest of the library.
//!
//! Everything here works on sequences of Unicode scalar values, which is how
//! Verus views `str` and `String`.  The specifications follow the behaviour
//! that the standard library documents for the corresponding `str` methods.
use vstd::prelude::*;

verus! {

// ---------------------------------------------------------------------------
// Characters
// ---------------------------------------------------------------------------

/// The Unicode `White_Space` property, which is what `char::is_whitespace`
/// and therefore `str::trim` and `str::split_whitespace` use.
pub open spec fn is_ws(c: char) -> bool {
    ||| ('\t' <= c && c <= '\r')
    ||| c == ' '
    ||| c == '\u{85}'
    ||| c == '\u{a0}'
    ||| c == '\u{1680}'
    ||| ('\u{2000}' <= c && c <= '\u{200a}')
    ||| c == '\u{2028}'
    ||| c == '\u{2029}'
    ||| c == '\u{202f}'
    ||| c == '\u{205f}'
    ||| c == '\u{3000}'
}

pub fn char_is_whitespace(c: char) -> (b: bool)
    ensures
        b == is_ws(c),
{
    ('\t' <= c && c <= '\r') || c == ' ' || c == '\u{85}' || c == '\u{a0}' || c == '\u{1680}'
        || ('\u{2000}' <= c && c <= '\u{200a}') || c == '\u{2028}' || c == '\u{2029}' || c
        == '\u{202f}' || c == '\u{205f}' || c == '\u{3000}'
}

pub open spec fn is_digit(c: char) -> bool {
    '0' <= c && c <= '9'
}

pub open spec fn digit_value(c: char) -> int {
    (c as int) - ('0' as int)
}

pub open spec fn digit_char(d: int) -> char
    recommends
        0 <= d < 10,
{
    (d + ('0' as int)) as char
}

// ---------------------------------------------------------------------------
// Conversions between `str` and character vectors
// ---------------------------------------------------------------------------

/// The characters of `s`, in order (those that `str::chars` yields).
pub(crate) fn chars_of(s: &str) -> (res: Vec<char>)
    ensures
        res@ == s@,
{
    broadcast use vstd::string::axiom_spec_iter;
    let mut v: Vec<char> = Vec::new();
    for c in it: s.chars()
        invariant
            it.seq() == s@,
            v@ == it.seq().take(it.index() as int),
    {
        v.push(c);
    }
    v
}

/// A `String` holding exactly the characters of `v` (`String: FromIterator<char>`).
#[verifier::external_body]
pub(crate) fn string_of(v: &[char]) -> (res: String)
    ensures
        res@ == v@,
{
    v.iter().collect()
}

/// `a` followed by `b`.
pub fn cat(a: &str, b: &str) -> (res: String)
    ensures
        res@ == a@ + b@,
{
    let mut s = String::from_str(a);
    s.append(b);
    s
}

/// `a`, `b` and `c` one after the other.
pub fn cat3(a: &str, b: &str, c: &str) -> (res: String)
    ensures
        res@ == a@ + b@ + c@,
{
    let mut s = String::from_str(a);
    s.append(b);
    s.append(c);
    s
}

/// Four pieces one after the other.
pub fn cat4(a: &str, b: &str, c: &str, d: &str) -> (res: String)
    ensures
        res@ == a@ + b@ + c@ + d@,
{
    let mut s = String::from_str(a);
    s.append(b);
    s.append(c);
    s.append(d);
    s
}

/// Five pieces one after the other.
pub fn cat5(a: &str, b: &str, c: &str, d: &str, e: &str) -> (res: String)
    ensures
        res@ == a@ + b@ + c@ + d@ + e@,
{
    let mut s = String::from_str(a);
    s.append(b);
    s.append(c);
    s.append(d);
    s.append(e);
    s
}

// ---------------------------------------------------------------------------
// Trimming
// ---------------------------------------------------------------------------

/// `str::trim_start`: drop leading white space.
pub open spec fn trim_start(s: Seq<char>) -> Seq<char>
    decreases s.len(),
{
    if s.len() > 0 && is_ws(s[0]) {
        trim_start(s.drop_first())
    } else {
        s
    }
}

/// `str::trim_end`: drop trailing white space.
pub open spec fn trim_end(s: Seq<char>) -> Seq<char>
    decreases s.len(),
{
    if s.len() > 0 && is_ws(s.last()) {
        trim_end(s.drop_last())
    } else {
        s
    }
}

/// `str::trim`: drop leading and trailing white space.
pub open spec fn trim(s: Seq<char>) -> Seq<char> {
    trim_end(trim_start(s))
}

/// Everything from `i` on is what `trim_start` keeps once the first `i`
/// characters are known to be white space.
proof fn lemma_trim_start_step(s: Seq<char>, i: int)
    requires
        0 <= i < s.len(),
        is_ws(s[i]),
    ensures
        trim_start(s.subrange(i, s.len() as int)) == trim_start(s.subrange(i + 1, s.len() as int)),
{
    assert(s.subrange(i, s.len() as int).drop_first() =~= s.subrange(i + 1, s.len() as int));
}

proof fn lemma_trim_end_step(s: Seq<char>, j: int)
    requires
        0 < j <= s.len(),
        is_ws(s[j - 1]),
    ensures
        trim_end(s.subrange(0, j)) == trim_end(s.subrange(0, j - 1)),
{
    assert(s.subrange(0, j).drop_last() =~= s.subrange(0, j - 1));
}

/// `str::trim` on a character vector.
pub fn trim_chars(s: &Vec<char>) -> (res: Vec<char>)
    ensures
        res@ == trim(s@),
{
    let n = s.len();
    let mut i: usize = 0;
    assert(s@.subrange(0, n as int) =~= s@);
    while i < n && char_is_whitespace(s[i])
        invariant
            i <= n,
            n == s.len(),
            trim_start(s@.subrange(i as int, n as int)) == trim_start(s@),
        decreases n - i,
    {
        proof {
            lemma_trim_start_step(s@, i as int);
        }
        i = i + 1;
    }
    let ghost t = s@.subrange(i as int, n as int);
    assert(trim_start(t) == t);
    let mut j: usize = n;
    assert(t.subrange(0, (j - i) as int) =~= t);
    while j > i && char_is_whitespace(s[j - 1])
        invariant
            i <= j <= n,
            n == s.len(),
            t == s@.subrange(i as int, n as int),
            trim_end(t.subrange(0, (j - i) as int)) == trim_end(t),
        decreases j,
    {
        proof {
            lemma_trim_end_step(t, (j - i) as int);
        }
        j = j - 1;
    }
    let mut out: Vec<char> = Vec::new();
    let mut k: usize = i;
    while k < j
        invariant
            i <= k <= j,
            j <= n,
            n == s.len(),
            out@ =~= s@.subrange(i as int, k as int),
        decreases j - k,
    {
        out.push(s[k]);
        k = k + 1;
    }
    assert(out@ =~= t.subrange(0, (j - i) as int));
    out
}

/// `str::trim`.
pub fn trim_str(s: &str) -> (res: String)
    ensures
        res@ == trim(s@),
{
    let v = chars_of(s);
    let t = trim_chars(&v);
    string_of(t.as_slice())
}

/// Whether `s.trim()` is empty, i.e. `s` holds nothing but white space.
pub fn is_blank(s: &str) -> (b: bool)
    ensures
        b == (trim(s@).len() == 0),
{
    let t = trim_str(s);
    t.unicode_len() == 0
}



// ---------------------------------------------------------------------------
// Trimming a given character
// ---------------------------------------------------------------------------

/// `s` without its leading `c`s.
pub open spec fn strip_start_char(s: Seq<char>, c: char) -> Seq<char>
    decreases s.len(),
{
    if s.len() > 0 && s[0] == c {
        strip_start_char(s.drop_first(), c)
    } else {
        s
    }
}

/// `s` without its trailing `c`s.
pub open spec fn strip_end_char(s: Seq<char>, c: char) -> Seq<char>
    decreases s.len(),
{
    if s.len() > 0 && s.last() == c {
        strip_end_char(s.drop_last(), c)
    } else {
        s
    }
}

/// `str::trim_matches` with a character: every leading and trailing `c`
/// removed.
pub open spec fn trim_matches_char(s: Seq<char>, c: char) -> Seq<char> {
    strip_end_char(strip_start_char(s, c), c)
}

/// `str::trim_matches(c)` (see [`trim_matches_char`]).
pub fn trim_char(s: &str, c: char) -> (res: String)
    ensures
        res@ == trim_matches_char(s@, c),
{
    let v = chars_of(s);
    let n = v.len();
    let mut i: usize = 0;
    assert(v@.subrange(0, n as int) =~= v@);
    while i < n && v[i] == c
        invariant
            i <= n,
            n == v.len(),
            v@ == s@,
            strip_start_char(v@.subrange(i as int, n as int), c) == strip_start_char(s@, c),
        decreases n - i,
    {
        assert(v@.subrange(i as int, n as int).drop_first() =~= v@.subrange(i + 1, n as int));
        i = i + 1;
    }
    let ghost t = v@.subrange(i as int, n as int);
    let mut j: usize = n;
    assert(t.subrange(0, (j - i) as int) =~= t);
    while j > i && v[j - 1] == c
        invariant
            i <= j <= n,
            n == v.len(),
            t == v@.subrange(i as int, n as int),
            strip_end_char(t.subrange(0, (j - i) as int), c) == strip_end_char(t, c),
        decreases j,
    {
        assert(t.subrange(0, (j - i) as int).drop_last() =~= t.subrange(0, (j - 1 - i) as int));
        j = j - 1;
    }
    let mut out: Vec<char> = Vec::new();
    let mut k: usize = i;
    while k < j
        invariant
            i <= k <= j,
            j <= n,
            n == v.len(),
            out@ =~= v@.subrange(i as int, k as int),
        decreases j - k,
    {
        out.push(v[k]);
        k = k + 1;
    }
    assert(out@ =~= t.subrange(0, (j - i) as int));
    string_of(out.as_slice())
}

// ---------------------------------------------------------------------------
// Lines
// ---------------------------------------------------------------------------

/// The views of a sequence of strings.
pub open spec fn strings(v: Seq<String>) -> Seq<Seq<char>> {
    v.map_values(|s: String| s@)
}

/// A line without the `\r` of a `\r\n` ending.
pub open spec fn strip_cr(l: Seq<char>) -> Seq<char> {
    if l.len() > 0 && l.last() == '\r' {
        l.drop_last()
    } else {
        l
    }
}

/// `str::lines` of `s`, `cur` being the part of the current line read so
/// far: lines end at `\n` (a `\r` just before it is dropped too), and text
/// after the last `\n` is a last line only when it is not empty.
pub open spec fn lines_from(s: Seq<char>, cur: Seq<char>) -> Seq<Seq<char>>
    decreases s.len(),
{
    if s.len() == 0 {
        if cur.len() == 0 {
            Seq::empty()
        } else {
            seq![cur]
        }
    } else if s[0] == '\n' {
        seq![strip_cr(cur)] + lines_from(s.drop_first(), Seq::empty())
    } else {
        lines_from(s.drop_first(), cur.push(s[0]))
    }
}

/// `str::lines`.
pub open spec fn lines(s: Seq<char>) -> Seq<Seq<char>> {
    lines_from(s, Seq::empty())
}

proof fn lemma_lines_step(s: Seq<char>, cur: Seq<char>, i: int)
    requires
        0 <= i < s.len(),
    ensures
        s[i] == '\n' ==> lines_from(s.skip(i), cur) == seq![strip_cr(cur)] + lines_from(
            s.skip(i + 1),
            Seq::empty(),
        ),
        s[i] != '\n' ==> lines_from(s.skip(i), cur) == lines_from(s.skip(i + 1), cur.push(s[i])),
{
    assert(s.skip(i).drop_first() =~= s.skip(i + 1));
}

fn without_cr(cur: &Vec<char>) -> (res: String)
    ensures
        res@ == strip_cr(cur@),
{
    if cur.len() > 0 && cur[cur.len() - 1] == '\r' {
        let mut v = cur.clone();
        v.pop();
        assert(v@ =~= cur@.drop_last());
        string_of(v.as_slice())
    } else {
        string_of(cur.as_slice())
    }
}

/// The lines of `s` (see [`lines`]).
pub fn lines_of(s: &str) -> (res: Vec<String>)
    ensures
        strings(res@) == lines(s@),
{
    let v = chars_of(s);
    let mut out: Vec<String> = Vec::new();
    let mut cur: Vec<char> = Vec::new();
    let mut i: usize = 0;
    assert(v@.skip(0) =~= v@);
    assert(strings(out@) =~= Seq::<Seq<char>>::empty());
    assert(cur@ =~= Seq::<char>::empty());
    while i < v.len()
        invariant
            i <= v.len(),
            v@ == s@,
            strings(out@) + lines_from(v@.skip(i as int), cur@) == lines(s@),
        decreases v.len() - i,
    {
        proof {
            lemma_lines_step(v@, cur@, i as int);
        }
        let ghost before = strings(out@);
        if v[i] == '\n' {
            let line = without_cr(&cur);
            out.push(line);
            assert(strings(out@) =~= before + seq![strip_cr(cur@)]);
            cur = Vec::new();
            assert(cur@ =~= Seq::<char>::empty());
            assert((before + seq![strip_cr(cur@)]) + lines_from(v@.skip(i + 1), Seq::empty())
                =~= before + (seq![strip_cr(cur@)] + lines_from(v@.skip(i + 1), Seq::empty())))
                by {
                assert(strip_cr(cur@) == strip_cr(cur@));
            }
        } else {
            cur.push(v[i]);
        }
        i = i + 1;
    }
    assert(v@.skip(i as int) =~= Seq::<char>::empty());
    let ghost before = strings(out@);
    if cur.len() > 0 {
        out.push(string_of(cur.as_slice()));
        assert(strings(out@) =~= before + seq![cur@]);
    } else {
        assert(strings(out@) =~= before + Seq::<Seq<char>>::empty());
    }
    out
}

// ---------------------------------------------------------------------------
// Searching
// ---------------------------------------------------------------------------

/// `needle` occurs in `hay` starting at position `i`.
pub open spec fn matches_at(hay: Seq<char>, needle: Seq<char>, i: int) -> bool {
    &&& 0 <= i
    &&& i + needle.len() <= hay.len()
    &&& forall|j: int| 0 <= j < needle.len() ==> #[trigger] hay[i + j] == needle[j]
}

/// `str::contains` with a string pattern.
pub open spec fn contains(hay: Seq<char>, needle: Seq<char>) -> bool {
    exists|i: int| matches_at(hay, needle, i)
}

/// `str::ends_with` with a string pattern.
pub open spec fn ends_with(hay: Seq<char>, needle: Seq<char>) -> bool {
    matches_at(hay, needle, hay.len() - needle.len())
}

pub fn matches_at_exec(hay: &Vec<char>, needle: &Vec<char>, i: usize) -> (b: bool)
    ensures
        b == matches_at(hay@, needle@, i as int),
{
    if i > hay.len() || needle.len() > hay.len() - i {
        return false;
    }
    let mut k: usize = 0;
    while k < needle.len()
        invariant
            i + needle.len() <= hay.len(),
            k <= needle.len(),
            forall|j: int| 0 <= j < k ==> #[trigger] hay@[i + j] == needle@[j],
        decreases needle.len() - k,
    {
        if hay[i + k] != needle[k] {
            return false;
        }
        k = k + 1;
    }
    true
}

pub fn contains_chars(hay: &Vec<char>, needle: &Vec<char>) -> (b: bool)
    ensures
        b == contains(hay@, needle@),
{
    if needle.len() > hay.len() {
        return false;
    }
    let last = hay.len() - needle.len();
    let mut i: usize = 0;
    while i <= last
        invariant
            last == hay.len() - needle.len(),
            needle.len() <= hay.len(),
            forall|k: int| 0 <= k < i ==> !matches_at(hay@, needle@, k),
        decreases last + 1 - i,
    {
        if matches_at_exec(hay, needle, i) {
            return true;
        }
        i = i + 1;
    }
    assert forall|k: int| !matches_at(hay@, needle@, k) by {
        if 0 <= k < i {
        } else {
        }
    }
    false
}

/// `str::contains` with a string pattern.
pub fn str_contains(hay: &str, needle: &str) -> (b: bool)
    ensures
        b == contains(hay@, needle@),
{
    let h = chars_of(hay);
    let n = chars_of(needle);
    contains_chars(&h, &n)
}

/// `str::ends_with` with a string pattern.
pub fn str_ends_with(hay: &str, needle: &str) -> (b: bool)
    ensures
        b == ends_with(hay@, needle@),
{
    let h = chars_of(hay);
    let n = chars_of(needle);
    if n.len() > h.len() {
        return false;
    }
    matches_at_exec(&h, &n, h.len() - n.len())
}

/// Equality of two strings by their characters.
pub fn str_eq(a: &str, b: &str) -> (r: bool)
    ensures
        r == (a@ == b@),
{
    let x = chars_of(a);
    let y = chars_of(b);
    if x.len() != y.len() {
        return false;
    }
    let mut i: usize = 0;
    while i < x.len()
        invariant
            x.len() == y.len(),
            x@ == a@,
            y@ == b@,
            i <= x.len(),
            forall|j: int| 0 <= j < i ==> x@[j] == y@[j],
        decreases x.len() - i,
    {
        if x[i] != y[i] {
            assert(a@[i as int] != b@[i as int]);
            return false;
        }
        i = i + 1;
    }
    assert(x@ =~= y@);
    true
}

// ---------------------------------------------------------------------------
// Replacing
// ---------------------------------------------------------------------------

/// `str::replace`: every non-overlapping occurrence of `pat`, scanning from
/// the left, is replaced by `with`.
pub open spec fn replace(s: Seq<char>, pat: Seq<char>, with: Seq<char>) -> Seq<char>
    recommends
        pat.len() > 0,
    decreases s.len(),
{
    if s.len() == 0 || pat.len() == 0 {
        s
    } else if matches_at(s, pat, 0) {
        with + replace(s.skip(pat.len() as int), pat, with)
    } else {
        seq![s[0]] + replace(s.drop_first(), pat, with)
    }
}

proof fn lemma_matches_at_skip(s: Seq<char>, pat: Seq<char>, i: int)
    requires
        0 <= i <= s.len(),
    ensures
        matches_at(s.skip(i), pat, 0) == matches_at(s, pat, i),
{
    let t = s.skip(i);
    if matches_at(s, pat, i) {
        assert forall|j: int| 0 <= j < pat.len() implies #[trigger] t[0 + j] == pat[j] by {
            assert(t[0 + j] == s[i + j]);
        }
    }
    if matches_at(t, pat, 0) {
        assert forall|j: int| 0 <= j < pat.len() implies #[trigger] s[i + j] == pat[j] by {
            assert(t[0 + j] == s[i + j]);
        }
    }
}

pub fn replace_chars(s: &Vec<char>, pat: &Vec<char>, with: &Vec<char>) -> (res: Vec<char>)
    requires
        pat.len() > 0,
    ensures
        res@ == replace(s@, pat@, with@),
{
    let mut out: Vec<char> = Vec::new();
    let mut i: usize = 0;
    assert(s@.skip(0) =~= s@);
    while i < s.len()
        invariant
            i <= s.len(),
            pat.len() > 0,
            out@ + replace(s@.skip(i as int), pat@, with@) == replace(s@, pat@, with@),
        decreases s.len() - i,
    {
        let ghost rest = s@.skip(i as int);
        proof {
            lemma_matches_at_skip(s@, pat@, i as int);
        }
        if matches_at_exec(s, pat, i) {
            assert(rest.skip(pat.len() as int) =~= s@.skip(i + pat.len()));
            let mut k: usize = 0;
            let ghost before = out@;
            while k < with.len()
                invariant
                    k <= with.len(),
                    out@ =~= before + with@.take(k as int),
                decreases with.len() - k,
            {
                out.push(with[k]);
                k = k + 1;
            }
            assert(with@.take(with.len() as int) =~= with@);
            assert(out@ + replace(s@.skip(i + pat.len()), pat@, with@) =~= before + replace(
                rest,
                pat@,
                with@,
            ));
            i = i + pat.len();
        } else {
            assert(rest.drop_first() =~= s@.skip(i + 1));
            let ghost before = out@;
            out.push(s[i]);
            assert(out@ + replace(s@.skip(i + 1), pat@, with@) =~= before + replace(
                rest,
                pat@,
                with@,
            ));
            i = i + 1;
        }
    }
    assert(s@.skip(i as int) =~= Seq::<char>::empty());
    assert(out@ + replace(s@.skip(i as int), pat@, with@) =~= out@);
    out
}

/// `str::replace` with a non-empty string pattern.
pub fn replace_str(s: &str, pat: &str, with: &str) -> (res: String)
    requires
        pat@.len() > 0,
    ensures
        res@ == replace(s@, pat@, with@),
{
    let sv = chars_of(s);
    let pv = chars_of(pat);
    let wv = chars_of(with);
    let r = replace_chars(&sv, &pv, &wv);
    string_of(r.as_slice())
}


// ---------------------------------------------------------------------------
// Decimal numbers
// ---------------------------------------------------------------------------

/// The decimal digits of `n`, as `Display` prints an unsigned integer.
pub open spec fn dec(n: nat) -> Seq<char>
    decreases n,
{
    if n < 10 {
        seq![digit_char(n as int)]
    } else {
        dec(n / 10).push(digit_char((n % 10) as int))
    }
}

/// How `Display` prints a signed integer.
pub open spec fn dec_int(n: int) -> Seq<char> {
    if n < 0 {
        seq!['-'] + dec((-n) as nat)
    } else {
        dec(n as nat)
    }
}

fn digits_of(n: u64) -> (res: Vec<char>)
    ensures
        res@ == dec(n as nat),
    decreases n,
{
    let d = (n % 10) as u32;
    let c = char_from_digit(d);
    if n < 10 {
        let mut v: Vec<char> = Vec::new();
        v.push(c);
        v
    } else {
        let mut v = digits_of(n / 10);
        v.push(c);
        v
    }
}

fn char_from_digit(d: u32) -> (c: char)
    requires
        d < 10,
    ensures
        c == digit_char(d as int),
{
    if d == 0 { '0' }
    else if d == 1 { '1' }
    else if d == 2 { '2' }
    else if d == 3 { '3' }
    else if d == 4 { '4' }
    else if d == 5 { '5' }
    else if d == 6 { '6' }
    else if d == 7 { '7' }
    else if d == 8 { '8' }
    else { '9' }
}

/// `n.to_string()` for an unsigned integer.
pub fn fmt_u64(n: u64) -> (res: String)
    ensures
        res@ == dec(n as nat),
{
    let v = digits_of(n);
    string_of(v.as_slice())
}

/// `n.to_string()` for a signed integer.
pub fn fmt_i64(n: i64) -> (res: String)
    ensures
        res@ == dec_int(n as int),
{
    if n < 0 {
        let m: u64 = if n == i64::MIN {
            9223372036854775808u64
        } else {
            (-n) as u64
        };
        let v = digits_of(m);
        let mut w: Vec<char> = Vec::new();
        w.push('-');
        let mut i: usize = 0;
        while i < v.len()
            invariant
                i <= v.len(),
                w@ =~= seq!['-'] + v@.take(i as int),
            decreases v.len() - i,
        {
            w.push(v[i]);
            i = i + 1;
        }
        assert(v@.take(v.len() as int) =~= v@);
        string_of(w.as_slice())
    } else {
        fmt_u64(n as u64)
    }
}

// ---------------------------------------------------------------------------
// Parsing integers the way `str::parse` does
// ---------------------------------------------------------------------------

pub open spec fn all_digits(s: Seq<char>) -> bool {
    forall|i: int| 0 <= i < s.len() ==> is_digit(#[trigger] s[i])
}

/// The value of a run of decimal digits.
pub open spec fn digits_value(s: Seq<char>) -> int
    decreases s.len(),
{
    if s.len() == 0 {
        0
    } else {
        digits_value(s.drop_last()) * 10 + digit_value(s.last())
    }
}

/// `u*::from_str`: an optional `+` followed by at least one digit, and a value
/// no larger than `max`.
pub open spec fn parse_unsigned(s: Seq<char>, max: int) -> Option<int> {
    let body = if s.len() > 0 && s[0] == '+' { s.drop_first() } else { s };
    if body.len() == 0 || !all_digits(body) || digits_value(body) > max {
        None
    } else {
        Some(digits_value(body))
    }
}

/// `i*::from_str`: an optional `+` or `-` followed by at least one digit, and a
/// value within `min ..= max`.
pub open spec fn parse_signed(s: Seq<char>, min: int, max: int) -> Option<int> {
    let neg = s.len() > 0 && s[0] == '-';
    let body = if s.len() > 0 && (s[0] == '+' || s[0] == '-') { s.drop_first() } else { s };
    let v = if neg { -digits_value(body) } else { digits_value(body) };
    if body.len() == 0 || !all_digits(body) || v < min || v > max {
        None
    } else {
        Some(v)
    }
}

pub proof fn lemma_digits_value_nonneg(s: Seq<char>)
    requires
        all_digits(s),
    ensures
        digits_value(s) >= 0,
    decreases s.len(),
{
    if s.len() > 0 {
        assert(all_digits(s.drop_last())) by {
            assert forall|i: int| 0 <= i < s.drop_last().len() implies is_digit(
                #[trigger] s.drop_last()[i],
            ) by {
                assert(s.drop_last()[i] == s[i]);
            }
        }
        lemma_digits_value_nonneg(s.drop_last());
        assert(is_digit(s[s.len() - 1]));
    }
}

/// Reads the digits `body[start..]`, capping the running value at `cap`.
/// Returns the capped value when every character is a digit.
fn read_digits(body: &Vec<char>, start: usize, cap: u128) -> (res: Option<u128>)
    requires
        start <= body.len(),
        cap <= 0x1_0000_0000_0000_0000u128,
    ensures
        match res {
            Some(v) => all_digits(body@.skip(start as int)) && v as int == if digits_value(
                body@.skip(start as int),
            ) < cap {
                digits_value(body@.skip(start as int))
            } else {
                cap as int
            },
            None => !all_digits(body@.skip(start as int)),
        },
{
    let ghost b = body@.skip(start as int);
    let mut acc: u128 = 0;
    let mut i: usize = start;
    assert(b.take(0) =~= Seq::<char>::empty());
    while i < body.len()
        invariant
            start <= i <= body.len(),
            b == body@.skip(start as int),
            cap <= 0x1_0000_0000_0000_0000u128,
            all_digits(b.take(i - start)),
            acc <= cap,
            acc as int == if digits_value(b.take(i - start)) < cap {
                digits_value(b.take(i - start))
            } else {
                cap as int
            },
        decreases body.len() - i,
    {
        let c = body[i];
        if !('0' <= c && c <= '9') {
            assert(b[i - start] == c);
            return None;
        }
        let d = (c as u32 - '0' as u32) as u128;
        let ghost p = b.take(i - start);
        let ghost q = b.take(i - start + 1);
        assert(q.drop_last() =~= p);
        assert(q.last() == c);
        proof {
            lemma_digits_value_nonneg(p);
        }
        assert(all_digits(q)) by {
            assert forall|k: int| 0 <= k < q.len() implies is_digit(#[trigger] q[k]) by {
                if k < p.len() {
                    assert(q[k] == p[k]);
                }
            }
        }
        let next = acc * 10 + d;
        acc = if next < cap { next } else { cap };
        i = i + 1;
    }
    assert(b.take(i - start) =~= b);
    Some(acc)
}

/// `s.parse::<u64>()` restricted to values `<= max`, as the `from_str` of an
/// unsigned type whose largest value is `max`.
pub fn parse_unsigned_exec(s: &str, max: u64) -> (res: Option<u64>)
    ensures
        match parse_unsigned(s@, max as int) {
            Some(v) => 0 <= v <= max && res == Some(v as u64),
            None => res.is_none(),
        },
{
    proof {
        let body = if s@.len() > 0 && s@[0] == '+' { s@.drop_first() } else { s@ };
        if all_digits(body) {
            lemma_digits_value_nonneg(body);
        }
    }
    let v = chars_of(s);
    let start: usize = if v.len() > 0 && v[0] == '+' { 1 } else { 0 };
    if start >= v.len() {
        assert(v@.skip(start as int).len() == 0);
        return None;
    }
    assert(v@.skip(start as int) =~= if s@.len() > 0 && s@[0] == '+' {
        s@.drop_first()
    } else {
        s@
    });
    match read_digits(&v, start, max as u128 + 1) {
        None => None,
        Some(x) => {
            if x > max as u128 {
                None
            } else {
                Some(x as u64)
            }
        },
    }
}

/// `s.parse::<i64>()` restricted to values in `min ..= max`, as the `from_str`
/// of a signed type with that range.
pub fn parse_signed_exec(s: &str, min: i64, max: i64) -> (res: Option<i64>)
    requires
        min <= 0 <= max,
    ensures
        match parse_signed(s@, min as int, max as int) {
            Some(v) => res == Some(v as i64),
            None => res.is_none(),
        },
{
    let v = chars_of(s);
    let neg = v.len() > 0 && v[0] == '-';
    let start: usize = if v.len() > 0 && (v[0] == '+' || v[0] == '-') { 1 } else { 0 };
    if start >= v.len() {
        assert(v@.skip(start as int).len() == 0);
        return None;
    }
    assert(v@.skip(start as int) =~= if s@.len() > 0 && (s@[0] == '+' || s@[0] == '-') {
        s@.drop_first()
    } else {
        s@
    });
    // The largest magnitude that is in range on this side of zero.
    let bound: u64 = if neg {
        if min == i64::MIN { 9223372036854775808u64 } else { (-min) as u64 }
    } else {
        max as u64
    };
    match read_digits(&v, start, bound as u128 + 1) {
        None => None,
        Some(x) => {
            if x > bound as u128 {
                None
            } else if neg {
                if x == 9223372036854775808u128 {
                    Some(i64::MIN)
                } else {
                    Some(-(x as i64))
                }
            } else {
                Some(x as i64)
            }
        },
    }
}

} // verus!
