//! The integer part of the fallback strategy: code text is split into
//! tokens (words, then camelCase and snake_case parts, lowercased), and the
//! tokens are hashed with xxh3 into a vector of signed counts, which the
//! program then projects and normalises.
use vstd::prelude::*;
use crate::text::{chars_of, is_ws, string_of, strings, cat};
use vstd::string::StringSliceAdditionalSpecFns;

verus! {

/// The dimension of the hashed feature vector.
pub const HASH_DIMENSION: usize = 8192;

/// The seed of the random projection.
pub const PROJECTION_SEED: u64 = 42;

// ---------------------------------------------------------------------------
// Characters and case (the standard library's Unicode tables)
// ---------------------------------------------------------------------------

/// `char::is_alphanumeric`.
pub uninterp spec fn alphanumeric(c: char) -> bool;

/// `char::is_uppercase`.
pub uninterp spec fn uppercase(c: char) -> bool;

/// `char::is_lowercase`.
pub uninterp spec fn lowercase(c: char) -> bool;

/// `str::to_lowercase`.
pub uninterp spec fn to_lowercase(s: Seq<char>) -> Seq<char>;

/// Whether `c` lies between `lo` and `hi` (code points, both included).
pub open spec fn in_range(c: char, lo: u32, hi: u32) -> bool {
    lo <= (c as u32) <= hi
}

/// Whether `c` is an ASCII character.
pub open spec fn is_ascii_char(c: char) -> bool {
    (c as u32) < 0x80
}

/// Whether `c` is alphanumeric: on ASCII the letters and digits, elsewhere
/// as Unicode has it.
pub open spec fn alnum(c: char) -> bool {
    if is_ascii_char(c) {
        in_range(c, 0x61, 0x7a) || in_range(c, 0x41, 0x5a) || in_range(c, 0x30, 0x39)
    } else {
        alphanumeric(c)
    }
}

/// Whether `c` is uppercase: on ASCII `A` to `Z`, elsewhere as Unicode has it.
pub open spec fn upper(c: char) -> bool {
    if is_ascii_char(c) {
        in_range(c, 0x41, 0x5a)
    } else {
        uppercase(c)
    }
}

/// Whether `c` is lowercase: on ASCII `a` to `z`, elsewhere as Unicode has it.
pub open spec fn lower(c: char) -> bool {
    if is_ascii_char(c) {
        in_range(c, 0x61, 0x7a)
    } else {
        lowercase(c)
    }
}

/// `char::is_alphanumeric` (Unicode `Alphabetic` or `Numeric`): the contract
/// names the result, and states it on ASCII, where exactly the letters and
/// digits are alphanumeric.
#[verifier::external_body]
fn is_alphanumeric(c: char) -> (b: bool)
    ensures
        b == alphanumeric(c),
        is_ascii_char(c) ==> (b <==> in_range(c, 0x61, 0x7a) || in_range(c, 0x41, 0x5a) || in_range(
            c,
            0x30,
            0x39,
        )),
{
    c.is_alphanumeric()
}

/// `char::is_uppercase` (Unicode `Uppercase`): the contract names the
/// result, and states it on ASCII, where exactly `A` to `Z` are uppercase.
#[verifier::external_body]
fn is_uppercase(c: char) -> (b: bool)
    ensures
        b == uppercase(c),
        is_ascii_char(c) ==> (b <==> in_range(c, 0x41, 0x5a)),
{
    c.is_uppercase()
}

/// `char::is_lowercase` (Unicode `Lowercase`): the contract names the
/// result, and states it on ASCII, where exactly `a` to `z` are lowercase.
#[verifier::external_body]
fn is_lowercase(c: char) -> (b: bool)
    ensures
        b == lowercase(c),
        is_ascii_char(c) ==> (b <==> in_range(c, 0x61, 0x7a)),
{
    c.is_lowercase()
}

/// `str::to_lowercase` (Unicode lowercase mapping); the contract names the
/// result only.
#[verifier::external_body]
pub(crate) fn lowercased(s: &str) -> (res: String)
    ensures
        res@ == to_lowercase(s@),
{
    s.to_lowercase()
}

// ---------------------------------------------------------------------------
// Words
// ---------------------------------------------------------------------------

/// `str::split_whitespace` of `s`, `cur` being the word read so far: the
/// maximal runs of characters that are not white space.
pub open spec fn words_from(s: Seq<char>, cur: Seq<char>) -> Seq<Seq<char>>
    decreases s.len(),
{
    if s.len() == 0 {
        if cur.len() == 0 {
            Seq::empty()
        } else {
            seq![cur]
        }
    } else if is_ws(s[0]) {
        (if cur.len() == 0 {
            Seq::empty()
        } else {
            seq![cur]
        }) + words_from(s.drop_first(), Seq::empty())
    } else {
        words_from(s.drop_first(), cur.push(s[0]))
    }
}

/// `str::split_whitespace`.
pub open spec fn words(s: Seq<char>) -> Seq<Seq<char>> {
    words_from(s, Seq::empty())
}

proof fn lemma_words_step(s: Seq<char>, cur: Seq<char>, i: int)
    requires
        0 <= i < s.len(),
    ensures
        is_ws(s[i]) ==> words_from(s.skip(i), cur) == (if cur.len() == 0 {
            Seq::<Seq<char>>::empty()
        } else {
            seq![cur]
        }) + words_from(s.skip(i + 1), Seq::empty()),
        !is_ws(s[i]) ==> words_from(s.skip(i), cur) == words_from(s.skip(i + 1), cur.push(s[i])),
{
    assert(s.skip(i).drop_first() =~= s.skip(i + 1));
}

/// The words of `s` (see [`words`]).
pub fn split_words(s: &str) -> (res: Vec<String>)
    ensures
        strings(res@) == words(s@),
{
    let v = chars_of(s);
    let mut out: Vec<String> = Vec::new();
    let mut cur: Vec<char> = Vec::new();
    let mut i: usize = 0;
    assert(v@.skip(0) =~= v@);
    assert(strings(out@) =~= Seq::<Seq<char>>::empty());
    assert(cur@ =~= Seq::<char>::empty());
    while i < v.len()
        invariant
            i <= v.len(),
            v@ == s@,
            strings(out@) + words_from(v@.skip(i as int), cur@) == words(s@),
        decreases v.len() - i,
    {
        proof {
            lemma_words_step(v@, cur@, i as int);
        }
        let ghost before = strings(out@);
        if crate::text::char_is_whitespace(v[i]) {
            if cur.len() > 0 {
                out.push(string_of(cur.as_slice()));
                assert(strings(out@) =~= before + seq![cur@]);
            } else {
                assert(strings(out@) =~= before + Seq::<Seq<char>>::empty());
            }
            let ghost k = if cur@.len() == 0 { Seq::<Seq<char>>::empty() } else { seq![cur@] };
            assert(strings(out@) =~= before + k);
            cur = Vec::new();
            assert(cur@ =~= Seq::<char>::empty());
            assert((before + k) + words_from(v@.skip(i + 1), Seq::empty()) =~= before + (k
                + words_from(v@.skip(i + 1), Seq::empty())));
        } else {
            cur.push(v[i]);
        }
        i = i + 1;
    }
    assert(v@.skip(i as int) =~= Seq::<char>::empty());
    let ghost before = strings(out@);
    if cur.len() > 0 {
        out.push(string_of(cur.as_slice()));
        assert(strings(out@) =~= before + seq![cur@]);
    } else {
        assert(strings(out@) =~= before + Seq::<Seq<char>>::empty());
    }
    out
}

// ---------------------------------------------------------------------------
// Identifiers
// ---------------------------------------------------------------------------

/// The state of the split of an identifier: the parts found, the part being
/// read, and whether the last character read was lowercase.
pub type SplitState = (Seq<Seq<char>>, Seq<char>, bool);

/// The parts found so far, with `cur` added when it is not empty.
pub open spec fn flush(parts: Seq<Seq<char>>, cur: Seq<char>) -> Seq<Seq<char>> {
    if cur.len() > 0 {
        parts.push(cur)
    } else {
        parts
    }
}

/// How one character moves the split on: `_` and any other character that
/// is not alphanumeric end the current part; an uppercase character that
/// follows a lowercase one starts a new part; other alphanumeric characters
/// extend the current part.
pub open spec fn split_step(st: SplitState, c: char) -> SplitState {
    let (parts, cur, prev_lower) = st;
    if c == '_' || !alnum(c) {
        (flush(parts, cur), Seq::empty(), false)
    } else if upper(c) {
        if cur.len() > 0 && prev_lower {
            (parts.push(cur), seq![c], false)
        } else {
            (parts, cur.push(c), false)
        }
    } else {
        (parts, cur.push(c), lower(c))
    }
}

/// The state after reading all of `s`.
pub open spec fn split_run(s: Seq<char>) -> SplitState
    decreases s.len(),
{
    if s.len() == 0 {
        (Seq::empty(), Seq::empty(), false)
    } else {
        split_step(split_run(s.drop_last()), s.last())
    }
}

/// The parts of an identifier by its camelCase and snake_case boundaries;
/// an identifier with no part at all is its own only part.
pub open spec fn identifier_parts(s: Seq<char>) -> Seq<Seq<char>> {
    let (parts, cur, _) = split_run(s);
    let all = flush(parts, cur);
    if all.len() == 0 {
        seq![s]
    } else {
        all
    }
}

/// Splits an identifier (see [`identifier_parts`]):
/// `getUserName` gives `get`, `User`, `Name`; `get_user_name` gives `get`,
/// `user`, `name`.
pub fn split_identifier(s: &str) -> (res: Vec<String>)
    ensures
        strings(res@) == identifier_parts(s@),
{
    let v = chars_of(s);
    let mut parts: Vec<String> = Vec::new();
    let mut cur: Vec<char> = Vec::new();
    let mut prev_lower = false;
    let mut i: usize = 0;
    assert(v@.take(0) =~= Seq::<char>::empty());
    assert(strings(parts@) =~= Seq::<Seq<char>>::empty());
    assert(cur@ =~= Seq::<char>::empty());
    while i < v.len()
        invariant
            i <= v.len(),
            v@ == s@,
            (strings(parts@), cur@, prev_lower) == split_run(v@.take(i as int)),
        decreases v.len() - i,
    {
        let c = v[i];
        proof {
            assert(v@.take(i + 1).drop_last() =~= v@.take(i as int));
            assert(v@.take(i + 1).last() == c);
        }
        let ghost before = strings(parts@);
        if c == '_' || !is_alphanumeric(c) {
            if cur.len() > 0 {
                parts.push(string_of(cur.as_slice()));
                assert(strings(parts@) =~= before.push(cur@));
            }
            cur = Vec::new();
            assert(cur@ =~= Seq::<char>::empty());
            prev_lower = false;
        } else if is_uppercase(c) {
            if cur.len() > 0 && prev_lower {
                parts.push(string_of(cur.as_slice()));
                assert(strings(parts@) =~= before.push(cur@));
                cur = Vec::new();
                cur.push(c);
                assert(cur@ =~= seq![c]);
            } else {
                cur.push(c);
            }
            prev_lower = false;
        } else {
            cur.push(c);
            prev_lower = is_lowercase(c);
        }
        i = i + 1;
    }
    assert(v@.take(i as int) =~= v@);
    let ghost before = strings(parts@);
    if cur.len() > 0 {
        parts.push(string_of(cur.as_slice()));
        assert(strings(parts@) =~= before.push(cur@));
    }
    if parts.len() == 0 {
        let mut only: Vec<String> = Vec::new();
        only.push(String::from_str(s));
        assert(strings(only@) =~= seq![s@]);
        only
    } else {
        parts
    }
}

// ---------------------------------------------------------------------------
// Tokens
// ---------------------------------------------------------------------------

/// The lowercased parts of `ps` that are not empty.
pub open spec fn lowered(ps: Seq<Seq<char>>) -> Seq<Seq<char>>
    decreases ps.len(),
{
    if ps.len() == 0 {
        Seq::empty()
    } else {
        let rest = lowered(ps.drop_last());
        let l = to_lowercase(ps.last());
        if l.len() > 0 {
            rest.push(l)
        } else {
            rest
        }
    }
}

/// The tokens of the words `ws`, word by word.
pub open spec fn tokens_of_words(ws: Seq<Seq<char>>) -> Seq<Seq<char>>
    decreases ws.len(),
{
    if ws.len() == 0 {
        Seq::empty()
    } else {
        tokens_of_words(ws.drop_last()) + lowered(identifier_parts(ws.last()))
    }
}

/// The tokens of a code text: its words, split at camelCase and snake_case
/// boundaries, lowercased, without empty ones.
pub open spec fn code_tokens(text: Seq<char>) -> Seq<Seq<char>> {
    tokens_of_words(words(text))
}

fn push_lowered(out: &mut Vec<String>, parts: &Vec<String>)
    ensures
        strings(final(out)@) == strings(old(out)@) + lowered(strings(parts@)),
{
    let ghost start = strings(out@);
    let mut j: usize = 0;
    assert(strings(parts@).take(0) =~= Seq::<Seq<char>>::empty());
    assert(start + Seq::<Seq<char>>::empty() =~= start);
    while j < parts.len()
        invariant
            j <= parts.len(),
            strings(out@) == start + lowered(strings(parts@).take(j as int)),
        decreases parts.len() - j,
    {
        let l = lowercased(parts[j].as_str());
        let ghost before = strings(out@);
        proof {
            let p = strings(parts@).take(j + 1);
            assert(p.drop_last() =~= strings(parts@).take(j as int));
            assert(p.last() == parts@[j as int]@);
        }
        if l.as_str().is_empty() {
            assert(l@.len() == 0);
        } else {
            out.push(l);
            assert(strings(out@) =~= before.push(l@));
            assert(start + lowered(strings(parts@).take(j as int)).push(l@) =~= (start + lowered(
                strings(parts@).take(j as int),
            )).push(l@));
        }
        j = j + 1;
    }
    assert(strings(parts@).take(j as int) =~= strings(parts@));
}

/// Tokenizes code text (see [`code_tokens`]).
pub fn tokenize_code(text: &str) -> (res: Vec<String>)
    ensures
        strings(res@) == code_tokens(text@),
{
    let ws = split_words(text);
    let mut out: Vec<String> = Vec::new();
    let mut i: usize = 0;
    assert(strings(ws@).take(0) =~= Seq::<Seq<char>>::empty());
    assert(strings(out@) =~= Seq::<Seq<char>>::empty());
    while i < ws.len()
        invariant
            i <= ws.len(),
            strings(ws@) == words(text@),
            strings(out@) == tokens_of_words(strings(ws@).take(i as int)),
        decreases ws.len() - i,
    {
        let parts = split_identifier(ws[i].as_str());
        proof {
            let p = strings(ws@).take(i + 1);
            assert(p.drop_last() =~= strings(ws@).take(i as int));
            assert(p.last() == ws@[i as int]@);
        }
        push_lowered(&mut out, &parts);
        i = i + 1;
    }
    assert(strings(ws@).take(i as int) =~= strings(ws@));
    out
}

// ---------------------------------------------------------------------------
// Hashed features
// ---------------------------------------------------------------------------

/// `xxhash_rust::xxh3::xxh3_64` of `bytes`.
pub uninterp spec fn xxh3_64_of(bytes: Seq<u8>) -> u64;

/// Hashes `bytes` with `xxhash_rust::xxh3::xxh3_64` (XXH3, 64 bits, seed 0,
/// default secret); the contract names the result only.
#[verifier::external_body]
fn xxh3(bytes: &[u8]) -> (h: u64)
    ensures
        h == xxh3_64_of(bytes@),
{
    xxhash_rust::xxh3::xxh3_64(bytes)
}

/// The place of a token in the feature vector: its hash modulo
/// `HASH_DIMENSION`.
pub open spec fn feature_index(token: Seq<char>) -> int {
    (xxh3_64_of(vstd::utf8::encode_utf8(token)) % (HASH_DIMENSION as u64)) as int
}

/// The sign of a token: +1 when the hash of `sign_` and the token is even,
/// else -1.
pub open spec fn feature_sign(token: Seq<char>) -> int {
    if xxh3_64_of(vstd::utf8::encode_utf8("sign_"@ + token)) & 1 == 0 {
        1
    } else {
        -1
    }
}

/// The feature vector of `tokens`: for each place, the sum of the signs of
/// the tokens that hash to it.
pub open spec fn features(tokens: Seq<Seq<char>>) -> Seq<int>
    decreases tokens.len(),
{
    if tokens.len() == 0 {
        Seq::new(HASH_DIMENSION as nat, |i: int| 0)
    } else {
        let f = features(tokens.drop_last());
        let t = tokens.last();
        f.update(feature_index(t), f[feature_index(t)] + feature_sign(t))
    }
}

proof fn lemma_features_len(tokens: Seq<Seq<char>>)
    ensures
        features(tokens).len() == HASH_DIMENSION,
    decreases tokens.len(),
{
    if tokens.len() > 0 {
        lemma_features_len(tokens.drop_last());
    }
}

/// The signed feature counts of `tokens` (see [`features`]).
pub fn feature_counts(tokens: &Vec<String>) -> (res: Vec<i64>)
    requires
        tokens@.len() <= i64::MAX,
    ensures
        res@.len() == HASH_DIMENSION,
        forall|i: int| 0 <= i < HASH_DIMENSION ==> res@[i] == features(strings(tokens@))[i],
{
    let mut counts: Vec<i64> = Vec::new();
    let mut k: usize = 0;
    while k < HASH_DIMENSION
        invariant
            k <= HASH_DIMENSION,
            counts@.len() == k,
            forall|i: int| 0 <= i < k ==> counts@[i] == 0,
        decreases HASH_DIMENSION - k,
    {
        counts.push(0);
        k = k + 1;
    }
    let mut j: usize = 0;
    assert(strings(tokens@).take(0) =~= Seq::<Seq<char>>::empty());
    while j < tokens.len()
        invariant
            j <= tokens.len(),
            tokens@.len() <= i64::MAX,
            counts@.len() == HASH_DIMENSION,
            forall|i: int| 0 <= i < HASH_DIMENSION ==> #[trigger] counts@[i] == features(strings(tokens@).take(j as int))[i],
            forall|i: int| 0 <= i < HASH_DIMENSION ==> -(j as int) <= #[trigger] counts@[i] <= j,
        decreases tokens.len() - j,
    {
        let t = tokens[j].as_str();
        let h = xxh3(t.as_bytes());
        let idx = (h % (HASH_DIMENSION as u64)) as usize;
        let signed = cat("sign_", t);
        let s = xxh3(signed.as_str().as_bytes());
        proof {
            let p = strings(tokens@).take(j + 1);
            assert(p.drop_last() =~= strings(tokens@).take(j as int));
            assert(p.last() == tokens@[j as int]@);
            lemma_features_len(strings(tokens@).take(j as int));
            assert(t.spec_bytes() == vstd::utf8::encode_utf8(t@));
        }
        let old_count = counts[idx];
        if s & 1 == 0 {
            counts.set(idx, old_count + 1);
        } else {
            counts.set(idx, old_count - 1);
        }
        j = j + 1;
    }
    assert(strings(tokens@).take(j as int) =~= strings(tokens@));
    counts
}

} // verus!
