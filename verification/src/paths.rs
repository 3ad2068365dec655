//! File-system paths as text, following the Unix rules of `std::path`.
//!
//! Paths are carried as strings; what the library needs of them is how
//! `Path::join` appends a relative path, and how `Path::file_name` and
//! `Path::extension` pick the last component apart.
use vstd::prelude::*;
use crate::text::{cat, cat3, chars_of, string_of};

verus! {

/// `Path::join`: an absolute `rel` (one that starts with `/`) replaces
/// `base`; otherwise a separator is put between the two unless `base` is
/// empty or already ends with one.
pub open spec fn join(base: Seq<char>, rel: Seq<char>) -> Seq<char> {
    if rel.len() > 0 && rel[0] == '/' {
        rel
    } else if base.len() == 0 || base.last() == '/' {
        base + rel
    } else {
        base + seq!['/'] + rel
    }
}

pub fn join_path(base: &str, rel: &str) -> (res: String)
    ensures
        res@ == join(base@, rel@),
{
    let r = chars_of(rel);
    if r.len() > 0 && r[0] == '/' {
        return String::from_str(rel);
    }
    let b = chars_of(base);
    if b.len() == 0 || b[b.len() - 1] == '/' {
        cat(base, rel)
    } else {
        proof {
            reveal_strlit("/");
        }
        cat3(base, "/", rel)
    }
}

/// The components of a path that name something: the pieces between `/`
/// separators, without the empty pieces and the `.` pieces (which
/// `Path::components` normalises away).
pub open spec fn components(p: Seq<char>) -> Seq<Seq<char>>
    decreases p.len(),
{
    components_from(p, Seq::empty())
}

/// Splits `p` on `/`, `cur` being the piece read so far.
pub open spec fn components_from(p: Seq<char>, cur: Seq<char>) -> Seq<Seq<char>>
    decreases p.len(),
{
    if p.len() == 0 {
        keep_component(cur)
    } else if p[0] == '/' {
        keep_component(cur) + components_from(p.drop_first(), Seq::empty())
    } else {
        components_from(p.drop_first(), cur.push(p[0]))
    }
}

pub open spec fn keep_component(c: Seq<char>) -> Seq<Seq<char>> {
    if c.len() == 0 || c == seq!['.'] {
        Seq::empty()
    } else {
        seq![c]
    }
}

/// `Path::file_name`: the last component, unless there is none or it is `..`.
pub open spec fn file_name(p: Seq<char>) -> Option<Seq<char>> {
    let cs = components(p);
    if cs.len() == 0 || cs.last() == seq!['.', '.'] {
        None
    } else {
        Some(cs.last())
    }
}

/// Position of the last `.` in `s`, if any.
pub open spec fn last_dot(s: Seq<char>) -> Option<int>
    decreases s.len(),
{
    if s.len() == 0 {
        None
    } else if s.last() == '.' {
        Some(s.len() - 1)
    } else {
        last_dot(s.drop_last())
    }
}

/// `Path::extension`: what follows the last `.` of the file name, unless the
/// name has no `.` or its only `.` is the first character.
pub open spec fn extension(p: Seq<char>) -> Option<Seq<char>> {
    match file_name(p) {
        None => None,
        Some(name) => match last_dot(name) {
            None => None,
            Some(i) => if i == 0 {
                None
            } else {
                Some(name.skip(i + 1))
            },
        },
    }
}

proof fn lemma_components_from_step(p: Seq<char>, cur: Seq<char>, i: int, acc: Seq<Seq<char>>)
    requires
        0 <= i < p.len(),
    ensures
        p[i] == '/' ==> components_from(p.skip(i), cur) == keep_component(cur) + components_from(
            p.skip(i + 1),
            Seq::empty(),
        ),
        p[i] != '/' ==> components_from(p.skip(i), cur) == components_from(
            p.skip(i + 1),
            cur.push(p[i]),
        ),
{
    assert(p.skip(i).drop_first() =~= p.skip(i + 1));
}

fn kept(cur: &Vec<char>) -> (b: bool)
    ensures
        b ==> keep_component(cur@) == seq![cur@],
        !b ==> keep_component(cur@) == Seq::<Seq<char>>::empty(),
{
    if cur.len() == 0 || (cur.len() == 1 && cur[0] == '.') {
        assert(cur.len() == 1 ==> cur@ =~= seq!['.']);
        false
    } else {
        assert(cur@ != seq!['.']) by {
            if cur@ == seq!['.'] {
                assert(cur@.len() == 1 && cur@[0] == '.');
            }
        }
        true
    }
}

pub open spec fn views(vs: Seq<Vec<char>>) -> Seq<Seq<char>> {
    vs.map_values(|c: Vec<char>| c@)
}

/// The components of `p` (see [`components`]).
pub fn components_exec(p: &str) -> (res: Vec<Vec<char>>)
    ensures
        views(res@) == components(p@),
{
    let v = chars_of(p);
    let mut out: Vec<Vec<char>> = Vec::new();
    let mut cur: Vec<char> = Vec::new();
    let mut i: usize = 0;
    assert(v@.skip(0) =~= v@);
    assert(views(out@) =~= Seq::<Seq<char>>::empty());
    assert(cur@ =~= Seq::<char>::empty());
    while i < v.len()
        invariant
            i <= v.len(),
            v@ == p@,
            views(out@) + components_from(v@.skip(i as int), cur@) == components(p@),
        decreases v.len() - i,
    {
        proof {
            lemma_components_from_step(v@, cur@, i as int, Seq::empty());
        }
        let ghost before = views(out@);
        if v[i] == '/' {
            let ghost k = keep_component(cur@);
            if kept(&cur) {
                out.push(cur);
                assert(views(out@) =~= before + seq![k[0]]);
            }
            assert(views(out@) =~= before + k);
            cur = Vec::new();
            assert(cur@ =~= Seq::<char>::empty());
            assert((before + k) + components_from(v@.skip(i + 1), Seq::empty()) =~= before + (k
                + components_from(v@.skip(i + 1), Seq::empty())));
        } else {
            cur.push(v[i]);
        }
        i = i + 1;
    }
    assert(v@.skip(i as int) =~= Seq::<char>::empty());
    let ghost before = views(out@);
    let ghost k = keep_component(cur@);
    if kept(&cur) {
        out.push(cur);
        assert(views(out@) =~= before + seq![k[0]]);
    }
    assert(views(out@) =~= before + k);
    out
}

/// `Path::file_name`, as characters.
pub fn file_name_exec(p: &str) -> (res: Option<Vec<char>>)
    ensures
        match file_name(p@) {
            None => res.is_none(),
            Some(n) => res.is_some() && res.unwrap()@ == n,
        },
{
    let cs = components_exec(p);
    proof {
        assert(views(cs@).len() == cs@.len());
    }
    if cs.len() == 0 {
        return None;
    }
    let last = cs[cs.len() - 1].clone();
    assert(views(cs@).last() == last@) by {
        assert(views(cs@)[cs@.len() - 1] == cs@[cs@.len() - 1]@);
    }
    if last.len() == 2 && last[0] == '.' && last[1] == '.' {
        assert(last@ =~= seq!['.', '.']);
        None
    } else {
        assert(last@ != seq!['.', '.']) by {
            if last@ == seq!['.', '.'] {
                assert(last@.len() == 2 && last@[0] == '.' && last@[1] == '.');
            }
        }
        Some(last)
    }
}

/// `Path::extension` followed by `OsStr::to_str`, as a string.
pub fn extension_exec(p: &str) -> (res: Option<String>)
    ensures
        match extension(p@) {
            None => res.is_none(),
            Some(e) => res.is_some() && res.unwrap()@ == e,
        },
{
    let name = match file_name_exec(p) {
        None => return None,
        Some(n) => n,
    };
    let mut i: usize = name.len();
    assert(name@.take(i as int) =~= name@);
    while i > 0 && name[i - 1] != '.'
        invariant
            i <= name.len(),
            last_dot(name@.take(i as int)) == last_dot(name@),
        decreases i,
    {
        assert(name@.take(i as int).drop_last() =~= name@.take(i - 1));
        i = i - 1;
    }
    if i == 0 {
        assert(name@.take(0) =~= Seq::<char>::empty());
        return None;
    }
    assert(last_dot(name@.take(i as int)) == Some(i - 1));
    if i == 1 {
        return None;
    }
    let mut out: Vec<char> = Vec::new();
    let mut k: usize = i;
    while k < name.len()
        invariant
            i <= k <= name.len(),
            out@ =~= name@.subrange(i as int, k as int),
        decreases name.len() - k,
    {
        out.push(name[k]);
        k = k + 1;
    }
    assert(out@ =~= name@.skip(i as int));
    Some(string_of(out.as_slice()))
}

} // verus!
