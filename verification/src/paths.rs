//! File system paths as `/`-separated strings: the file name, extension, stem and parent
//! directory of a path, joining paths and taking a path relative to a base directory.
//!
//! As `std::path` does, the file name and the parent ignore what ends a path without naming
//! a component: trailing separators and trailing `.` components (`dir/` and `dir/.` both
//! name `dir`). The file name is then the text after the last `/`, unless it is empty, `.`
//! or `..`; the extension is the text after the last `.` of the file name when that `.` is
//! not its first character; the stem is the file name without its extension.
use vstd::prelude::*;
use crate::text::{str_chars, string_from_chars, chars_between, append_chars, chars_equal};

verus! {

/// The index of the last `c` in `s`, or -1.
pub open spec fn last_index_of(s: Seq<char>, c: char) -> int
    decreases s.len(),
{
    if s.len() == 0 {
        -1
    } else if s.last() == c {
        s.len() - 1
    } else {
        last_index_of(s.drop_last(), c)
    }
}

/// `p` without what ends it and names no component: trailing `/` and trailing `/.`, the
/// root `/` itself kept.
pub open spec fn trim_end(p: Seq<char>) -> Seq<char>
    decreases p.len(),
{
    if p.len() > 1 && p.last() == '/' {
        trim_end(p.drop_last())
    } else if p.len() > 1 && p.last() == '.' && p[p.len() - 2] == '/' {
        trim_end(p.drop_last())
    } else {
        p
    }
}

/// The file name of a path: its last component, when that is a name.
pub open spec fn spec_file_name(p: Seq<char>) -> Option<Seq<char>> {
    let q = trim_end(p);
    let name = q.subrange(last_index_of(q, '/') + 1, q.len() as int);
    if name.len() == 0 || name =~= seq!['.'] || name =~= seq!['.', '.'] {
        None
    } else {
        Some(name)
    }
}

/// The extension of a path: what follows the last `.` of the file name, when that `.` is
/// not the first character of the file name.
pub open spec fn spec_extension(p: Seq<char>) -> Option<Seq<char>> {
    match spec_file_name(p) {
        None => None,
        Some(name) => {
            let d = last_index_of(name, '.');
            if d <= 0 {
                None
            } else {
                Some(name.subrange(d + 1, name.len() as int))
            }
        },
    }
}

/// The file stem of a path: the file name without its extension.
pub open spec fn spec_file_stem(p: Seq<char>) -> Option<Seq<char>> {
    match spec_file_name(p) {
        None => None,
        Some(name) => {
            let d = last_index_of(name, '.');
            if d <= 0 {
                Some(name)
            } else {
                Some(name.take(d))
            }
        },
    }
}

/// The parent directory of a path: the path without its last component (and without what
/// then ends it and names no component); `None` for the empty path and for the root `/`.
pub open spec fn spec_parent(p: Seq<char>) -> Option<Seq<char>> {
    let q = trim_end(p);
    let k = last_index_of(q, '/');
    if q.len() == 0 {
        None
    } else if k < 0 {
        Some(Seq::empty())
    } else if k == 0 {
        if q.len() == 1 {
            None
        } else {
            Some(seq!['/'])
        }
    } else {
        Some(trim_end(q.take(k)))
    }
}

/// `q` appended to `p` with one separator; an absolute `q` replaces `p`.
pub open spec fn spec_join(p: Seq<char>, q: Seq<char>) -> Seq<char> {
    if q.len() > 0 && q[0] == '/' {
        q
    } else if p.len() == 0 {
        q
    } else if p.last() == '/' {
        p + q
    } else {
        p.push('/') + q
    }
}

/// `p` relative to the directory `base`, when `p` lies inside `base` (or is `base`), the
/// two compared as text: `p` is `base`, or `base` followed by a separator (or `base` ends
/// with one) and the rest. On paths without repeated separators or `.` components this is
/// what `std::path::Path::strip_prefix` gives.
pub open spec fn spec_strip_prefix(p: Seq<char>, base: Seq<char>) -> Option<Seq<char>> {
    if p =~= base {
        Some(Seq::empty())
    } else if base.len() > 0 && base.last() == '/' && base.len() <= p.len() && p.take(
        base.len() as int,
    ) =~= base {
        Some(p.skip(base.len() as int))
    } else if base.len() + 1 <= p.len() && p.take(base.len() as int) =~= base && p[base.len() as int]
        == '/' {
        Some(p.skip(base.len() + 1int))
    } else {
        None
    }
}

pub proof fn lemma_last_index_of_bounds(s: Seq<char>, c: char)
    ensures
        -1 <= last_index_of(s, c) < s.len(),
        last_index_of(s, c) >= 0 ==> s[last_index_of(s, c)] == c,
        forall|j: int| last_index_of(s, c) < j < s.len() ==> s[j] != c,
    decreases s.len(),
{
    if s.len() > 0 && s.last() != c {
        lemma_last_index_of_bounds(s.drop_last(), c);
        assert forall|j: int| last_index_of(s, c) < j < s.len() implies s[j] != c by {
            if j < s.len() - 1 {
                assert(s[j] == s.drop_last()[j]);
            }
        }
    }
}

pub proof fn lemma_trim_end_len(p: Seq<char>)
    ensures
        trim_end(p).len() <= p.len(),
        p.len() > 0 ==> trim_end(p).len() > 0,
        trim_end(p) == p.take(trim_end(p).len() as int),
    decreases p.len(),
{
    if p.len() > 1 && (p.last() == '/' || (p.last() == '.' && p[p.len() - 2] == '/')) {
        lemma_trim_end_len(p.drop_last());
        let n = trim_end(p).len() as int;
        assert(p.drop_last().take(n) =~= p.take(n));
    } else {
        assert(p.take(p.len() as int) =~= p);
    }
}

fn trim_end_chars(p: &Vec<char>) -> (r: Vec<char>)
    ensures
        r@ == trim_end(p@),
{
    let mut n: usize = p.len();
    assert(p@.take(n as int) =~= p@);
    while n > 1 && (p[n - 1] == '/' || (p[n - 1] == '.' && p[n - 2] == '/'))
        invariant
            n <= p.len(),
            trim_end(p@) == trim_end(p@.take(n as int)),
        decreases n,
    {
        assert(p@.take(n as int).drop_last() =~= p@.take(n - 1));
        n -= 1;
    }
    let r = chars_between(p, 0, n);
    assert(r@ =~= p@.take(n as int));
    r
}

/// The index of the last `c` in `v`.
pub fn find_last(v: &Vec<char>, c: char) -> (r: Option<usize>)
    ensures
        match r {
            Some(k) => k as int == last_index_of(v@, c) && k < v.len(),
            None => last_index_of(v@, c) == -1,
        },
{
    let mut i = v.len();
    assert(v@.take(i as int) == v@);
    while i > 0 && v[i - 1] != c
        invariant
            i <= v.len(),
            last_index_of(v@, c) == last_index_of(v@.take(i as int), c),
        decreases i,
    {
        assert(v@.take(i as int).drop_last() == v@.take(i - 1));
        i -= 1;
    }
    if i == 0 {
        None
    } else {
        Some(i - 1)
    }
}

fn is_dot_name(name: &Vec<char>) -> (r: bool)
    ensures
        r == (name@ =~= seq!['.'] || name@ =~= seq!['.', '.']),
{
    if name.len() == 1 {
        name[0] == '.'
    } else if name.len() == 2 {
        name[0] == '.' && name[1] == '.'
    } else {
        false
    }
}

fn file_name_chars(p: &Vec<char>) -> (r: Option<Vec<char>>)
    ensures
        match r {
            Some(n) => spec_file_name(p@) == Some(n@),
            None => spec_file_name(p@) is None,
        },
{
    let q = trim_end_chars(p);
    let start = match find_last(&q, '/') {
        Some(k) => k + 1,
        None => 0,
    };
    let name = chars_between(&q, start, q.len());
    if name.len() == 0 || is_dot_name(&name) {
        None
    } else {
        Some(name)
    }
}

/// The file name of `path` (see the module documentation).
pub fn file_name(path: &str) -> (r: Option<String>)
    ensures
        match r {
            Some(n) => spec_file_name(path@) == Some(n@),
            None => spec_file_name(path@) is None,
        },
{
    let p = str_chars(path);
    match file_name_chars(&p) {
        Some(n) => Some(string_from_chars(n.as_slice())),
        None => None,
    }
}

/// The extension of `path`.
pub fn extension_chars(path: &str) -> (r: Option<Vec<char>>)
    ensures
        match r {
            Some(e) => spec_extension(path@) == Some(e@),
            None => spec_extension(path@) is None,
        },
{
    let p = str_chars(path);
    match file_name_chars(&p) {
        None => None,
        Some(name) => match find_last(&name, '.') {
            None => None,
            Some(d) => {
                if d == 0 {
                    None
                } else {
                    Some(chars_between(&name, d + 1, name.len()))
                }
            },
        },
    }
}

/// The extension of `path`.
pub fn extension(path: &str) -> (r: Option<String>)
    ensures
        match r {
            Some(e) => spec_extension(path@) == Some(e@),
            None => spec_extension(path@) is None,
        },
{
    match extension_chars(path) {
        Some(e) => Some(string_from_chars(e.as_slice())),
        None => None,
    }
}

/// The file stem of `path`.
pub fn file_stem(path: &str) -> (r: Option<String>)
    ensures
        match r {
            Some(s) => spec_file_stem(path@) == Some(s@),
            None => spec_file_stem(path@) is None,
        },
{
    let p = str_chars(path);
    match file_name_chars(&p) {
        None => None,
        Some(name) => match find_last(&name, '.') {
            Some(d) => {
                if d == 0 {
                    Some(string_from_chars(name.as_slice()))
                } else {
                    Some(string_from_chars(chars_between(&name, 0, d).as_slice()))
                }
            },
            None => Some(string_from_chars(name.as_slice())),
        },
    }
}

/// The parent directory of `path`.
pub fn parent(path: &str) -> (r: Option<String>)
    ensures
        match r {
            Some(d) => spec_parent(path@) == Some(d@),
            None => spec_parent(path@) is None,
        },
{
    let p = str_chars(path);
    let q = trim_end_chars(&p);
    if q.len() == 0 {
        return None;
    }
    match find_last(&q, '/') {
        None => Some(string_from_chars(chars_between(&q, 0, 0).as_slice())),
        Some(k) => {
            if k == 0 {
                if q.len() == 1 {
                    None
                } else {
                    let root = vec!['/'];
                    assert(root@ =~= seq!['/']);
                    Some(string_from_chars(root.as_slice()))
                }
            } else {
                let head = chars_between(&q, 0, k);
                assert(head@ =~= q@.take(k as int));
                Some(string_from_chars(trim_end_chars(&head).as_slice()))
            }
        },
    }
}

/// `q` joined onto `p` as characters.
pub fn join_chars(p: &Vec<char>, q: &Vec<char>) -> (r: Vec<char>)
    ensures
        r@ == spec_join(p@, q@),
{
    if q.len() > 0 && q[0] == '/' {
        chars_between(q, 0, q.len())
    } else if p.len() == 0 {
        chars_between(q, 0, q.len())
    } else {
        let mut r = chars_between(p, 0, p.len());
        if p[p.len() - 1] != '/' {
            r.push('/');
        }
        append_chars(&mut r, q);
        r
    }
}

/// `q` joined onto `p` (see [`spec_join`]).
pub fn join(p: &str, q: &str) -> (r: String)
    ensures
        r@ == spec_join(p@, q@),
{
    let pc = str_chars(p);
    let qc = str_chars(q);
    string_from_chars(join_chars(&pc, &qc).as_slice())
}

/// `path` relative to the directory `base`, when it lies inside it.
pub fn strip_prefix(path: &str, base: &str) -> (r: Option<String>)
    ensures
        match r {
            Some(rel) => spec_strip_prefix(path@, base@) == Some(rel@),
            None => spec_strip_prefix(path@, base@) is None,
        },
{
    let p = str_chars(path);
    let b = str_chars(base);
    if chars_equal(&p, &b) {
        return Some(string_from_chars(chars_between(&p, 0, 0).as_slice()));
    }
    if b.len() <= p.len() {
        let head = chars_between(&p, 0, b.len());
        if chars_equal(&head, &b) {
            if b.len() > 0 && b[b.len() - 1] == '/' {
                return Some(string_from_chars(chars_between(&p, b.len(), p.len()).as_slice()));
            }
            if b.len() < p.len() && p[b.len()] == '/' {
                return Some(string_from_chars(chars_between(&p, b.len() + 1, p.len()).as_slice()));
            }
        }
    }
    None
}

} // verus!
