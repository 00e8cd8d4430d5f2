//! The text format of Visual Studio solution (`.sln`) files: splitting the contents into
//! lines and reading the project path out of each `Project(...)` line.
//!
//! A project line holds, anywhere in the line, the pattern
//! `Project("{TYPE}") = "NAME", "PATH", "{GUID}"`, where `TYPE` and `GUID` are non-empty and
//! hold no `}`, `NAME` is non-empty and holds no `"`, and `PATH` holds no `"` and has a `.`
//! with at least one character on each side. The leftmost such occurrence counts. Solution
//! folders (whose `PATH` has no extension) are thereby left out.
use vstd::prelude::*;
use crate::text::{str_chars, string_from_chars, chars_between};

verus! {

/// The lines of `s` as `str::lines` splits them: at each `\n`, dropping one `\r` that
/// precedes it, with no final empty line after a trailing `\n`.
pub open spec fn spec_lines(s: Seq<char>) -> Seq<Seq<char>>
    decreases s.len(),
{
    if s.len() == 0 {
        Seq::empty()
    } else {
        let n = first_index_from(s, 0, '\n');
        proof {
            lemma_first_index_from_bounds(s, 0, '\n');
        }
        if n >= s.len() {
            seq![s]
        } else {
            seq![strip_cr(s.take(n))] + spec_lines(s.skip(n + 1))
        }
    }
}

/// `line` without one trailing carriage return.
pub open spec fn strip_cr(line: Seq<char>) -> Seq<char> {
    if line.len() > 0 && line.last() == '\r' {
        line.drop_last()
    } else {
        line
    }
}

/// The smallest index `j >= i` with `s[j] == c`, or `s.len()` when there is none.
pub open spec fn first_index_from(s: Seq<char>, i: int, c: char) -> int
    decreases s.len() - i,
{
    if i < 0 || i >= s.len() {
        s.len() as int
    } else if s[i] == c {
        i
    } else {
        first_index_from(s, i + 1, c)
    }
}

/// `lit` occurs in `s` at index `i`.
pub open spec fn lit_at(s: Seq<char>, i: int, lit: Seq<char>) -> bool {
    0 <= i && i + lit.len() <= s.len() && s.subrange(i, i + lit.len()) =~= lit
}

/// `g` has a `.` with at least one character before and after it.
pub open spec fn has_inner_dot(g: Seq<char>) -> bool {
    exists|d: int| 1 <= d <= g.len() - 2 && g[d] == '.'
}

/// `Project("{`
pub open spec fn lit_open() -> Seq<char> {
    seq!['P', 'r', 'o', 'j', 'e', 'c', 't', '(', '"', '{']
}

/// `}") = "`
pub open spec fn lit_after_type() -> Seq<char> {
    seq!['}', '"', ')', ' ', '=', ' ', '"']
}

/// `", "`
pub open spec fn lit_after_name() -> Seq<char> {
    seq!['"', ',', ' ', '"']
}

/// `", "{`
pub open spec fn lit_after_path() -> Seq<char> {
    seq!['"', ',', ' ', '"', '{']
}

/// `}"`
pub open spec fn lit_close() -> Seq<char> {
    seq!['}', '"']
}

/// The project path captured by a project-line pattern that starts at index `i` of `s`.
pub open spec fn match_at(s: Seq<char>, i: int) -> Option<Seq<char>> {
    let p2 = i + 10;
    let e2 = first_index_from(s, p2, '}');
    let p4 = e2 + 7;
    let e4 = first_index_from(s, p4, '"');
    let p6 = e4 + 4;
    let e6 = first_index_from(s, p6, '"');
    let p8 = e6 + 5;
    let e8 = first_index_from(s, p8, '}');
    if lit_at(s, i, lit_open()) && p2 < e2 && lit_at(s, e2, lit_after_type()) && p4 < e4
        && lit_at(s, e4, lit_after_name()) && e6 < s.len() && has_inner_dot(s.subrange(p6, e6))
        && lit_at(s, e6, lit_after_path()) && p8 < e8 && lit_at(s, e8, lit_close()) {
        Some(s.subrange(p6, e6))
    } else {
        None
    }
}

/// The project path of the leftmost match starting at index `i` or later.
pub open spec fn first_match_from(s: Seq<char>, i: int) -> Option<Seq<char>>
    decreases s.len() - i,
{
    if i < 0 || i >= s.len() {
        None
    } else {
        match match_at(s, i) {
            Some(g) => Some(g),
            None => first_match_from(s, i + 1),
        }
    }
}

/// `s` with every backslash turned into a forward slash.
pub open spec fn forward_slashes(s: Seq<char>) -> Seq<char> {
    s.map_values(|c: char| if c == '\\' { '/' } else { c })
}

/// The project paths of the project lines among `lines`, in order, with forward slashes.
pub open spec fn project_paths_of_lines(lines: Seq<Seq<char>>) -> Seq<Seq<char>>
    decreases lines.len(),
{
    if lines.len() == 0 {
        Seq::empty()
    } else {
        let rest = project_paths_of_lines(lines.drop_first());
        match first_match_from(lines[0], 0) {
            Some(g) => seq![forward_slashes(g)] + rest,
            None => rest,
        }
    }
}

/// The project paths referenced by the solution file contents `s`.
pub open spec fn solution_project_paths(s: Seq<char>) -> Seq<Seq<char>> {
    project_paths_of_lines(spec_lines(s))
}

pub proof fn lemma_first_index_from_bounds(s: Seq<char>, i: int, c: char)
    requires
        0 <= i,
    ensures
        i <= first_index_from(s, i, c) <= s.len() || (i > s.len() && first_index_from(s, i, c) == s.len()),
        first_index_from(s, i, c) < s.len() ==> s[first_index_from(s, i, c)] == c,
        forall|j: int| i <= j < first_index_from(s, i, c) ==> s[j] != c,
    decreases s.len() - i,
{
    if i < s.len() && s[i] != c {
        lemma_first_index_from_bounds(s, i + 1, c);
    }
}

/// The smallest index `j >= i` of `c` in `s`, or `s.len()`.
pub fn find_from(s: &Vec<char>, i: usize, c: char) -> (r: usize)
    requires
        i <= s.len(),
    ensures
        r as int == first_index_from(s@, i as int, c),
        i <= r <= s.len(),
{
    let mut j = i;
    while j < s.len() && s[j] != c
        invariant
            i <= j <= s.len(),
            first_index_from(s@, i as int, c) == first_index_from(s@, j as int, c),
        decreases s.len() - j,
    {
        j += 1;
    }
    proof {
        lemma_first_index_from_bounds(s@, i as int, c);
    }
    j
}

fn lit_at_exec(s: &Vec<char>, i: usize, lit: &Vec<char>) -> (r: bool)
    ensures
        r == lit_at(s@, i as int, lit@),
{
    if i > s.len() || lit.len() > s.len() - i {
        return false;
    }
    let mut k: usize = 0;
    while k < lit.len()
        invariant
            i + lit.len() <= s.len(),
            k <= lit.len(),
            forall|m: int| 0 <= m < k ==> s@[i + m] == lit@[m],
        decreases lit.len() - k,
    {
        if s[i + k] != lit[k] {
            assert(s@.subrange(i as int, i + lit.len())[k as int] != lit@[k as int]);
            return false;
        }
        k += 1;
    }
    assert(s@.subrange(i as int, i + lit.len()) =~= lit@);
    true
}

fn has_inner_dot_exec(s: &Vec<char>, lo: usize, hi: usize) -> (r: bool)
    requires
        lo <= hi <= s.len(),
    ensures
        r == has_inner_dot(s@.subrange(lo as int, hi as int)),
{
    let ghost g = s@.subrange(lo as int, hi as int);
    if hi - lo < 3 {
        return false;
    }
    let mut d = lo + 1;
    while d + 1 < hi
        invariant
            lo <= hi <= s.len(),
            hi - lo >= 3,
            lo + 1 <= d <= hi - 1,
            g == s@.subrange(lo as int, hi as int),
            forall|e: int| 1 <= e < d - lo ==> g[e] != '.',
        decreases hi - d,
    {
        if s[d] == '.' {
            assert(g[d - lo] == '.');
            return true;
        }
        d += 1;
    }
    false
}

struct ProjectLineLiterals {
    open: Vec<char>,
    after_type: Vec<char>,
    after_name: Vec<char>,
    after_path: Vec<char>,
    close: Vec<char>,
}

impl ProjectLineLiterals {
    spec fn wf(&self) -> bool {
        &&& self.open@ == lit_open()
        &&& self.after_type@ == lit_after_type()
        &&& self.after_name@ == lit_after_name()
        &&& self.after_path@ == lit_after_path()
        &&& self.close@ == lit_close()
    }

    fn new() -> (r: Self)
        ensures
            r.wf(),
    {
        let r = ProjectLineLiterals {
            open: vec!['P', 'r', 'o', 'j', 'e', 'c', 't', '(', '"', '{'],
            after_type: vec!['}', '"', ')', ' ', '=', ' ', '"'],
            after_name: vec!['"', ',', ' ', '"'],
            after_path: vec!['"', ',', ' ', '"', '{'],
            close: vec!['}', '"'],
        };
        assert(r.open@ =~= lit_open());
        assert(r.after_type@ =~= lit_after_type());
        assert(r.after_name@ =~= lit_after_name());
        assert(r.after_path@ =~= lit_after_path());
        assert(r.close@ =~= lit_close());
        r
    }
}

fn match_at_exec(s: &Vec<char>, i: usize, lits: &ProjectLineLiterals) -> (r: Option<Vec<char>>)
    requires
        lits.wf(),
        i < s.len(),
    ensures
        match r {
            Some(g) => match_at(s@, i as int) == Some(g@),
            None => match_at(s@, i as int) is None,
        },
{
    if !lit_at_exec(s, i, &lits.open) {
        return None;
    }
    let p2 = i + 10;
    let e2 = find_from(s, p2, '}');
    if !(p2 < e2) || !lit_at_exec(s, e2, &lits.after_type) {
        return None;
    }
    let p4 = e2 + 7;
    let e4 = find_from(s, p4, '"');
    if !(p4 < e4) || !lit_at_exec(s, e4, &lits.after_name) {
        return None;
    }
    let p6 = e4 + 4;
    let e6 = find_from(s, p6, '"');
    if !(e6 < s.len()) || !has_inner_dot_exec(s, p6, e6) || !lit_at_exec(s, e6, &lits.after_path) {
        return None;
    }
    let p8 = e6 + 5;
    let e8 = find_from(s, p8, '}');
    if !(p8 < e8) || !lit_at_exec(s, e8, &lits.close) {
        return None;
    }
    Some(chars_between(s, p6, e6))
}

fn first_match_exec(s: &Vec<char>, lits: &ProjectLineLiterals) -> (r: Option<Vec<char>>)
    requires
        lits.wf(),
    ensures
        match r {
            Some(g) => first_match_from(s@, 0) == Some(g@),
            None => first_match_from(s@, 0) is None,
        },
{
    let mut i: usize = 0;
    while i < s.len()
        invariant
            lits.wf(),
            i <= s.len(),
            first_match_from(s@, 0) == first_match_from(s@, i as int),
        decreases s.len() - i,
    {
        match match_at_exec(s, i, lits) {
            Some(g) => {
                return Some(g);
            },
            None => {},
        }
        i += 1;
    }
    None
}

fn forward_slashes_exec(g: &Vec<char>) -> (r: Vec<char>)
    ensures
        r@ == forward_slashes(g@),
{
    let mut r: Vec<char> = Vec::new();
    let mut i: usize = 0;
    while i < g.len()
        invariant
            i <= g.len(),
            r@ =~= forward_slashes(g@.take(i as int)),
        decreases g.len() - i,
    {
        if g[i] == '\\' {
            r.push('/');
        } else {
            r.push(g[i]);
        }
        i += 1;
    }
    assert(g@.take(g.len() as int) == g@);
    r
}

/// The views of a list of strings.
pub open spec fn views(v: Seq<String>) -> Seq<Seq<char>> {
    v.map_values(|s: String| s@)
}

/// Extracts the project paths of a solution file's contents, one per project line, in the
/// order of the lines, with backslashes turned into forward slashes.
pub fn extract_project_references(contents: &str) -> (r: Vec<String>)
    ensures
        views(r@) == solution_project_paths(contents@),
{
    let s = str_chars(contents);
    let lits = ProjectLineLiterals::new();
    let mut out: Vec<String> = Vec::new();
    let mut start: usize = 0;
    assert(s@.skip(0) =~= s@);
    assert(views(out@) =~= Seq::<Seq<char>>::empty());
    while start < s.len()
        invariant
            lits.wf(),
            start <= s.len(),
            solution_project_paths(s@) == views(out@) + project_paths_of_lines(
                spec_lines(s@.skip(start as int)),
            ),
        decreases s.len() - start,
    {
        let ghost rest = s@.skip(start as int);
        let nl = find_from(&s, start, '\n');
        proof {
            lemma_first_index_shift(s@, start as int, 0, '\n');
        }
        let mut end = nl;
        if end > start && s[end - 1] == '\r' && nl < s.len() {
            end = end - 1;
        }
        let line = chars_between(&s, start, end);
        let ghost tail_lines = spec_lines(rest);
        assert(tail_lines.len() > 0 && tail_lines[0] == line@) by {
            if nl < s.len() {
                assert(rest.take(nl - start) =~= s@.subrange(start as int, nl as int));
            } else {
                assert(rest =~= s@.subrange(start as int, s.len() as int));
            }
        }
        let found = first_match_exec(&line, &lits);
        let ghost before = views(out@);
        match found {
            Some(g) => {
                let fixed = forward_slashes_exec(&g);
                out.push(string_from_chars(fixed.as_slice()));
                assert(views(out@) =~= before + seq![forward_slashes(g@)]);
            },
            None => {},
        }
        if nl < s.len() {
            assert(s@.skip(nl + 1) =~= rest.skip(nl - start + 1));
            assert(tail_lines == seq![line@] + spec_lines(s@.skip(nl + 1)));
            assert(tail_lines.drop_first() =~= spec_lines(s@.skip(nl + 1)));
            start = nl + 1;
        } else {
            assert(tail_lines =~= seq![line@]);
            assert(tail_lines.drop_first() =~= Seq::<Seq<char>>::empty());
            assert(s@.skip(s.len() as int) =~= Seq::<char>::empty());
            start = s.len();
        }
    }
    assert(s@.skip(s.len() as int) =~= Seq::<char>::empty());
    out
}

/// The views of a list of character vectors.
pub open spec fn char_views(v: Seq<Vec<char>>) -> Seq<Seq<char>> {
    v.map_values(|l: Vec<char>| l@)
}

/// The lines of `s` (see [`spec_lines`]).
pub fn lines_of(s: &Vec<char>) -> (r: Vec<Vec<char>>)
    ensures
        char_views(r@) == spec_lines(s@),
{
    let mut out: Vec<Vec<char>> = Vec::new();
    let mut start: usize = 0;
    assert(s@.skip(0) =~= s@);
    assert(char_views(out@) =~= Seq::<Seq<char>>::empty());
    while start < s.len()
        invariant
            start <= s.len(),
            spec_lines(s@) == char_views(out@) + spec_lines(s@.skip(start as int)),
        decreases s.len() - start,
    {
        let ghost rest = s@.skip(start as int);
        let nl = find_from(s, start, '\n');
        proof {
            lemma_first_index_shift(s@, start as int, 0, '\n');
        }
        let mut end = nl;
        if end > start && s[end - 1] == '\r' && nl < s.len() {
            end = end - 1;
        }
        let line = chars_between(s, start, end);
        let ghost tail_lines = spec_lines(rest);
        assert(tail_lines.len() > 0 && tail_lines[0] == line@) by {
            if nl < s.len() {
                assert(rest.take(nl - start) =~= s@.subrange(start as int, nl as int));
            } else {
                assert(rest =~= s@.subrange(start as int, s.len() as int));
            }
        }
        let ghost before = char_views(out@);
        out.push(line);
        assert(char_views(out@) =~= before + seq![line@]);
        if nl < s.len() {
            assert(s@.skip(nl + 1) =~= rest.skip(nl - start + 1));
            assert(tail_lines == seq![line@] + spec_lines(s@.skip(nl + 1)));
            start = nl + 1;
        } else {
            assert(tail_lines =~= seq![line@]);
            assert(s@.skip(s.len() as int) =~= Seq::<char>::empty());
            start = s.len();
        }
    }
    assert(s@.skip(s.len() as int) =~= Seq::<char>::empty());
    out
}

proof fn lemma_first_index_shift(s: Seq<char>, start: int, k: int, c: char)
    requires
        0 <= start <= s.len(),
        0 <= k,
    ensures
        first_index_from(s.skip(start), k, c) + start == first_index_from(s, start + k, c),
    decreases s.len() - start - k,
{
    if k < s.len() - start {
        assert(s.skip(start)[k] == s[start + k]);
        if s[start + k] != c {
            lemma_first_index_shift(s, start, k + 1, c);
        }
    }
}

} // verus!
