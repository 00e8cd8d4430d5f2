//! Small utilities: picking a single item and turning names into RFC 1123 DNS labels.
use vstd::prelude::*;
use crate::text::{str_chars, string_from_chars, chars_between, ascii_lower_char};

verus! {

/// Returns `Ok(None)` for no item, `Ok(Some(item))` for exactly one item and gives the items
/// back as `Err` when there is more than one.
pub fn single_item<T>(items: Vec<T>) -> (r: Result<Option<T>, Vec<T>>)
    ensures
        items.len() == 0 ==> r == Ok::<Option<T>, Vec<T>>(None),
        items.len() == 1 ==> r == Ok::<Option<T>, Vec<T>>(Some(items@[0])),
        items.len() > 1 ==> (r matches Err(rest) && rest@ == items@),
{
    if items.len() == 0 {
        Ok(None)
    } else if items.len() == 1 {
        let mut items = items;
        let item = items.pop();
        Ok(item)
    } else {
        Err(items)
    }
}

/// The longest label that RFC 1035 (section 2.3.1) allows.
pub const MAX_LABEL_LEN: usize = 63;

/// Characters kept as they are in a label: ASCII lower-case letters and digits.
pub open spec fn is_label_char(c: char) -> bool {
    ('a' <= c <= 'z') || ('0' <= c <= '9')
}

/// Characters that separate words and become a hyphen in a label.
pub open spec fn is_separator(c: char) -> bool {
    c == '-' || c == '.' || c == '_' || c == ' '
}

/// The input lower-cased, with label characters kept, each run of separator characters
/// (possibly interrupted by discarded characters) turned into one hyphen, and every
/// other character discarded.
pub open spec fn sanitized(s: Seq<char>) -> Seq<char>
    decreases s.len(),
{
    if s.len() == 0 {
        Seq::empty()
    } else {
        let r = sanitized(s.drop_last());
        let c = ascii_lower_char(s.last());
        if is_label_char(c) {
            r.push(c)
        } else if is_separator(c) {
            if r.len() > 0 && r.last() == '-' {
                r
            } else {
                r.push('-')
            }
        } else {
            r
        }
    }
}

/// `s` without its leading hyphens.
pub open spec fn trim_leading_hyphens(s: Seq<char>) -> Seq<char>
    decreases s.len(),
{
    if s.len() > 0 && s[0] == '-' {
        trim_leading_hyphens(s.drop_first())
    } else {
        s
    }
}

/// `s` without its trailing hyphens.
pub open spec fn trim_trailing_hyphens(s: Seq<char>) -> Seq<char>
    decreases s.len(),
{
    if s.len() > 0 && s.last() == '-' {
        trim_trailing_hyphens(s.drop_last())
    } else {
        s
    }
}

/// The first `n` elements of `s`, or all of them when there are fewer.
pub open spec fn take_at_most<A>(s: Seq<A>, n: nat) -> Seq<A> {
    if s.len() <= n {
        s
    } else {
        s.take(n as int)
    }
}

/// The label made of `s`: sanitized, trimmed of hyphens at both ends, cut to 63
/// characters and trimmed of trailing hyphens again.
pub open spec fn rfc1123_label_of(s: Seq<char>) -> Seq<char> {
    trim_trailing_hyphens(
        take_at_most(trim_leading_hyphens(trim_trailing_hyphens(sanitized(s))), MAX_LABEL_LEN as nat),
    )
}

/// A valid RFC 1123 label: 1 to 63 characters out of `a-z`, `0-9` and `-`, neither starting
/// nor ending with a hyphen.
pub open spec fn is_rfc1123_label(l: Seq<char>) -> bool {
    &&& 1 <= l.len() <= MAX_LABEL_LEN
    &&& in_label_alphabet(l)
    &&& l[0] != '-'
    &&& l.last() != '-'
}

/// No two hyphens stand next to each other in `l`.
pub open spec fn no_double_hyphen(l: Seq<char>) -> bool {
    forall|i: int| 0 <= i < l.len() - 1 ==> !(#[trigger] l[i] == '-' && l[i + 1] == '-')
}

/// Every character of a label-alphabet sequence is a label character or a hyphen.
pub open spec fn in_label_alphabet(l: Seq<char>) -> bool {
    forall|i: int| 0 <= i < l.len() ==> is_label_char(#[trigger] l[i]) || l[i] == '-'
}

proof fn lemma_sanitized_shape(s: Seq<char>)
    ensures
        in_label_alphabet(sanitized(s)),
        no_double_hyphen(sanitized(s)),
    decreases s.len(),
{
    if s.len() > 0 {
        lemma_sanitized_shape(s.drop_last());
        let r = sanitized(s.drop_last());
        let out = sanitized(s);
        assert forall|i: int| 0 <= i < out.len() implies is_label_char(#[trigger] out[i]) || out[i]
            == '-' by {
            if i < r.len() {
                assert(out[i] == r[i]);
            }
        }
        assert forall|i: int| 0 <= i < out.len() - 1 implies !(#[trigger] out[i] == '-' && out[i
            + 1] == '-') by {
            if i + 1 < r.len() {
                assert(out[i] == r[i] && out[i + 1] == r[i + 1]);
            }
        }
    }
}

proof fn lemma_trim_trailing_shape(s: Seq<char>)
    ensures
        exists|k: int| 0 <= k <= s.len() && trim_trailing_hyphens(s) == #[trigger] s.take(k),
        trim_trailing_hyphens(s).len() > 0 ==> trim_trailing_hyphens(s).last() != '-',
    decreases s.len(),
{
    if s.len() > 0 && s.last() == '-' {
        lemma_trim_trailing_shape(s.drop_last());
        let k = choose|k: int|
            0 <= k <= s.drop_last().len() && trim_trailing_hyphens(s.drop_last())
                == #[trigger] s.drop_last().take(k);
        assert(s.drop_last().take(k) == s.take(k));
    } else {
        assert(s.take(s.len() as int) == s);
    }
}

proof fn lemma_trim_leading_shape(s: Seq<char>)
    ensures
        exists|k: int| 0 <= k <= s.len() && trim_leading_hyphens(s) == #[trigger] s.skip(k),
        trim_leading_hyphens(s).len() > 0 ==> trim_leading_hyphens(s)[0] != '-',
    decreases s.len(),
{
    if s.len() > 0 && s[0] == '-' {
        lemma_trim_leading_shape(s.drop_first());
        let k = choose|k: int|
            0 <= k <= s.drop_first().len() && trim_leading_hyphens(s.drop_first())
                == #[trigger] s.drop_first().skip(k);
        assert(s.drop_first().skip(k) == s.skip(k + 1));
    } else {
        assert(s.skip(0) == s);
    }
}

proof fn lemma_subrange_keeps_shape(s: Seq<char>, lo: int, hi: int)
    requires
        0 <= lo <= hi <= s.len(),
        in_label_alphabet(s),
        no_double_hyphen(s),
    ensures
        in_label_alphabet(s.subrange(lo, hi)),
        no_double_hyphen(s.subrange(lo, hi)),
{
    let t = s.subrange(lo, hi);
    assert forall|i: int| 0 <= i < t.len() implies is_label_char(#[trigger] t[i]) || t[i] == '-' by {
        assert(t[i] == s[lo + i]);
    }
    assert forall|i: int| 0 <= i < t.len() - 1 implies !(#[trigger] t[i] == '-' && t[i + 1] == '-') by {
        assert(t[i] == s[lo + i] && t[i + 1] == s[lo + i + 1]);
    }
}

/// Whatever the input, a non-empty result of `rfc1123_label_of` is a valid RFC 1123 label
/// and holds no two adjacent hyphens.
pub proof fn lemma_label_is_valid(s: Seq<char>)
    ensures
        rfc1123_label_of(s).len() > 0 ==> is_rfc1123_label(rfc1123_label_of(s)),
        no_double_hyphen(rfc1123_label_of(s)),
        in_label_alphabet(rfc1123_label_of(s)),
{
    let a = sanitized(s);
    lemma_sanitized_shape(s);
    let b = trim_trailing_hyphens(a);
    lemma_trim_trailing_shape(a);
    let kb = choose|k: int| 0 <= k <= a.len() && b == #[trigger] a.take(k);
    lemma_subrange_keeps_shape(a, 0, kb);
    assert(a.take(kb) == a.subrange(0, kb));
    let c = trim_leading_hyphens(b);
    lemma_trim_leading_shape(b);
    let kc = choose|k: int| 0 <= k <= b.len() && c == #[trigger] b.skip(k);
    lemma_subrange_keeps_shape(b, kc, b.len() as int);
    assert(b.skip(kc) == b.subrange(kc, b.len() as int));
    let d = take_at_most(c, MAX_LABEL_LEN as nat);
    lemma_subrange_keeps_shape(c, 0, d.len() as int);
    assert(d == c.subrange(0, d.len() as int));
    let e = trim_trailing_hyphens(d);
    lemma_trim_trailing_shape(d);
    let ke = choose|k: int| 0 <= k <= d.len() && e == #[trigger] d.take(k);
    lemma_subrange_keeps_shape(d, 0, ke);
    assert(d.take(ke) == d.subrange(0, ke));
    if e.len() > 0 {
        if c.len() > 0 {
            assert(d[0] == c[0]);
        }
        assert(e[0] == d[0]);
    }
}

proof fn lemma_sanitized_of_label(l: Seq<char>)
    requires
        in_label_alphabet(l),
        no_double_hyphen(l),
        l.len() > 0 ==> l[0] != '-',
    ensures
        sanitized(l) == l,
    decreases l.len(),
{
    if l.len() > 0 {
        let p = l.drop_last();
        lemma_subrange_keeps_shape(l, 0, l.len() - 1);
        assert(p == l.subrange(0, l.len() - 1));
        if p.len() > 0 {
            assert(p[0] == l[0]);
        }
        lemma_sanitized_of_label(p);
        assert(is_label_char(l.last()) || l.last() == '-');
        if l.last() == '-' && p.len() > 0 {
            assert(l[l.len() - 2] == p.last());
        }
        assert(p.push(l.last()) == l);
    }
}

/// Applying `to_rfc1123_label` to its own result changes nothing: the label of a label is
/// the label itself.
pub proof fn lemma_label_idempotent(s: Seq<char>)
    ensures
        rfc1123_label_of(s).len() > 0 ==> rfc1123_label_of(rfc1123_label_of(s))
            == rfc1123_label_of(s),
{
    let l = rfc1123_label_of(s);
    lemma_label_is_valid(s);
    if l.len() > 0 {
        lemma_sanitized_of_label(l);
        assert(trim_trailing_hyphens(l) == l);
        assert(trim_leading_hyphens(l) == l);
        assert(take_at_most(l, MAX_LABEL_LEN as nat) == l);
    }
}

/// An ASCII letter or digit.
pub open spec fn is_ascii_alphanumeric(c: char) -> bool {
    ('a' <= c <= 'z') || ('A' <= c <= 'Z') || ('0' <= c <= '9')
}

/// Some character of `s` is a label character.
pub open spec fn holds_label_char(s: Seq<char>) -> bool {
    exists|i: int| 0 <= i < s.len() && is_label_char(#[trigger] s[i])
}

proof fn lemma_sanitized_label_chars(s: Seq<char>)
    ensures
        holds_label_char(sanitized(s)) <==> exists|i: int|
            0 <= i < s.len() && is_ascii_alphanumeric(#[trigger] s[i]),
    decreases s.len(),
{
    if s.len() > 0 {
        let p = s.drop_last();
        lemma_sanitized_label_chars(p);
        let r = sanitized(p);
        let out = sanitized(s);
        let c = ascii_lower_char(s.last());
        assert(is_label_char(c) <==> is_ascii_alphanumeric(s.last()));
        if holds_label_char(out) {
            let k = choose|k: int| 0 <= k < out.len() && is_label_char(#[trigger] out[k]);
            if k < r.len() {
                assert(out[k] == r[k]);
                assert(holds_label_char(r));
                let j = choose|j: int| 0 <= j < p.len() && is_ascii_alphanumeric(#[trigger] p[j]);
                assert(s[j] == p[j]);
            } else {
                assert(is_ascii_alphanumeric(s[s.len() - 1]));
            }
        }
        if exists|i: int| 0 <= i < s.len() && is_ascii_alphanumeric(#[trigger] s[i]) {
            let j = choose|j: int| 0 <= j < s.len() && is_ascii_alphanumeric(#[trigger] s[j]);
            if j < s.len() - 1 {
                assert(p[j] == s[j]);
                assert(holds_label_char(r));
                let k = choose|k: int| 0 <= k < r.len() && is_label_char(#[trigger] r[k]);
                assert(out[k] == r[k]);
            } else {
                assert(out[out.len() - 1] == c);
            }
        }
    }
}

proof fn lemma_hyphens_only_trim_to_nothing(s: Seq<char>)
    requires
        forall|i: int| 0 <= i < s.len() ==> s[i] == '-',
    ensures
        trim_trailing_hyphens(s).len() == 0,
    decreases s.len(),
{
    if s.len() > 0 {
        lemma_hyphens_only_trim_to_nothing(s.drop_last());
    }
}

proof fn lemma_trim_trailing_keeps_start(s: Seq<char>)
    requires
        s.len() > 0,
        s[0] != '-',
    ensures
        trim_trailing_hyphens(s).len() > 0,
    decreases s.len(),
{
    if s.last() == '-' {
        lemma_trim_trailing_keeps_start(s.drop_last());
    }
}

proof fn lemma_trailing_part_is_hyphens(s: Seq<char>)
    ensures
        trim_trailing_hyphens(s).len() <= s.len(),
        trim_trailing_hyphens(s) == s.take(trim_trailing_hyphens(s).len() as int),
        forall|i: int| trim_trailing_hyphens(s).len() <= i < s.len() ==> s[i] == '-',
    decreases s.len(),
{
    if s.len() > 0 && s.last() == '-' {
        lemma_trailing_part_is_hyphens(s.drop_last());
        assert(trim_trailing_hyphens(s) == trim_trailing_hyphens(s.drop_last()));
        let n = trim_trailing_hyphens(s).len() as int;
        assert(s.drop_last().take(n) =~= s.take(n));
        assert forall|i: int| n <= i < s.len() implies s[i] == '-' by {
            if i < s.len() - 1 {
                assert(s.drop_last()[i] == s[i]);
            }
        }
    } else {
        assert(s.take(s.len() as int) == s);
    }
}

proof fn lemma_leading_part_is_hyphens(s: Seq<char>)
    ensures
        trim_leading_hyphens(s).len() <= s.len(),
        trim_leading_hyphens(s) == s.skip(s.len() - trim_leading_hyphens(s).len()),
        forall|i: int| 0 <= i < s.len() - trim_leading_hyphens(s).len() ==> s[i] == '-',
        trim_leading_hyphens(s).len() > 0 ==> trim_leading_hyphens(s)[0] != '-',
    decreases s.len(),
{
    if s.len() > 0 && s[0] == '-' {
        lemma_leading_part_is_hyphens(s.drop_first());
        assert(trim_leading_hyphens(s) == trim_leading_hyphens(s.drop_first()));
        let m = s.len() - trim_leading_hyphens(s).len();
        assert(s.drop_first().skip(m - 1) =~= s.skip(m));
        assert forall|i: int| 0 <= i < m implies s[i] == '-' by {
            if i > 0 {
                assert(s.drop_first()[i - 1] == s[i]);
            }
        }
    } else {
        assert(s.skip(0) == s);
    }
}

/// `to_rfc1123_label` fails exactly when the input holds no ASCII letter or digit.
pub proof fn lemma_label_empty_iff_no_alphanumeric(s: Seq<char>)
    ensures
        rfc1123_label_of(s).len() == 0 <==> !exists|i: int|
            0 <= i < s.len() && is_ascii_alphanumeric(#[trigger] s[i]),
{
    let a = sanitized(s);
    lemma_sanitized_shape(s);
    lemma_sanitized_label_chars(s);
    let b = trim_trailing_hyphens(a);
    lemma_trailing_part_is_hyphens(a);
    let c = trim_leading_hyphens(b);
    lemma_leading_part_is_hyphens(b);
    let d = take_at_most(c, MAX_LABEL_LEN as nat);
    if holds_label_char(a) {
        let k = choose|k: int| 0 <= k < a.len() && is_label_char(#[trigger] a[k]);
        assert(k < b.len());
        assert(a.take(b.len() as int)[k] == a[k]);
        assert(b[k] == a[k]);
        assert(k >= b.len() - c.len());
        assert(c.len() > 0);
        assert(d[0] == c[0]);
        lemma_trim_trailing_keeps_start(d);
    } else {
        assert forall|i: int| 0 <= i < a.len() implies a[i] == '-' by {
            assert(is_label_char(a[i]) || a[i] == '-');
        }
        lemma_hyphens_only_trim_to_nothing(a);
        assert(c.len() == 0);
        assert(d.len() == 0);
    }
}

fn lower_ascii_char(c: char) -> (r: char)
    ensures
        r == ascii_lower_char(c),
{
    if 'A' <= c && c <= 'Z' {
        let b = c as u8;
        assert(b == c as int);
        ((b + 32) as u8) as char
    } else {
        c
    }
}

/// Converts an arbitrary string into an RFC 1123-compliant DNS label: lower-cases it, keeps
/// ASCII letters and digits, turns `-`, `.`, `_` and space into hyphens (collapsing repeats),
/// discards other characters, trims hyphens at both ends and cuts the label to 63
/// characters. Fails when nothing is left.
pub fn to_rfc1123_label(input: &str) -> (r: Result<String, ()>)
    ensures
        match r {
            Ok(label) => label@ == rfc1123_label_of(input@) && label@.len() > 0,
            Err(_) => rfc1123_label_of(input@).len() == 0,
        },
{
    let chars = str_chars(input);
    let mut label: Vec<char> = Vec::new();
    let mut previous_char_was_hyphen = false;
    let mut i: usize = 0;
    while i < chars.len()
        invariant
            i <= chars.len(),
            label@ == sanitized(chars@.take(i as int)),
            previous_char_was_hyphen == (label@.len() > 0 && label@.last() == '-'),
        decreases chars.len() - i,
    {
        let c = lower_ascii_char(chars[i]);
        assert(chars@.take(i + 1).drop_last() == chars@.take(i as int));
        if ('a' <= c && c <= 'z') || ('0' <= c && c <= '9') {
            label.push(c);
            previous_char_was_hyphen = false;
        } else if c == '-' || c == '.' || c == '_' || c == ' ' {
            if !previous_char_was_hyphen {
                label.push('-');
                previous_char_was_hyphen = true;
            }
        }
        i += 1;
    }
    assert(chars@.take(chars.len() as int) == chars@);
    proof {
        assert(chars@ == input@);
    }
    // Trim hyphens at the end, then at the start.
    let mut end = label.len();
    assert(label@.take(end as int) == label@);
    while end > 0 && label[end - 1] == '-'
        invariant
            end <= label.len(),
            trim_trailing_hyphens(label@) == trim_trailing_hyphens(label@.take(end as int)),
        decreases end,
    {
        assert(label@.take(end as int).drop_last() == label@.take(end - 1));
        end -= 1;
    }
    let ghost trimmed_end = label@.take(end as int);
    let mut start: usize = 0;
    while start < end && label[start] == '-'
        invariant
            start <= end <= label.len(),
            trim_trailing_hyphens(label@) == trimmed_end,
            trimmed_end == label@.take(end as int),
            trim_leading_hyphens(trimmed_end) == trim_leading_hyphens(
                label@.subrange(start as int, end as int),
            ),
        decreases end - start,
    {
        assert(label@.subrange(start as int, end as int).drop_first() == label@.subrange(
            start + 1,
            end as int,
        ));
        start += 1;
    }
    assert(trim_leading_hyphens(label@.subrange(start as int, end as int)) == label@.subrange(
        start as int,
        end as int,
    ));
    // Cut to the maximum length.
    let mut stop = end;
    if end - start > MAX_LABEL_LEN {
        stop = start + MAX_LABEL_LEN;
    }
    assert(take_at_most(label@.subrange(start as int, end as int), MAX_LABEL_LEN as nat)
        == label@.subrange(start as int, stop as int));
    // Trim the hyphens that the cut left at the end.
    let mut last = stop;
    while last > start && label[last - 1] == '-'
        invariant
            start <= last <= stop <= label.len(),
            trim_trailing_hyphens(label@.subrange(start as int, stop as int))
                == trim_trailing_hyphens(label@.subrange(start as int, last as int)),
        decreases last,
    {
        assert(label@.subrange(start as int, last as int).drop_last() == label@.subrange(
            start as int,
            last - 1,
        ));
        last -= 1;
    }
    assert(trim_trailing_hyphens(label@.subrange(start as int, last as int)) == label@.subrange(
        start as int,
        last as int,
    ));
    let kept = chars_between(&label, start, last);
    if kept.len() == 0 {
        Err(())
    } else {
        Ok(string_from_chars(kept.as_slice()))
    }
}

} // verus!
