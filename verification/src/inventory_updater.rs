//! The texts that the inventory updater writes when new .NET SDK releases appear: which
//! artifacts were added or removed, the changelog entry and the release announcement.
use vstd::prelude::*;
use vstd::std_specs::cmp::PartialEqSpec;
use crate::app_source::string_views;
use crate::text::{push_str, string_from_chars, str_to_string};
use crate::versions::{decimal, push_decimal};

verus! {

/// Some element of `b` equals `x`.
pub open spec fn occurs_in<T: PartialEq>(x: T, b: Seq<T>) -> bool {
    exists|j: int| 0 <= j < b.len() && (#[trigger] b[j]).eq_spec(&x)
}

/// The elements of `a` that do not occur in `b`, in their order in `a`.
pub open spec fn missing_from<T: PartialEq>(a: Seq<T>, b: Seq<T>) -> Seq<T>
    decreases a.len(),
{
    if a.len() == 0 {
        Seq::empty()
    } else if occurs_in(a.last(), b) {
        missing_from(a.drop_last(), b)
    } else {
        missing_from(a.drop_last(), b).push(a.last())
    }
}

fn contains<T: PartialEq>(b: &[T], x: &T) -> (r: bool)
    requires
        T::obeys_eq_spec(),
    ensures
        r == occurs_in(*x, b@),
{
    let mut j: usize = 0;
    while j < b.len()
        invariant
            j <= b@.len(),
            T::obeys_eq_spec(),
            forall|k: int| 0 <= k < j ==> !(#[trigger] b@[k]).eq_spec(x),
        decreases b@.len() - j,
    {
        if b[j] == *x {
            return true;
        }
        j += 1;
    }
    false
}

/// The elements of `a` that do not occur in `b` (compared with `==`), in their order in `a`.
pub fn difference<'a, T: PartialEq>(a: &'a [T], b: &'a [T]) -> (r: Vec<&'a T>)
    requires
        T::obeys_eq_spec(),
    ensures
        r@.map_values(|x: &T| *x) == missing_from(a@, b@),
{
    let mut r: Vec<&'a T> = Vec::new();
    let mut i: usize = 0;
    while i < a.len()
        invariant
            i <= a@.len(),
            T::obeys_eq_spec(),
            r@.map_values(|x: &T| *x) == missing_from(a@.take(i as int), b@),
        decreases a@.len() - i,
    {
        assert(a@.take(i + 1).drop_last() =~= a@.take(i as int));
        assert(a@.take(i + 1).last() == a@[i as int]);
        let x = &a[i];
        if !contains(b, x) {
            r.push(x);
            assert(r@.map_values(|x: &T| *x) =~= missing_from(a@.take(i as int), b@).push(a@[i as int]));
        }
        i += 1;
    }
    assert(a@.take(a@.len() as int) =~= a@);
    r
}

/// The texts each wrapped in `wrap`, joined into a list: `a`, `a and b`, `a, b and c`.
pub open spec fn version_list(versions: Seq<Seq<char>>, wrap: Seq<char>) -> Seq<char>
    decreases versions.len(),
{
    if versions.len() == 0 {
        Seq::empty()
    } else if versions.len() == 1 {
        wrap + versions[0] + wrap
    } else if versions.len() == 2 {
        wrap + versions[0] + wrap + " and "@ + wrap + versions[1] + wrap
    } else {
        comma_list(versions.drop_last(), wrap) + " and "@ + wrap + versions.last() + wrap
    }
}

/// The texts each wrapped in `wrap`, separated by `, `.
pub open spec fn comma_list(versions: Seq<Seq<char>>, wrap: Seq<char>) -> Seq<char>
    decreases versions.len(),
{
    if versions.len() == 0 {
        Seq::empty()
    } else if versions.len() == 1 {
        wrap + versions[0] + wrap
    } else {
        comma_list(versions.drop_last(), wrap) + ", "@ + wrap + versions.last() + wrap
    }
}

/// How lists of versions read: one version alone; two joined by ` and `; more with `, `
/// between all but the last two and ` and ` before the last; each version wrapped in `wrap`;
/// and adding a version to a comma list appends `, ` and the wrapped version.
pub proof fn lemma_version_list_reads_as_a_sentence(versions: Seq<Seq<char>>, v: Seq<char>, w: Seq<char>, wrap: Seq<char>)
    ensures
        version_list(Seq::empty(), wrap) == Seq::<char>::empty(),
        version_list(seq![v], wrap) == wrap + v + wrap,
        version_list(seq![v, w], wrap) == wrap + v + wrap + " and "@ + wrap + w + wrap,
        versions.len() >= 2 ==> version_list(versions.push(v), wrap) == comma_list(versions, wrap) + " and "@
            + wrap + v + wrap,
        versions.len() >= 1 ==> comma_list(versions.push(v), wrap) == comma_list(versions, wrap) + ", "@ + wrap
            + v + wrap,
        comma_list(seq![v], wrap) == wrap + v + wrap,
{
    let vp = versions.push(v);
    assert(vp.drop_last() =~= versions);
    assert(vp.last() == v);
    assert(seq![v, w][0] == v && seq![v, w][1] == w);
}

fn push_wrapped(t: &mut Vec<char>, wrap: &str, v: &str)
    ensures
        final(t)@ == old(t)@ + wrap@ + v@ + wrap@,
{
    push_str(t, wrap);
    push_str(t, v);
    push_str(t, wrap);
    assert(t@ =~= old(t)@ + wrap@ + v@ + wrap@);
}

/// Joins versions into a list, each wrapped in `wrap` (see [`version_list`]).
pub fn format_version_list(versions: &[String], wrap: &str) -> (r: String)
    ensures
        r@ == version_list(string_views(versions@), wrap@),
{
    let ghost vs = string_views(versions@);
    let n = versions.len();
    let mut t: Vec<char> = Vec::new();
    if n == 0 {
        return string_from_chars(t.as_slice());
    }
    if n == 1 {
        push_wrapped(&mut t, wrap, versions[0].as_str());
        assert(t@ =~= version_list(vs, wrap@));
        return string_from_chars(t.as_slice());
    }
    if n == 2 {
        push_wrapped(&mut t, wrap, versions[0].as_str());
        push_str(&mut t, " and ");
        push_wrapped(&mut t, wrap, versions[1].as_str());
        assert(t@ =~= version_list(vs, wrap@));
        return string_from_chars(t.as_slice());
    }
    let mut i: usize = 0;
    while i < n - 1
        invariant
            n == versions@.len(),
            n >= 3,
            i <= n - 1,
            vs == string_views(versions@),
            t@ == comma_list(vs.take(i as int), wrap@),
        decreases n - 1 - i,
    {
        assert(vs.take(i + 1).drop_last() =~= vs.take(i as int));
        assert(vs.take(i + 1).last() == versions@[i as int]@);
        if i > 0 {
            push_str(&mut t, ", ");
        } else {
            assert(vs.take(0) =~= Seq::<Seq<char>>::empty());
        }
        push_wrapped(&mut t, wrap, versions[i].as_str());
        assert(t@ =~= comma_list(vs.take(i + 1), wrap@));
        i += 1;
    }
    assert(vs.drop_last() =~= vs.take(n - 1));
    push_str(&mut t, " and ");
    push_wrapped(&mut t, wrap, versions[n - 1].as_str());
    assert(t@ =~= version_list(vs, wrap@));
    string_from_chars(t.as_slice())
}

/// The changelog entry for SDK versions (sorted and without repeats): `Support for .NET SDK
/// versions: ` and the versions separated by `, `, then `.`; none for no versions.
pub open spec fn changelog_entry_text(versions: Seq<Seq<char>>) -> Option<Seq<char>> {
    if versions.len() == 0 {
        None
    } else {
        Some("Support for .NET SDK versions: "@ + comma_list(versions, Seq::empty()) + "."@)
    }
}

/// A changelog entry is written exactly when there are versions; for one version `v` it is
/// `Support for .NET SDK versions: v.`, and each further version `w` turns the entry's final
/// `.` into `, w.`.
pub proof fn lemma_changelog_entry_lists_every_version(versions: Seq<Seq<char>>, v: Seq<char>)
    ensures
        changelog_entry_text(versions) is Some <==> versions.len() > 0,
        changelog_entry_text(seq![v]) == Some("Support for .NET SDK versions: "@ + v + "."@),
        versions.len() > 0 ==> changelog_entry_text(versions.push(v)) == Some(
            changelog_entry_text(versions).unwrap().drop_last() + ", "@ + v + "."@,
        ),
{
    let e: Seq<char> = Seq::empty();
    assert(e + v + e =~= v);
    assert(comma_list(seq![v], e) == e + seq![v][0] + e);
    if versions.len() > 0 {
        let head = "Support for .NET SDK versions: "@;
        let vp = versions.push(v);
        assert(vp.drop_last() =~= versions);
        assert(vp.last() == v);
        assert(comma_list(vp, e) == comma_list(versions, e) + ", "@ + e + v + e);
        let whole = head + comma_list(versions, e) + "."@;
        reveal_strlit(".");
        assert(whole.drop_last() =~= head + comma_list(versions, e));
        assert(head + comma_list(vp, e) + "."@ =~= whole.drop_last() + ", "@ + v + "."@);
    }
}

/// The changelog entry for added or removed SDK versions (see [`changelog_entry_text`]).
pub fn changelog_entry(versions: &[String]) -> (r: Option<String>)
    ensures
        match changelog_entry_text(string_views(versions@)) {
            None => r is None,
            Some(t) => r matches Some(s) && s@ == t,
        },
{
    if versions.len() == 0 {
        return None;
    }
    let ghost vs = string_views(versions@);
    let mut t: Vec<char> = Vec::new();
    push_str(&mut t, "Support for .NET SDK versions: ");
    let ghost start = t@;
    let mut i: usize = 0;
    while i < versions.len()
        invariant
            i <= versions@.len(),
            vs == string_views(versions@),
            t@ == start + comma_list(vs.take(i as int), Seq::empty()),
        decreases versions@.len() - i,
    {
        assert(vs.take(i + 1).drop_last() =~= vs.take(i as int));
        assert(vs.take(i + 1).last() == versions@[i as int]@);
        if i > 0 {
            push_str(&mut t, ", ");
        } else {
            assert(vs.take(0) =~= Seq::<Seq<char>>::empty());
        }
        push_str(&mut t, versions[i].as_str());
        assert(t@ =~= start + comma_list(vs.take(i + 1), Seq::empty()));
        i += 1;
    }
    assert(vs.take(versions@.len() as int) =~= vs);
    push_str(&mut t, ".");
    assert(t@ =~= "Support for .NET SDK versions: "@ + comma_list(vs, Seq::empty()) + "."@);
    Some(string_from_chars(t.as_slice()))
}

/// The sentence for the SDKs of one major version that all ship the same runtimes.
pub open spec fn shared_runtimes_sentence(major: u64, runtime: Seq<char>, aspnet: Seq<char>) -> Seq<char> {
    "The .NET "@ + decimal(major as nat) + ".0 SDKs include .NET Runtime `"@ + runtime
        + "` and ASP.NET Core Runtime `"@ + aspnet + "`."@
}

/// The sentence for the SDKs of one major version that all ship the same runtimes (see
/// [`shared_runtimes_sentence`]).
pub fn shared_runtimes(major: u64, runtime: &str, aspnet: &str) -> (r: String)
    ensures
        r@ == shared_runtimes_sentence(major, runtime@, aspnet@),
{
    let mut t: Vec<char> = Vec::new();
    push_str(&mut t, "The .NET ");
    push_decimal(&mut t, major as u128);
    push_str(&mut t, ".0 SDKs include .NET Runtime `");
    push_str(&mut t, runtime);
    push_str(&mut t, "` and ASP.NET Core Runtime `");
    push_str(&mut t, aspnet);
    push_str(&mut t, "`.");
    assert(t@ =~= shared_runtimes_sentence(major, runtime@, aspnet@));
    string_from_chars(t.as_slice())
}

/// The sentence for a group of SDKs that ship the same runtimes, where the SDKs of their
/// major version ship different ones: the SDKs named (`SDK … includes` for one, `SDKs …
/// include` for several), then the runtimes.
pub open spec fn group_runtimes_sentence(sdks: Seq<Seq<char>>, runtime: Seq<char>, aspnet: Seq<char>) -> Seq<char> {
    let (noun, verb) = if sdks.len() == 1 { ("SDK"@, "includes"@) } else { ("SDKs"@, "include"@) };
    ".NET "@ + noun + " "@ + version_list(sdks, "`"@) + " "@ + verb + " .NET Runtime `"@ + runtime
        + "` and ASP.NET Core Runtime `"@ + aspnet + "`."@
}

/// The sentence for a group of SDKs that ship the same runtimes (see
/// [`group_runtimes_sentence`]).
pub fn group_runtimes(sdks: &[String], runtime: &str, aspnet: &str) -> (r: String)
    ensures
        r@ == group_runtimes_sentence(string_views(sdks@), runtime@, aspnet@),
{
    let list = format_version_list(sdks, "`");
    let one = sdks.len() == 1;
    let mut t: Vec<char> = Vec::new();
    push_str(&mut t, ".NET ");
    push_str(&mut t, if one { "SDK" } else { "SDKs" });
    push_str(&mut t, " ");
    push_str(&mut t, list.as_str());
    push_str(&mut t, " ");
    push_str(&mut t, if one { "includes" } else { "include" });
    push_str(&mut t, " .NET Runtime `");
    push_str(&mut t, runtime);
    push_str(&mut t, "` and ASP.NET Core Runtime `");
    push_str(&mut t, aspnet);
    push_str(&mut t, "`.");
    assert(t@ =~= group_runtimes_sentence(string_views(sdks@), runtime@, aspnet@));
    string_from_chars(t.as_slice())
}

/// The announcement of newly available SDK versions: a title and a body.
#[derive(Debug, PartialEq)]
pub struct Announcement {
    pub title: String,
    pub body: String,
}

/// The texts joined with a space between neighbours.
pub open spec fn spaced(texts: Seq<Seq<char>>) -> Seq<char>
    decreases texts.len(),
{
    if texts.len() == 0 {
        Seq::empty()
    } else if texts.len() == 1 {
        texts[0]
    } else {
        spaced(texts.drop_last()) + " "@ + texts.last()
    }
}

/// The title of the announcement of `versions`.
pub open spec fn announcement_title(versions: Seq<Seq<char>>) -> Seq<char> {
    ".NET SDK "@ + version_list(versions, Seq::empty()) + " are now available\n"@
}

/// The body of the announcement of `versions`, with the runtime sentences `sentences`.
pub open spec fn announcement_body(versions: Seq<Seq<char>>, sentences: Seq<Seq<char>>) -> Seq<char> {
    ".NET SDK "@ + version_list(versions, "`"@) + " have been made available for builds on Heroku.\n\n"@
        + spaced(sentences)
        + "\n\nFor additional information, please see our article on [.NET support](https://devcenter.heroku.com/articles/dotnet-heroku-support-reference).\n"@
}

/// The announcement of the added SDK `versions`, whose runtimes the `sentences` describe (see
/// [`announcement_title`] and [`announcement_body`]).
pub fn announcement(versions: &[String], sentences: &[String]) -> (r: Announcement)
    ensures
        r.title@ == announcement_title(string_views(versions@)),
        r.body@ == announcement_body(string_views(versions@), string_views(sentences@)),
{
    proof {
        reveal_strlit("");
        assert(""@ =~= Seq::<char>::empty());
    }
    let plain = format_version_list(versions, "");
    let ticked = format_version_list(versions, "`");
    let mut title: Vec<char> = Vec::new();
    push_str(&mut title, ".NET SDK ");
    push_str(&mut title, plain.as_str());
    push_str(&mut title, " are now available\n");
    assert(title@ =~= announcement_title(string_views(versions@)));

    let ghost ss = string_views(sentences@);
    let mut paragraph: Vec<char> = Vec::new();
    let mut i: usize = 0;
    while i < sentences.len()
        invariant
            i <= sentences@.len(),
            ss == string_views(sentences@),
            paragraph@ == spaced(ss.take(i as int)),
        decreases sentences@.len() - i,
    {
        assert(ss.take(i + 1).drop_last() =~= ss.take(i as int));
        assert(ss.take(i + 1).last() == sentences@[i as int]@);
        if i > 0 {
            push_str(&mut paragraph, " ");
        } else {
            assert(ss.take(0) =~= Seq::<Seq<char>>::empty());
        }
        push_str(&mut paragraph, sentences[i].as_str());
        assert(paragraph@ =~= spaced(ss.take(i + 1)));
        i += 1;
    }
    assert(ss.take(sentences@.len() as int) =~= ss);

    let mut body: Vec<char> = Vec::new();
    push_str(&mut body, ".NET SDK ");
    push_str(&mut body, ticked.as_str());
    push_str(&mut body, " have been made available for builds on Heroku.\n\n");
    crate::text::append_chars(&mut body, &paragraph);
    push_str(&mut body, "\n\nFor additional information, please see our article on [.NET support](https://devcenter.heroku.com/articles/dotnet-heroku-support-reference).\n");
    assert(body@ =~= announcement_body(string_views(versions@), ss));
    Announcement { title: string_from_chars(title.as_slice()), body: string_from_chars(body.as_slice()) }
}

/// The runtimes that an SDK release ships. Each version comes as its text and its rank: its
/// place in an order of versions that the caller chose (equal versions, equal ranks).
#[derive(Debug, Clone)]
pub struct ShippedRuntimes {
    pub runtime_rank: u64,
    pub runtime: String,
    pub aspnet_rank: u64,
    pub aspnet: String,
}

/// A newly added SDK version: its major version, its rank and text (as for the runtimes),
/// and the runtimes it ships, where they are known.
#[derive(Debug, Clone)]
pub struct AddedSdk {
    pub major: u64,
    pub rank: u64,
    pub text: String,
    pub runtimes: Option<ShippedRuntimes>,
}

/// The group of an added SDK: its major version and the ranks of its two runtimes; none
/// where its runtimes are not known.
pub open spec fn runtime_key(e: AddedSdk) -> Option<(u64, u64, u64)> {
    match e.runtimes {
        Some(rt) => Some((e.major, rt.runtime_rank, rt.aspnet_rank)),
        None => None,
    }
}

/// `a` comes before `b`: by major version, then runtime rank, then ASP.NET Core runtime rank.
pub open spec fn key_before(a: (u64, u64, u64), b: (u64, u64, u64)) -> bool {
    a.0 < b.0 || (a.0 == b.0 && (a.1 < b.1 || (a.1 == b.1 && a.2 < b.2)))
}

/// Each key comes before every later one.
pub open spec fn strictly_ascending(keys: Seq<(u64, u64, u64)>) -> bool {
    forall|i: int, j: int| 0 <= i < j < keys.len() ==> key_before(#[trigger] keys[i], #[trigger] keys[j])
}

/// Some entry has the key `k`.
pub open spec fn has_key(entries: Seq<AddedSdk>, k: (u64, u64, u64)) -> bool {
    exists|j: int| 0 <= j < entries.len() && runtime_key(#[trigger] entries[j]) == Some(k)
}

/// The entries with the key `k`, in their order.
pub open spec fn with_key(entries: Seq<AddedSdk>, k: (u64, u64, u64)) -> Seq<AddedSdk>
    decreases entries.len(),
{
    if entries.len() == 0 {
        Seq::empty()
    } else if runtime_key(entries.last()) == Some(k) {
        with_key(entries.drop_last(), k).push(entries.last())
    } else {
        with_key(entries.drop_last(), k)
    }
}

/// The first entry with the key `k`.
pub open spec fn first_with_key(entries: Seq<AddedSdk>, k: (u64, u64, u64)) -> AddedSdk
    decreases entries.len(),
{
    if entries.len() == 0 {
        arbitrary()
    } else if runtime_key(entries[0]) == Some(k) {
        entries[0]
    } else {
        first_with_key(entries.drop_first(), k)
    }
}

/// `s` with `x` placed after every entry of rank at most that of `x` at its end.
pub open spec fn insert_by_rank(s: Seq<AddedSdk>, x: AddedSdk) -> Seq<AddedSdk>
    decreases s.len(),
{
    if s.len() == 0 || s.last().rank <= x.rank {
        s.push(x)
    } else {
        insert_by_rank(s.drop_last(), x).push(s.last())
    }
}

/// `s` ordered by rank; entries of equal rank keep their order.
pub open spec fn sorted_by_rank(s: Seq<AddedSdk>) -> Seq<AddedSdk>
    decreases s.len(),
{
    if s.len() == 0 {
        Seq::empty()
    } else {
        insert_by_rank(sorted_by_rank(s.drop_last()), s.last())
    }
}

/// How many of `keys` have the major version `m`.
pub open spec fn count_major(keys: Seq<(u64, u64, u64)>, m: u64) -> nat
    decreases keys.len(),
{
    if keys.len() == 0 {
        0
    } else {
        count_major(keys.drop_last(), m) + if keys.last().0 == m { 1nat } else { 0nat }
    }
}

/// The texts of the SDK versions `s`.
pub open spec fn sdk_texts(s: Seq<AddedSdk>) -> Seq<Seq<char>> {
    s.map_values(|e: AddedSdk| e.text@)
}

/// The sentence for the group with key `k` among the groups `keys`: where it is the only
/// group of its major version, the shared-runtimes sentence; otherwise the sentence naming
/// its SDKs in rank order. The runtime texts are those of its first entry.
pub open spec fn runtimes_sentence(entries: Seq<AddedSdk>, keys: Seq<(u64, u64, u64)>, k: (u64, u64, u64)) -> Seq<char> {
    match first_with_key(entries, k).runtimes {
        Some(rt) => if count_major(keys, k.0) == 1 {
            shared_runtimes_sentence(k.0, rt.runtime@, rt.aspnet@)
        } else {
            group_runtimes_sentence(sdk_texts(sorted_by_rank(with_key(entries, k))), rt.runtime@, rt.aspnet@)
        },
        None => Seq::empty(),
    }
}

/// `keys` are the keys of `entries` in ascending order, and `r` holds one sentence per key.
pub open spec fn sentences_for_keys(entries: Seq<AddedSdk>, keys: Seq<(u64, u64, u64)>, r: Seq<Seq<char>>) -> bool {
    &&& strictly_ascending(keys)
    &&& forall|k: (u64, u64, u64)| keys.contains(k) <==> has_key(entries, k)
    &&& r.len() == keys.len()
    &&& forall|i: int| 0 <= i < keys.len() ==> #[trigger] r[i] == runtimes_sentence(entries, keys, keys[i])
}

/// `r` are the runtime sentences of the announcement of `entries`: one per group of SDKs
/// that share a major version and both runtimes, groups in ascending key order.
pub open spec fn runtime_sentences_of(entries: Seq<AddedSdk>, r: Seq<Seq<char>>) -> bool {
    exists|keys: Seq<(u64, u64, u64)>| #[trigger] sentences_for_keys(entries, keys, r)
}

proof fn lemma_ascending_unique(a: Seq<(u64, u64, u64)>, b: Seq<(u64, u64, u64)>)
    requires
        strictly_ascending(a),
        strictly_ascending(b),
        forall|k: (u64, u64, u64)| a.contains(k) <==> b.contains(k),
    ensures
        a == b,
    decreases a.len(),
{
    if a.len() == 0 {
        if b.len() > 0 {
            assert(b.contains(b[0]));
        }
        assert(b =~= a);
    } else {
        assert(a.contains(a[0]));
        let j = choose|j: int| 0 <= j < b.len() && b[j] == a[0];
        assert(b.contains(b[0]));
        let i = choose|i: int| 0 <= i < a.len() && a[i] == b[0];
        if j > 0 && i > 0 {
            assert(key_before(b[0], b[j]));
            assert(key_before(a[0], a[i]));
        }
        assert(a[0] == b[0]);
        let a1 = a.drop_first();
        let b1 = b.drop_first();
        assert forall|k: (u64, u64, u64)| a1.contains(k) <==> b1.contains(k) by {
            if a1.contains(k) {
                let x = choose|x: int| 0 <= x < a1.len() && a1[x] == k;
                assert(a[x + 1] == k && key_before(a[0], a[x + 1]));
                assert(b.contains(k));
                let y = choose|y: int| 0 <= y < b.len() && b[y] == k;
                assert(y > 0);
                assert(b1[y - 1] == k);
            }
            if b1.contains(k) {
                let y = choose|y: int| 0 <= y < b1.len() && b1[y] == k;
                assert(b[y + 1] == k && key_before(b[0], b[y + 1]));
                assert(a.contains(k));
                let x = choose|x: int| 0 <= x < a.len() && a[x] == k;
                assert(x > 0);
                assert(a1[x - 1] == k);
            }
        }
        assert forall|p: int, q: int| 0 <= p < q < a1.len() implies key_before(#[trigger] a1[p], #[trigger] a1[q]) by {
            assert(a1[p] == a[p + 1] && a1[q] == a[q + 1]);
        }
        assert forall|p: int, q: int| 0 <= p < q < b1.len() implies key_before(#[trigger] b1[p], #[trigger] b1[q]) by {
            assert(b1[p] == b[p + 1] && b1[q] == b[q + 1]);
        }
        lemma_ascending_unique(a1, b1);
        assert(a.len() == b.len());
        assert forall|x: int| 0 <= x < a.len() implies a[x] == b[x] by {
            if x > 0 {
                assert(a[x] == a1[x - 1] && b[x] == b1[x - 1]);
            }
        }
        assert(a =~= b);
    }
}

/// The runtime sentences of an announcement are determined by the added SDKs: any two
/// sequences of sentences that both meet [`runtime_sentences_of`] are equal.
pub proof fn lemma_runtime_sentences_determined(entries: Seq<AddedSdk>, r1: Seq<Seq<char>>, r2: Seq<Seq<char>>)
    requires
        runtime_sentences_of(entries, r1),
        runtime_sentences_of(entries, r2),
    ensures
        r1 == r2,
{
    let k1 = choose|keys: Seq<(u64, u64, u64)>| #[trigger] sentences_for_keys(entries, keys, r1);
    let k2 = choose|keys: Seq<(u64, u64, u64)>| #[trigger] sentences_for_keys(entries, keys, r2);
    lemma_ascending_unique(k1, k2);
    assert(r1 =~= r2);
}

fn key_of(e: &AddedSdk) -> (r: Option<(u64, u64, u64)>)
    ensures
        r == runtime_key(*e),
{
    match &e.runtimes {
        Some(rt) => Some((e.major, rt.runtime_rank, rt.aspnet_rank)),
        None => None,
    }
}

fn key_is_before(a: (u64, u64, u64), b: (u64, u64, u64)) -> (r: bool)
    ensures
        r == key_before(a, b),
{
    a.0 < b.0 || (a.0 == b.0 && (a.1 < b.1 || (a.1 == b.1 && a.2 < b.2)))
}

proof fn lemma_has_key_prefix(entries: Seq<AddedSdk>, i: int, k: (u64, u64, u64))
    requires
        0 <= i < entries.len(),
    ensures
        has_key(entries.take(i + 1), k) <==> (has_key(entries.take(i), k) || runtime_key(entries[i]) == Some(k)),
{
    if has_key(entries.take(i + 1), k) {
        let j = choose|j: int| 0 <= j < i + 1 && runtime_key(#[trigger] entries.take(i + 1)[j]) == Some(k);
        if j < i {
            assert(entries.take(i)[j] == entries[j]);
        }
    }
    if has_key(entries.take(i), k) {
        let j = choose|j: int| 0 <= j < i && runtime_key(#[trigger] entries.take(i)[j]) == Some(k);
        assert(entries.take(i + 1)[j] == entries[j]);
    }
    if runtime_key(entries[i]) == Some(k) {
        assert(entries.take(i + 1)[i] == entries[i]);
    }
}

/// The keys of `entries`, each once, in ascending order.
fn runtime_keys(entries: &[AddedSdk]) -> (keys: Vec<(u64, u64, u64)>)
    ensures
        strictly_ascending(keys@),
        forall|k: (u64, u64, u64)| keys@.contains(k) <==> has_key(entries@, k),
{
    let mut keys: Vec<(u64, u64, u64)> = Vec::new();
    let mut i: usize = 0;
    while i < entries.len()
        invariant
            i <= entries@.len(),
            strictly_ascending(keys@),
            forall|k: (u64, u64, u64)| keys@.contains(k) <==> has_key(entries@.take(i as int), k),
        decreases entries@.len() - i,
    {
        let ghost before = keys@;
        match key_of(&entries[i]) {
            None => {},
            Some(k) => {
                let mut p: usize = 0;
                while p < keys.len() && key_is_before(keys[p], k)
                    invariant
                        p <= keys@.len(),
                        forall|q: int| 0 <= q < p ==> key_before(#[trigger] keys@[q], k),
                    decreases keys@.len() - p,
                {
                    p += 1;
                }
                let found = p < keys.len() && keys[p].0 == k.0 && keys[p].1 == k.1 && keys[p].2 == k.2;
                if !found {
                    let ghost old_keys = keys@;
                    keys.insert(p, k);
                    assert(old_keys == before);
                    proof {
                        old_keys.insert_ensures(p as int, k);
                        assert forall|a: int, b: int| 0 <= a < b < keys@.len() implies key_before(
                            #[trigger] keys@[a],
                            #[trigger] keys@[b],
                        ) by {
                            if b < p {
                            } else if b == p {
                            } else if a < p {
                                assert(key_before(old_keys[p as int], old_keys[b - 1]) || b - 1 == p);
                            } else if a == p {
                                assert(key_before(old_keys[p as int], old_keys[b - 1]) || b - 1 == p);
                            } else {
                                assert(key_before(old_keys[a - 1], old_keys[b - 1]));
                            }
                        }
                        assert forall|q: (u64, u64, u64)| keys@.contains(q) <==> (old_keys.contains(q) || q == k) by {
                            if keys@.contains(q) {
                                let j = choose|j: int| 0 <= j < keys@.len() && keys@[j] == q;
                                if j < p {
                                    assert(old_keys[j] == q);
                                } else if j > p {
                                    assert(old_keys[j - 1] == q);
                                }
                            }
                            if old_keys.contains(q) {
                                let j = choose|j: int| 0 <= j < old_keys.len() && old_keys[j] == q;
                                if j < p {
                                    assert(keys@[j] == q);
                                } else {
                                    assert(keys@[j + 1] == q);
                                }
                            }
                            if q == k {
                                assert(keys@[p as int] == k);
                            }
                        }
                    }
                } else {
                    assert(keys@[p as int] == k);
                    assert(keys@.contains(k));
                    assert(keys@ == before);
                }
                assert(keys@.contains(k));
            },
        }
        assert forall|q: (u64, u64, u64)| keys@.contains(q) <==> (before.contains(q) || runtime_key(
            entries@[i as int],
        ) == Some(q)) by {
            if runtime_key(entries@[i as int]) == Some(q) {
                assert(keys@.contains(q));
            }
        }
        assert forall|q: (u64, u64, u64)| keys@.contains(q) <==> has_key(entries@.take(i + 1), q) by {
            lemma_has_key_prefix(entries@, i as int, q);
            assert(before.contains(q) <==> has_key(entries@.take(i as int), q));
        }
        i += 1;
    }
    assert(entries@.take(entries@.len() as int) =~= entries@);
    keys
}

fn count_with_major(keys: &Vec<(u64, u64, u64)>, m: u64) -> (r: usize)
    ensures
        r == count_major(keys@, m),
{
    let mut n: usize = 0;
    let mut i: usize = 0;
    while i < keys.len()
        invariant
            i <= keys@.len(),
            n == count_major(keys@.take(i as int), m),
            n <= i,
        decreases keys@.len() - i,
    {
        assert(keys@.take(i + 1).drop_last() =~= keys@.take(i as int));
        if keys[i].0 == m {
            n += 1;
        }
        i += 1;
    }
    assert(keys@.take(keys@.len() as int) =~= keys@);
    n
}

/// The index of the first entry with the key `k`.
fn first_key_index(entries: &[AddedSdk], k: (u64, u64, u64)) -> (j: usize)
    requires
        has_key(entries@, k),
    ensures
        j < entries@.len(),
        entries@[j as int] == first_with_key(entries@, k),
        runtime_key(entries@[j as int]) == Some(k),
{
    let mut j: usize = 0;
    assert(entries@.skip(0) =~= entries@);
    while j < entries.len()
        invariant
            j <= entries@.len(),
            has_key(entries@.skip(j as int), k),
            first_with_key(entries@, k) == first_with_key(entries@.skip(j as int), k),
        decreases entries@.len() - j,
    {
        let rest = Ghost(entries@.skip(j as int));
        assert(rest@[0] == entries@[j as int]);
        if key_of(&entries[j]) == Some(k) {
            return j;
        }
        assert(rest@.drop_first() =~= entries@.skip(j + 1));
        proof {
            let w = choose|w: int| 0 <= w < rest@.len() && runtime_key(#[trigger] rest@[w]) == Some(k);
            assert(w > 0);
            assert(entries@.skip(j + 1)[w - 1] == rest@[w]);
        }
        j += 1;
    }
    proof {
        assert(entries@.skip(j as int).len() == 0);
    }
    j
}

proof fn lemma_insert_by_rank(s: Seq<AddedSdk>, x: AddedSdk, p: int)
    requires
        0 <= p <= s.len(),
        forall|q: int| p <= q < s.len() ==> (#[trigger] s[q]).rank > x.rank,
        p == 0 || s[p - 1].rank <= x.rank,
    ensures
        insert_by_rank(s, x) == s.insert(p, x),
    decreases s.len(),
{
    if s.len() == 0 || s.last().rank <= x.rank {
        assert(s.insert(p, x) =~= s.push(x));
    } else {
        let t = s.drop_last();
        assert forall|q: int| p <= q < t.len() implies (#[trigger] t[q]).rank > x.rank by {
            assert(t[q] == s[q]);
        }
        lemma_insert_by_rank(t, x, p);
        assert(t.insert(p, x).push(s.last()) =~= s.insert(p, x));
    }
}

/// The indices of the entries with the key `k`, ordered by the entries' ranks (entries of
/// equal rank in their order).
fn sorted_group(entries: &[AddedSdk], k: (u64, u64, u64)) -> (r: Vec<usize>)
    ensures
        forall|q: int| 0 <= q < r@.len() ==> (#[trigger] r@[q]) < entries@.len(),
        r@.map_values(|j: usize| entries@[j as int]) == sorted_by_rank(with_key(entries@, k)),
{
    let mut r: Vec<usize> = Vec::new();
    let mut i: usize = 0;
    while i < entries.len()
        invariant
            i <= entries@.len(),
            forall|q: int| 0 <= q < r@.len() ==> (#[trigger] r@[q]) < entries@.len(),
            r@.map_values(|j: usize| entries@[j as int]) == sorted_by_rank(with_key(entries@.take(i as int), k)),
        decreases entries@.len() - i,
    {
        let ghost prefix = entries@.take(i + 1);
        assert(prefix.drop_last() =~= entries@.take(i as int));
        assert(prefix.last() == entries@[i as int]);
        if key_of(&entries[i]) == Some(k) {
            let rank = entries[i].rank;
            let mut p: usize = r.len();
            while p > 0 && entries[r[p - 1]].rank > rank
                invariant
                    p <= r@.len(),
                    forall|q: int| 0 <= q < r@.len() ==> (#[trigger] r@[q]) < entries@.len(),
                    forall|q: int| p <= q < r@.len() ==> entries@[(#[trigger] r@[q]) as int].rank > rank,
                decreases p,
            {
                p -= 1;
            }
            let ghost s = r@.map_values(|j: usize| entries@[j as int]);
            proof {
                assert forall|q: int| p <= q < s.len() implies (#[trigger] s[q]).rank > entries@[i as int].rank by {
                    assert(s[q] == entries@[r@[q] as int]);
                }
                if p > 0 {
                    assert(s[p - 1] == entries@[r@[p - 1] as int]);
                }
                lemma_insert_by_rank(s, entries@[i as int], p as int);
            }
            let ghost old_r = r@;
            r.insert(p, i);
            proof {
                old_r.insert_ensures(p as int, i);
                assert(r@.map_values(|j: usize| entries@[j as int]) =~= s.insert(p as int, entries@[i as int]));
                let w = with_key(entries@.take(i as int), k);
                assert(with_key(prefix, k) == w.push(entries@[i as int]));
                assert(w.push(entries@[i as int]).drop_last() =~= w);
                assert(sorted_by_rank(with_key(prefix, k)) == insert_by_rank(sorted_by_rank(w), entries@[i as int]));
            }
        } else {
            assert(with_key(prefix, k) == with_key(entries@.take(i as int), k));
        }
        i += 1;
    }
    assert(entries@.take(entries@.len() as int) =~= entries@);
    r
}

/// The sentences on the runtimes that the added SDKs `added` ship, for an announcement: the
/// SDKs whose runtimes are known are grouped by major version and by both runtimes' ranks,
/// the groups taken in ascending order; a group that is the only one of its major version
/// gets the shared-runtimes sentence, the others a sentence naming their SDKs by rank.
pub fn runtime_sentences(added: &[AddedSdk]) -> (r: Vec<String>)
    ensures
        runtime_sentences_of(added@, string_views(r@)),
{
    let keys = runtime_keys(added);
    let mut r: Vec<String> = Vec::new();
    let mut i: usize = 0;
    while i < keys.len()
        invariant
            i <= keys@.len(),
            r@.len() == i,
            strictly_ascending(keys@),
            forall|k: (u64, u64, u64)| keys@.contains(k) <==> has_key(added@, k),
            forall|q: int| 0 <= q < i ==> (#[trigger] r@[q])@ == runtimes_sentence(added@, keys@, keys@[q]),
        decreases keys@.len() - i,
    {
        let k = keys[i];
        assert(keys@.contains(k));
        let j = first_key_index(added, k);
        let same_major = count_with_major(&keys, k.0);
        let ghost before = r@;
        match &added[j].runtimes {
            Some(rt) => {
                if same_major == 1 {
                    r.push(shared_runtimes(k.0, rt.runtime.as_str(), rt.aspnet.as_str()));
                } else {
                    let group = sorted_group(added, k);
                    let mut texts: Vec<String> = Vec::new();
                    let mut g: usize = 0;
                    while g < group.len()
                        invariant
                            g <= group@.len(),
                            texts@.len() == g,
                            forall|q: int| 0 <= q < group@.len() ==> (#[trigger] group@[q]) < added@.len(),
                            forall|q: int| 0 <= q < g ==> (#[trigger] texts@[q])@ == added@[group@[q] as int].text@,
                        decreases group@.len() - g,
                    {
                        let t = added[group[g]].text.clone();
                        texts.push(t);
                        g += 1;
                    }
                    assert(string_views(texts@) =~= sdk_texts(group@.map_values(|x: usize| added@[x as int])));
                    r.push(group_runtimes(&texts, rt.runtime.as_str(), rt.aspnet.as_str()));
                }
            },
            None => {
                assert(false);
            },
        }
        assert forall|q: int| 0 <= q < i + 1 implies (#[trigger] r@[q])@ == runtimes_sentence(added@, keys@, keys@[q]) by {
            if q < i {
                assert(r@[q] == before[q]);
            }
        }
        i += 1;
    }
    assert(sentences_for_keys(added@, keys@, string_views(r@)));
    r
}

/// The runtime identifier of the Linux artifact for an architecture (`amd64` or `arm64`).
pub fn linux_rid(arm64: bool) -> (r: &'static str)
    ensures
        r@ == if arm64 { "linux-arm64"@ } else { "linux-x64"@ },
{
    if arm64 { "linux-arm64" } else { "linux-x64" }
}

/// `i` is the index of the first of `file_rids` that is `rid`.
pub open spec fn first_file_for(file_rids: Seq<String>, rid: Seq<char>, i: int) -> bool {
    0 <= i < file_rids.len() && file_rids[i]@ == rid && forall|j: int| 0 <= j < i ==> (#[trigger] file_rids[j])@ != rid
}

/// None of `file_rids` is `rid`.
pub open spec fn no_file_for(file_rids: Seq<String>, rid: Seq<char>) -> bool {
    forall|j: int| 0 <= j < file_rids.len() ==> (#[trigger] file_rids[j])@ != rid
}

/// The index of the first file for the runtime identifier `rid` among the runtime
/// identifiers `file_rids` of an SDK's files, if any.
pub fn find_file_for_rid(file_rids: &[String], rid: &str) -> (r: Option<usize>)
    ensures
        match r {
            Some(i) => first_file_for(file_rids@, rid@, i as int),
            None => no_file_for(file_rids@, rid@),
        },
{
    let target = crate::text::str_chars(rid);
    let mut i: usize = 0;
    while i < file_rids.len()
        invariant
            i <= file_rids@.len(),
            target@ == rid@,
            forall|j: int| 0 <= j < i ==> (#[trigger] file_rids@[j])@ != rid@,
        decreases file_rids@.len() - i,
    {
        let c = crate::text::str_chars(file_rids[i].as_str());
        if crate::text::chars_equal(&c, &target) {
            return Some(i);
        }
        i += 1;
    }
    None
}

/// The files of an SDK release that the inventory takes, one per required architecture: the
/// indices of the first files for `linux-x64` and for `linux-arm64`; where one is missing,
/// the first runtime identifier (in that order) that has no file.
pub fn required_linux_files(file_rids: &[String]) -> (r: Result<(usize, usize), &'static str>)
    ensures
        match r {
            Ok((x64, arm64)) => first_file_for(file_rids@, "linux-x64"@, x64 as int)
                && first_file_for(file_rids@, "linux-arm64"@, arm64 as int),
            Err(rid) => (rid@ == "linux-x64"@ && no_file_for(file_rids@, "linux-x64"@)) || (rid@
                == "linux-arm64"@ && !no_file_for(file_rids@, "linux-x64"@) && no_file_for(
                file_rids@,
                "linux-arm64"@,
            )),
        },
{
    let x64_rid = linux_rid(false);
    let x64 = match find_file_for_rid(file_rids, x64_rid) {
        Some(i) => i,
        None => return Err(x64_rid),
    };
    let arm64_rid = linux_rid(true);
    match find_file_for_rid(file_rids, arm64_rid) {
        Some(i) => Ok((x64, i)),
        None => Err(arm64_rid),
    }
}

/// The checksum text of an SDK file's SHA-512 hash: `sha512:<hash>`.
pub fn sha512_checksum(hash: &str) -> (r: String)
    ensures
        r@ == "sha512:"@ + hash@,
{
    let mut t: Vec<char> = Vec::new();
    push_str(&mut t, "sha512:");
    push_str(&mut t, hash);
    string_from_chars(t.as_slice())
}

} // verus!
