//! Locating the configuration files that the buildpack looks for. Whether a path names a
//! file is asked of the caller through `is_file` (on a real file system, `Path::is_file`).
use vstd::prelude::*;
use crate::paths::{spec_join, spec_parent, join, parent};

verus! {

/// `is_file`, asked about a path with view `p`, may answer `answer`.
pub open spec fn answers<F: Fn(&str) -> bool>(is_file: F, p: Seq<char>, answer: bool) -> bool {
    exists|s: &str| s@ == p && #[trigger] call_ensures(is_file, (s,), answer)
}

/// `r` is `Some(candidate)` when `is_file` said yes for it, and `None` when it said no.
pub open spec fn checked_candidate<F: Fn(&str) -> bool>(
    is_file: F,
    candidate: Seq<char>,
    r: Option<String>,
) -> bool {
    match r {
        Some(p) => p@ == candidate && answers(is_file, candidate, true),
        None => answers(is_file, candidate, false),
    }
}

fn check_candidate<F: Fn(&str) -> bool>(dir: &str, name: &str, is_file: &F) -> (r: Option<String>)
    requires
        forall|s: &str| call_requires(*is_file, (s,)),
    ensures
        checked_candidate(*is_file, spec_join(dir@, name@), r),
{
    let path = join(dir, name);
    let s = path.as_str();
    let exists = is_file(s);
    assert(call_ensures(*is_file, (s,), exists));
    if exists {
        Some(path)
    } else {
        None
    }
}

/// The path of `global.json` in `dir`, if that is a file.
pub fn global_json_file<F: Fn(&str) -> bool>(dir: &str, is_file: F) -> (r: Option<String>)
    requires
        forall|s: &str| call_requires(is_file, (s,)),
    ensures
        checked_candidate(is_file, spec_join(dir@, "global.json"@), r),
{
    check_candidate(dir, "global.json", &is_file)
}

/// The path of `.config/dotnet-tools.json` under `dir`, if that is a file.
pub fn dotnet_tools_manifest_file<F: Fn(&str) -> bool>(dir: &str, is_file: F) -> (r: Option<String>)
    requires
        forall|s: &str| call_requires(is_file, (s,)),
    ensures
        checked_candidate(is_file, spec_join(dir@, ".config/dotnet-tools.json"@), r),
{
    check_candidate(dir, ".config/dotnet-tools.json", &is_file)
}

/// The path of `project.toml` in `dir`, if that is a file.
pub fn project_toml_file<F: Fn(&str) -> bool>(dir: &str, is_file: F) -> (r: Option<String>)
    requires
        forall|s: &str| call_requires(is_file, (s,)),
    ensures
        checked_candidate(is_file, spec_join(dir@, "project.toml"@), r),
{
    check_candidate(dir, "project.toml", &is_file)
}

/// `p` and then its ancestors, nearest first (as `Path::ancestors` lists them).
pub open spec fn ancestors(p: Seq<char>) -> Seq<Seq<char>>
    decreases p.len(),
{
    match spec_parent(p) {
        Some(q) => if q.len() < p.len() {
            seq![p] + ancestors(q)
        } else {
            seq![p]
        },
        None => seq![p],
    }
}

pub proof fn lemma_parent_shorter(p: Seq<char>)
    ensures
        spec_parent(p) matches Some(q) ==> q.len() < p.len(),
{
    let q = crate::paths::trim_end(p);
    crate::paths::lemma_trim_end_len(p);
    crate::paths::lemma_last_index_of_bounds(q, '/');
    let k = crate::paths::last_index_of(q, '/');
    if k > 0 {
        crate::paths::lemma_trim_end_len(q.take(k));
    }
}

/// Walks up from `start_path` through its ancestors (itself first) and returns
/// `Directory.Build.props` in the first of them where it is a file, as MSBuild imports the
/// nearest such file; `None` when there is none up to the root.
pub fn directory_build_props_file<F: Fn(&str) -> bool>(start_path: &str, is_file: F) -> (r: Option<String>)
    requires
        forall|s: &str| call_requires(is_file, (s,)),
    ensures
        ({
            let dirs = ancestors(start_path@);
            match r {
                Some(found) => exists|k: int|
                    0 <= k < dirs.len() && found@ == spec_join(#[trigger] dirs[k], "Directory.Build.props"@)
                        && answers(is_file, found@, true)
                        && forall|j: int| 0 <= j < k ==> answers(is_file, spec_join(#[trigger] dirs[j], "Directory.Build.props"@), false),
                None => forall|j: int| 0 <= j < dirs.len() ==> answers(is_file, spec_join(#[trigger] dirs[j], "Directory.Build.props"@), false),
            }
        }),
{
    let ghost all = ancestors(start_path@);
    let mut current: String = crate::text::str_to_string(start_path);
    let ghost mut k: int = 0;
    loop
        invariant
            0 <= k < all.len(),
            all.skip(k) == ancestors(current@),
            forall|j: int| 0 <= j < k ==> answers(is_file, spec_join(#[trigger] all[j], "Directory.Build.props"@), false),
            forall|s: &str| call_requires(is_file, (s,)),
            all == ancestors(start_path@),
        decreases current@.len(),
    {
        proof {
            lemma_parent_shorter(current@);
        }
        assert(all[k] == current@) by {
            assert(all.skip(k)[0] == all[k]);
        }
        match check_candidate(current.as_str(), "Directory.Build.props", &is_file) {
            Some(found) => {
                return Some(found);
            },
            None => {},
        }
        match parent(current.as_str()) {
            Some(p) => {
                assert(all.skip(k + 1) == ancestors(p@)) by {
                    assert(ancestors(current@) == seq![current@] + ancestors(p@));
                    assert(all.skip(k + 1) =~= all.skip(k).drop_first());
                }
                proof {
                    k = k + 1;
                }
                current = p;
            },
            None => {
                assert(all.len() == k + 1) by {
                    assert(ancestors(current@) == seq![current@]);
                }
                return None;
            },
        }
    }
}

} // verus!
