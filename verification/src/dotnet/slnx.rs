//! XML solution files (`.slnx`): the project paths that they list.
use vstd::prelude::*;
use crate::sln::{forward_slashes, views};
use crate::text::{str_chars, string_from_chars};

verus! {

/// The `<Solution>` element of an `.slnx` file: its own `<Project>` elements and its
/// `<Folder>` elements, in document order.
#[derive(Debug)]
pub struct SlnxSolution {
    pub projects: Vec<SlnxProject>,
    pub folders: Vec<SlnxFolder>,
}

/// A `<Folder>` element with its `<Project>` elements.
#[derive(Debug)]
pub struct SlnxFolder {
    pub projects: Vec<SlnxProject>,
}

/// A `<Project Path="..."/>` element.
#[derive(Debug)]
pub struct SlnxProject {
    pub path: String,
}

/// The paths of a list of project elements.
pub open spec fn slnx_paths(projects: Seq<SlnxProject>) -> Seq<Seq<char>>
    decreases projects.len(),
{
    if projects.len() == 0 {
        Seq::empty()
    } else {
        slnx_paths(projects.drop_last()).push(forward_slashes(projects.last().path@))
    }
}

/// The paths of the projects of a list of folders, folder by folder.
pub open spec fn folder_paths(folders: Seq<SlnxFolder>) -> Seq<Seq<char>>
    decreases folders.len(),
{
    if folders.len() == 0 {
        Seq::empty()
    } else {
        folder_paths(folders.drop_last()) + slnx_paths(folders.last().projects@)
    }
}

/// The paths of project elements follow the elements one for one: the `i`-th path is the
/// `i`-th element's path with forward slashes.
pub proof fn lemma_slnx_paths_one_per_project(projects: Seq<SlnxProject>)
    ensures
        slnx_paths(projects).len() == projects.len(),
        forall|i: int| 0 <= i < projects.len() ==> #[trigger] slnx_paths(projects)[i] == forward_slashes(projects[i].path@),
    decreases projects.len(),
{
    if projects.len() > 0 {
        lemma_slnx_paths_one_per_project(projects.drop_last());
        assert forall|i: int| 0 <= i < projects.len() implies #[trigger] slnx_paths(projects)[i]
            == forward_slashes(projects[i].path@) by {
            if i < projects.len() - 1 {
                assert(projects.drop_last()[i] == projects[i]);
            }
        }
    }
}

/// The folders' project paths are those of each folder in turn: no folder is skipped, the
/// paths of consecutive runs of folders are concatenated, and one folder gives its own
/// projects' paths.
pub proof fn lemma_folder_paths_cover_every_folder(a: Seq<SlnxFolder>, b: Seq<SlnxFolder>, f: SlnxFolder)
    ensures
        folder_paths(a + b) == folder_paths(a) + folder_paths(b),
        folder_paths(seq![f]) == slnx_paths(f.projects@),
        folder_paths(Seq::<SlnxFolder>::empty()) == Seq::<Seq<char>>::empty(),
    decreases b.len(),
{
    assert(seq![f].drop_last() =~= Seq::<SlnxFolder>::empty());
    assert(seq![f].last() == f);
    assert(folder_paths(seq![f]) == folder_paths(Seq::<SlnxFolder>::empty()) + slnx_paths(f.projects@));
    assert(folder_paths(seq![f]) =~= slnx_paths(f.projects@));
    if b.len() == 0 {
        assert(a + b =~= a);
        assert(folder_paths(a) + folder_paths(b) =~= folder_paths(a));
    } else {
        lemma_folder_paths_cover_every_folder(a, b.drop_last(), f);
        assert((a + b).drop_last() =~= a + b.drop_last());
        assert((a + b).last() == b.last());
        assert(folder_paths(a + b) =~= folder_paths(a) + folder_paths(b));
    }
}

fn forward_slash_string(s: &String) -> (r: String)
    ensures
        r@ == forward_slashes(s@),
{
    let c = str_chars(s.as_str());
    let mut out: Vec<char> = Vec::new();
    let mut i: usize = 0;
    while i < c.len()
        invariant
            i <= c.len(),
            out@ =~= forward_slashes(c@.take(i as int)),
        decreases c.len() - i,
    {
        if c[i] == '\\' {
            out.push('/');
        } else {
            out.push(c[i]);
        }
        i += 1;
    }
    assert(c@.take(c.len() as int) == c@);
    string_from_chars(out.as_slice())
}

fn push_project_paths(out: &mut Vec<String>, projects: &Vec<SlnxProject>)
    ensures
        views(final(out)@) == views(old(out)@) + slnx_paths(projects@),
{
    let mut i: usize = 0;
    assert(projects@.take(0) =~= Seq::<SlnxProject>::empty());
    assert(views(out@) =~= views(old(out)@) + slnx_paths(projects@.take(0)));
    while i < projects.len()
        invariant
            i <= projects@.len(),
            views(out@) == views(old(out)@) + slnx_paths(projects@.take(i as int)),
        decreases projects@.len() - i,
    {
        assert(projects@.take(i + 1).drop_last() =~= projects@.take(i as int));
        let p = forward_slash_string(&projects[i].path);
        let ghost before = views(out@);
        out.push(p);
        assert(views(out@) =~= before.push(p@));
        i += 1;
    }
    assert(projects@.take(projects@.len() as int) =~= projects@);
}

/// The project paths of an `.slnx` solution: its own projects first, then those of each
/// folder, with backslashes turned into forward slashes.
pub fn extract_project_paths(solution: &SlnxSolution) -> (r: Vec<String>)
    ensures
        views(r@) == slnx_paths(solution.projects@) + folder_paths(solution.folders@),
{
    let mut out: Vec<String> = Vec::new();
    assert(views(out@) =~= Seq::<Seq<char>>::empty());
    push_project_paths(&mut out, &solution.projects);
    let mut i: usize = 0;
    assert(solution.folders@.take(0) =~= Seq::<SlnxFolder>::empty());
    assert(views(out@) =~= slnx_paths(solution.projects@) + folder_paths(solution.folders@.take(0)));
    while i < solution.folders.len()
        invariant
            i <= solution.folders@.len(),
            views(out@) == slnx_paths(solution.projects@) + folder_paths(solution.folders@.take(i as int)),
        decreases solution.folders@.len() - i,
    {
        assert(solution.folders@.take(i + 1).drop_last() =~= solution.folders@.take(i as int));
        push_project_paths(&mut out, &solution.folders[i].projects);
        i += 1;
    }
    assert(solution.folders@.take(solution.folders@.len() as int) =~= solution.folders@);
    out
}

} // verus!
