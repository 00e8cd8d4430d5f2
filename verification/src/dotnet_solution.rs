//! Solutions of `.sln` files and the projects they reference, loaded.
use vstd::prelude::*;
use crate::dotnet_project::{DotnetProject, LoadProjectError};
use crate::paths::{spec_join, spec_parent, join, parent};
use crate::sln::{extract_project_references, solution_project_paths, views};
use crate::text::str_to_string;

verus! {

/// A solution and its loaded projects.
pub struct DotnetSolution {
    pub path: String,
    pub projects: Vec<DotnetProject>,
}

/// Why a solution could not be loaded.
#[derive(Debug)]
pub enum LoadSolutionError {
    ReadSolutionFile(std::io::Error),
    LoadProject(LoadProjectError),
}

/// Extracts the project paths of a solution file's contents, one per project line, in the
/// order of the lines, with backslashes turned into forward slashes.
pub fn extract_project_paths(contents: &str) -> (r: Vec<String>)
    ensures
        views(r@) == solution_project_paths(contents@),
{
    extract_project_references(contents)
}

/// The paths of the projects that the solution at `solution_path` with contents `contents`
/// references, each joined onto the solution's directory.
pub open spec fn project_file_paths_of(solution_path: Seq<char>, contents: Seq<char>) -> Seq<Seq<char>> {
    solution_project_paths(contents).map_values(|p: Seq<char>| spec_join(spec_parent(solution_path).unwrap(), p))
}

/// The paths of the projects that the solution at `path` references, from what reading the
/// solution file gave: a failed read is `ReadSolutionFile`, whatever the path. A file that
/// was read has a parent directory.
pub fn project_file_paths(path: &str, contents: Result<String, std::io::Error>) -> (r: Result<Vec<String>, LoadSolutionError>)
    requires
        contents is Ok ==> spec_parent(path@) is Some,
    ensures
        match contents {
            Err(e) => r matches Err(LoadSolutionError::ReadSolutionFile(e2)) && e2 == e,
            Ok(c) => r matches Ok(v) && views(v@) == project_file_paths_of(path@, c@),
        },
{
    let c = match contents {
        Err(e) => return Err(LoadSolutionError::ReadSolutionFile(e)),
        Ok(c) => c,
    };
    let dir = parent(path).unwrap();
    let relative = extract_project_references(c.as_str());
    let ghost target = project_file_paths_of(path@, c@);
    let mut r: Vec<String> = Vec::new();
    let mut i: usize = 0;
    while i < relative.len()
        invariant
            i <= relative@.len(),
            views(relative@) == solution_project_paths(c@),
            target == project_file_paths_of(path@, c@),
            spec_parent(path@) == Some(dir@),
            r@.len() == i,
            forall|j: int| 0 <= j < i ==> r@[j]@ == target[j],
        decreases relative@.len() - i,
    {
        assert(views(relative@)[i as int] == relative@[i as int]@);
        r.push(join(dir.as_str(), relative[i].as_str()));
        i += 1;
    }
    assert(views(r@) =~= target);
    Ok(r)
}

/// `load_project`, asked for the project at a path with view `p`, may answer `res`.
pub open spec fn loads_as<L: Fn(&str) -> Result<DotnetProject, LoadProjectError>>(
    load_project: L,
    p: Seq<char>,
    res: Result<DotnetProject, LoadProjectError>,
) -> bool {
    exists|s: &str| s@ == p && #[trigger] call_ensures(load_project, (s,), res)
}

/// `load_project` may load the project at a path with view `p` successfully.
pub open spec fn loads_ok<L: Fn(&str) -> Result<DotnetProject, LoadProjectError>>(load_project: L, p: Seq<char>) -> bool {
    exists|res: Result<DotnetProject, LoadProjectError>| res is Ok && #[trigger] loads_as(load_project, p, res)
}

impl DotnetSolution {
    /// Loads the solution at `path` from what reading its file gave, loading each project
    /// that it references with `load_project`, in order, and stopping at the first error.
    pub fn load_from_path<L>(path: &str, contents: Result<String, std::io::Error>, load_project: L) -> (r: Result<Self, LoadSolutionError>) where
        L: Fn(&str) -> Result<DotnetProject, LoadProjectError>,

        requires
            contents is Ok ==> spec_parent(path@) is Some,
            forall|s: &str| call_requires(load_project, (s,)),
        ensures
            match contents {
                Err(e) => r matches Err(LoadSolutionError::ReadSolutionFile(e2)) && e2 == e,
                Ok(c) => {
                    let paths = project_file_paths_of(path@, c@);
                    match r {
                        Ok(s) => {
                            &&& s.path@ == path@
                            &&& s.projects@.len() == paths.len()
                            &&& forall|i: int| 0 <= i < paths.len()
                                ==> loads_as(load_project, #[trigger] paths[i], Ok(s.projects@[i]))
                        },
                        Err(LoadSolutionError::LoadProject(e)) => exists|k: int| 0 <= k < paths.len()
                            && loads_as(load_project, #[trigger] paths[k], Err(e))
                            && forall|j: int| 0 <= j < k ==> loads_ok(load_project, #[trigger] paths[j]),
                        Err(LoadSolutionError::ReadSolutionFile(_)) => false,
                    }
                },
            },
    {
        let ghost c_view = match contents {
            Ok(ref c) => c@,
            Err(_) => Seq::empty(),
        };
        let paths = match project_file_paths(path, contents) {
            Err(e) => return Err(e),
            Ok(v) => v,
        };
        let ghost target = project_file_paths_of(path@, c_view);
        let mut projects: Vec<DotnetProject> = Vec::new();
        let mut i: usize = 0;
        while i < paths.len()
            invariant
                i <= paths@.len(),
                views(paths@) == target,
                contents matches Ok(c) && c@ == c_view,
                target == project_file_paths_of(path@, c_view),
                projects@.len() == i,
                forall|s: &str| call_requires(load_project, (s,)),
                forall|j: int| 0 <= j < i ==> loads_as(load_project, #[trigger] target[j], Ok(projects@[j])),
            decreases paths@.len() - i,
        {
            assert(views(paths@)[i as int] == paths@[i as int]@);
            let s = paths[i].as_str();
            let res = load_project(s);
            assert(call_ensures(load_project, (s,), res));
            match res {
                Ok(p) => {
                    projects.push(p);
                },
                Err(e) => {
                    assert forall|j: int| 0 <= j < i implies loads_ok(load_project, #[trigger] target[j]) by {
                        assert(loads_as(load_project, target[j], Ok::<DotnetProject, LoadProjectError>(projects@[j])));
                    }
                    assert(loads_as(load_project, target[i as int], Err(e)));
                    return Err(LoadSolutionError::LoadProject(e));
                },
            }
            i += 1;
        }
        Ok(DotnetSolution { path: str_to_string(path), projects })
    }

    /// A solution made of one project, at the project's path.
    pub fn ephemeral(project: DotnetProject) -> (r: Self)
        ensures
            r.path@ == project.path@,
            r.projects@ == seq![project],
    {
        let path = project.path.clone();
        DotnetSolution { path, projects: vec![project] }
    }
}

} // verus!
