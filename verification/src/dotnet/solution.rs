//! .NET solutions: the projects that a solution file references, loaded.
use vstd::prelude::*;
use crate::dotnet::project::{self, Project};
use crate::dotnet::slnx::{SlnxSolution, extract_project_paths, slnx_paths, folder_paths};
use crate::paths::{spec_join, spec_parent, spec_extension, join, parent, extension};
use crate::sln::{solution_project_paths, views};
use crate::text::{str_to_string, str_chars, chars_equal_str};

pub use crate::sln::extract_project_references;

verus! {

/// A solution and its loaded projects.
pub struct Solution {
    pub path: String,
    pub projects: Vec<Project>,
}

/// Why a solution could not be loaded.
#[derive(Debug)]
pub enum LoadError {
    ReadSolutionFile(std::io::Error),
    ProjectNotFound(String),
    LoadProject(project::LoadError),
    SlnxParseError(quick_xml::DeError),
}

/// `loader`, given a path with view `p`, may answer `res`.
pub open spec fn loads_as<L: Fn(String) -> Result<Project, LoadError>>(
    loader: L,
    p: Seq<char>,
    res: Result<Project, LoadError>,
) -> bool {
    exists|q: String| q@ == p && #[trigger] call_ensures(loader, (q,), res)
}

/// `loader` may load the project at a path with view `p` successfully.
pub open spec fn loads_ok<L: Fn(String) -> Result<Project, LoadError>>(loader: L, p: Seq<char>) -> bool {
    exists|res: Result<Project, LoadError>| res is Ok && #[trigger] loads_as(loader, p, res)
}

/// The path of a project that the solution at `solution_path` references as `reference`,
/// when the solution path has a parent directory.
pub open spec fn referenced_project_path(solution_path: Seq<char>, reference: Seq<char>) -> Option<Seq<char>> {
    match spec_parent(solution_path) {
        Some(dir) => Some(spec_join(dir, reference)),
        None => None,
    }
}

impl Solution {
    /// A solution made of one project, at the project's path.
    pub fn ephemeral(project: Project) -> (r: Self)
        ensures
            r.path@ == project.path@,
            r.projects@ == seq![project],
    {
        let path = project.path.clone();
        Solution { path, projects: vec![project] }
    }

    /// Loads the solution at `path` that references the projects `project_paths` (relative
    /// to its directory), loading each project with `load_project`, in order, and stopping
    /// at the first error, which is returned. A solution path without a parent directory
    /// references no project.
    pub fn from_project_paths<L>(path: &str, project_paths: Vec<String>, load_project: L) -> (r: Result<Self, LoadError>) where
        L: Fn(String) -> Result<Project, LoadError>,

        requires
            forall|q: String| call_requires(load_project, (q,)),
        ensures
            match spec_parent(path@) {
                None => r matches Ok(s) && s.path@ == path@ && s.projects@.len() == 0,
                Some(dir) => match r {
                    Ok(s) => {
                        &&& s.path@ == path@
                        &&& s.projects@.len() == project_paths@.len()
                        &&& forall|i: int| 0 <= i < project_paths@.len() ==> loads_as(load_project,
                            spec_join(dir, #[trigger] project_paths@[i]@), Ok(s.projects@[i]))
                    },
                    Err(e) => exists|k: int| 0 <= k < project_paths@.len()
                        && loads_as(load_project, spec_join(dir, #[trigger] project_paths@[k]@), Err(e))
                        && forall|j: int| 0 <= j < k ==> loads_ok(load_project,
                            spec_join(dir, #[trigger] project_paths@[j]@)),
                },
            },
    {
        let dir = match parent(path) {
            Some(d) => d,
            None => return Ok(Solution { path: str_to_string(path), projects: Vec::new() }),
        };
        let mut projects: Vec<Project> = Vec::new();
        let mut i: usize = 0;
        while i < project_paths.len()
            invariant
                i <= project_paths@.len(),
                projects@.len() == i,
                spec_parent(path@) == Some(dir@),
                forall|q: String| call_requires(load_project, (q,)),
                forall|j: int| 0 <= j < i ==> loads_as(load_project, spec_join(dir@, #[trigger] project_paths@[j]@), Ok(projects@[j])),
            decreases project_paths@.len() - i,
        {
            let full = join(dir.as_str(), project_paths[i].as_str());
            let ghost q = full;
            let res = load_project(full);
            assert(call_ensures(load_project, (q,), res));
            match res {
                Ok(p) => {
                    projects.push(p);
                },
                Err(e) => {
                    assert forall|j: int| 0 <= j < i implies loads_ok(load_project,
                        spec_join(dir@, #[trigger] project_paths@[j]@)) by {
                        assert(loads_as(load_project, spec_join(dir@, project_paths@[j]@), Ok::<Project, LoadError>(projects@[j])));
                    }
                    assert(loads_as(load_project, spec_join(dir@, project_paths@[i as int]@), Err(e)));
                    return Err(e);
                },
            }
            i += 1;
        }
        Ok(Solution { path: str_to_string(path), projects })
    }
}

/// `parse_slnx`, given the contents with view `c`, may answer `res`.
pub open spec fn slnx_parses_as<P: FnOnce(&str) -> Result<SlnxSolution, quick_xml::DeError>>(
    parse_slnx: P,
    c: Seq<char>,
    res: Result<SlnxSolution, quick_xml::DeError>,
) -> bool {
    exists|s: &str| s@ == c && #[trigger] call_ensures(parse_slnx, (s,), res)
}

/// Whether the solution file at `path` is an XML solution (extension `slnx`).
pub open spec fn is_slnx(path: Seq<char>) -> bool {
    spec_extension(path) == Some("slnx"@)
}

/// The paths of the projects that the solution file at `path` with `contents` references:
/// for an XML solution (`.slnx`), those of the document that `parse_slnx` reads from the
/// contents (its error being `SlnxParseError`); for any other, those of its project lines.
pub fn referenced_project_paths<P>(path: &str, contents: &str, parse_slnx: P) -> (r: Result<Vec<String>, LoadError>) where
    P: FnOnce(&str) -> Result<SlnxSolution, quick_xml::DeError>,

    requires
        forall|s: &str| call_requires(parse_slnx, (s,)),
    ensures
        is_slnx(path@) ==> exists|res: Result<SlnxSolution, quick_xml::DeError>|
            slnx_parses_as(parse_slnx, contents@, res) && match res {
                Ok(doc) => r matches Ok(v) && views(v@) == slnx_paths(doc.projects@) + folder_paths(doc.folders@),
                Err(e) => r matches Err(LoadError::SlnxParseError(e2)) && e2 == e,
            },
        !is_slnx(path@) ==> (r matches Ok(v) && views(v@) == solution_project_paths(contents@)),
{
    let slnx = match extension(path) {
        Some(e) => {
            let ec = str_chars(e.as_str());
            chars_equal_str(&ec, "slnx")
        },
        None => false,
    };
    if slnx {
        let res = parse_slnx(contents);
        assert(slnx_parses_as(parse_slnx, contents@, res));
        match res {
            Ok(doc) => Ok(extract_project_paths(&doc)),
            Err(e) => Err(LoadError::SlnxParseError(e)),
        }
    } else {
        Ok(extract_project_references(contents))
    }
}

/// `try_exists`, asked about a path with view `p`, may answer `res`.
pub open spec fn exists_answers<X: FnOnce(&str) -> Result<bool, std::io::Error>>(
    try_exists: X,
    p: Seq<char>,
    res: Result<bool, std::io::Error>,
) -> bool {
    exists|s: &str| s@ == p && #[trigger] call_ensures(try_exists, (s,), res)
}

/// Loads the project at `path` referenced by a solution: asks `try_exists` whether it exists (on a
/// file system, `Path::try_exists`); an error there is a project read error, a missing
/// project is `ProjectNotFound`, and an existing one is loaded with `load`.
pub fn try_load_project<X, LP>(path: String, try_exists: X, load: LP) -> (r: Result<Project, LoadError>) where
    X: FnOnce(&str) -> Result<bool, std::io::Error>,
    LP: FnOnce(&str) -> Result<Project, project::LoadError>,

    requires
        forall|s: &str| call_requires(try_exists, (s,)),
        forall|s: &str| call_requires(load, (s,)),
    ensures
        exists|res: Result<bool, std::io::Error>| exists_answers(try_exists, path@, res) && match res {
            Err(e) => r == Err::<Project, LoadError>(LoadError::LoadProject(project::LoadError::ReadProjectFile(e))),
            Ok(false) => r matches Err(LoadError::ProjectNotFound(p)) && p@ == path@,
            Ok(true) => exists|s: &str, lr: Result<Project, project::LoadError>|
                s@ == path@ && #[trigger] call_ensures(load, (s,), lr) && match lr {
                    Ok(p) => r == Ok::<Project, LoadError>(p),
                    Err(e) => r == Err::<Project, LoadError>(LoadError::LoadProject(e)),
                },
        },
{
    let s = path.as_str();
    let res = try_exists(s);
    assert(exists_answers(try_exists, path@, res));
    match res {
        Err(e) => Err(LoadError::LoadProject(project::LoadError::ReadProjectFile(e))),
        Ok(false) => Err(LoadError::ProjectNotFound(path)),
        Ok(true) => {
            let s2 = path.as_str();
            let lr = load(s2);
            assert(call_ensures(load, (s2,), lr));
            match lr {
                Ok(p) => Ok(p),
                Err(e) => Err(LoadError::LoadProject(e)),
            }
        },
    }
}

} // verus!
