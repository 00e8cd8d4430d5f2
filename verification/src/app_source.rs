//! Discovering what kind of .NET application a directory or a configured file holds.
use vstd::prelude::*;
use crate::paths::{spec_extension, extension_chars};
use crate::text::{str_chars, chars_equal, string_from_chars, to_lowercase, spec_to_lowercase, str_to_string, all_ascii, ascii_lowercase};
use crate::utils::single_item;
use crate::dotnet::project::{self, Project};
use crate::dotnet::solution::{self, Solution};

verus! {

/// `std::io::Error`, carried through as an opaque value.
#[verifier::external_type_specification]
#[verifier::external_body]
pub struct ExIoError(std::io::Error);

/// Extensions of solution files.
pub const SOLUTION_EXTENSIONS: [&'static str; 2] = ["sln", "slnx"];

/// Extensions of project files.
pub const PROJECT_EXTENSIONS: [&'static str; 3] = ["csproj", "vbproj", "fsproj"];

/// Extensions of file-based apps.
pub const FILE_BASED_APP_EXTENSIONS: [&'static str; 1] = ["cs"];

/// The views of a list of string slices.
pub open spec fn str_views(v: Seq<&str>) -> Seq<Seq<char>> {
    v.map_values(|s: &str| s@)
}

/// The views of a list of strings.
pub open spec fn string_views(v: Seq<String>) -> Seq<Seq<char>> {
    v.map_values(|s: String| s@)
}

/// `sln` and `slnx`.
pub open spec fn solution_extensions() -> Seq<Seq<char>> {
    seq![seq!['s', 'l', 'n'], seq!['s', 'l', 'n', 'x']]
}

/// `csproj`, `vbproj` and `fsproj`.
pub open spec fn project_extensions() -> Seq<Seq<char>> {
    seq![
        seq!['c', 's', 'p', 'r', 'o', 'j'],
        seq!['v', 'b', 'p', 'r', 'o', 'j'],
        seq!['f', 's', 'p', 'r', 'o', 'j'],
    ]
}

/// `cs`.
pub open spec fn file_based_app_extensions() -> Seq<Seq<char>> {
    seq![seq!['c', 's']]
}

/// The path's extension is one of `exts` (compared exactly).
pub open spec fn has_extension_in(p: Seq<char>, exts: Seq<Seq<char>>) -> bool {
    spec_extension(p) matches Some(e) && exts.contains(e)
}

/// The paths whose extension is one of `exts`, in the order given.
pub open spec fn paths_with_extension(paths: Seq<Seq<char>>, exts: Seq<Seq<char>>) -> Seq<Seq<char>>
    decreases paths.len(),
{
    if paths.len() == 0 {
        Seq::empty()
    } else {
        let r = paths_with_extension(paths.drop_last(), exts);
        if has_extension_in(paths.last(), exts) {
            r.push(paths.last())
        } else {
            r
        }
    }
}

/// The paths with one of the extensions are exactly those of the listing whose extension is
/// one of them, each once, in the listing's order.
pub proof fn lemma_paths_with_extension_keeps_exactly_matching_paths(paths: Seq<Seq<char>>, exts: Seq<Seq<char>>)
    ensures
        paths_with_extension(paths, exts) == paths.filter(
            |p: Seq<char>| exists|e: Seq<char>| spec_extension(p) == Some(e) && exts.contains(e),
        ),
    decreases paths.len(),
{
    reveal(Seq::filter);
    if paths.len() > 0 {
        lemma_paths_with_extension_keeps_exactly_matching_paths(paths.drop_last(), exts);
        let p = paths.last();
        if has_extension_in(p, exts) {
            let e = spec_extension(p)->Some_0;
            assert(spec_extension(p) == Some(e) && exts.contains(e));
        }
    }
}

fn contains_extension(exts: &[&str], e: &Vec<char>) -> (r: bool)
    ensures
        r == str_views(exts@).contains(e@),
{
    let mut i: usize = 0;
    while i < exts.len()
        invariant
            i <= exts@.len(),
            forall|j: int| 0 <= j < i ==> exts@[j]@ != e@,
        decreases exts@.len() - i,
    {
        let x = str_chars(exts[i]);
        if chars_equal(&x, e) {
            assert(str_views(exts@)[i as int] == e@);
            return true;
        }
        i += 1;
    }
    assert forall|j: int| 0 <= j < str_views(exts@).len() implies str_views(exts@)[j] != e@ by {
        assert(str_views(exts@)[j] == exts@[j]@);
    }
    false
}

/// The paths whose extension is one of `extensions`, in the order given.
pub fn filter_by_extension(paths: &[String], extensions: &[&str]) -> (r: Vec<String>)
    ensures
        string_views(r@) == paths_with_extension(string_views(paths@), str_views(extensions@)),
{
    let mut r: Vec<String> = Vec::new();
    let mut i: usize = 0;
    while i < paths.len()
        invariant
            i <= paths@.len(),
            string_views(r@) == paths_with_extension(
                string_views(paths@.take(i as int)),
                str_views(extensions@),
            ),
        decreases paths@.len() - i,
    {
        assert(string_views(paths@.take(i + 1)).drop_last() == string_views(paths@.take(i as int)));
        assert(string_views(paths@.take(i + 1)).last() == paths@[i as int]@);
        let keep = match extension_chars(paths[i].as_str()) {
            Some(e) => contains_extension(extensions, &e),
            None => false,
        };
        if keep {
            let p = paths[i].clone();
            r.push(p);
            assert(string_views(r@) == string_views(r@.drop_last()).push(p@));
        }
        i += 1;
    }
    assert(paths@.take(paths@.len() as int) == paths@);
    r
}

/// Where a .NET application comes from.
#[derive(Debug, Clone, PartialEq)]
pub enum AppSource {
    Solution(String),
    Project(String),
    FileBasedApp(String),
}

/// Why no application source could be chosen.
#[derive(Debug)]
pub enum DiscoveryError {
    DetectionIoError(std::io::Error),
    MultipleSolutionFiles(Vec<String>),
    MultipleProjectFiles(Vec<String>),
    MultipleFileBasedApps(Vec<String>),
    NoAppFound,
    UnrecognizedAppExtension(String),
}

impl From<std::io::Error> for DiscoveryError {
    fn from(error: std::io::Error) -> (r: Self)
        ensures
            r == DiscoveryError::DetectionIoError(error),
    {
        DiscoveryError::DetectionIoError(error)
    }
}

impl vstd::std_specs::convert::FromSpecImpl<std::io::Error> for DiscoveryError {
    open spec fn obeys_from_spec() -> bool {
        true
    }

    open spec fn from_spec(error: std::io::Error) -> Self {
        DiscoveryError::DetectionIoError(error)
    }
}

/// The path that an application source points at.
pub open spec fn source_path(s: AppSource) -> Seq<char> {
    match s {
        AppSource::Solution(p) => p@,
        AppSource::Project(p) => p@,
        AppSource::FileBasedApp(p) => p@,
    }
}

/// `r` is the application source that a file at `path` with the lower-cased extension
/// `lower_ext` is: a solution, a project or a file-based app by its extension, else the
/// error naming the path.
pub open spec fn classified_as(path: Seq<char>, lower_ext: Seq<char>, r: Result<AppSource, DiscoveryError>) -> bool {
    if solution_extensions().contains(lower_ext) {
        r matches Ok(AppSource::Solution(p)) && p@ == path
    } else if project_extensions().contains(lower_ext) {
        r matches Ok(AppSource::Project(p)) && p@ == path
    } else if file_based_app_extensions().contains(lower_ext) {
        r matches Ok(AppSource::FileBasedApp(p)) && p@ == path
    } else {
        r matches Err(DiscoveryError::UnrecognizedAppExtension(p)) && p@ == path
    }
}

/// Solution files take precedence: a directory with exactly one solution file is built as
/// that solution, whatever project or file-based app files it also holds.
pub proof fn lemma_single_solution_preferred(dir_files: Seq<String>, r: Result<AppSource, DiscoveryError>)
    requires
        AppSource::chosen_from_files(dir_files, r),
        paths_with_extension(string_views(dir_files), solution_extensions()).len() == 1,
    ensures
        r matches Ok(AppSource::Solution(path)) && path@ == paths_with_extension(
            string_views(dir_files),
            solution_extensions(),
        )[0],
{
}

/// Without a solution file, a directory with exactly one project file is built as that
/// project, whatever file-based app files it also holds.
pub proof fn lemma_single_project_without_solution(dir_files: Seq<String>, r: Result<AppSource, DiscoveryError>)
    requires
        AppSource::chosen_from_files(dir_files, r),
        paths_with_extension(string_views(dir_files), solution_extensions()).len() == 0,
        paths_with_extension(string_views(dir_files), project_extensions()).len() == 1,
    ensures
        r matches Ok(AppSource::Project(path)) && path@ == paths_with_extension(
            string_views(dir_files),
            project_extensions(),
        )[0],
{
}

/// The extension lists as constants equal their spec counterparts.
pub proof fn lemma_extension_constants()
    ensures
        str_views(SOLUTION_EXTENSIONS@) == solution_extensions(),
        str_views(PROJECT_EXTENSIONS@) == project_extensions(),
        str_views(FILE_BASED_APP_EXTENSIONS@) == file_based_app_extensions(),
{
    reveal_strlit("sln");
    reveal_strlit("slnx");
    reveal_strlit("csproj");
    reveal_strlit("vbproj");
    reveal_strlit("fsproj");
    reveal_strlit("cs");
    assert(SOLUTION_EXTENSIONS@[0]@ =~= seq!['s', 'l', 'n']);
    assert(SOLUTION_EXTENSIONS@[1]@ =~= seq!['s', 'l', 'n', 'x']);
    assert(str_views(SOLUTION_EXTENSIONS@) =~= solution_extensions());
    assert(PROJECT_EXTENSIONS@[0]@ =~= seq!['c', 's', 'p', 'r', 'o', 'j']);
    assert(PROJECT_EXTENSIONS@[1]@ =~= seq!['v', 'b', 'p', 'r', 'o', 'j']);
    assert(PROJECT_EXTENSIONS@[2]@ =~= seq!['f', 's', 'p', 'r', 'o', 'j']);
    assert(str_views(PROJECT_EXTENSIONS@) =~= project_extensions());
    assert(FILE_BASED_APP_EXTENSIONS@[0]@ =~= seq!['c', 's']);
    assert(str_views(FILE_BASED_APP_EXTENSIONS@) =~= file_based_app_extensions());
}

impl AppSource {
    /// Chooses the application source among the files that listing a directory gave:
    /// a failed listing is `DetectionIoError`; else the single solution file; else, with no
    /// solution file, the single project file; else, with no project file either, the single
    /// file-based app. Two or more files of the first kind that is present are an error
    /// naming them; none of any kind is `NoAppFound`.
    pub fn from_dir(listing: Result<Vec<String>, std::io::Error>) -> (r: Result<Self, DiscoveryError>)
        ensures
            Self::from_dir_result(listing, r),
    {
        match listing {
            Err(e) => Err(DiscoveryError::from(e)),
            Ok(dir_files) => Self::from_files(dir_files.as_slice()),
        }
    }

    /// `r` is what [`AppSource::from_dir`] gives for `listing`.
    pub open spec fn from_dir_result(listing: Result<Vec<String>, std::io::Error>, r: Result<Self, DiscoveryError>) -> bool {
        match listing {
            Err(e) => r == Err::<Self, DiscoveryError>(DiscoveryError::DetectionIoError(e)),
            Ok(dir_files) => Self::chosen_from_files(dir_files@, r),
        }
    }

    /// `r` is the application source chosen among `dir_files` (see [`AppSource::from_files`]).
    pub open spec fn chosen_from_files(dir_files: Seq<String>, r: Result<Self, DiscoveryError>) -> bool {
            ({
                let files = string_views(dir_files);
                let s = paths_with_extension(files, solution_extensions());
                let p = paths_with_extension(files, project_extensions());
                let a = paths_with_extension(files, file_based_app_extensions());
                if s.len() == 1 {
                    r matches Ok(AppSource::Solution(path)) && path@ == s[0]
                } else if s.len() > 1 {
                    r matches Err(DiscoveryError::MultipleSolutionFiles(v)) && string_views(v@) == s
                } else if p.len() == 1 {
                    r matches Ok(AppSource::Project(path)) && path@ == p[0]
                } else if p.len() > 1 {
                    r matches Err(DiscoveryError::MultipleProjectFiles(v)) && string_views(v@) == p
                } else if a.len() == 1 {
                    r matches Ok(AppSource::FileBasedApp(path)) && path@ == a[0]
                } else if a.len() > 1 {
                    r matches Err(DiscoveryError::MultipleFileBasedApps(v)) && string_views(v@) == a
                } else {
                    r matches Err(DiscoveryError::NoAppFound)
                }
            })
    }

    /// Chooses the application source among the files of a directory (their paths): the
    /// single solution file; else, with no solution file, the single project file; else,
    /// with no project file either, the single file-based app. Two or more files of the
    /// first kind that is present are an error naming them; none of any kind is
    /// `NoAppFound`.
    pub fn from_files(dir_files: &[String]) -> (r: Result<Self, DiscoveryError>)
        ensures
            Self::chosen_from_files(dir_files@, r),
    {
        proof {
            lemma_extension_constants();
        }
        let solutions = filter_by_extension(dir_files, &SOLUTION_EXTENSIONS);
        match single_item(solutions) {
            Err(v) => return Err(DiscoveryError::MultipleSolutionFiles(v)),
            Ok(Some(path)) => return Ok(AppSource::Solution(path)),
            Ok(None) => {},
        }
        let projects = filter_by_extension(dir_files, &PROJECT_EXTENSIONS);
        match single_item(projects) {
            Err(v) => return Err(DiscoveryError::MultipleProjectFiles(v)),
            Ok(Some(path)) => return Ok(AppSource::Project(path)),
            Ok(None) => {},
        }
        let apps = filter_by_extension(dir_files, &FILE_BASED_APP_EXTENSIONS);
        match single_item(apps) {
            Err(v) => Err(DiscoveryError::MultipleFileBasedApps(v)),
            Ok(Some(path)) => Ok(AppSource::FileBasedApp(path)),
            Ok(None) => Err(DiscoveryError::NoAppFound),
        }
    }

    /// The application source that a file at `file_path` with the (already lower-cased)
    /// extension `lower_ext` is.
    pub fn from_lowercase_extension(file_path: &str, lower_ext: &str) -> (r: Result<Self, DiscoveryError>)
        ensures
            classified_as(file_path@, lower_ext@, r),
    {
        proof {
            lemma_extension_constants();
        }
        let e = str_chars(lower_ext);
        let path = str_to_string(file_path);
        if contains_extension(&SOLUTION_EXTENSIONS, &e) {
            Ok(AppSource::Solution(path))
        } else if contains_extension(&PROJECT_EXTENSIONS, &e) {
            Ok(AppSource::Project(path))
        } else if contains_extension(&FILE_BASED_APP_EXTENSIONS, &e) {
            Ok(AppSource::FileBasedApp(path))
        } else {
            Err(DiscoveryError::UnrecognizedAppExtension(path))
        }
    }

    /// `r` is what [`AppSource::from_file`] gives for the path `file_path`.
    pub open spec fn from_file_result(file_path: Seq<char>, r: Result<Self, DiscoveryError>) -> bool {
        match spec_extension(file_path) {
            None => r matches Err(DiscoveryError::UnrecognizedAppExtension(p)) && p@ == file_path,
            Some(e) => classified_as(file_path, spec_to_lowercase(e), r),
        }
    }

    /// The application source that the file at `file_path` is, by its extension compared
    /// case-insensitively; a file without an extension, or with another one, is
    /// `UnrecognizedAppExtension`.
    pub fn from_file(file_path: &str) -> (r: Result<Self, DiscoveryError>)
        ensures
            Self::from_file_result(file_path@, r),
            match spec_extension(file_path@) {
                Some(e) => all_ascii(e) ==> classified_as(file_path@, ascii_lowercase(e), r),
                None => true,
            },
    {
        match extension_chars(file_path) {
            None => Err(DiscoveryError::UnrecognizedAppExtension(str_to_string(file_path))),
            Some(e) => {
                let ext = string_from_chars(e.as_slice());
                let lower = to_lowercase(ext.as_str());
                Self::from_lowercase_extension(file_path, lower.as_str())
            },
        }
    }

    /// The path of the application source.
    pub fn path(&self) -> (r: &String)
        ensures
            r@ == source_path(*self),
    {
        match self {
            AppSource::Solution(path) => path,
            AppSource::Project(path) => path,
            AppSource::FileBasedApp(path) => path,
        }
    }
}

/// Why the application source could not be loaded as a solution.
#[derive(Debug)]
pub enum LoadError {
    Solution(solution::LoadError),
    Project(project::LoadError),
    FileBasedApp(std::io::Error),
}

/// `f`, given a path with view `p`, may answer `res`.
pub open spec fn answers<T, F: FnOnce(&str) -> T>(f: F, p: Seq<char>, res: T) -> bool {
    exists|s: &str| s@ == p && #[trigger] call_ensures(f, (s,), res)
}

/// `r` is the solution that loading `source` gives, where each loader may answer what it
/// is asked: a solution file is loaded as a solution; a project file or a file-based app is
/// loaded as a project and makes a solution of that one project, at its path.
pub open spec fn loaded_as<S, P, F>(
    source: AppSource,
    load_solution: S,
    load_project: P,
    load_file_based_app: F,
    r: Result<Solution, LoadError>,
) -> bool where
    S: FnOnce(&str) -> Result<Solution, solution::LoadError>,
    P: FnOnce(&str) -> Result<Project, project::LoadError>,
    F: FnOnce(&str) -> Result<Project, std::io::Error>,
{
    match source {
        AppSource::Solution(path) => exists|res: Result<Solution, solution::LoadError>|
            answers(load_solution, path@, res) && match res {
                Ok(s) => r == Ok::<Solution, LoadError>(s),
                Err(e) => r matches Err(LoadError::Solution(e2)) && e2 == e,
            },
        AppSource::Project(path) => exists|res: Result<Project, project::LoadError>|
            answers(load_project, path@, res) && match res {
                Ok(p) => r matches Ok(s) && s.path@ == p.path@ && s.projects@ == seq![p],
                Err(e) => r matches Err(LoadError::Project(e2)) && e2 == e,
            },
        AppSource::FileBasedApp(path) => exists|res: Result<Project, std::io::Error>|
            answers(load_file_based_app, path@, res) && match res {
                Ok(p) => r matches Ok(s) && s.path@ == p.path@ && s.projects@ == seq![p],
                Err(e) => r matches Err(LoadError::FileBasedApp(e2)) && e2 == e,
            },
    }
}

/// Loads an application source as a solution (see [`loaded_as`]).
pub fn load_app_source<S, P, F>(
    source: AppSource,
    load_solution: S,
    load_project: P,
    load_file_based_app: F,
) -> (r: Result<Solution, LoadError>) where
    S: FnOnce(&str) -> Result<Solution, solution::LoadError>,
    P: FnOnce(&str) -> Result<Project, project::LoadError>,
    F: FnOnce(&str) -> Result<Project, std::io::Error>,

    requires
        forall|s: &str| call_requires(load_solution, (s,)),
        forall|s: &str| call_requires(load_project, (s,)),
        forall|s: &str| call_requires(load_file_based_app, (s,)),
    ensures
        loaded_as(source, load_solution, load_project, load_file_based_app, r),
{
    match source {
        AppSource::Solution(path) => {
            let s = path.as_str();
            let res = load_solution(s);
            assert(answers(load_solution, path@, res));
            match res {
                Ok(sol) => Ok(sol),
                Err(e) => Err(LoadError::Solution(e)),
            }
        },
        AppSource::Project(path) => {
            let s = path.as_str();
            let res = load_project(s);
            assert(answers(load_project, path@, res));
            match res {
                Ok(p) => Ok(Solution::ephemeral(p)),
                Err(e) => Err(LoadError::Project(e)),
            }
        },
        AppSource::FileBasedApp(path) => {
            let s = path.as_str();
            let res = load_file_based_app(s);
            assert(answers(load_file_based_app, path@, res));
            match res {
                Ok(p) => Ok(Solution::ephemeral(p)),
                Err(e) => Err(LoadError::FileBasedApp(e)),
            }
        },
    }
}

} // verus!
