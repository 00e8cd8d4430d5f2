//! Where `dotnet publish` puts the framework-dependent executable of a project.
use vstd::prelude::*;
use crate::dotnet_project::{DotnetProject, ProjectType};
use crate::dotnet_rid::{RuntimeIdentifier, rid_text};
use crate::paths::{parent, file_stem, join, spec_parent, spec_file_stem, spec_join};

verus! {

/// Why no executable path could be determined.
#[derive(Debug, PartialEq, Eq, Structural, Clone, Copy)]
pub enum ExecutablePathError {
    InvalidProjectType,
    PathError,
}

/// Whether projects of this kind produce an executable.
pub open spec fn produces_executable(t: ProjectType) -> bool {
    match t {
        ProjectType::Library | ProjectType::Unknown => false,
        _ => true,
    }
}

/// The assembly name, where it is set and not empty.
pub open spec fn explicit_assembly_name(project: &DotnetProject) -> Option<Seq<char>> {
    match project.assembly_name {
        Some(name) if name@.len() > 0 => Some(name@),
        _ => None,
    }
}

/// `<dir>/bin/<configuration>/<target framework>/<rid>/publish`.
pub open spec fn publish_dir(dir: Seq<char>, configuration: Seq<char>, target_framework: Seq<char>, rid: RuntimeIdentifier) -> Seq<char> {
    spec_join(
        spec_join(spec_join(spec_join(spec_join(dir, "bin"@), configuration), target_framework), rid_text(rid)),
        "publish"@,
    )
}

/// The executable path of `project`, whose project file is at `project_file_path`, when
/// published with `configuration` for `rid`: the publish directory beside the project file,
/// then the assembly name, or the project file's stem where no assembly name is set. A path
/// without a parent directory is `PathError`; a library or unknown project is
/// `InvalidProjectType`.
pub open spec fn executable_path_result(
    project: &DotnetProject,
    project_file_path: Seq<char>,
    configuration: Seq<char>,
    rid: RuntimeIdentifier,
    r: Result<String, ExecutablePathError>,
) -> bool {
    match spec_parent(project_file_path) {
        None => r == Err::<String, ExecutablePathError>(ExecutablePathError::PathError),
        Some(dir) => if !produces_executable(project.project_type) {
            r == Err::<String, ExecutablePathError>(ExecutablePathError::InvalidProjectType)
        } else {
            let name = match explicit_assembly_name(project) {
                Some(n) => n,
                None => spec_file_stem(project_file_path).unwrap(),
            };
            r matches Ok(p) && p@ == spec_join(
                publish_dir(dir, configuration, project.target_framework@, rid),
                name,
            )
        },
    }
}

/// Determines the path of the framework-dependent executable of `project` (see
/// [`executable_path_result`]).
pub fn determine_executable_path(
    project: &DotnetProject,
    project_file_path: &str,
    configuration: &str,
    rid: &RuntimeIdentifier,
) -> (r: Result<String, ExecutablePathError>)
    requires
        spec_parent(project_file_path@) is Some && explicit_assembly_name(project) is None
            ==> spec_file_stem(project_file_path@) is Some,
    ensures
        executable_path_result(project, project_file_path@, configuration@, *rid, r),
{
    let dir = match parent(project_file_path) {
        Some(d) => d,
        None => return Err(ExecutablePathError::PathError),
    };
    let bin = join(dir.as_str(), "bin");
    let conf = join(bin.as_str(), configuration);
    let tfm = join(conf.as_str(), project.target_framework.as_str());
    let rid_text = rid.to_string();
    let with_rid = join(tfm.as_str(), rid_text.as_str());
    let output_dir = join(with_rid.as_str(), "publish");
    let executable_name = match &project.assembly_name {
        Some(name) if !name.as_str().is_empty() => name.clone(),
        _ => match file_stem(project_file_path) {
            Some(stem) => stem,
            None => {
                assert(false);
                return Err(ExecutablePathError::PathError);
            },
        },
    };
    match project.project_type {
        ProjectType::ConsoleApplication
        | ProjectType::WebApplication
        | ProjectType::RazorApplication
        | ProjectType::BlazorWebAssembly
        | ProjectType::Worker => Ok(join(output_dir.as_str(), executable_name.as_str())),
        ProjectType::Library | ProjectType::Unknown => Err(ExecutablePathError::InvalidProjectType),
    }
}

} // verus!
