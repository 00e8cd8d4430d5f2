//! The launch processes of a published solution: one per executable project, run from the
//! app directory with `bash -c`.
use vstd::prelude::*;
use crate::dotnet::project::{Project, ProjectType};
use crate::dotnet::solution::Solution;
use crate::paths::{spec_join, spec_parent, spec_file_name, spec_strip_prefix, join, parent, file_name, strip_prefix};
use crate::shell::{quote, shell_quoted};
use crate::text::{str_chars, string_from_chars, append_chars, str_to_string};
use crate::utils::{to_rfc1123_label, rfc1123_label_of, is_rfc1123_label, lemma_label_is_valid};

verus! {

/// Where a process runs.
#[derive(Debug, PartialEq, Clone)]
pub enum WorkingDirectory {
    App,
    Directory(String),
}

/// A launch process: its type, command and arguments, whether it is the default process
/// and its working directory.
#[derive(Debug, PartialEq, Clone)]
pub struct Process {
    pub process_type: String,
    pub command: Vec<String>,
    pub args: Vec<String>,
    pub default: bool,
    pub working_directory: WorkingDirectory,
}

/// The (expected) path of a project's published executable: `bin/publish/<assembly name>` in
/// the project's directory.
pub open spec fn executable_path_of(path: Seq<char>, assembly_name: Seq<char>) -> Seq<char> {
    spec_join(spec_join(spec_join(spec_parent(path).unwrap(), "bin"@), "publish"@), assembly_name)
}

/// Returns the (expected) path of the project's compiled executable.
pub fn project_executable_path(project: &Project) -> (r: String)
    requires
        spec_parent(project.path@) is Some,
    ensures
        r@ == executable_path_of(project.path@, project.assembly_name@),
{
    let dir = parent(project.path.as_str()).unwrap();
    let bin = join(dir.as_str(), "bin");
    let publish = join(bin.as_str(), "publish");
    join(publish.as_str(), project.assembly_name.as_str())
}

/// ` --urls http://*:$PORT`
pub open spec fn urls_argument() -> Seq<char> {
    " --urls http://*:$PORT"@
}

/// The shell command that launches the executable at `relative` (to the app directory):
/// `cd <dir>; ./<file>`, each quoted for the shell, with ` --urls http://*:$PORT` for web
/// applications.
pub open spec fn launch_command(relative: Seq<char>, project_type: ProjectType) -> Seq<char> {
    "cd "@ + shell_quoted(spec_parent(relative).unwrap()) + "; ./"@ + shell_quoted(
        spec_file_name(relative).unwrap(),
    ) + if project_type == ProjectType::WebApplication {
        urls_argument()
    } else {
        Seq::empty()
    }
}

/// Constructs the shell command for launching the process (see [`launch_command`]).
pub fn build_command(relative_executable_path: &str, project_type: ProjectType) -> (r: String)
    requires
        spec_parent(relative_executable_path@) is Some,
        spec_file_name(relative_executable_path@) is Some,
    ensures
        r@ == launch_command(relative_executable_path@, project_type),
{
    let dir = parent(relative_executable_path).unwrap();
    let name = file_name(relative_executable_path).unwrap();
    let qd = quote(dir.as_str());
    let qn = quote(name.as_str());
    let mut c = str_chars("cd ");
    append_chars(&mut c, &str_chars(qd.as_str()));
    append_chars(&mut c, &str_chars("; ./"));
    append_chars(&mut c, &str_chars(qn.as_str()));
    if project_type == ProjectType::WebApplication {
        append_chars(&mut c, &str_chars(" --urls http://*:$PORT"));
    }
    assert(c@ =~= launch_command(relative_executable_path@, project_type));
    string_from_chars(c.as_slice())
}

/// The process type of a project: its assembly name as an RFC 1123 label.
pub fn project_process_type(project: &Project) -> (r: String)
    requires
        rfc1123_label_of(project.assembly_name@).len() > 0,
    ensures
        r@ == rfc1123_label_of(project.assembly_name@),
{
    match to_rfc1123_label(project.assembly_name.as_str()) {
        Ok(label) => label,
        Err(_) => {
            assert(false);
            str_to_string("")
        },
    }
}

/// Projects of these types are launched.
pub open spec fn is_launchable(t: ProjectType) -> bool {
    t == ProjectType::ConsoleApplication || t == ProjectType::WebApplication || t
        == ProjectType::WorkerService
}

/// The projects that are launched, in order.
pub open spec fn launchable_projects(projects: Seq<Project>) -> Seq<Project>
    decreases projects.len(),
{
    if projects.len() == 0 {
        Seq::empty()
    } else if is_launchable(projects.last().project_type) {
        launchable_projects(projects.drop_last()).push(projects.last())
    } else {
        launchable_projects(projects.drop_last())
    }
}

/// The number of web applications among the projects.
pub open spec fn web_app_count(projects: Seq<Project>) -> nat
    decreases projects.len(),
{
    if projects.len() == 0 {
        0
    } else {
        web_app_count(projects.drop_last()) + if projects.last().project_type
            == ProjectType::WebApplication {
            1nat
        } else {
            0nat
        }
    }
}

/// The executable of the project relative to the app directory.
pub open spec fn relative_executable(app_dir: Seq<char>, p: Project) -> Seq<char> {
    spec_strip_prefix(executable_path_of(p.path@, p.assembly_name@), app_dir).unwrap()
}

/// The project can be launched from the app directory: its executable lies in the app
/// directory, has a parent directory and a file name, and its assembly name makes a label.
pub open spec fn launch_ready(app_dir: Seq<char>, p: Project) -> bool {
    &&& spec_parent(p.path@) is Some
    &&& spec_strip_prefix(executable_path_of(p.path@, p.assembly_name@), app_dir) is Some
    &&& spec_parent(relative_executable(app_dir, p)) is Some
    &&& spec_file_name(relative_executable(app_dir, p)) is Some
    &&& rfc1123_label_of(p.assembly_name@).len() > 0
}

/// The views of a list of strings.
pub open spec fn views(v: Seq<String>) -> Seq<Seq<char>> {
    v.map_values(|s: String| s@)
}

/// `proc` is the process that launches the project `p` from `app_dir`: of type `web` and the
/// default when `p` is the solution's only web application, else of the project's label
/// type; running `bash -c <launch command>` in the app directory.
pub open spec fn launches(proc: Process, app_dir: Seq<char>, p: Project, single_web_app: bool) -> bool {
    let promoted = single_web_app && p.project_type == ProjectType::WebApplication;
    &&& proc.process_type@ == if promoted {
        "web"@
    } else {
        rfc1123_label_of(p.assembly_name@)
    }
    &&& views(proc.command@) == seq![
        "bash"@,
        "-c"@,
        launch_command(relative_executable(app_dir, p), p.project_type),
    ]
    &&& proc.args@.len() == 0
    &&& proc.default == promoted
    &&& proc.working_directory == WorkingDirectory::App
}

fn project_launch_process(app_dir: &str, project: &Project) -> (r: Process)
    requires
        launch_ready(app_dir@, *project),
    ensures
        launches(r, app_dir@, *project, false),
{
    let exe = project_executable_path(project);
    let relative = strip_prefix(exe.as_str(), app_dir).unwrap();
    let command = build_command(relative.as_str(), project.project_type);
    let process_type = project_process_type(project);
    let cmd = vec![str_to_string("bash"), str_to_string("-c"), command];
    assert(views(cmd@) =~= seq!["bash"@, "-c"@, launch_command(relative_executable(app_dir@, *project), project.project_type)]);
    Process {
        process_type,
        command: cmd,
        args: Vec::new(),
        default: false,
        working_directory: WorkingDirectory::App,
    }
}

/// Detects the launch processes of a solution's projects: one for each console application,
/// web application and worker service, in order (see [`launches`]); when the solution holds
/// exactly one web application, its process is the default one, of type `web`.
pub fn detect_solution_processes(app_dir: &str, solution: &Solution) -> (r: Vec<Process>)
    requires
        forall|i: int| 0 <= i < solution.projects@.len() && is_launchable(#[trigger] solution.projects@[i].project_type)
            ==> launch_ready(app_dir@, solution.projects@[i]),
    ensures
        r@.len() == launchable_projects(solution.projects@).len(),
        forall|k: int| 0 <= k < r@.len() ==> launches(#[trigger] r@[k], app_dir@,
            launchable_projects(solution.projects@)[k], web_app_count(solution.projects@) == 1),
{
    let projects = &solution.projects;
    let mut web_count: usize = 0;
    let mut i: usize = 0;
    while i < projects.len()
        invariant
            i <= projects@.len(),
            web_count == web_app_count(projects@.take(i as int)),
            web_count <= i,
        decreases projects@.len() - i,
    {
        assert(projects@.take(i + 1).drop_last() =~= projects@.take(i as int));
        if projects[i].project_type == ProjectType::WebApplication {
            web_count += 1;
        }
        i += 1;
    }
    assert(projects@.take(projects@.len() as int) =~= projects@);
    let has_single_web_app = web_count == 1;
    let mut out: Vec<Process> = Vec::new();
    let mut j: usize = 0;
    while j < projects.len()
        invariant
            j <= projects@.len(),
            has_single_web_app == (web_app_count(projects@) == 1),
            out@.len() == launchable_projects(projects@.take(j as int)).len(),
            forall|k: int| 0 <= k < out@.len() ==> launches(#[trigger] out@[k], app_dir@,
                launchable_projects(projects@.take(j as int))[k], has_single_web_app),
            forall|i: int| 0 <= i < projects@.len() && is_launchable(#[trigger] projects@[i].project_type)
                ==> launch_ready(app_dir@, projects@[i]),
        decreases projects@.len() - j,
    {
        let ghost before = launchable_projects(projects@.take(j as int));
        assert(projects@.take(j + 1).drop_last() =~= projects@.take(j as int));
        assert(projects@.take(j + 1).last() == projects@[j as int]);
        let project = &projects[j];
        let t = project.project_type;
        if t == ProjectType::ConsoleApplication || t == ProjectType::WebApplication || t
            == ProjectType::WorkerService {
            let mut process = project_launch_process(app_dir, project);
            if has_single_web_app && t == ProjectType::WebApplication {
                process.process_type = str_to_string("web");
                process.default = true;
            }
            out.push(process);
            assert(launchable_projects(projects@.take(j + 1)) == before.push(*project));
        }
        j += 1;
    }
    assert(projects@.take(projects@.len() as int) =~= projects@);
    out
}

/// The projects that detection launches are exactly the console applications, web
/// applications and worker services among the solution's projects, each once, in their
/// order: the processes of [`detect_solution_processes`] follow them one for one.
pub proof fn lemma_launched_projects_are_apps_and_services(projects: Seq<Project>)
    ensures
        launchable_projects(projects) == projects.filter(
            |p: Project|
                p.project_type == ProjectType::ConsoleApplication || p.project_type == ProjectType::WebApplication
                    || p.project_type == ProjectType::WorkerService,
        ),
    decreases projects.len(),
{
    reveal(Seq::filter);
    if projects.len() > 0 {
        lemma_launched_projects_are_apps_and_services(projects.drop_last());
    }
}

/// The web applications that decide which process is the default are counted over all of the
/// solution's projects: their number is that of the projects of type `WebApplication`.
pub proof fn lemma_web_app_count_counts_web_applications(projects: Seq<Project>)
    ensures
        web_app_count(projects) == projects.filter(|p: Project| p.project_type == ProjectType::WebApplication).len(),
    decreases projects.len(),
{
    reveal(Seq::filter);
    if projects.len() > 0 {
        lemma_web_app_count_counts_web_applications(projects.drop_last());
    }
}

/// Only the process of a solution's one web application is the default, with type `web`: with
/// no web application or several, every process keeps its project's label as its type and
/// none is the default; every process runs `bash -c` in the app directory, with no further
/// arguments, and only a web application is given the `--urls` argument.
pub proof fn lemma_default_process_is_the_single_web_app(proc: Process, app_dir: Seq<char>, p: Project, single_web_app: bool)
    requires
        launches(proc, app_dir, p, single_web_app),
    ensures
        proc.default <==> (single_web_app && p.project_type == ProjectType::WebApplication),
        proc.default ==> proc.process_type@ == "web"@,
        !proc.default ==> proc.process_type@ == rfc1123_label_of(p.assembly_name@),
        proc.command@.len() == 3 && proc.command@[0]@ == "bash"@ && proc.command@[1]@ == "-c"@,
        proc.args@.len() == 0,
        proc.working_directory == WorkingDirectory::App,
        p.project_type != ProjectType::WebApplication ==> proc.command@[2]@ == "cd "@ + shell_quoted(
            spec_parent(relative_executable(app_dir, p)).unwrap(),
        ) + "; ./"@ + shell_quoted(spec_file_name(relative_executable(app_dir, p)).unwrap()),
        p.project_type == ProjectType::WebApplication ==> proc.command@[2]@ == "cd "@ + shell_quoted(
            spec_parent(relative_executable(app_dir, p)).unwrap(),
        ) + "; ./"@ + shell_quoted(spec_file_name(relative_executable(app_dir, p)).unwrap())
            + " --urls http://*:$PORT"@,
{
    assert(views(proc.command@).len() == 3);
    assert(proc.command@.len() == 3);
    assert(views(proc.command@)[0] == proc.command@[0]@);
    assert(views(proc.command@)[1] == proc.command@[1]@);
    assert(views(proc.command@)[2] == proc.command@[2]@);
    let base = "cd "@ + shell_quoted(spec_parent(relative_executable(app_dir, p)).unwrap()) + "; ./"@
        + shell_quoted(spec_file_name(relative_executable(app_dir, p)).unwrap());
    assert(base + Seq::<char>::empty() =~= base);
}

/// Every launch process that detection registers has a valid process type: `web`, or the
/// RFC 1123 label of its project's assembly name.
pub proof fn lemma_process_types_are_labels(proc: Process, app_dir: Seq<char>, p: Project, single_web_app: bool)
    requires
        launches(proc, app_dir, p, single_web_app),
        launch_ready(app_dir, p),
    ensures
        is_rfc1123_label(proc.process_type@),
{
    lemma_label_is_valid(p.assembly_name@);
    reveal_strlit("web");
}

} // verus!
