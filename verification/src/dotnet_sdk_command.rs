//! The `dotnet publish` command line and the `dotnet test` launch process of a solution.
use vstd::prelude::*;
use crate::dotnet::runtime_identifier::{RuntimeIdentifier, rid_text};
use crate::dotnet_buildpack_configuration::{VerbosityLevel, verbosity_text};
use crate::launch_process::{Process, WorkingDirectory, views};
use crate::paths::{spec_join, spec_file_name, join, file_name};
use crate::text::str_to_string;

verus! {

/// The program that both commands run.
pub const DOTNET_PROGRAM: &'static str = "dotnet";

/// `dotnet publish` of a solution or project for a runtime.
pub struct DotnetPublishCommand {
    pub path: String,
    pub runtime_identifier: RuntimeIdentifier,
    pub configuration: Option<String>,
    pub verbosity_level: Option<VerbosityLevel>,
}

/// `--configuration <c>` where a configuration is given.
pub open spec fn configuration_args(configuration: Option<String>) -> Seq<Seq<char>> {
    match configuration {
        Some(c) => seq!["--configuration"@, c@],
        None => Seq::empty(),
    }
}

/// `--verbosity <level>` where a verbosity level is given.
pub open spec fn verbosity_args(level: Option<VerbosityLevel>) -> Seq<Seq<char>> {
    match level {
        Some(l) => seq!["--verbosity"@, verbosity_text(l)],
        None => Seq::empty(),
    }
}

/// The arguments of `dotnet publish`: the path, the runtime, the publish directory
/// `bin/publish`, the artifacts path `build_artifacts` in the temporary directory
/// `temp_dir`, then the configuration and verbosity level where given.
pub open spec fn publish_args(c: &DotnetPublishCommand, temp_dir: Seq<char>) -> Seq<Seq<char>> {
    seq![
        "publish"@,
        c.path@,
        "--runtime"@,
        rid_text(c.runtime_identifier),
        "-p:PublishDir=bin/publish"@,
        "--artifacts-path"@,
        spec_join(temp_dir, "build_artifacts"@),
    ] + configuration_args(c.configuration) + verbosity_args(c.verbosity_level)
}

fn push_options(args: &mut Vec<String>, configuration: &Option<String>, verbosity_level: &Option<VerbosityLevel>)
    ensures
        views(final(args)@) == views(old(args)@) + configuration_args(*configuration) + verbosity_args(*verbosity_level),
{
    let ghost start = views(args@);
    if let Some(c) = configuration {
        args.push(str_to_string("--configuration"));
        args.push(c.clone());
    }
    assert(views(args@) =~= start + configuration_args(*configuration));
    let ghost mid = views(args@);
    if let Some(v) = verbosity_level {
        args.push(str_to_string("--verbosity"));
        args.push(v.to_string());
    }
    assert(views(args@) =~= mid + verbosity_args(*verbosity_level));
}

impl DotnetPublishCommand {
    /// The arguments that `dotnet` is run with (see [`publish_args`]).
    pub fn args(&self, temp_dir: &str) -> (r: Vec<String>)
        ensures
            views(r@) == publish_args(self, temp_dir@),
    {
        let mut args: Vec<String> = vec![
            str_to_string("publish"),
            self.path.clone(),
            str_to_string("--runtime"),
            self.runtime_identifier.to_string(),
            str_to_string("-p:PublishDir=bin/publish"),
            str_to_string("--artifacts-path"),
            join(temp_dir, "build_artifacts"),
        ];
        assert(views(args@) =~= seq![
            "publish"@,
            self.path@,
            "--runtime"@,
            rid_text(self.runtime_identifier),
            "-p:PublishDir=bin/publish"@,
            "--artifacts-path"@,
            spec_join(temp_dir@, "build_artifacts"@),
        ]);
        push_options(&mut args, &self.configuration, &self.verbosity_level);
        args
    }
}

/// `dotnet test` of a solution or project, as a launch process.
pub struct DotnetTestCommand {
    pub path: String,
    pub configuration: Option<String>,
    pub verbosity_level: Option<VerbosityLevel>,
}

/// The command of the `test` process: `dotnet test <file name>`, then the configuration and
/// verbosity level where given.
pub open spec fn test_command(c: &DotnetTestCommand) -> Seq<Seq<char>> {
    seq!["dotnet"@, "test"@, spec_file_name(c.path@).unwrap()]
        + configuration_args(c.configuration) + verbosity_args(c.verbosity_level)
}

impl DotnetTestCommand {
    /// The `test` launch process (not the default one, run in the app directory, with no
    /// further arguments) of [`test_command`].
    pub fn into_process(self) -> (r: Process)
        requires
            spec_file_name(self.path@) is Some,
        ensures
            r.process_type@ == "test"@,
            views(r.command@) == test_command(&self),
            r.args@.len() == 0,
            !r.default,
            r.working_directory == WorkingDirectory::App,
    {
        let name = file_name(self.path.as_str()).unwrap();
        let mut command: Vec<String> = vec![str_to_string("dotnet"), str_to_string("test"), name];
        assert(views(command@) =~= seq!["dotnet"@, "test"@, spec_file_name(self.path@).unwrap()]);
        push_options(&mut command, &self.configuration, &self.verbosity_level);
        Process {
            process_type: str_to_string("test"),
            command,
            args: Vec::new(),
            default: false,
            working_directory: WorkingDirectory::App,
        }
    }
}

} // verus!
