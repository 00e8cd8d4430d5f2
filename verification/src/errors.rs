//! The messages that tell the user why the buildpack failed: a header, a body that explains
//! the failure and how to resolve it, and the text of the underlying error for debugging.
use vstd::prelude::*;
use crate::app_source::{DiscoveryError, LoadError as AppSourceLoadError, string_views};
use crate::buildpack::{DotnetBuildpackError, SdkLayerError, CommandError};
use crate::dotnet::project;
use crate::dotnet::global_json::SdkConfigError;
use crate::dotnet::solution::LoadError;
use crate::dotnet::target_framework_moniker::ParseTargetFrameworkError;
use crate::dotnet_buildpack_configuration::{
    DotnetBuildpackConfigurationError, ExecutionEnvironmentError, ParseVerbosityLevelError,
};
use crate::text::{push_str, str_to_string, string_from_chars};
use crate::versions::{requirement_display, semver_req_display};

verus! {

/// A message for the user.
#[derive(Debug, PartialEq)]
pub struct ErrorMessage {
    pub header: String,
    pub body: String,
    pub debug_info: Option<String>,
}

/// What a message holds as debug information: nothing, or a text.
pub enum DebugInfo {
    Absent,
    Text(Seq<char>),
}

/// `actual` is debug information as `d` describes it.
pub open spec fn debug_matches(d: DebugInfo, actual: Option<String>) -> bool {
    match d {
        DebugInfo::Absent => actual is None,
        DebugInfo::Text(t) => actual matches Some(s) && s@ == t,
    }
}

/// The display text of an I/O error (`ToString` of `std::io::Error`); nothing is stated of it.
#[verifier::external_body]
fn io_error_text(e: &std::io::Error) -> String {
    e.to_string()
}

/// The display text of a TOML error (`ToString` of `toml::de::Error`); nothing is stated of it.
#[verifier::external_body]
fn toml_error_text(e: &toml::de::Error) -> String {
    e.to_string()
}

/// The display text of a JSON error (`ToString` of `serde_json::Error`); nothing is stated
/// of it.
#[verifier::external_body]
fn json_error_text(e: &serde_json::Error) -> String {
    e.to_string()
}

/// The display text of a `semver` error (`ToString` of `semver::Error`); nothing is stated
/// of it.
#[verifier::external_body]
fn semver_error_text(e: &semver::Error) -> String {
    e.to_string()
}

/// The display text of an XML deserialization error (`ToString` of
/// `quick_xml::de::DeError`); nothing is stated of it.
#[verifier::external_body]
fn xml_error_text(e: &quick_xml::de::DeError) -> String {
    e.to_string()
}


/// The lower-case hexadecimal digit of `n < 16`.
pub open spec fn hex_digit(n: u8) -> char {
    if n < 10 {
        ((48 + n) as u8) as char
    } else {
        ((87 + n) as u8) as char
    }
}

/// The lower-case hexadecimal text of bytes, two digits per byte, high digit first.
pub open spec fn hex_text(bytes: Seq<u8>) -> Seq<char>
    decreases bytes.len(),
{
    if bytes.len() == 0 {
        Seq::empty()
    } else {
        hex_text(bytes.drop_last()) + seq![hex_digit(bytes.last() / 16), hex_digit(bytes.last() % 16)]
    }
}

/// `hex::encode`: the lower-case hexadecimal text of the bytes (see [`hex_text`]).
#[verifier::external_body]
fn hex_encode(bytes: &[u8]) -> (r: String)
    ensures
        r@ == hex_text(bytes@),
{
    hex::encode(bytes)
}

/// The texts joined, with `` `, ` `` between neighbours.
pub open spec fn joined(texts: Seq<Seq<char>>) -> Seq<char>
    decreases texts.len(),
{
    if texts.len() == 0 {
        Seq::empty()
    } else if texts.len() == 1 {
        texts[0]
    } else {
        joined(texts.drop_last()) + "`, `"@ + texts.last()
    }
}

fn joined_text(texts: &Vec<String>) -> (r: String)
    ensures
        r@ == joined(string_views(texts@)),
{
    let mut t: Vec<char> = Vec::new();
    let mut i: usize = 0;
    while i < texts.len()
        invariant
            i <= texts@.len(),
            t@ == joined(string_views(texts@.take(i as int))),
        decreases texts@.len() - i,
    {
        assert(string_views(texts@.take(i + 1)).drop_last() =~= string_views(texts@.take(i as int)));
        assert(string_views(texts@.take(i + 1)).last() == texts@[i as int]@);
        if i > 0 {
            push_str(&mut t, "`, `");
        } else {
            assert(string_views(texts@.take(0)) =~= Seq::<Seq<char>>::empty());
        }
        push_str(&mut t, texts[i].as_str());
        i += 1;
    }
    assert(texts@.take(texts@.len() as int) =~= texts@);
    string_from_chars(t.as_slice())
}

fn message(header: &str, body: Vec<char>, debug_info: Option<String>) -> (r: ErrorMessage)
    ensures
        r.header@ == header@,
        r.body@ == body@,
        r.debug_info == debug_info,
{
    ErrorMessage { header: str_to_string(header), body: string_from_chars(body.as_slice()), debug_info }
}

/// The message about an unexpected I/O error while doing `occurred_while`.
pub open spec fn io_message(header: Seq<char>, occurred_while: Seq<char>, outside: Seq<char>) -> Option<(Seq<char>, Seq<char>, DebugInfo)> {
    Some((header, io_error_body(occurred_while), DebugInfo::Text(outside)))
}

fn io_message_exec(header: &str, occurred_while: &str, outside: &str) -> (r: ErrorMessage)
    ensures
        r.header@ == header@,
        r.body@ == io_error_body(occurred_while@),
        r.debug_info matches Some(d) && d@ == outside@,
{
    message(header, io_error_body_text(occurred_while), Some(str_to_string(outside)))
}

/// The body of the message about an internal error of the buildpack framework.
pub open spec fn internal_error_body() -> Seq<char> {
    "The framework used by this buildpack encountered an unexpected error.\n\nIf you can’t deploy to Heroku due to this issue, check the official Heroku Status page at\nstatus.heroku.com for any ongoing incidents. After all incidents resolve, retry your build.\n\nUse the debug information above to troubleshoot and retry your build. If you think you found a\nbug in the buildpack, reproduce the issue locally with a minimal example and file an issue here:\nhttps://github.com/heroku/buildpacks-dotnet/issues/new\n"@
}

fn internal_error_body_text() -> (r: Vec<char>)
    ensures
        r@ == internal_error_body(),
{
    let mut t: Vec<char> = Vec::new();
    push_str(&mut t, "The framework used by this buildpack encountered an unexpected error.\n\nIf you can’t deploy to Heroku due to this issue, check the official Heroku Status page at\nstatus.heroku.com for any ongoing incidents. After all incidents resolve, retry your build.\n\nUse the debug information above to troubleshoot and retry your build. If you think you found a\nbug in the buildpack, reproduce the issue locally with a minimal example and file an issue here:\nhttps://github.com/heroku/buildpacks-dotnet/issues/new\n");
    assert(t@ =~= internal_error_body());
    t
}

/// The body of the message about a `project.toml` file that is not valid TOML.
pub open spec fn project_toml_parse_body() -> Seq<char> {
    "We can't parse the `project.toml` file because it contains invalid TOML.\n\nUse the debug information above to troubleshoot and retry your build.\n"@
}

fn project_toml_parse_body_text() -> (r: Vec<char>)
    ensures
        r@ == project_toml_parse_body(),
{
    let mut t: Vec<char> = Vec::new();
    push_str(&mut t, "We can't parse the `project.toml` file because it contains invalid TOML.\n\nUse the debug information above to troubleshoot and retry your build.\n");
    assert(t@ =~= project_toml_parse_body());
    t
}

/// The body of the message about a solution without project references.
pub open spec fn no_solution_projects_body(solution_path: Seq<char>) -> Seq<char> {
    "The solution file `"@ + solution_path + "` has no project references.\n\nThis buildpack prefers building a solution file over a project file if both\nare present in the root directory.\n\nTo resolve this issue,\n* Delete the solution file to build a root project file instead.\n* Or reference the projects to build from the solution file.\n\n"@
}

fn no_solution_projects_body_text(solution_path: &str) -> (r: Vec<char>)
    ensures
        r@ == no_solution_projects_body(solution_path@),
{
    let mut t: Vec<char> = Vec::new();
    push_str(&mut t, "The solution file `");
    push_str(&mut t, solution_path);
    push_str(&mut t, "` has no project references.\n\nThis buildpack prefers building a solution file over a project file if both\nare present in the root directory.\n\nTo resolve this issue,\n* Delete the solution file to build a root project file instead.\n* Or reference the projects to build from the solution file.\n\n");
    assert(t@ =~= no_solution_projects_body(solution_path@));
    t
}

/// The body of the message about several solution files in the root directory (`files` joined).
pub open spec fn multiple_solution_files_body(files: Seq<char>) -> Seq<char> {
    "The root directory contains multiple .NET solution files: `"@ + files + "`.\n\nWhen there are multiple solution files in the root directory, you must specify\nwhich one to use.\n\nFor more information, see:\nhttps://github.com/heroku/buildpacks-dotnet#solution-file\n"@
}

fn multiple_solution_files_body_text(files: &str) -> (r: Vec<char>)
    ensures
        r@ == multiple_solution_files_body(files@),
{
    let mut t: Vec<char> = Vec::new();
    push_str(&mut t, "The root directory contains multiple .NET solution files: `");
    push_str(&mut t, files);
    push_str(&mut t, "`.\n\nWhen there are multiple solution files in the root directory, you must specify\nwhich one to use.\n\nFor more information, see:\nhttps://github.com/heroku/buildpacks-dotnet#solution-file\n");
    assert(t@ =~= multiple_solution_files_body(files@));
    t
}

/// The body of the message about several project files in the root directory (`files` joined).
pub open spec fn multiple_project_files_body(files: Seq<char>) -> Seq<char> {
    "The root directory contains multiple .NET project files: `"@ + files + "`.\n\nWe don’t support having multiple project files in the root directory to prevent\nunexpected results. We recommend reorganizing the directory and project\nstructure to include only one project file per folder.\n\nIf you’re porting an application from .NET Framework to .NET, or compiling both\nside-by-side, see Microsoft’s documentation for project organization guidance:\nhttps://learn.microsoft.com/en-us/dotnet/core/porting/project-structure\n"@
}

fn multiple_project_files_body_text(files: &str) -> (r: Vec<char>)
    ensures
        r@ == multiple_project_files_body(files@),
{
    let mut t: Vec<char> = Vec::new();
    push_str(&mut t, "The root directory contains multiple .NET project files: `");
    push_str(&mut t, files);
    push_str(&mut t, "`.\n\nWe don’t support having multiple project files in the root directory to prevent\nunexpected results. We recommend reorganizing the directory and project\nstructure to include only one project file per folder.\n\nIf you’re porting an application from .NET Framework to .NET, or compiling both\nside-by-side, see Microsoft’s documentation for project organization guidance:\nhttps://learn.microsoft.com/en-us/dotnet/core/porting/project-structure\n");
    assert(t@ =~= multiple_project_files_body(files@));
    t
}

/// The body of the message about a project that a solution references but that does not exist.
pub open spec fn project_not_found_body(project_path: Seq<char>) -> Seq<char> {
    "The solution references a project file that does not exist: `"@ + project_path + "`.\n\nThis error occurs when a project referenced in the solution file cannot be found at\nthe expected location. This can happen if:\n* The project was moved or renamed.\n* The project was deleted but not removed from the solution.\n* The project path in the solution file is incorrect.\n\nTo resolve this issue:\n* Verify the project exists at the expected location.\n* Update the project reference path in the solution file.\n* Or remove the project reference from the solution if it's no longer needed.\n"@
}

fn project_not_found_body_text(project_path: &str) -> (r: Vec<char>)
    ensures
        r@ == project_not_found_body(project_path@),
{
    let mut t: Vec<char> = Vec::new();
    push_str(&mut t, "The solution references a project file that does not exist: `");
    push_str(&mut t, project_path);
    push_str(&mut t, "`.\n\nThis error occurs when a project referenced in the solution file cannot be found at\nthe expected location. This can happen if:\n* The project was moved or renamed.\n* The project was deleted but not removed from the solution.\n* The project path in the solution file is incorrect.\n\nTo resolve this issue:\n* Verify the project exists at the expected location.\n* Update the project reference path in the solution file.\n* Or remove the project reference from the solution if it's no longer needed.\n");
    assert(t@ =~= project_not_found_body(project_path@));
    t
}

/// The body of the message about a solution file that is not valid XML.
pub open spec fn slnx_parse_body() -> Seq<char> {
    "We can't parse the solution file because it contains invalid XML.\n\nUse the debug information above to troubleshoot and retry your build.\n"@
}

fn slnx_parse_body_text() -> (r: Vec<char>)
    ensures
        r@ == slnx_parse_body(),
{
    let mut t: Vec<char> = Vec::new();
    push_str(&mut t, "We can't parse the solution file because it contains invalid XML.\n\nUse the debug information above to troubleshoot and retry your build.\n");
    assert(t@ =~= slnx_parse_body());
    t
}

/// The body of the message about an invalid or unsupported target framework moniker.
pub open spec fn unsupported_tfm_body(tfm: Seq<char>) -> Seq<char> {
    "The detected target framework moniker `"@ + tfm + "` is either invalid or unsupported. This\nbuildpack currently supports the following TFMs: `net6.0`, `net7.0`, `net8.0`, `net9.0`.\n\nFor more information, see:\nhttps://github.com/heroku/buildpacks-dotnet#net-version\n"@
}

fn unsupported_tfm_body_text(tfm: &str) -> (r: Vec<char>)
    ensures
        r@ == unsupported_tfm_body(tfm@),
{
    let mut t: Vec<char> = Vec::new();
    push_str(&mut t, "The detected target framework moniker `");
    push_str(&mut t, tfm);
    push_str(&mut t, "` is either invalid or unsupported. This\nbuildpack currently supports the following TFMs: `net6.0`, `net7.0`, `net8.0`, `net9.0`.\n\nFor more information, see:\nhttps://github.com/heroku/buildpacks-dotnet#net-version\n");
    assert(t@ =~= unsupported_tfm_body(tfm@));
    t
}

/// The body of the message about a `global.json` file that is not valid JSON.
pub open spec fn global_json_parse_body() -> Seq<char> {
    "We can’t parse the root directory `global.json` file because it contains invalid JSON.\n\nUse the debug information above to troubleshoot and retry your build.\n"@
}

fn global_json_parse_body_text() -> (r: Vec<char>)
    ensures
        r@ == global_json_parse_body(),
{
    let mut t: Vec<char> = Vec::new();
    push_str(&mut t, "We can’t parse the root directory `global.json` file because it contains invalid JSON.\n\nUse the debug information above to troubleshoot and retry your build.\n");
    assert(t@ =~= global_json_parse_body());
    t
}

/// The body of the message about an SDK configuration in `global.json` that gives no
/// version requirement.
pub open spec fn global_json_requirement_body() -> Seq<char> {
    "We can’t parse the .NET SDK version requirement.\n\nUse the debug information above to troubleshoot and retry your build. For more\ninformation, see:\nhttps://github.com/heroku/buildpacks-dotnet#net-version\n"@
}

fn global_json_requirement_body_text() -> (r: Vec<char>)
    ensures
        r@ == global_json_requirement_body(),
{
    let mut t: Vec<char> = Vec::new();
    push_str(&mut t, "We can’t parse the .NET SDK version requirement.\n\nUse the debug information above to troubleshoot and retry your build. For more\ninformation, see:\nhttps://github.com/heroku/buildpacks-dotnet#net-version\n");
    assert(t@ =~= global_json_requirement_body());
    t
}

/// The body of the message about an SDK inventory that cannot be parsed.
pub open spec fn inventory_parse_body() -> Seq<char> {
    "We can’t parse the inventory of .NET SDK releases. This error\nis almost always a buildpack bug.\n\nIf you see this error, please file an issue here:\nhttps://github.com/heroku/buildpacks-dotnet/issues/new\n\n"@
}

fn inventory_parse_body_text() -> (r: Vec<char>)
    ensures
        r@ == inventory_parse_body(),
{
    let mut t: Vec<char> = Vec::new();
    push_str(&mut t, "We can’t parse the inventory of .NET SDK releases. This error\nis almost always a buildpack bug.\n\nIf you see this error, please file an issue here:\nhttps://github.com/heroku/buildpacks-dotnet/issues/new\n\n");
    assert(t@ =~= inventory_parse_body());
    t
}

/// The body of the message about an inferred SDK version requirement that cannot be parsed.
pub open spec fn solution_requirement_body() -> Seq<char> {
    "We can’t parse the inferred .NET SDK version requirement.\n\nUse the debug information above to troubleshoot and retry your build. If you think\nyou found a bug in the buildpack, reproduce the issue locally with a minimal\nexample and file an issue here:\nhttps://github.com/heroku/buildpacks-dotnet/issues/new\n\n"@
}

fn solution_requirement_body_text() -> (r: Vec<char>)
    ensures
        r@ == solution_requirement_body(),
{
    let mut t: Vec<char> = Vec::new();
    push_str(&mut t, "We can’t parse the inferred .NET SDK version requirement.\n\nUse the debug information above to troubleshoot and retry your build. If you think\nyou found a bug in the buildpack, reproduce the issue locally with a minimal\nexample and file an issue here:\nhttps://github.com/heroku/buildpacks-dotnet/issues/new\n\n");
    assert(t@ =~= solution_requirement_body());
    t
}

/// The body of the message about an SDK version requirement that no release meets.
pub open spec fn resolve_sdk_body(version_req: Seq<char>) -> Seq<char> {
    "We can’t find a compatible .NET SDK release for the detected version\nrequirement ("@ + version_req + ").\n\nFor a complete inventory of supported .NET SDK versions and platforms, see:\nhttps://github.com/heroku/buildpacks-dotnet/blob/main/buildpacks/dotnet/inventory.toml\n"@
}

fn resolve_sdk_body_text(version_req: &str) -> (r: Vec<char>)
    ensures
        r@ == resolve_sdk_body(version_req@),
{
    let mut t: Vec<char> = Vec::new();
    push_str(&mut t, "We can’t find a compatible .NET SDK release for the detected version\nrequirement (");
    push_str(&mut t, version_req);
    push_str(&mut t, ").\n\nFor a complete inventory of supported .NET SDK versions and platforms, see:\nhttps://github.com/heroku/buildpacks-dotnet/blob/main/buildpacks/dotnet/inventory.toml\n");
    assert(t@ =~= resolve_sdk_body(version_req@));
    t
}

/// The body of the message about a failed SDK download.
pub open spec fn download_body() -> Seq<char> {
    "An unexpected error occurred while downloading the .NET SDK. This error can occur\ndue to an unstable network connection.\n\nUse the debug information above to troubleshoot and retry your build.\n"@
}

fn download_body_text() -> (r: Vec<char>)
    ensures
        r@ == download_body(),
{
    let mut t: Vec<char> = Vec::new();
    push_str(&mut t, "An unexpected error occurred while downloading the .NET SDK. This error can occur\ndue to an unstable network connection.\n\nUse the debug information above to troubleshoot and retry your build.\n");
    assert(t@ =~= download_body());
    t
}

/// The body of the message about an SDK download whose checksum does not match.
pub open spec fn checksum_body(expected: Seq<char>, actual: Seq<char>) -> Seq<char> {
    "Validation of the downloaded .NET SDK failed due to a checksum mismatch. This error can\noccur intermittently.\n\nUse the debug information above to troubleshoot and retry your build. If the issue persists,\nfile an issue here:\nhttps://github.com/heroku/buildpacks-dotnet/issues/new\n\nExpected: "@ + expected + "\nActual: "@ + actual + "\n"@
}

fn checksum_body_text(expected: &str, actual: &str) -> (r: Vec<char>)
    ensures
        r@ == checksum_body(expected@, actual@),
{
    let mut t: Vec<char> = Vec::new();
    push_str(&mut t, "Validation of the downloaded .NET SDK failed due to a checksum mismatch. This error can\noccur intermittently.\n\nUse the debug information above to troubleshoot and retry your build. If the issue persists,\nfile an issue here:\nhttps://github.com/heroku/buildpacks-dotnet/issues/new\n\nExpected: ");
    push_str(&mut t, expected);
    push_str(&mut t, "\nActual: ");
    push_str(&mut t, actual);
    push_str(&mut t, "\n");
    assert(t@ =~= checksum_body(expected@, actual@));
    t
}

/// The body of the message about an invalid MSBuild verbosity level.
pub open spec fn verbosity_body(verbosity_level: Seq<char>) -> Seq<char> {
    "The `MSBUILD_VERBOSITY_LEVEL` environment variable value (`"@ + verbosity_level + "`)\nis invalid. Did you mean one of the following supported values?\n\nd\ndetailed\ndiag\ndiagnostic\nm\nminimal\nn\nnormal\nq\nquiet\n"@
}

fn verbosity_body_text(verbosity_level: &str) -> (r: Vec<char>)
    ensures
        r@ == verbosity_body(verbosity_level@),
{
    let mut t: Vec<char> = Vec::new();
    push_str(&mut t, "The `MSBUILD_VERBOSITY_LEVEL` environment variable value (`");
    push_str(&mut t, verbosity_level);
    push_str(&mut t, "`)\nis invalid. Did you mean one of the following supported values?\n\nd\ndetailed\ndiag\ndiagnostic\nm\nminimal\nn\nnormal\nq\nquiet\n");
    assert(t@ =~= verbosity_body(verbosity_level@));
    t
}

/// The body of the message about an unsupported execution environment.
pub open spec fn execution_environment_body(execution_environment: Seq<char>) -> Seq<char> {
    "The `CNB_EXEC_ENV` environment variable value (`"@ + execution_environment + "`)\nis not supported. This buildpack currently supports `production` and\n`test` execution environments.\n"@
}

fn execution_environment_body_text(execution_environment: &str) -> (r: Vec<char>)
    ensures
        r@ == execution_environment_body(execution_environment@),
{
    let mut t: Vec<char> = Vec::new();
    push_str(&mut t, "The `CNB_EXEC_ENV` environment variable value (`");
    push_str(&mut t, execution_environment);
    push_str(&mut t, "`)\nis not supported. This buildpack currently supports `production` and\n`test` execution environments.\n");
    assert(t@ =~= execution_environment_body(execution_environment@));
    t
}

/// The body of the message about a failed `dotnet tool restore`.
pub open spec fn restore_tools_failed_body(exit_status: Seq<char>) -> Seq<char> {
    "The `dotnet tool restore` command failed ("@ + exit_status + ").\n\nThe most common cause is a configuration error in your tool manifest. Review\nthe command output above to find and fix the issue.\n\nThe failure may also be temporary due to a network or service outage. Retrying\nyour build often resolves this.\n\nIf the log suggests a NuGet issue, check the service status before retrying:\nhttps://status.nuget.org\n"@
}

fn restore_tools_failed_body_text(exit_status: &str) -> (r: Vec<char>)
    ensures
        r@ == restore_tools_failed_body(exit_status@),
{
    let mut t: Vec<char> = Vec::new();
    push_str(&mut t, "The `dotnet tool restore` command failed (");
    push_str(&mut t, exit_status);
    push_str(&mut t, ").\n\nThe most common cause is a configuration error in your tool manifest. Review\nthe command output above to find and fix the issue.\n\nThe failure may also be temporary due to a network or service outage. Retrying\nyour build often resolves this.\n\nIf the log suggests a NuGet issue, check the service status before retrying:\nhttps://status.nuget.org\n");
    assert(t@ =~= restore_tools_failed_body(exit_status@));
    t
}

/// The body of the message about a failed `dotnet publish`.
pub open spec fn publish_failed_body(exit_status: Seq<char>) -> Seq<char> {
    "The `dotnet publish` command failed ("@ + exit_status + ").\n\nThe most common cause is a compilation error. Review the command output above\nto find and fix the issue.\n\nThe failure may also be temporary due to a network or service outage. Retrying\nyour build often resolves this.\n\nIf the log suggests a NuGet issue, check the service status before retrying:\nhttps://status.nuget.org\n"@
}

fn publish_failed_body_text(exit_status: &str) -> (r: Vec<char>)
    ensures
        r@ == publish_failed_body(exit_status@),
{
    let mut t: Vec<char> = Vec::new();
    push_str(&mut t, "The `dotnet publish` command failed (");
    push_str(&mut t, exit_status);
    push_str(&mut t, ").\n\nThe most common cause is a compilation error. Review the command output above\nto find and fix the issue.\n\nThe failure may also be temporary due to a network or service outage. Retrying\nyour build often resolves this.\n\nIf the log suggests a NuGet issue, check the service status before retrying:\nhttps://status.nuget.org\n");
    assert(t@ =~= publish_failed_body(exit_status@));
    t
}

/// The body of the message about a project file that is not valid XML.
pub open spec fn project_xml_parse_body() -> Seq<char> {
    "We can’t parse the project file’s XML content. Parsing errors usually\nindicate an error in the project file.\n\nUse the debug information above to troubleshoot and retry your build."@
}

fn project_xml_parse_body_text() -> (r: Vec<char>)
    ensures
        r@ == project_xml_parse_body(),
{
    let mut t: Vec<char> = Vec::new();
    push_str(&mut t, "We can’t parse the project file’s XML content. Parsing errors usually\nindicate an error in the project file.\n\nUse the debug information above to troubleshoot and retry your build.");
    assert(t@ =~= project_xml_parse_body());
    t
}

/// The body of the message about a project file without a `TargetFramework` property.
pub open spec fn missing_target_framework_body(project_path: Seq<char>) -> Seq<char> {
    "The project file `"@ + project_path + "` is missing the `TargetFramework` property.\nYou must set this required property.\n\nFor more information, see:\nhttps://github.com/heroku/buildpacks-dotnet#net-version\n"@
}

fn missing_target_framework_body_text(project_path: &str) -> (r: Vec<char>)
    ensures
        r@ == missing_target_framework_body(project_path@),
{
    let mut t: Vec<char> = Vec::new();
    push_str(&mut t, "The project file `");
    push_str(&mut t, project_path);
    push_str(&mut t, "` is missing the `TargetFramework` property.\nYou must set this required property.\n\nFor more information, see:\nhttps://github.com/heroku/buildpacks-dotnet#net-version\n");
    assert(t@ =~= missing_target_framework_body(project_path@));
    t
}

/// The body of the message about an unexpected I/O error while doing `occurred_while`.
pub open spec fn io_error_body(occurred_while: Seq<char>) -> Seq<char> {
    "An unexpected I/O error occurred while "@ + occurred_while + ".\n\nUse the debug information above to troubleshoot and retry your build. If the\nissue persists, file an issue here:\nhttps://github.com/heroku/buildpacks-dotnet/issues/new\n"@
}

fn io_error_body_text(occurred_while: &str) -> (r: Vec<char>)
    ensures
        r@ == io_error_body(occurred_while@),
{
    let mut t: Vec<char> = Vec::new();
    push_str(&mut t, "An unexpected I/O error occurred while ");
    push_str(&mut t, occurred_while);
    push_str(&mut t, ".\n\nUse the debug information above to troubleshoot and retry your build. If the\nissue persists, file an issue here:\nhttps://github.com/heroku/buildpacks-dotnet/issues/new\n");
    assert(t@ =~= io_error_body(occurred_while@));
    t
}

/// The message about a project that could not be loaded while doing `occurred_while`;
/// `None` for the errors about `Directory.Build.props` files, which have none.
pub open spec fn project_load_message(e: project::LoadError, occurred_while: Seq<char>, outside: Seq<char>) -> Option<(Seq<char>, Seq<char>, DebugInfo)> {
    match e {
        project::LoadError::ReadProjectFile(_) => io_message("Error loading the project file"@, occurred_while, outside),
        project::LoadError::XmlParseError(_) => Some(("Error parsing the project file"@, project_xml_parse_body(), DebugInfo::Text(outside))),
        project::LoadError::MissingTargetFramework(p) => Some((
            "Project file missing TargetFramework property"@,
            missing_target_framework_body(p@),
            DebugInfo::Absent,
        )),
        _ => None,
    }
}

/// The header, body and debug information of the message about `e`, where `outside` is the
/// display text of the outside error that `e` carries (I/O, TOML, JSON, `semver` or XML),
/// shown as debug information; `None` for the errors that have no message of their own.
pub open spec fn error_message_of(e: DotnetBuildpackError, outside: Seq<char>) -> Option<(Seq<char>, Seq<char>, DebugInfo)> {
    match e {
        DotnetBuildpackError::BuildpackDetection(_) => io_message(
            "Error completing buildpack detection"@,
            "determining if we must run the Heroku .NET buildpack for this application"@,
            outside,
        ),
        DotnetBuildpackError::ReadProjectTomlFile(_) => io_message("Error reading `project.toml` file"@, "reading `project.toml` file"@, outside),
        DotnetBuildpackError::ParseProjectToml(_) => Some(("Invalid `project.toml` file"@, project_toml_parse_body(), DebugInfo::Text(outside))),
        DotnetBuildpackError::NoSolutionProjects(p) => Some((
            "No project references found in solution"@,
            no_solution_projects_body(p@),
            DebugInfo::Absent,
        )),
        DotnetBuildpackError::ConfiguredSolutionFileNotFound(_) => None,
        DotnetBuildpackError::DiscoverAppSource(d) => match d {
            DiscoveryError::MultipleSolutionFiles(v) => Some((
                "Multiple .NET solution files"@,
                multiple_solution_files_body(joined(string_views(v@))),
                DebugInfo::Absent,
            )),
            DiscoveryError::MultipleProjectFiles(v) => Some((
                "Multiple .NET project files"@,
                multiple_project_files_body(joined(string_views(v@))),
                DebugInfo::Absent,
            )),
            _ => None,
        },
        DotnetBuildpackError::LoadAppSource(l) => match l {
            AppSourceLoadError::Solution(se) => match se {
                LoadError::ReadSolutionFile(_) => io_message("Error loading solution file"@, "reading the solution file"@, outside),
                LoadError::LoadProject(pe) => project_load_message(pe, "reading solution project files"@, outside),
                LoadError::ProjectNotFound(p) => Some((
                    "Missing project referenced in solution"@,
                    project_not_found_body(p@),
                    DebugInfo::Absent,
                )),
                LoadError::SlnxParseError(_) => Some(("Error parsing solution file"@, slnx_parse_body(), DebugInfo::Text(outside))),
            },
            AppSourceLoadError::Project(pe) => project_load_message(pe, "reading root project file"@, outside),
            AppSourceLoadError::FileBasedApp(_) => None,
        },
        DotnetBuildpackError::ParseTargetFrameworkMoniker(t) => match t {
            ParseTargetFrameworkError::InvalidFormat(tfm) => Some(("Unsupported target framework"@, unsupported_tfm_body(tfm@), DebugInfo::Absent)),
            ParseTargetFrameworkError::UnsupportedOSTfm(tfm) => Some(("Unsupported target framework"@, unsupported_tfm_body(tfm@), DebugInfo::Absent)),
        },
        DotnetBuildpackError::ReadGlobalJsonFile(_) => io_message("Error reading `global.json` file"@, "detecting SDK version requirement"@, outside),
        DotnetBuildpackError::ParseGlobalJson(_) => Some(("Invalid `global.json` file"@, global_json_parse_body(), DebugInfo::Text(outside))),
        DotnetBuildpackError::ParseGlobalJsonSdkConfig(c) => Some((
            "Error parsing `global.json` version requirement"@,
            global_json_requirement_body(),
            match c {
                SdkConfigError::InvalidVersion(_) => DebugInfo::Text(outside),
                SdkConfigError::InvalidRollForward(v) => DebugInfo::Text(v@),
            },
        )),
        DotnetBuildpackError::ParseInventory(s) => Some(("Invalid `inventory.toml` file"@, inventory_parse_body(), DebugInfo::Text(s@))),
        DotnetBuildpackError::ParseSolutionVersionRequirement(_) => Some((
            "Invalid .NET SDK version requirement"@,
            solution_requirement_body(),
            DebugInfo::Text(outside),
        )),
        DotnetBuildpackError::ResolveSdkVersion(q) => Some((
            "Unsupported .NET SDK version"@,
            resolve_sdk_body(semver_req_display(q@)),
            DebugInfo::Absent,
        )),
        DotnetBuildpackError::SdkLayer(l) => match l {
            SdkLayerError::DownloadArchive(s) => Some(("Failed to download .NET SDK"@, download_body(), DebugInfo::Text(s@))),
            SdkLayerError::ReadArchive(_) => io_message(
                "Error reading downloaded SDK archive"@,
                "calculating checksum for the downloaded .NET SDK archive"@,
                outside,
            ),
            SdkLayerError::VerifyArchiveChecksum { expected, actual } => Some((
                "Corrupted .NET SDK download"@,
                checksum_body(hex_text(expected@), hex_text(actual@)),
                DebugInfo::Absent,
            )),
            SdkLayerError::OpenArchive(_) => io_message("Error reading downloaded SDK archive"@, "decompressing downloaded .NET SDK archive"@, outside),
            SdkLayerError::DecompressArchive(_) => io_message("Failed to decompress .NET SDK"@, "extracting .NET SDK archive contents"@, outside),
        },
        DotnetBuildpackError::ParseBuildpackConfiguration(c) => match c {
            DotnetBuildpackConfigurationError::VerbosityLevel(ParseVerbosityLevelError(v)) => Some((
                "Invalid MSBuild verbosity level"@,
                verbosity_body(v@),
                DebugInfo::Absent,
            )),
            DotnetBuildpackConfigurationError::ExecutionEnvironment(
                ExecutionEnvironmentError::UnsupportedExecutionEnvironment(v),
            ) => Some(("Unsupported execution environment"@, execution_environment_body(v@), DebugInfo::Absent)),
            DotnetBuildpackConfigurationError::InvalidSolutionFile(_) => None,
        },
        DotnetBuildpackError::RestoreDotnetToolsCommand(c) => match c {
            CommandError::SystemError(_, _) => io_message("Unable to restore .NET tools"@, "running the command to restore .NET tools"@, outside),
            CommandError::NonZeroExit(s) => Some(("Unable to restore .NET tools"@, restore_tools_failed_body(s@), DebugInfo::Absent)),
        },
        DotnetBuildpackError::PublishCommand(c) => match c {
            CommandError::SystemError(_, _) => io_message(
                "Unable to publish"@,
                "running the command to publish the .NET solution/project"@,
                outside,
            ),
            CommandError::NonZeroExit(s) => Some(("Unable to publish"@, publish_failed_body(s@), DebugInfo::Absent)),
        },
        DotnetBuildpackError::CopyRuntimeFiles(_) => io_message(
            "Error copying .NET runtime files"@,
            "copying .NET runtime files from the SDK layer to the runtime layer"@,
            outside,
        ),
    }
}

/// `r` is the message about `e` (see [`error_message_of`]): none where there is none, else
/// one with the stated header, body and debug information.
pub open spec fn message_result(e: DotnetBuildpackError, r: Option<ErrorMessage>) -> bool {
    match r {
        None => error_message_of(e, Seq::empty()) is None,
        Some(m) => exists|outside: Seq<char>| #[trigger] error_message_of(e, outside) matches Some(t)
            && m.header@ == t.0 && m.body@ == t.1 && debug_matches(t.2, m.debug_info),
    }
}

fn stated(header: &str, body: Vec<char>, debug_info: Option<String>) -> (r: Option<ErrorMessage>)
    ensures
        r matches Some(m) && m.header@ == header@ && m.body@ == body@ && m.debug_info == debug_info,
{
    Some(message(header, body, debug_info))
}

fn project_load_error_message(e: &project::LoadError, occurred_while: &str, outside: &str) -> (r: Option<ErrorMessage>)
    ensures
        match project_load_message(*e, occurred_while@, outside@) {
            None => r is None,
            Some(t) => r matches Some(m) && m.header@ == t.0 && m.body@ == t.1 && debug_matches(t.2, m.debug_info),
        },
{
    match e {
        project::LoadError::ReadProjectFile(_) => Some(io_message_exec("Error loading the project file", occurred_while, outside)),
        project::LoadError::XmlParseError(_) => stated(
            "Error parsing the project file",
            project_xml_parse_body_text(),
            Some(str_to_string(outside)),
        ),
        project::LoadError::MissingTargetFramework(p) => stated(
            "Project file missing TargetFramework property",
            missing_target_framework_body_text(p.as_str()),
            None,
        ),
        _ => None,
    }
}

/// The display text of the outside error that `error` carries (see [`error_message_of`]);
/// empty where it carries none.
fn outside_text(error: &DotnetBuildpackError) -> String {
    match error {
        DotnetBuildpackError::BuildpackDetection(io) => io_error_text(io),
        DotnetBuildpackError::ReadProjectTomlFile(io) => io_error_text(io),
        DotnetBuildpackError::ParseProjectToml(e) => toml_error_text(e),
        DotnetBuildpackError::LoadAppSource(l) => match l {
            AppSourceLoadError::Solution(LoadError::ReadSolutionFile(io)) => io_error_text(io),
            AppSourceLoadError::Solution(LoadError::LoadProject(project::LoadError::ReadProjectFile(io))) => io_error_text(io),
            AppSourceLoadError::Solution(LoadError::LoadProject(project::LoadError::XmlParseError(x))) => xml_error_text(x),
            AppSourceLoadError::Solution(LoadError::SlnxParseError(x)) => xml_error_text(x),
            AppSourceLoadError::Project(project::LoadError::ReadProjectFile(io)) => io_error_text(io),
            AppSourceLoadError::Project(project::LoadError::XmlParseError(x)) => xml_error_text(x),
            _ => String::new(),
        },
        DotnetBuildpackError::ReadGlobalJsonFile(io) => io_error_text(io),
        DotnetBuildpackError::ParseGlobalJson(e) => json_error_text(e),
        DotnetBuildpackError::ParseGlobalJsonSdkConfig(SdkConfigError::InvalidVersion(e)) => semver_error_text(e),
        DotnetBuildpackError::ParseSolutionVersionRequirement(e) => semver_error_text(e),
        DotnetBuildpackError::SdkLayer(l) => match l {
            SdkLayerError::ReadArchive(io) => io_error_text(io),
            SdkLayerError::OpenArchive(io) => io_error_text(io),
            SdkLayerError::DecompressArchive(io) => io_error_text(io),
            _ => String::new(),
        },
        DotnetBuildpackError::RestoreDotnetToolsCommand(CommandError::SystemError(_, io)) => io_error_text(io),
        DotnetBuildpackError::PublishCommand(CommandError::SystemError(_, io)) => io_error_text(io),
        DotnetBuildpackError::CopyRuntimeFiles(io) => io_error_text(io),
        _ => String::new(),
    }
}

/// The message about `error` (see [`error_message_of`]), or `None` for the errors that have
/// no message of their own. The display text of the outside error that `error` carries
/// comes from that value's own `Display`.
pub fn error_message(error: &DotnetBuildpackError) -> (r: Option<ErrorMessage>)
    ensures
        message_result(*error, r),
{
    let outside = outside_text(error);
    error_message_given(error, outside.as_str())
}

/// The message about `error` where `outside` is the display text of the outside error that it
/// carries (see [`error_message_of`]), or `None` for the errors that have no message of their
/// own.
pub fn error_message_given(error: &DotnetBuildpackError, outside: &str) -> (r: Option<ErrorMessage>)
    ensures
        match error_message_of(*error, outside@) {
            None => r is None,
            Some(t) => r matches Some(m) && m.header@ == t.0 && m.body@ == t.1 && debug_matches(t.2, m.debug_info),
        },
{
    match error {
        DotnetBuildpackError::BuildpackDetection(_) => Some(io_message_exec(
            "Error completing buildpack detection",
            "determining if we must run the Heroku .NET buildpack for this application",
            outside,
        )),
        DotnetBuildpackError::ReadProjectTomlFile(_) => Some(io_message_exec(
            "Error reading `project.toml` file",
            "reading `project.toml` file",
            outside,
        )),
        DotnetBuildpackError::ParseProjectToml(_) => stated(
            "Invalid `project.toml` file",
            project_toml_parse_body_text(),
            Some(str_to_string(outside)),
        ),
        DotnetBuildpackError::NoSolutionProjects(p) => stated(
            "No project references found in solution",
            no_solution_projects_body_text(p.as_str()),
            None,
        ),
        DotnetBuildpackError::ConfiguredSolutionFileNotFound(_) => None,
        DotnetBuildpackError::DiscoverAppSource(d) => match d {
            DiscoveryError::MultipleSolutionFiles(v) => {
                let files = joined_text(v);
                stated("Multiple .NET solution files", multiple_solution_files_body_text(files.as_str()), None)
            },
            DiscoveryError::MultipleProjectFiles(v) => {
                let files = joined_text(v);
                stated("Multiple .NET project files", multiple_project_files_body_text(files.as_str()), None)
            },
            _ => None,
        },
        DotnetBuildpackError::LoadAppSource(l) => match l {
            AppSourceLoadError::Solution(se) => match se {
                LoadError::ReadSolutionFile(_) => Some(io_message_exec(
                    "Error loading solution file",
                    "reading the solution file",
                    outside,
                )),
                LoadError::LoadProject(pe) => project_load_error_message(pe, "reading solution project files", outside),
                LoadError::ProjectNotFound(p) => stated(
                    "Missing project referenced in solution",
                    project_not_found_body_text(p.as_str()),
                    None,
                ),
                LoadError::SlnxParseError(_) => stated("Error parsing solution file", slnx_parse_body_text(), Some(str_to_string(outside))),
            },
            AppSourceLoadError::Project(pe) => project_load_error_message(pe, "reading root project file", outside),
            AppSourceLoadError::FileBasedApp(_) => None,
        },
        DotnetBuildpackError::ParseTargetFrameworkMoniker(t) => match t {
            ParseTargetFrameworkError::InvalidFormat(tfm) => stated(
                "Unsupported target framework",
                unsupported_tfm_body_text(tfm.as_str()),
                None,
            ),
            ParseTargetFrameworkError::UnsupportedOSTfm(tfm) => stated(
                "Unsupported target framework",
                unsupported_tfm_body_text(tfm.as_str()),
                None,
            ),
        },
        DotnetBuildpackError::ReadGlobalJsonFile(_) => Some(io_message_exec(
            "Error reading `global.json` file",
            "detecting SDK version requirement",
            outside,
        )),
        DotnetBuildpackError::ParseGlobalJson(_) => stated(
            "Invalid `global.json` file",
            global_json_parse_body_text(),
            Some(str_to_string(outside)),
        ),
        DotnetBuildpackError::ParseGlobalJsonSdkConfig(c) => {
            let debug_info = match c {
                SdkConfigError::InvalidVersion(_) => str_to_string(outside),
                SdkConfigError::InvalidRollForward(v) => v.clone(),
            };
            stated("Error parsing `global.json` version requirement", global_json_requirement_body_text(), Some(debug_info))
        },
        DotnetBuildpackError::ParseInventory(s) => stated("Invalid `inventory.toml` file", inventory_parse_body_text(), Some(s.clone())),
        DotnetBuildpackError::ParseSolutionVersionRequirement(_) => stated(
            "Invalid .NET SDK version requirement",
            solution_requirement_body_text(),
            Some(str_to_string(outside)),
        ),
        DotnetBuildpackError::ResolveSdkVersion(q) => {
            let quoted = requirement_display(q);
            stated("Unsupported .NET SDK version", resolve_sdk_body_text(quoted.as_str()), None)
        },
        DotnetBuildpackError::SdkLayer(l) => match l {
            SdkLayerError::DownloadArchive(s) => stated("Failed to download .NET SDK", download_body_text(), Some(s.clone())),
            SdkLayerError::ReadArchive(_) => Some(io_message_exec(
                "Error reading downloaded SDK archive",
                "calculating checksum for the downloaded .NET SDK archive",
                outside,
            )),
            SdkLayerError::VerifyArchiveChecksum { expected, actual } => {
                let e = hex_encode(expected.as_slice());
                let a = hex_encode(actual.as_slice());
                stated("Corrupted .NET SDK download", checksum_body_text(e.as_str(), a.as_str()), None)
            },
            SdkLayerError::OpenArchive(_) => Some(io_message_exec(
                "Error reading downloaded SDK archive",
                "decompressing downloaded .NET SDK archive",
                outside,
            )),
            SdkLayerError::DecompressArchive(_) => Some(io_message_exec(
                "Failed to decompress .NET SDK",
                "extracting .NET SDK archive contents",
                outside,
            )),
        },
        DotnetBuildpackError::ParseBuildpackConfiguration(c) => match c {
            DotnetBuildpackConfigurationError::VerbosityLevel(ParseVerbosityLevelError(v)) => stated(
                "Invalid MSBuild verbosity level",
                verbosity_body_text(v.as_str()),
                None,
            ),
            DotnetBuildpackConfigurationError::ExecutionEnvironment(
                ExecutionEnvironmentError::UnsupportedExecutionEnvironment(v),
            ) => stated("Unsupported execution environment", execution_environment_body_text(v.as_str()), None),
            DotnetBuildpackConfigurationError::InvalidSolutionFile(_) => None,
        },
        DotnetBuildpackError::RestoreDotnetToolsCommand(c) => match c {
            CommandError::SystemError(_, _) => Some(io_message_exec(
                "Unable to restore .NET tools",
                "running the command to restore .NET tools",
                outside,
            )),
            CommandError::NonZeroExit(s) => stated(
                "Unable to restore .NET tools",
                restore_tools_failed_body_text(s.as_str()),
                None,
            ),
        },
        DotnetBuildpackError::PublishCommand(c) => match c {
            CommandError::SystemError(_, _) => Some(io_message_exec(
                "Unable to publish",
                "running the command to publish the .NET solution/project",
                outside,
            )),
            CommandError::NonZeroExit(s) => stated("Unable to publish", publish_failed_body_text(s.as_str()), None),
        },
        DotnetBuildpackError::CopyRuntimeFiles(_) => Some(io_message_exec(
            "Error copying .NET runtime files",
            "copying .NET runtime files from the SDK layer to the runtime layer",
            outside,
        )),
    }
}

/// The message about an error inside the buildpack framework, with its text `debug_info`.
pub fn internal_error_message(debug_info: String) -> (r: ErrorMessage)
    ensures
        r.header@ == "Heroku .NET Buildpack internal buildpack error"@,
        r.body@ == internal_error_body(),
        r.debug_info == Some(debug_info),
{
    message("Heroku .NET Buildpack internal buildpack error", internal_error_body_text(), Some(debug_info))
}

} // verus!
