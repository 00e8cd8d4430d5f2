//! Build-time logic of a Cloud Native Buildpack for .NET applications: discovering the
//! application source, reading project and solution files, choosing the .NET SDK version
//! requirement and describing the launch processes, each stated as a contract and proved.
use vstd::prelude::*;

pub mod text;
pub mod paths;
pub mod sln;
pub mod shell;
pub mod versions;
pub mod dotnet;
pub mod env;
pub mod project_toml;
pub mod dotnet_buildpack_configuration;
pub mod launch_process;
pub mod utils;
pub mod strategy;
pub mod app_source;
pub mod detect;
pub mod dotnet_rid;
pub mod dotnet_project;
pub mod dotnet_executable_finder;
pub mod dotnet_solution;
pub mod tfm_to_semver;
pub mod global_json;
pub mod dotnet_runtime_identifier;
pub mod dotnet_sdk_command;
pub mod dotnet_layer_env;
pub mod buildpack;
pub mod errors;
pub mod inventory_updater;
pub mod sdk_download;

verus! {

} // verus!
