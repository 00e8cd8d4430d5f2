//! The buildpack's section of `project.toml` (`[com.heroku.buildpacks.dotnet]`).
use vstd::prelude::*;

verus! {

/// The `[com.heroku.buildpacks.dotnet]` table.
#[derive(Debug)]
pub struct DotnetConfig {
    pub msbuild: Option<MsbuildConfig>,
    pub solution_file: Option<String>,
}

/// The `msbuild` table of the buildpack's section.
#[derive(Debug)]
pub struct MsbuildConfig {
    pub configuration: Option<String>,
    pub verbosity: Option<String>,
}

} // verus!
