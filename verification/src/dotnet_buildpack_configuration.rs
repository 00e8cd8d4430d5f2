//! The buildpack's configuration, from environment variables and `project.toml`.
use vstd::prelude::*;
use crate::env::Env;
use crate::paths::{spec_extension, extension_chars};
use crate::project_toml::DotnetConfig;
use crate::text::{str_chars, chars_equal_str, str_to_string, to_lowercase, spec_to_lowercase, all_ascii, ascii_lowercase};

verus! {

/// The buildpack's configuration.
#[derive(Debug, PartialEq)]
pub struct DotnetBuildpackConfiguration {
    pub build_configuration: Option<String>,
    pub execution_environment: ExecutionEnvironment,
    pub msbuild_verbosity_level: Option<VerbosityLevel>,
    pub solution_file: Option<String>,
}

/// Why the configuration is invalid.
#[derive(Debug, PartialEq)]
pub enum DotnetBuildpackConfigurationError {
    ExecutionEnvironment(ExecutionEnvironmentError),
    VerbosityLevel(ParseVerbosityLevelError),
    InvalidSolutionFile(String),
}

/// Where the buildpack runs: building for production or for running tests.
#[derive(Debug, PartialEq, Eq, Structural, Clone, Copy)]
pub enum ExecutionEnvironment {
    Production,
    Test,
}

/// An execution environment that the buildpack does not support (named).
#[derive(Debug, PartialEq)]
pub enum ExecutionEnvironmentError {
    UnsupportedExecutionEnvironment(String),
}

/// The execution environment named by a `CNB_EXEC_ENV` value, if any.
pub open spec fn execution_environment_named(s: Seq<char>) -> Option<ExecutionEnvironment> {
    if s == "production"@ {
        Some(ExecutionEnvironment::Production)
    } else if s == "test"@ {
        Some(ExecutionEnvironment::Test)
    } else {
        None
    }
}

/// `r` is what parsing the execution environment `s` gives.
pub open spec fn execution_environment_result(s: Seq<char>, r: Result<ExecutionEnvironment, ExecutionEnvironmentError>) -> bool {
    match execution_environment_named(s) {
        Some(e) => r == Ok::<ExecutionEnvironment, ExecutionEnvironmentError>(e),
        None => r matches Err(ExecutionEnvironmentError::UnsupportedExecutionEnvironment(v)) && v@ == s,
    }
}

impl ExecutionEnvironment {
    /// Parses a `CNB_EXEC_ENV` value: `production` or `test`.
    pub fn from_str(cnb_exec_env: &str) -> (r: Result<Self, ExecutionEnvironmentError>)
        ensures
            execution_environment_result(cnb_exec_env@, r),
    {
        let c = str_chars(cnb_exec_env);
        if chars_equal_str(&c, "production") {
            Ok(ExecutionEnvironment::Production)
        } else if chars_equal_str(&c, "test") {
            Ok(ExecutionEnvironment::Test)
        } else {
            Err(ExecutionEnvironmentError::UnsupportedExecutionEnvironment(str_to_string(cnb_exec_env)))
        }
    }
}

impl std::str::FromStr for ExecutionEnvironment {
    type Err = ExecutionEnvironmentError;

    fn from_str(s: &str) -> (r: Result<Self, Self::Err>)
        ensures
            execution_environment_result(s@, r),
    {
        ExecutionEnvironment::from_str(s)
    }
}

/// MSBuild verbosity levels.
#[derive(Debug, PartialEq, Eq, Structural, Clone, Copy)]
pub enum VerbosityLevel {
    Quiet,
    Minimal,
    Normal,
    Detailed,
    Diagnostic,
}

/// A verbosity level value that names no level (the value as given).
#[derive(Debug, PartialEq)]
pub struct ParseVerbosityLevelError(pub String);

/// The level that a lower-cased verbosity value names: a level's name or its abbreviation
/// (`q`, `m`, `n`, `d`, `diag`).
pub open spec fn verbosity_named(lower: Seq<char>) -> Option<VerbosityLevel> {
    if lower == "q"@ || lower == "quiet"@ {
        Some(VerbosityLevel::Quiet)
    } else if lower == "m"@ || lower == "minimal"@ {
        Some(VerbosityLevel::Minimal)
    } else if lower == "n"@ || lower == "normal"@ {
        Some(VerbosityLevel::Normal)
    } else if lower == "d"@ || lower == "detailed"@ {
        Some(VerbosityLevel::Detailed)
    } else if lower == "diag"@ || lower == "diagnostic"@ {
        Some(VerbosityLevel::Diagnostic)
    } else {
        None
    }
}

/// `r` is what parsing the verbosity value `value` gives, case-insensitively.
pub open spec fn verbosity_result(value: Seq<char>, r: Result<VerbosityLevel, ParseVerbosityLevelError>) -> bool {
    match verbosity_named(spec_to_lowercase(value)) {
        Some(l) => r == Ok::<VerbosityLevel, ParseVerbosityLevelError>(l),
        None => r matches Err(ParseVerbosityLevelError(v)) && v@ == value,
    }
}

/// The name of a verbosity level.
pub open spec fn verbosity_text(level: VerbosityLevel) -> Seq<char> {
    match level {
        VerbosityLevel::Quiet => "quiet"@,
        VerbosityLevel::Minimal => "minimal"@,
        VerbosityLevel::Normal => "normal"@,
        VerbosityLevel::Detailed => "detailed"@,
        VerbosityLevel::Diagnostic => "diagnostic"@,
    }
}

impl VerbosityLevel {
    /// The level that the already lower-cased value `lower` names; otherwise the error
    /// holding `value`, the value as given.
    pub fn from_lowercase(lower: &str, value: &str) -> (r: Result<Self, ParseVerbosityLevelError>)
        ensures
            match verbosity_named(lower@) {
                Some(l) => r == Ok::<VerbosityLevel, ParseVerbosityLevelError>(l),
                None => r matches Err(ParseVerbosityLevelError(v)) && v@ == value@,
            },
    {
        let c = str_chars(lower);
        if chars_equal_str(&c, "q") || chars_equal_str(&c, "quiet") {
            Ok(VerbosityLevel::Quiet)
        } else if chars_equal_str(&c, "m") || chars_equal_str(&c, "minimal") {
            Ok(VerbosityLevel::Minimal)
        } else if chars_equal_str(&c, "n") || chars_equal_str(&c, "normal") {
            Ok(VerbosityLevel::Normal)
        } else if chars_equal_str(&c, "d") || chars_equal_str(&c, "detailed") {
            Ok(VerbosityLevel::Detailed)
        } else if chars_equal_str(&c, "diag") || chars_equal_str(&c, "diagnostic") {
            Ok(VerbosityLevel::Diagnostic)
        } else {
            Err(ParseVerbosityLevelError(str_to_string(value)))
        }
    }

    /// Parses a verbosity level value, ignoring case.
    pub fn from_str(value: &str) -> (r: Result<Self, ParseVerbosityLevelError>)
        ensures
            verbosity_result(value@, r),
            all_ascii(value@) ==> match verbosity_named(ascii_lowercase(value@)) {
                Some(l) => r == Ok::<VerbosityLevel, ParseVerbosityLevelError>(l),
                None => r matches Err(ParseVerbosityLevelError(v)) && v@ == value@,
            },
    {
        let lower = to_lowercase(value);
        Self::from_lowercase(lower.as_str(), value)
    }

    /// The name of the level, as the `dotnet` CLI takes it (`detailed`).
    pub fn to_string(&self) -> (r: String)
        ensures
            r@ == verbosity_text(*self),
    {
        match self {
            VerbosityLevel::Quiet => str_to_string("quiet"),
            VerbosityLevel::Minimal => str_to_string("minimal"),
            VerbosityLevel::Normal => str_to_string("normal"),
            VerbosityLevel::Detailed => str_to_string("detailed"),
            VerbosityLevel::Diagnostic => str_to_string("diagnostic"),
        }
    }
}

impl std::str::FromStr for VerbosityLevel {
    type Err = ParseVerbosityLevelError;

    fn from_str(s: &str) -> (r: Result<Self, Self::Err>)
        ensures
            verbosity_result(s@, r),
    {
        VerbosityLevel::from_str(s)
    }
}

/// The first value that is set.
pub open spec fn first_set(primary: Option<Seq<char>>, fallback: Option<Seq<char>>) -> Option<Seq<char>> {
    match primary {
        Some(v) => Some(v),
        None => fallback,
    }
}

/// The view of an optional string.
pub open spec fn opt_string(o: Option<String>) -> Option<Seq<char>> {
    match o {
        Some(s) => Some(s@),
        None => None,
    }
}

/// The `msbuild` setting of the optional `project.toml` section, selected by `which`
/// (true: `configuration`, false: `verbosity`).
pub open spec fn msbuild_setting(config: Option<&DotnetConfig>, configuration: bool) -> Option<Seq<char>> {
    match config {
        Some(c) => match c.msbuild {
            Some(m) => if configuration {
                opt_string(m.configuration)
            } else {
                opt_string(m.verbosity)
            },
            None => None,
        },
        None => None,
    }
}

/// The solution file setting of the optional `project.toml` section.
pub open spec fn toml_solution_file(config: Option<&DotnetConfig>) -> Option<Seq<char>> {
    match config {
        Some(c) => opt_string(c.solution_file),
        None => None,
    }
}

/// A solution file path has the extension `sln` or `slnx`.
pub open spec fn is_solution_file_path(p: Seq<char>) -> bool {
    spec_extension(p) == Some("sln"@) || spec_extension(p) == Some("slnx"@)
}

/// `r` is the configuration that the environment `env` and the `project.toml` section
/// `config` give. Environment variables win over `project.toml`: `SOLUTION_FILE` over
/// `solution_file` (which must name an `.sln` or `.slnx` file), `BUILD_CONFIGURATION` over
/// `msbuild.configuration`, `MSBUILD_VERBOSITY_LEVEL` over `msbuild.verbosity`; `CNB_EXEC_ENV`
/// sets the execution environment (production by default). Errors are checked in that
/// order: solution file, execution environment, verbosity level.
pub open spec fn configuration_result(
    env: Env,
    config: Option<&DotnetConfig>,
    r: Result<DotnetBuildpackConfiguration, DotnetBuildpackConfigurationError>,
) -> bool {
    let solution = first_set(env.value("SOLUTION_FILE"@), toml_solution_file(config));
    let build = first_set(env.value("BUILD_CONFIGURATION"@), msbuild_setting(config, true));
    let exec_env = env.value("CNB_EXEC_ENV"@);
    let verbosity = first_set(env.value("MSBUILD_VERBOSITY_LEVEL"@), msbuild_setting(config, false));
    if solution matches Some(p) && !is_solution_file_path(p) {
        r matches Err(DotnetBuildpackConfigurationError::InvalidSolutionFile(q)) && q@ == solution.unwrap()
    } else if exec_env matches Some(e) && execution_environment_named(e) is None {
        r matches Err(DotnetBuildpackConfigurationError::ExecutionEnvironment(
            ExecutionEnvironmentError::UnsupportedExecutionEnvironment(q),
        )) && q@ == exec_env.unwrap()
    } else if verbosity matches Some(v) && verbosity_named(spec_to_lowercase(v)) is None {
        r matches Err(DotnetBuildpackConfigurationError::VerbosityLevel(ParseVerbosityLevelError(q))) && q@ == verbosity.unwrap()
    } else {
        r matches Ok(c) && {
            &&& opt_string(c.solution_file) == solution
            &&& opt_string(c.build_configuration) == build
            &&& c.execution_environment == match exec_env {
                Some(e) => execution_environment_named(e).unwrap(),
                None => ExecutionEnvironment::Production,
            }
            &&& c.msbuild_verbosity_level == match verbosity {
                Some(v) => Some(verbosity_named(spec_to_lowercase(v)).unwrap()),
                None => None,
            }
        }
    }
}

/// A configured solution file (from `SOLUTION_FILE`, else from `project.toml`) is refused
/// exactly when its extension is neither `sln` nor `slnx`; and with `SOLUTION_FILE` naming
/// an `.sln` or `.slnx` file and nothing else configured, the configuration is the
/// production one with that solution file.
pub proof fn lemma_solution_files_are_sln_or_slnx(
    env: Env,
    config: Option<&DotnetConfig>,
    r: Result<DotnetBuildpackConfiguration, DotnetBuildpackConfigurationError>,
)
    requires
        configuration_result(env, config, r),
    ensures
        (first_set(env.value("SOLUTION_FILE"@), toml_solution_file(config)) matches Some(p)
            && spec_extension(p) != Some("sln"@) && spec_extension(p) != Some("slnx"@))
            <==> r matches Err(DotnetBuildpackConfigurationError::InvalidSolutionFile(_)),
        (env.value("SOLUTION_FILE"@) matches Some(p) && (spec_extension(p) == Some("sln"@)
            || spec_extension(p) == Some("slnx"@)) && env.value("CNB_EXEC_ENV"@) is None
            && env.value("MSBUILD_VERBOSITY_LEVEL"@) is None && env.value("BUILD_CONFIGURATION"@) is None
            && config is None) ==> (r matches Ok(c) && opt_string(c.solution_file) == env.value("SOLUTION_FILE"@)
            && c.execution_environment == ExecutionEnvironment::Production && c.build_configuration is None
            && c.msbuild_verbosity_level is None),
{
}

fn first_set_exec(primary: Option<String>, fallback: &Option<String>) -> (r: Option<String>)
    ensures
        opt_string(r) == first_set(opt_string(primary), opt_string(*fallback)),
{
    match primary {
        Some(v) => Some(v),
        None => match fallback {
            Some(f) => Some(f.clone()),
            None => None,
        },
    }
}

fn msbuild_setting_exec(config: Option<&DotnetConfig>, configuration: bool) -> (r: Option<String>)
    ensures
        opt_string(r) == msbuild_setting(config, configuration),
{
    match config {
        Some(c) => match &c.msbuild {
            Some(m) => if configuration {
                match &m.configuration {
                    Some(v) => Some(v.clone()),
                    None => None,
                }
            } else {
                match &m.verbosity {
                    Some(v) => Some(v.clone()),
                    None => None,
                }
            },
            None => None,
        },
        None => None,
    }
}

fn is_solution_file_path_exec(p: &str) -> (r: bool)
    ensures
        r == is_solution_file_path(p@),
{
    match extension_chars(p) {
        Some(e) => chars_equal_str(&e, "sln") || chars_equal_str(&e, "slnx"),
        None => false,
    }
}

impl DotnetBuildpackConfiguration {
    /// The configuration from the environment and the optional `project.toml` section (see
    /// [`configuration_result`]).
    pub fn try_from_env_and_project_toml(
        env: &Env,
        project_toml_config: Option<&DotnetConfig>,
    ) -> (r: Result<Self, DotnetBuildpackConfigurationError>)
        ensures
            configuration_result(*env, project_toml_config, r),
    {
        let toml_solution = match project_toml_config {
            Some(c) => match &c.solution_file {
                Some(f) => Some(f.clone()),
                None => None,
            },
            None => None,
        };
        let solution_file = first_set_exec(env.get("SOLUTION_FILE"), &toml_solution);
        if let Some(path) = &solution_file {
            if !is_solution_file_path_exec(path.as_str()) {
                return Err(DotnetBuildpackConfigurationError::InvalidSolutionFile(path.clone()));
            }
        }
        let build_configuration = first_set_exec(
            env.get("BUILD_CONFIGURATION"),
            &msbuild_setting_exec(project_toml_config, true),
        );
        let execution_environment = match env.get("CNB_EXEC_ENV") {
            Some(e) => match ExecutionEnvironment::from_str(e.as_str()) {
                Ok(x) => x,
                Err(err) => return Err(DotnetBuildpackConfigurationError::ExecutionEnvironment(err)),
            },
            None => ExecutionEnvironment::Production,
        };
        let verbosity = first_set_exec(
            env.get("MSBUILD_VERBOSITY_LEVEL"),
            &msbuild_setting_exec(project_toml_config, false),
        );
        let msbuild_verbosity_level = match verbosity {
            Some(v) => match VerbosityLevel::from_str(v.as_str()) {
                Ok(l) => Some(l),
                Err(err) => return Err(DotnetBuildpackConfigurationError::VerbosityLevel(err)),
            },
            None => None,
        };
        Ok(DotnetBuildpackConfiguration {
            build_configuration,
            execution_environment,
            msbuild_verbosity_level,
            solution_file,
        })
    }
}

} // verus!
