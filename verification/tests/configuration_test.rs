use dotnet_buildpack::dotnet_buildpack_configuration::{
    DotnetBuildpackConfiguration, DotnetBuildpackConfigurationError, ExecutionEnvironment,
    ExecutionEnvironmentError, ParseVerbosityLevelError, VerbosityLevel,
};
use dotnet_buildpack::env::Env;
use dotnet_buildpack::project_toml::{DotnetConfig, MsbuildConfig};

fn create_env(variables: &[(&str, &str)]) -> Env {
    let mut env = Env::new();
    for &(key, value) in variables {
        env.insert(key, value);
    }
    env
}

#[test]
fn test_default_buildpack_configuration() {
    let env = create_env(&[]);
    let result = DotnetBuildpackConfiguration::try_from_env_and_project_toml(&env, None).unwrap();

    assert_eq!(
        result,
        DotnetBuildpackConfiguration {
            build_configuration: None,
            execution_environment: ExecutionEnvironment::Production,
            msbuild_verbosity_level: None,
            solution_file: None
        }
    );
}

#[test]
fn test_project_toml_overrides_default_config() {
    let project_toml_config = DotnetConfig {
        msbuild: Some(MsbuildConfig {
            configuration: Some("Debug".to_string()),
            verbosity: Some("Detailed".to_string()),
        }),
        solution_file: Some("foo.sln".to_string()),
    };
    let result = DotnetBuildpackConfiguration::try_from_env_and_project_toml(
        &create_env(&[]),
        Some(&project_toml_config),
    )
    .unwrap();

    assert_eq!(result.solution_file, Some("foo.sln".to_string()));
    assert_eq!(result.build_configuration, Some("Debug".to_string()));
    assert_eq!(result.msbuild_verbosity_level, Some(VerbosityLevel::Detailed));
}

#[test]
fn test_env_overrides_project_toml() {
    let env = create_env(&[
        ("BUILD_CONFIGURATION", "Release"),
        ("MSBUILD_VERBOSITY_LEVEL", "Detailed"),
        ("SOLUTION_FILE", "env-solution.sln"),
    ]);
    let project_toml_config = DotnetConfig {
        msbuild: Some(MsbuildConfig {
            configuration: Some("Debug".to_string()),
            verbosity: Some("Quiet".to_string()),
        }),
        solution_file: Some("toml-solution.sln".to_string()),
    };
    let result = DotnetBuildpackConfiguration::try_from_env_and_project_toml(
        &env,
        Some(&project_toml_config),
    )
    .unwrap();

    assert_eq!(result.build_configuration, Some("Release".to_string()));
    assert_eq!(result.msbuild_verbosity_level, Some(VerbosityLevel::Detailed));
    assert_eq!(result.solution_file, Some("env-solution.sln".to_string()));
}

#[test]
fn test_env_vars_override_default_config() {
    let env = create_env(&[
        ("BUILD_CONFIGURATION", "Release"),
        ("MSBUILD_VERBOSITY_LEVEL", "Detailed"),
        ("CNB_EXEC_ENV", "test"),
        ("SOLUTION_FILE", "env-solution.sln"),
    ]);
    let result = DotnetBuildpackConfiguration::try_from_env_and_project_toml(&env, None).unwrap();

    assert_eq!(result.build_configuration, Some("Release".to_string()));
    assert_eq!(result.execution_environment, ExecutionEnvironment::Test);
    assert_eq!(result.msbuild_verbosity_level, Some(VerbosityLevel::Detailed));
    assert_eq!(result.solution_file, Some("env-solution.sln".to_string()));
}

#[test]
fn configuration_errors_in_order() {
    let env = create_env(&[
        ("SOLUTION_FILE", "app.csproj"),
        ("CNB_EXEC_ENV", "staging"),
        ("MSBUILD_VERBOSITY_LEVEL", "loud"),
    ]);
    assert_eq!(
        DotnetBuildpackConfiguration::try_from_env_and_project_toml(&env, None),
        Err(DotnetBuildpackConfigurationError::InvalidSolutionFile("app.csproj".to_string()))
    );
    let env = create_env(&[("CNB_EXEC_ENV", "staging"), ("MSBUILD_VERBOSITY_LEVEL", "loud")]);
    assert_eq!(
        DotnetBuildpackConfiguration::try_from_env_and_project_toml(&env, None),
        Err(DotnetBuildpackConfigurationError::ExecutionEnvironment(
            ExecutionEnvironmentError::UnsupportedExecutionEnvironment("staging".to_string())
        ))
    );
    let env = create_env(&[("MSBUILD_VERBOSITY_LEVEL", "loud")]);
    assert_eq!(
        DotnetBuildpackConfiguration::try_from_env_and_project_toml(&env, None),
        Err(DotnetBuildpackConfigurationError::VerbosityLevel(ParseVerbosityLevelError(
            "loud".to_string()
        )))
    );
}

#[test]
fn test_parse_execution_environment() {
    assert_eq!("production".parse(), Ok(ExecutionEnvironment::Production));
    assert_eq!("test".parse(), Ok(ExecutionEnvironment::Test));
    assert_eq!(
        "invalid".parse::<ExecutionEnvironment>(),
        Err(ExecutionEnvironmentError::UnsupportedExecutionEnvironment("invalid".to_string()))
    );
}

#[test]
fn test_parse_msbuild_verbosity_level() {
    let valid_cases = [
        ("q", VerbosityLevel::Quiet),
        ("quiet", VerbosityLevel::Quiet),
        ("minimal", VerbosityLevel::Minimal),
        ("m", VerbosityLevel::Minimal),
        ("normal", VerbosityLevel::Normal),
        ("n", VerbosityLevel::Normal),
        ("detailed", VerbosityLevel::Detailed),
        ("d", VerbosityLevel::Detailed),
        ("diagnostic", VerbosityLevel::Diagnostic),
        ("diag", VerbosityLevel::Diagnostic),
    ];

    for (input, expected) in valid_cases {
        let result = input.parse();
        assert_eq!(result, Ok(expected));
    }

    let result = "invalid".parse::<VerbosityLevel>();
    assert!(matches!(result, Err(ParseVerbosityLevelError(ref s)) if s == "invalid"));
}

#[test]
fn test_verbosity_level_display() {
    let cases = [
        (VerbosityLevel::Quiet, "quiet"),
        (VerbosityLevel::Minimal, "minimal"),
        (VerbosityLevel::Normal, "normal"),
        (VerbosityLevel::Detailed, "detailed"),
        (VerbosityLevel::Diagnostic, "diagnostic"),
    ];

    for (level, expected) in cases {
        assert_eq!(level.to_string(), expected);
    }
}

#[test]
fn env_reads_back_the_last_value_set() {
    let mut env = Env::new();
    assert_eq!(env.get("A"), None);
    env.insert("A", "1");
    env.insert("B", "2");
    env.insert("A", "3");
    assert_eq!(env.get("A"), Some("3".to_string()));
    assert_eq!(env.get("B"), Some("2".to_string()));
}
