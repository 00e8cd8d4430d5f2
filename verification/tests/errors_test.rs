use dotnet_buildpack::app_source::{self, DiscoveryError};
use dotnet_buildpack::buildpack::{CommandError, DotnetBuildpackError, SdkLayerError};
use dotnet_buildpack::dotnet::global_json::SdkConfigError;
use dotnet_buildpack::dotnet::project;
use dotnet_buildpack::dotnet::solution::LoadError;
use dotnet_buildpack::dotnet::target_framework_moniker::ParseTargetFrameworkError;
use dotnet_buildpack::dotnet_buildpack_configuration::{
    DotnetBuildpackConfigurationError, ExecutionEnvironmentError, ParseVerbosityLevelError,
};
use dotnet_buildpack::versions::SdkRequirement;
use dotnet_buildpack::errors::{error_message, error_message_given, internal_error_message, ErrorMessage};
use std::io;

fn create_io_error() -> io::Error {
    io::Error::other("foo bar baz")
}

fn message(error: DotnetBuildpackError) -> ErrorMessage {
    error_message(&error).expect("a message")
}

const IO_BODY_TAIL: &str = ".\n\nUse the debug information above to troubleshoot and retry your build. If the\nissue persists, file an issue here:\nhttps://github.com/heroku/buildpacks-dotnet/issues/new\n";

#[test]
fn test_buildpack_detection_error() {
    let m = message(DotnetBuildpackError::BuildpackDetection(create_io_error()));
    assert_eq!(m.header, "Error completing buildpack detection");
    assert_eq!(
        m.body,
        format!("An unexpected I/O error occurred while determining if we must run the Heroku .NET buildpack for this application{IO_BODY_TAIL}")
    );
    assert_eq!(m.debug_info, Some("foo bar baz".to_string()));
}

#[test]
fn test_no_solution_projects_error() {
    let m = message(DotnetBuildpackError::NoSolutionProjects("/foo/bar.sln".to_string()));
    assert_eq!(m.header, "No project references found in solution");
    assert!(m.body.starts_with("The solution file `/foo/bar.sln` has no project references.\n\nThis buildpack prefers"));
    assert!(m.body.ends_with("* Or reference the projects to build from the solution file.\n\n"));
    assert_eq!(m.debug_info, None);
}

#[test]
fn test_multiple_root_directory_solution_files_error() {
    let m = message(DotnetBuildpackError::DiscoverAppSource(DiscoveryError::MultipleSolutionFiles(vec![
        "foo.sln".to_string(),
        "bar.sln".to_string(),
    ])));
    assert_eq!(m.header, "Multiple .NET solution files");
    assert!(m.body.starts_with("The root directory contains multiple .NET solution files: `foo.sln`, `bar.sln`.\n\n"));
}

#[test]
fn test_multiple_root_directory_project_files_error() {
    let m = message(DotnetBuildpackError::DiscoverAppSource(DiscoveryError::MultipleProjectFiles(vec![
        "foo.csproj".to_string(),
        "bar.fsproj".to_string(),
    ])));
    assert_eq!(m.header, "Multiple .NET project files");
    assert!(m.body.starts_with("The root directory contains multiple .NET project files: `foo.csproj`, `bar.fsproj`.\n\nWe don’t support"));
}

#[test]
fn test_load_solution_file_project_not_found_error() {
    let m = message(DotnetBuildpackError::LoadAppSource(app_source::LoadError::Solution(
        LoadError::ProjectNotFound("src/MyProject/MyProject.csproj".to_string()),
    )));
    assert_eq!(m.header, "Missing project referenced in solution");
    assert!(m.body.starts_with("The solution references a project file that does not exist: `src/MyProject/MyProject.csproj`.\n"));
}

#[test]
fn test_load_solution_file_load_project_missing_target_framework_error() {
    let m = message(DotnetBuildpackError::LoadAppSource(app_source::LoadError::Solution(
        LoadError::LoadProject(project::LoadError::MissingTargetFramework("foo.csproj".to_string())),
    )));
    assert_eq!(m.header, "Project file missing TargetFramework property");
    assert_eq!(
        m.body,
        "The project file `foo.csproj` is missing the `TargetFramework` property.\nYou must set this required property.\n\nFor more information, see:\nhttps://github.com/heroku/buildpacks-dotnet#net-version\n"
    );
}

#[test]
fn test_load_solution_file_load_project_read_error() {
    let m = message(DotnetBuildpackError::LoadAppSource(app_source::LoadError::Solution(
        LoadError::LoadProject(project::LoadError::ReadProjectFile(create_io_error())),
    )));
    assert_eq!(m.header, "Error loading the project file");
    assert_eq!(m.body, format!("An unexpected I/O error occurred while reading solution project files{IO_BODY_TAIL}"));
}

#[test]
fn test_parse_target_framework_moniker_invalid_format_error() {
    let m = message(DotnetBuildpackError::ParseTargetFrameworkMoniker(
        ParseTargetFrameworkError::InvalidFormat("netcoreapp3.1".to_string()),
    ));
    assert_eq!(m.header, "Unsupported target framework");
    assert!(m.body.starts_with("The detected target framework moniker `netcoreapp3.1` is either invalid or unsupported. This\n"));
}

#[test]
fn test_sdk_layer_verify_archive_checksum_error() {
    let m = message(DotnetBuildpackError::SdkLayer(SdkLayerError::VerifyArchiveChecksum {
        expected: vec![0xab, 0x01, 0xff],
        actual: vec![0x00, 0x10],
    }));
    assert_eq!(m.header, "Corrupted .NET SDK download");
    assert!(m.body.ends_with("\n\nExpected: ab01ff\nActual: 0010\n"));
}

#[test]
fn test_parse_buildpack_configuration_invalid_msbuild_verbosity_level_error() {
    let m = message(DotnetBuildpackError::ParseBuildpackConfiguration(
        DotnetBuildpackConfigurationError::VerbosityLevel(ParseVerbosityLevelError("Foo".to_string())),
    ));
    assert_eq!(m.header, "Invalid MSBuild verbosity level");
    assert!(m.body.starts_with("The `MSBUILD_VERBOSITY_LEVEL` environment variable value (`Foo`)\nis invalid."));
    assert!(m.body.ends_with("\nq\nquiet\n"));
}

#[test]
fn test_parse_buildpack_configuration_unsupported_execution_environment_error() {
    let m = message(DotnetBuildpackError::ParseBuildpackConfiguration(
        DotnetBuildpackConfigurationError::ExecutionEnvironment(
            ExecutionEnvironmentError::UnsupportedExecutionEnvironment("foo".to_string()),
        ),
    ));
    assert_eq!(
        m.body,
        "The `CNB_EXEC_ENV` environment variable value (`foo`)\nis not supported. This buildpack currently supports `production` and\n`test` execution environments.\n"
    );
}

#[test]
fn test_publish_command_non_zero_exit_not_streamed_error() {
    let m = message(DotnetBuildpackError::PublishCommand(CommandError::NonZeroExit("exit status: 1".to_string())));
    assert_eq!(m.header, "Unable to publish");
    assert!(m.body.starts_with("The `dotnet publish` command failed (exit status: 1).\n\nThe most common cause is a compilation error."));
    let m = message(DotnetBuildpackError::RestoreDotnetToolsCommand(CommandError::SystemError(
        "dotnet".to_string(),
        create_io_error(),
    )));
    assert_eq!(m.header, "Unable to restore .NET tools");
    assert_eq!(m.debug_info, Some("foo bar baz".to_string()));
}

#[test]
fn test_resolve_sdk_version_error() {
    let m = message(DotnetBuildpackError::ResolveSdkVersion(SdkRequirement::parse("~4.8").unwrap()));
    assert_eq!(m.header, "Unsupported .NET SDK version");
    assert_eq!(
        m.body,
        "We can’t find a compatible .NET SDK release for the detected version\nrequirement (~4.8).\n\nFor a complete inventory of supported .NET SDK versions and platforms, see:\nhttps://github.com/heroku/buildpacks-dotnet/blob/main/buildpacks/dotnet/inventory.toml\n"
    );
    assert_eq!(m.debug_info, None);
}

#[test]
fn errors_without_a_message() {
    assert!(error_message(&DotnetBuildpackError::ConfiguredSolutionFileNotFound("/app/x.sln".to_string())).is_none());
    assert!(error_message(&DotnetBuildpackError::DiscoverAppSource(DiscoveryError::NoAppFound)).is_none());
}

#[test]
fn test_libcnb_internal_buildpack_error() {
    let m = internal_error_message("Couldn't create platform".to_string());
    assert_eq!(m.header, "Heroku .NET Buildpack internal buildpack error");
    assert!(m.body.starts_with("The framework used by this buildpack encountered an unexpected error.\n\n"));
    assert_eq!(m.debug_info, Some("Couldn't create platform".to_string()));
}

#[test]
fn test_load_project_file_read_error() {
    let m = message(DotnetBuildpackError::LoadAppSource(app_source::LoadError::Project(
        project::LoadError::ReadProjectFile(create_io_error()),
    )));
    assert_eq!(m.header, "Error loading the project file");
    assert_eq!(m.body, format!("An unexpected I/O error occurred while reading root project file{IO_BODY_TAIL}"));
}

const XML_ERROR_TEXT: &str = "Simulated XML parsing error";

fn create_xml_parse_error() -> quick_xml::DeError {
    quick_xml::DeError::Custom(XML_ERROR_TEXT.to_string())
}

fn io_body(occurred_while: &str) -> String {
    format!("An unexpected I/O error occurred while {occurred_while}{IO_BODY_TAIL}")
}

#[test]
fn test_read_project_toml_file_error() {
    let m = message(DotnetBuildpackError::ReadProjectTomlFile(create_io_error()));
    assert_eq!(m.header, "Error reading `project.toml` file");
    assert_eq!(m.body, io_body("reading `project.toml` file"));
    assert_eq!(m.debug_info, Some("foo bar baz".to_string()));
}

#[test]
fn test_parse_project_toml_error() {
    let expected_debug = toml::from_str::<toml::Value>("foo").unwrap_err().to_string();
    let m = message(DotnetBuildpackError::ParseProjectToml(
        toml::from_str::<toml::Value>("foo").unwrap_err(),
    ));
    assert_eq!(m.header, "Invalid `project.toml` file");
    assert_eq!(
        m.body,
        "We can't parse the `project.toml` file because it contains invalid TOML.\n\nUse the debug information above to troubleshoot and retry your build.\n"
    );
    assert_eq!(m.debug_info, Some(expected_debug));
}

#[test]
fn test_load_solution_file_read_error() {
    let m = message(DotnetBuildpackError::LoadAppSource(app_source::LoadError::Solution(
        LoadError::ReadSolutionFile(create_io_error()),
    )));
    assert_eq!(m.header, "Error loading solution file");
    assert_eq!(m.body, io_body("reading the solution file"));
    assert_eq!(m.debug_info, Some("foo bar baz".to_string()));
}

#[test]
fn test_load_solution_file_slnx_parse_error() {
    let m = message(DotnetBuildpackError::LoadAppSource(app_source::LoadError::Solution(
        LoadError::SlnxParseError(quick_xml::DeError::Custom("XML parsing error".to_string())),
    )));
    assert_eq!(m.header, "Error parsing solution file");
    assert_eq!(
        m.body,
        "We can't parse the solution file because it contains invalid XML.\n\nUse the debug information above to troubleshoot and retry your build.\n"
    );
    assert_eq!(m.debug_info, Some("XML parsing error".to_string()));
}

#[test]
fn test_load_solution_file_load_project_xml_parse_error() {
    let m = message(DotnetBuildpackError::LoadAppSource(app_source::LoadError::Solution(
        LoadError::LoadProject(project::LoadError::XmlParseError(create_xml_parse_error())),
    )));
    assert_eq!(m.header, "Error parsing the project file");
    assert!(m.body.starts_with("We can’t parse the project file’s XML content. Parsing errors usually\nindicate an error in the project file.\n"));
    assert!(m.body.ends_with("Use the debug information above to troubleshoot and retry your build."));
    assert_eq!(m.debug_info, Some(XML_ERROR_TEXT.to_string()));
}

#[test]
fn test_load_project_file_xml_parse_error() {
    let m = message(DotnetBuildpackError::LoadAppSource(app_source::LoadError::Project(
        project::LoadError::XmlParseError(create_xml_parse_error()),
    )));
    assert_eq!(m.header, "Error parsing the project file");
    assert!(m.body.starts_with("We can’t parse the project file’s XML content."));
    assert_eq!(m.debug_info, Some(XML_ERROR_TEXT.to_string()));
}

#[test]
fn test_load_project_file_missing_target_framework_error() {
    let m = message(DotnetBuildpackError::LoadAppSource(app_source::LoadError::Project(
        project::LoadError::MissingTargetFramework("fpp.csproj".to_string()),
    )));
    assert_eq!(m.header, "Project file missing TargetFramework property");
    assert_eq!(
        m.body,
        "The project file `fpp.csproj` is missing the `TargetFramework` property.\nYou must set this required property.\n\nFor more information, see:\nhttps://github.com/heroku/buildpacks-dotnet#net-version\n"
    );
    assert_eq!(m.debug_info, None);
}

#[test]
fn test_parse_target_framework_moniker_unsupported_os_tfm_error() {
    let m = message(DotnetBuildpackError::ParseTargetFrameworkMoniker(
        ParseTargetFrameworkError::UnsupportedOSTfm("net8.0-windows".to_string()),
    ));
    assert_eq!(m.header, "Unsupported target framework");
    assert_eq!(
        m.body,
        "The detected target framework moniker `net8.0-windows` is either invalid or unsupported. This\nbuildpack currently supports the following TFMs: `net6.0`, `net7.0`, `net8.0`, `net9.0`.\n\nFor more information, see:\nhttps://github.com/heroku/buildpacks-dotnet#net-version\n"
    );
    assert_eq!(m.debug_info, None);
}

#[test]
fn test_read_global_json_file_error() {
    let m = message(DotnetBuildpackError::ReadGlobalJsonFile(create_io_error()));
    assert_eq!(m.header, "Error reading `global.json` file");
    assert_eq!(m.body, io_body("detecting SDK version requirement"));
    assert_eq!(m.debug_info, Some("foo bar baz".to_string()));
}

#[test]
fn test_parse_global_json_error() {
    let expected_debug = serde_json::from_str::<serde_json::Value>("invalid json").unwrap_err().to_string();
    let m = message(DotnetBuildpackError::ParseGlobalJson(
        serde_json::from_str::<serde_json::Value>("invalid json").unwrap_err(),
    ));
    assert_eq!(m.header, "Invalid `global.json` file");
    assert_eq!(
        m.body,
        "We can’t parse the root directory `global.json` file because it contains invalid JSON.\n\nUse the debug information above to troubleshoot and retry your build.\n"
    );
    assert_eq!(m.debug_info, Some(expected_debug));
}

#[test]
fn test_parse_global_json_version_requirement_error() {
    let expected_debug = semver::Version::parse("invalid-version").unwrap_err().to_string();
    let m = message(DotnetBuildpackError::ParseGlobalJsonSdkConfig(SdkConfigError::InvalidVersion(
        semver::Version::parse("invalid-version").unwrap_err(),
    )));
    assert_eq!(m.header, "Error parsing `global.json` version requirement");
    assert_eq!(
        m.body,
        "We can’t parse the .NET SDK version requirement.\n\nUse the debug information above to troubleshoot and retry your build. For more\ninformation, see:\nhttps://github.com/heroku/buildpacks-dotnet#net-version\n"
    );
    assert_eq!(m.debug_info, Some(expected_debug));
    let m = message(DotnetBuildpackError::ParseGlobalJsonSdkConfig(SdkConfigError::InvalidRollForward(
        "sideways".to_string(),
    )));
    assert_eq!(m.header, "Error parsing `global.json` version requirement");
    assert_eq!(m.debug_info, Some("sideways".to_string()));
}

#[test]
fn test_parse_inventory_error() {
    let error_text = toml::from_str::<toml::Value>("invalid toml").unwrap_err().to_string();
    let m = message(DotnetBuildpackError::ParseInventory(error_text.clone()));
    assert_eq!(m.header, "Invalid `inventory.toml` file");
    assert_eq!(
        m.body,
        "We can’t parse the inventory of .NET SDK releases. This error\nis almost always a buildpack bug.\n\nIf you see this error, please file an issue here:\nhttps://github.com/heroku/buildpacks-dotnet/issues/new\n\n"
    );
    assert_eq!(m.debug_info, Some(error_text));
}

#[test]
fn test_parse_solution_version_requirement_error() {
    let expected_debug = semver::VersionReq::parse("invalid-version").unwrap_err().to_string();
    let m = message(DotnetBuildpackError::ParseSolutionVersionRequirement(
        semver::VersionReq::parse("invalid-version").unwrap_err(),
    ));
    assert_eq!(m.header, "Invalid .NET SDK version requirement");
    assert!(m.body.starts_with("We can’t parse the inferred .NET SDK version requirement.\n\n"));
    assert!(m.body.ends_with("example and file an issue here:\nhttps://github.com/heroku/buildpacks-dotnet/issues/new\n\n"));
    assert_eq!(m.debug_info, Some(expected_debug));
}

#[test]
fn test_sdk_layer_download_archive_http_error() {
    let m = message(DotnetBuildpackError::SdkLayer(SdkLayerError::DownloadArchive(
        "HTTP error while downloading file: builder error".to_string(),
    )));
    assert_eq!(m.header, "Failed to download .NET SDK");
    assert_eq!(
        m.body,
        "An unexpected error occurred while downloading the .NET SDK. This error can occur\ndue to an unstable network connection.\n\nUse the debug information above to troubleshoot and retry your build.\n"
    );
    assert_eq!(m.debug_info, Some("HTTP error while downloading file: builder error".to_string()));
}

#[test]
fn test_sdk_layer_download_archive_io_error() {
    let m = message(DotnetBuildpackError::SdkLayer(SdkLayerError::DownloadArchive(
        "I/O error while downloading file: foo bar baz".to_string(),
    )));
    assert_eq!(m.header, "Failed to download .NET SDK");
    assert_eq!(m.debug_info, Some("I/O error while downloading file: foo bar baz".to_string()));
}

#[test]
fn test_sdk_layer_decompress_archive_error() {
    let m = message(DotnetBuildpackError::SdkLayer(SdkLayerError::DecompressArchive(create_io_error())));
    assert_eq!(m.header, "Failed to decompress .NET SDK");
    assert_eq!(m.body, io_body("extracting .NET SDK archive contents"));
    assert_eq!(m.debug_info, Some("foo bar baz".to_string()));
}

#[test]
fn test_sdk_layer_open_archive_error() {
    let m = message(DotnetBuildpackError::SdkLayer(SdkLayerError::OpenArchive(create_io_error())));
    assert_eq!(m.header, "Error reading downloaded SDK archive");
    assert_eq!(m.body, io_body("decompressing downloaded .NET SDK archive"));
    assert_eq!(m.debug_info, Some("foo bar baz".to_string()));
}

#[test]
fn test_sdk_layer_read_archive_error() {
    let m = message(DotnetBuildpackError::SdkLayer(SdkLayerError::ReadArchive(create_io_error())));
    assert_eq!(m.header, "Error reading downloaded SDK archive");
    assert_eq!(m.body, io_body("calculating checksum for the downloaded .NET SDK archive"));
    assert_eq!(m.debug_info, Some("foo bar baz".to_string()));
}

#[test]
fn test_restore_dotnet_tools_command_system_error() {
    let m = message(DotnetBuildpackError::RestoreDotnetToolsCommand(CommandError::SystemError(
        "Failed to start process".to_string(),
        create_io_error(),
    )));
    assert_eq!(m.header, "Unable to restore .NET tools");
    assert_eq!(m.body, io_body("running the command to restore .NET tools"));
    assert_eq!(m.debug_info, Some("foo bar baz".to_string()));
}

#[test]
fn test_restore_dotnet_tools_command_non_zero_exit_not_streamed_error() {
    let m = message(DotnetBuildpackError::RestoreDotnetToolsCommand(CommandError::NonZeroExit(
        "exit status: 1".to_string(),
    )));
    assert_eq!(m.header, "Unable to restore .NET tools");
    assert_eq!(
        m.body,
        "The `dotnet tool restore` command failed (exit status: 1).\n\nThe most common cause is a configuration error in your tool manifest. Review\nthe command output above to find and fix the issue.\n\nThe failure may also be temporary due to a network or service outage. Retrying\nyour build often resolves this.\n\nIf the log suggests a NuGet issue, check the service status before retrying:\nhttps://status.nuget.org\n"
    );
    assert_eq!(m.debug_info, None);
}

#[test]
fn test_publish_command_system_error() {
    let m = message(DotnetBuildpackError::PublishCommand(CommandError::SystemError(
        "Cannot find executable".to_string(),
        create_io_error(),
    )));
    assert_eq!(m.header, "Unable to publish");
    assert_eq!(m.body, io_body("running the command to publish the .NET solution/project"));
    assert_eq!(m.debug_info, Some("foo bar baz".to_string()));
}

#[test]
fn test_copy_runtime_files_error() {
    let m = message(DotnetBuildpackError::CopyRuntimeFiles(create_io_error()));
    assert_eq!(m.header, "Error copying .NET runtime files");
    assert_eq!(m.body, io_body("copying .NET runtime files from the SDK layer to the runtime layer"));
    assert_eq!(m.debug_info, Some("foo bar baz".to_string()));
}

#[test]
fn outside_error_texts_become_the_debug_info() {
    let m = error_message_given(&DotnetBuildpackError::ReadGlobalJsonFile(create_io_error()), "disk on fire")
        .expect("a message");
    assert_eq!(m.header, "Error reading `global.json` file");
    assert_eq!(m.debug_info, Some("disk on fire".to_string()));

    // The requirement is quoted as `semver` displays it, not as its text was written.
    let m = error_message_given(
        &DotnetBuildpackError::ResolveSdkVersion(SdkRequirement::parse("6.0.100").unwrap()),
        "unused",
    )
    .expect("a message");
    assert!(m.body.starts_with("We can’t find a compatible .NET SDK release for the detected version\nrequirement (^6.0.100).\n"));
    assert_eq!(m.debug_info, None);

    assert!(error_message_given(&DotnetBuildpackError::DiscoverAppSource(DiscoveryError::NoAppFound), "x").is_none());
}
