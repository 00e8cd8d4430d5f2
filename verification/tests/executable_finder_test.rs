use dotnet_buildpack::dotnet_executable_finder::{determine_executable_path, ExecutablePathError};
use dotnet_buildpack::dotnet_project::{DotnetProject, ProjectType};
use dotnet_buildpack::dotnet_rid::RuntimeIdentifier;

#[test]
fn test_determine_executable_path_with_assembly_name() {
    let project = DotnetProject {
        path: "WebApi/WebApi.csproj".to_string(),
        sdk_id: "Microsoft.NET.Sdk.Web".to_string(),
        target_framework: "net6.0".to_string(),
        project_type: ProjectType::WebApplication,
        assembly_name: Some("WebApiExecutable".to_string()),
    };
    let project_file_path = "WebApi/WebApi.csproj";

    let result = determine_executable_path(
        &project,
        project_file_path,
        "Release",
        &RuntimeIdentifier::LinuxX64,
    )
    .unwrap();
    let expected_path = "WebApi/bin/Release/net6.0/linux-x64/publish/WebApiExecutable";

    assert_eq!(result, expected_path);
}

#[test]
fn test_determine_executable_path_without_assembly_name() {
    let project = DotnetProject {
        path: "WebApi/WebApi.csproj".to_string(),
        sdk_id: "Microsoft.NET.Sdk.Web".to_string(),
        target_framework: "net6.0".to_string(),
        project_type: ProjectType::WebApplication,
        assembly_name: None,
    };
    let project_file_path = "WebApi/WebApi.csproj";

    let result = determine_executable_path(
        &project,
        project_file_path,
        "Release",
        &RuntimeIdentifier::LinuxArm64,
    )
    .unwrap();
    let expected_path = "WebApi/bin/Release/net6.0/linux-arm64/publish/WebApi";

    assert_eq!(result, expected_path);
}

#[test]
fn test_invalid_project_type() {
    let project = DotnetProject {
        path: "Library/Library.csproj".to_string(),
        sdk_id: "Microsoft.NET.Sdk".to_string(),
        target_framework: "net6.0".to_string(),
        project_type: ProjectType::Library,
        assembly_name: Some("LibraryProject".to_string()),
    };
    let project_file_path = "Library/Library.csproj";

    let result = determine_executable_path(
        &project,
        project_file_path,
        "Release",
        &RuntimeIdentifier::LinuxX64,
    );

    assert!(matches!(
        result,
        Err(ExecutablePathError::InvalidProjectType)
    ));
}

#[test]
fn test_path_error() {
    let project = DotnetProject {
        path: String::new(),
        sdk_id: "Microsoft.NET.Sdk.Web".to_string(),
        target_framework: "net6.0".to_string(),
        project_type: ProjectType::WebApplication,
        assembly_name: Some("WebApiExecutable".to_string()),
    };
    let project_file_path = ""; // Invalid path to induce an error

    let result = determine_executable_path(
        &project,
        project_file_path,
        "Release",
        &RuntimeIdentifier::LinuxX64,
    );

    assert!(matches!(result, Err(ExecutablePathError::PathError)));
}

#[test]
fn empty_assembly_name_falls_back_to_the_file_stem() {
    let project = DotnetProject {
        path: "/app/src/Worker.Service.csproj".to_string(),
        sdk_id: "Microsoft.NET.Sdk.Worker".to_string(),
        target_framework: "net8.0".to_string(),
        project_type: ProjectType::Worker,
        assembly_name: Some(String::new()),
    };
    let result = determine_executable_path(
        &project,
        "/app/src/Worker.Service.csproj",
        "Debug",
        &RuntimeIdentifier::LinuxMuslX64,
    );
    assert_eq!(
        result,
        Ok("/app/src/bin/Debug/net8.0/linux-musl-x64/publish/Worker.Service".to_string())
    );
}

#[test]
fn unknown_project_type_has_no_executable() {
    let project = DotnetProject {
        path: "App/App.csproj".to_string(),
        sdk_id: "Unknown.Sdk".to_string(),
        target_framework: "net8.0".to_string(),
        project_type: ProjectType::Unknown,
        assembly_name: None,
    };
    let result = determine_executable_path(&project, "App/App.csproj", "Release", &RuntimeIdentifier::OsxArm64);
    assert_eq!(result, Err(ExecutablePathError::InvalidProjectType));
}
