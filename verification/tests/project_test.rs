use dotnet_buildpack::dotnet::project::{
    extract_target_framework, infer_project_type, LoadError, Project, ProjectType, ProjectXml,
    PropertyGroup, SdkElement,
};

fn group(tfm: Option<&str>, output: Option<&str>, name: Option<&str>) -> PropertyGroup {
    PropertyGroup {
        target_framework: tfm.map(String::from),
        output_type: output.map(String::from),
        assembly_name: name.map(String::from),
    }
}

fn no_props() -> Result<Option<String>, LoadError> {
    Ok(None)
}

#[test]
fn test_project_type_inference() {
    assert_eq!(
        infer_project_type("Microsoft.NET.Sdk", Some("Exe")),
        ProjectType::ConsoleApplication
    );

    assert_eq!(infer_project_type("Microsoft.NET.Sdk.Web", None), ProjectType::WebApplication);
    assert_eq!(infer_project_type("Microsoft.NET.Sdk.Razor", None), ProjectType::WebApplication);

    assert_eq!(infer_project_type("Microsoft.NET.Sdk.Worker", None), ProjectType::WorkerService);

    assert_eq!(infer_project_type("Unknown.Sdk", None), ProjectType::Unknown);
    assert_eq!(infer_project_type("Unknown.Sdk", Some("Exe")), ProjectType::Unknown);
    assert_eq!(infer_project_type("Microsoft.NET.Sdk", Some("Library")), ProjectType::Unknown);
}

#[test]
fn test_sdk_attribute_resolution() {
    let xml = ProjectXml {
        sdk: Some("Microsoft.NET.Sdk.Web".to_string()),
        sdk_element: None,
        property_groups: vec![group(Some("net6.0"), None, None)],
    };
    let project = Project::from_project_xml("/tmp/WebApp.csproj", xml, no_props).unwrap();
    assert_eq!(project.project_type, ProjectType::WebApplication);
}

#[test]
fn test_sdk_element_resolution() {
    let xml = ProjectXml {
        sdk: None,
        sdk_element: Some(SdkElement { name: "Microsoft.NET.Sdk.Razor".to_string() }),
        property_groups: vec![group(Some("net6.0"), None, None)],
    };
    let project = Project::from_project_xml("/tmp/RazorApp.csproj", xml, no_props).unwrap();
    assert_eq!(project.project_type, ProjectType::WebApplication);
}

#[test]
fn test_no_sdk_resolution() {
    let xml = ProjectXml {
        sdk: None,
        sdk_element: None,
        property_groups: vec![group(Some("net6.0"), None, None)],
    };
    let project = Project::from_project_xml("/tmp/NoSdk.csproj", xml, no_props).unwrap();
    assert_eq!(project.project_type, ProjectType::Unknown);
}

#[test]
fn test_multiple_property_groups_last_wins() {
    let xml = ProjectXml {
        sdk: Some("Microsoft.NET.Sdk".to_string()),
        sdk_element: None,
        property_groups: vec![
            group(Some("net5.0"), Some("Library"), Some("FirstName")),
            group(Some("net6.0"), None, Some("  ")),
        ],
    };
    let project = Project::from_project_xml("/tmp/test.csproj", xml, no_props).unwrap();
    assert_eq!(project.target_framework, "net6.0");
    assert_eq!(project.assembly_name, "test");
    assert_eq!(project.project_type, ProjectType::Unknown);
}

#[test]
fn test_missing_target_framework_error() {
    let xml = ProjectXml { sdk: Some("Microsoft.NET.Sdk".to_string()), sdk_element: None, property_groups: vec![] };
    let result = Project::from_project_xml("/tmp/test.csproj", xml, no_props);
    assert!(matches!(result, Err(LoadError::MissingTargetFramework(ref path)) if path == "/tmp/test.csproj"));
}

#[test]
fn test_load_project_with_assembly_name() {
    let xml = ProjectXml {
        sdk: Some("Microsoft.NET.Sdk".to_string()),
        sdk_element: None,
        property_groups: vec![group(Some("net6.0"), Some("Exe"), Some("MyConsoleApp"))],
    };
    let project = Project::from_project_xml("/tmp/ConsoleApp.csproj", xml, no_props).unwrap();
    assert_eq!(project.target_framework, "net6.0".to_string());
    assert_eq!(project.project_type, ProjectType::ConsoleApplication);
    assert_eq!(project.assembly_name, "MyConsoleApp");
    assert_eq!(project.path, "/tmp/ConsoleApp.csproj");
}

#[test]
fn test_load_project_without_assembly_name() {
    let xml = ProjectXml {
        sdk: Some("Microsoft.NET.Sdk".to_string()),
        sdk_element: None,
        property_groups: vec![group(Some("net6.0"), Some("Exe"), None)],
    };
    let project = Project::from_project_xml("/tmp/ConsoleApp.csproj", xml, no_props).unwrap();
    assert_eq!(project.assembly_name, "ConsoleApp");
}

#[test]
fn test_load_project_with_directory_build_props() {
    let xml = ProjectXml {
        sdk: Some("Microsoft.NET.Sdk".to_string()),
        sdk_element: None,
        property_groups: vec![group(None, Some("Exe"), None)],
    };
    let project = Project::from_project_xml("/tmp/MyProject/MyProject.csproj", xml, || {
        Ok(Some("net8.0".to_string()))
    })
    .unwrap();
    assert_eq!(project.target_framework, "net8.0");
    assert_eq!(project.project_type, ProjectType::ConsoleApplication);
}

#[test]
fn test_project_target_framework_overrides_directory_build_props() {
    let xml = ProjectXml {
        sdk: Some("Microsoft.NET.Sdk".to_string()),
        sdk_element: None,
        property_groups: vec![group(Some("net8.0"), None, None)],
    };
    let project = Project::from_project_xml("/tmp/MyProject.csproj", xml, || -> Result<Option<String>, LoadError> {
        panic!("Directory.Build.props must not be consulted")
    })
    .unwrap();
    assert_eq!(project.target_framework, "net8.0");
}

#[test]
fn test_directory_build_props_read_io_error() {
    let xml = ProjectXml { sdk: Some("Microsoft.NET.Sdk".to_string()), sdk_element: None, property_groups: vec![] };
    let result = Project::from_project_xml("/tmp/MyProject.csproj", xml, || {
        Err(LoadError::ReadDirectoryBuildProps(std::io::Error::other("denied")))
    });
    assert!(matches!(result, Err(LoadError::ReadDirectoryBuildProps(_))));
}

#[test]
fn test_directory_build_props_with_multiple_property_groups() {
    let groups = vec![group(Some("net6.0"), None, None), group(Some("net8.0"), None, None)];
    assert_eq!(extract_target_framework(&groups), Some("net8.0".to_string()));
    assert_eq!(extract_target_framework(&[group(Some("net6.0"), None, None), group(None, None, None)]), Some("net6.0".to_string()));
    assert_eq!(extract_target_framework(&[]), None);
}

#[test]
fn test_load_file_based_app_defaults() {
    let project = Project::from_file_based_app("/tmp/DefaultApp.cs", "\nConsole.WriteLine(\"foobar\");\n", || None);
    assert_eq!(project.project_type, ProjectType::ConsoleApplication);
    assert_eq!(project.target_framework, "net10.0");
    assert_eq!(project.assembly_name, "DefaultApp");
}

#[test]
fn test_load_file_based_app_explicit_configuration() {
    let project_cs = "
#:sdk Microsoft.NET.Sdk.Web
#:sdk Aspire.AppHost.Sdk@9.4.1
#:property TargetFramework=net11.0
#:property LangVersion=preview

Console.WriteLine(\"foobar\");
";
    let project = Project::from_file_based_app("/tmp/MyApp.cs", project_cs, || None);
    assert_eq!(project.project_type, ProjectType::WebApplication);
    assert_eq!(project.target_framework, "net11.0");
    assert_eq!(project.assembly_name, "MyApp");
    assert_eq!(project.path, "/tmp/MyApp.cs");
}

#[test]
fn test_load_file_based_app_mixed_defaults() {
    let project_cs = "\n#:sdk Microsoft.NET.Sdk.Worker\n\nConsole.WriteLine(\"foobar\");\n";
    let project = Project::from_file_based_app("/tmp/WorkerApp.cs", project_cs, || None);
    assert_eq!(project.project_type, ProjectType::WorkerService);
    assert_eq!(project.target_framework, "net10.0");
    assert_eq!(project.assembly_name, "WorkerApp");
}

#[test]
fn test_load_file_based_app_with_directory_build_props() {
    let project_cs = "\n#:sdk Microsoft.NET.Sdk\n\nConsole.WriteLine(\"Hello from file-based app!\");\n";
    let project = Project::from_file_based_app("/tmp/MyApp.cs", project_cs, || Some("net9.0".to_string()));
    assert_eq!(project.target_framework, "net9.0");
    assert_eq!(project.project_type, ProjectType::ConsoleApplication);
    assert_eq!(project.assembly_name, "MyApp");
}

#[test]
fn file_based_app_directives_are_trimmed_and_crlf_tolerant() {
    let project_cs = "  #:sdk Microsoft.NET.Sdk.Web  \r\n\t#:property TargetFramework=net9.0\r\n";
    let project = Project::from_file_based_app("/tmp/Web.cs", project_cs, || None);
    assert_eq!(project.project_type, ProjectType::WebApplication);
    assert_eq!(project.target_framework, "net9.0");
}
