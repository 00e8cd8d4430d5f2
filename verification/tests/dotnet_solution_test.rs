use dotnet_buildpack::dotnet_project::{DotnetProject, LoadProjectError, ProjectType};
use dotnet_buildpack::dotnet_solution::{
    extract_project_paths, project_file_paths, DotnetSolution, LoadSolutionError,
};
use std::io;

#[test]
fn test_extract_project_paths() {
    let solution_content = r#"
        Microsoft Visual Studio Solution File, Format Version 12.00
        # Visual Studio Version 16
        VisualStudioVersion = 16.0.28729.10
        MinimumVisualStudioVersion = 10.0.40219.1
        Project("{FAE04EC0-301F-11D3-BF4B-00C04F79EFBC}") = "Project1", "Project1\Project1.csproj", "{8C28B63A-F94D-4A0B-A2B0-6DC6E1B88264}"
        EndProject
        Project("{FAE04EC0-301F-11D3-BF4B-00C04F79EFBC}") = "Project2", "Project2\Project2.csproj", "{FEA4E2C3-9F8E-4A2C-88C9-1E6E41F8B9AD}"
        EndProject
        Global
        GlobalSection(SolutionConfigurationPlatforms) = preSolution
            Debug|Any CPU = Debug|Any CPU
            Release|Any CPU = Release|Any CPU
        EndGlobalSection
        EndGlobal
        "#;

    let project_paths = extract_project_paths(solution_content);

    assert_eq!(project_paths.len(), 2);
    assert_eq!(project_paths[0], "Project1/Project1.csproj");
    assert_eq!(project_paths[1], "Project2/Project2.csproj");
}

#[test]
fn test_extract_project_paths_with_no_projects() {
    let solution_content = r"
        Microsoft Visual Studio Solution File, Format Version 12.00
        # Visual Studio Version 16
        VisualStudioVersion = 16.0.28729.10
        MinimumVisualStudioVersion = 10.0.40219.1
        Global
        GlobalSection(SolutionConfigurationPlatforms) = preSolution
            Debug|Any CPU = Debug|Any CPU
            Release|Any CPU = Release|Any CPU
        EndGlobalSection
        EndGlobal
        ";

    let project_paths = extract_project_paths(solution_content);

    assert_eq!(project_paths.len(), 0);
}

#[test]
fn test_extract_project_paths_with_solution_folder() {
    let solution_content = r#"
        Microsoft Visual Studio Solution File, Format Version 12.00
        # Visual Studio Version 16
        VisualStudioVersion = 16.0.28729.10
        MinimumVisualStudioVersion = 10.0.40219.1
        Project("{66A26720-8FB5-11D2-AA7E-00C04F688DDE}") = "SolutionFolder", "SolutionFolder", "{66A26720-8FB5-11D2-AA7E-00C04F688DDE}"
        Project("{FAE04EC0-301F-11D3-BF4B-00C04F79EFBC}") = "NestedProject", "SolutionFolder\NestedProject\NestedProject.csproj", "{FAE04EC0-301F-11D3-BF4B-00C04F79EFBC}"
        EndProject
        EndProject
        Global
        GlobalSection(SolutionConfigurationPlatforms) = preSolution
            Debug|Any CPU = Debug|Any CPU
            Release|Any CPU = Release|Any CPU
        EndGlobalSection
        EndGlobal
        "#;

    let project_paths = extract_project_paths(solution_content);

    // Expect only the actual project path
    assert_eq!(project_paths.len(), 1);
    assert_eq!(
        project_paths[0],
        "SolutionFolder/NestedProject/NestedProject.csproj"
    );
}

#[test]
fn test_extract_project_paths_with_solution_items() {
    let solution_content = r#"
        Microsoft Visual Studio Solution File, Format Version 12.00
        # Visual Studio Version 16
        VisualStudioVersion = 16.0.28729.10
        MinimumVisualStudioVersion = 10.0.40219.1
        Project("{66A26720-8FB5-11D2-AA7E-00C04F688DDE}") = "Solution Items", "Solution Items", "{8B41D0E4-BA13-4EF0-B103-20302B2B9F9A}"
        ProjectSection(SolutionItems) = preProject
            Readme.md = Readme.md
            Config.xml = Config.xml
        EndProjectSection
        EndProject
        Project("{FAE04EC0-301F-11D3-BF4B-00C04F79EFBC}") = "ProjectWithParams", "ProjectWithParams\ProjectWithParams.csproj", "{FAE04EC0-301F-11D3-BF4B-00C04F79EFBC}"
        GlobalSection(ProjectConfigurationPlatforms) = postSolution
            {FAE04EC0-301F-11D3-BF4B-00C04F79EFBC}.Debug|Any CPU.ActiveCfg = Debug|Any CPU
            {FAE04EC0-301F-11D3-BF4B-00C04F79EFBC}.Debug|Any CPU.Build.0 = Debug|Any CPU
        EndGlobalSection
        EndProject
        Global
        GlobalSection(SolutionConfigurationPlatforms) = preSolution
            Debug|Any CPU = Debug|Any CPU
            Release|Any CPU = Release|Any CPU
        EndGlobalSection
        EndGlobal
        "#;

    let project_paths = extract_project_paths(solution_content);

    // Expect only the actual project path
    assert_eq!(project_paths.len(), 1);
    assert_eq!(
        project_paths[0],
        "ProjectWithParams/ProjectWithParams.csproj"
    );
}

#[test]
fn test_project_file_paths() {
    let solution_content = r#"
        Microsoft Visual Studio Solution File, Format Version 12.00
        # Visual Studio Version 16
        VisualStudioVersion = 16.0.28729.10
        MinimumVisualStudioVersion = 10.0.40219.1
        Project("{FAE04EC0-301F-11D3-BF4B-00C04F79EFBC}") = "Project1", "Project1\Project1.csproj", "{8C28B63A-F94D-4A0B-A2B0-6DC6E1B88264}"
        EndProject
        Project("{FAE04EC0-301F-11D3-BF4B-00C04F79EFBC}") = "Project2", "Project2\Project2.csproj", "{FEA4E2C3-9F8E-4A2C-88C9-1E6E41F8B9AD}"
        EndProject
        Global
        GlobalSection(SolutionConfigurationPlatforms) = preSolution
            Debug|Any CPU = Debug|Any CPU
            Release|Any CPU = Release|Any CPU
        EndGlobalSection
        EndGlobal
        "#;

    // The solution file's contents, as reading it at this path gives them
    let temp_dir = "/tmp/dotnet-test";
    let solution_file_path = format!("{temp_dir}/solution.sln");

    let project_paths =
        project_file_paths(&solution_file_path, Ok(solution_content.to_string())).unwrap();

    assert_eq!(project_paths.len(), 2);
    assert_eq!(
        project_paths[0],
        format!("{temp_dir}/Project1/Project1.csproj")
    );
    assert_eq!(
        project_paths[1],
        format!("{temp_dir}/Project2/Project2.csproj")
    );
}

fn project_at(path: &str) -> DotnetProject {
    DotnetProject {
        path: path.to_string(),
        sdk_id: "Microsoft.NET.Sdk.Web".to_string(),
        target_framework: "net8.0".to_string(),
        project_type: ProjectType::WebApplication,
        assembly_name: None,
    }
}

const TWO_PROJECTS: &str = r#"
Project("{FAE04EC0-301F-11D3-BF4B-00C04F79EFBC}") = "Web", "src\Web\Web.csproj", "{8C28B63A-F94D-4A0B-A2B0-6DC6E1B88264}"
EndProject
Project("{FAE04EC0-301F-11D3-BF4B-00C04F79EFBC}") = "Api", "src\Api\Api.csproj", "{FEA4E2C3-9F8E-4A2C-88C9-1E6E41F8B9AD}"
EndProject
"#;

#[test]
fn load_from_path_loads_each_project_in_order() {
    let solution = DotnetSolution::load_from_path("/app/App.sln", Ok(TWO_PROJECTS.to_string()), |p: &str| {
        Ok(project_at(p))
    })
    .unwrap();
    assert_eq!(solution.path, "/app/App.sln");
    let paths: Vec<&str> = solution.projects.iter().map(|p| p.path.as_str()).collect();
    assert_eq!(paths, vec!["/app/src/Web/Web.csproj", "/app/src/Api/Api.csproj"]);
}

#[test]
fn load_from_path_stops_at_the_first_project_error() {
    let result = DotnetSolution::load_from_path("/app/App.sln", Ok(TWO_PROJECTS.to_string()), |p: &str| {
        if p.ends_with("Web.csproj") {
            Err(LoadProjectError::MissingTargetFramework)
        } else {
            Ok(project_at(p))
        }
    });
    assert!(matches!(
        result,
        Err(LoadSolutionError::LoadProject(LoadProjectError::MissingTargetFramework))
    ));
}

#[test]
fn solution_load_reports_a_read_error() {
    let result = DotnetSolution::load_from_path(
        "/app/App.sln",
        Err(io::Error::new(io::ErrorKind::NotFound, "missing")),
        |p: &str| Ok(project_at(p)),
    );
    assert!(matches!(result, Err(LoadSolutionError::ReadSolutionFile(ref e)) if e.kind() == io::ErrorKind::NotFound));
}

#[test]
fn ephemeral_solution_holds_the_single_project() {
    let solution = DotnetSolution::ephemeral(project_at("/app/App.csproj"));
    assert_eq!(solution.path, "/app/App.csproj");
    assert_eq!(solution.projects.len(), 1);
    assert_eq!(solution.projects[0].path, "/app/App.csproj");
}
