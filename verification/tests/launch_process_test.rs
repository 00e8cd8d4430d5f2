use dotnet_buildpack::dotnet::project::{Project, ProjectType};
use dotnet_buildpack::dotnet::solution::Solution;
use dotnet_buildpack::launch_process::{
    build_command, detect_solution_processes, project_executable_path, Process, WorkingDirectory,
};

fn create_test_project(path: &str, assembly_name: &str, project_type: ProjectType) -> Project {
    Project {
        path: path.to_string(),
        target_framework: "net9.0".to_string(),
        project_type,
        assembly_name: assembly_name.to_string(),
    }
}

#[test]
fn test_detect_solution_processes_single_web_app() {
    let solution = Solution {
        path: "/tmp/foo.sln".to_string(),
        projects: vec![create_test_project("/tmp/bar/bar.csproj", "bar", ProjectType::WebApplication)],
    };

    let expected_processes = vec![Process {
        process_type: "web".to_string(),
        command: vec![
            "bash".to_string(),
            "-c".to_string(),
            "cd bar/bin/publish; ./bar --urls http://*:$PORT".to_string(),
        ],
        args: vec![],
        default: true,
        working_directory: WorkingDirectory::App,
    }];

    assert_eq!(detect_solution_processes("/tmp", &solution), expected_processes);
}

#[test]
fn test_detect_solution_processes_multiple_web_apps() {
    let solution = Solution {
        path: "/tmp/foo.sln".to_string(),
        projects: vec![
            create_test_project("/tmp/bar/bar.csproj", "bar", ProjectType::WebApplication),
            create_test_project("/tmp/baz/baz.csproj", "baz", ProjectType::WebApplication),
        ],
    };
    assert_eq!(
        detect_solution_processes("/tmp", &solution)
            .iter()
            .map(|process| process.process_type.clone())
            .collect::<Vec<String>>(),
        vec!["bar".to_string(), "baz".to_string()]
    );
}

#[test]
fn test_detect_solution_processes_single_web_app_and_console_app() {
    let solution = Solution {
        path: "/tmp/foo.sln".to_string(),
        projects: vec![
            create_test_project("/tmp/qux/qux.csproj", "qux", ProjectType::Unknown),
            create_test_project("/tmp/bar/bar.csproj", "bar", ProjectType::WebApplication),
            create_test_project("/tmp/baz/baz.csproj", "baz", ProjectType::ConsoleApplication),
        ],
    };
    assert_eq!(
        detect_solution_processes("/tmp", &solution)
            .iter()
            .map(|process| process.process_type.clone())
            .collect::<Vec<String>>(),
        vec!["web".to_string(), "baz".to_string()]
    );
}

#[test]
fn test_detect_solution_processes_with_spaces() {
    let solution = Solution {
        path: "/tmp/My Solution With Spaces.sln".to_string(),
        projects: vec![create_test_project(
            "/tmp/My Project With Spaces/project.csproj",
            "My App",
            ProjectType::ConsoleApplication,
        )],
    };

    let expected_processes = vec![Process {
        process_type: "my-app".to_string(),
        command: vec![
            "bash".to_string(),
            "-c".to_string(),
            "cd 'My Project With Spaces/bin/publish'; ./'My App'".to_string(),
        ],
        args: vec![],
        default: false,
        working_directory: WorkingDirectory::App,
    }];

    assert_eq!(detect_solution_processes("/tmp", &solution), expected_processes);
}

#[test]
fn test_project_executable_path() {
    let project = create_test_project("/tmp/project/project.csproj", "TestApp", ProjectType::ConsoleApplication);
    assert_eq!(project_executable_path(&project), "/tmp/project/bin/publish/TestApp");
}

#[test]
fn test_build_command_with_spaces() {
    let executable_path = "some/project with spaces/bin/publish/My App";

    assert_eq!(
        build_command(executable_path, ProjectType::ConsoleApplication),
        "cd 'some/project with spaces/bin/publish'; ./'My App'"
    );

    assert_eq!(
        build_command(executable_path, ProjectType::WebApplication),
        "cd 'some/project with spaces/bin/publish'; ./'My App' --urls http://*:$PORT"
    );
}

#[test]
fn test_build_command_with_special_chars() {
    let executable_path = "some/project with #special$chars/bin/publish/My-App+v1.2_Release!";

    assert_eq!(
        build_command(executable_path, ProjectType::ConsoleApplication),
        "cd 'some/project with #special$chars/bin/publish'; ./My-App+v1.2_Release!"
    );
}

#[test]
fn build_command_escapes_single_quotes() {
    assert_eq!(
        build_command("it's here/App", ProjectType::WorkerService),
        "cd 'it'\\''s here'; ./App"
    );
}

#[test]
fn test_detect_solution_processes_nested_solution() {
    let solution = Solution {
        path: "/tmp/src/MyApp.sln".to_string(),
        projects: vec![create_test_project("/tmp/src/MyApp/MyApp.csproj", "MyApp", ProjectType::WebApplication)],
    };

    let expected_processes = vec![Process {
        process_type: "web".to_string(),
        command: vec![
            "bash".to_string(),
            "-c".to_string(),
            "cd src/MyApp/bin/publish; ./MyApp --urls http://*:$PORT".to_string(),
        ],
        args: vec![],
        default: true,
        working_directory: WorkingDirectory::App,
    }];

    assert_eq!(detect_solution_processes("/tmp", &solution), expected_processes);
}
