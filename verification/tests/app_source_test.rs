use dotnet_buildpack::app_source::{
    filter_by_extension, load_app_source, AppSource, DiscoveryError, LoadError,
    FILE_BASED_APP_EXTENSIONS, PROJECT_EXTENSIONS, SOLUTION_EXTENSIONS,
};
use dotnet_buildpack::dotnet::project::{self, Project, ProjectXml, PropertyGroup};
use dotnet_buildpack::dotnet::slnx::{extract_project_paths, SlnxProject, SlnxSolution};
use dotnet_buildpack::dotnet::solution::{self, Solution};
use std::io;

fn files(names: &[&str]) -> Vec<String> {
    names.iter().map(|n| format!("/app/{n}")).collect()
}

fn file_name(path: &str) -> &str {
    path.rsplit('/').next().unwrap()
}

#[test]
fn test_from_dir_discovers_single_solution() {
    let app_source = AppSource::from_dir(Ok(files(&["MyApp.sln"]))).unwrap();
    assert!(matches!(
        app_source,
        AppSource::Solution(ref path) if file_name(path) == "MyApp.sln"
    ));
}

#[test]
fn test_from_dir_discovers_single_slnx() {
    let app_source = AppSource::from_dir(Ok(files(&["MyApp.slnx"]))).unwrap();
    assert!(matches!(
        app_source,
        AppSource::Solution(ref path) if file_name(path) == "MyApp.slnx"
    ));
}

#[test]
fn test_from_dir_discovers_single_project() {
    let app_source = AppSource::from_dir(Ok(files(&["MyApp.csproj"]))).unwrap();
    assert!(matches!(
        app_source,
        AppSource::Project(ref path) if file_name(path) == "MyApp.csproj"
    ));
}

#[test]
fn test_from_dir_discovers_vbproj() {
    let app_source = AppSource::from_dir(Ok(files(&["MyApp.vbproj"]))).unwrap();
    assert!(matches!(
        app_source,
        AppSource::Project(ref path) if file_name(path) == "MyApp.vbproj"
    ));
}

#[test]
fn test_from_dir_discovers_fsproj() {
    let app_source = AppSource::from_dir(Ok(files(&["MyApp.fsproj"]))).unwrap();
    assert!(matches!(
        app_source,
        AppSource::Project(ref path) if file_name(path) == "MyApp.fsproj"
    ));
}

#[test]
fn test_from_dir_discovers_single_file_based_app() {
    let app_source = AppSource::from_dir(Ok(files(&["app.cs"]))).unwrap();
    assert!(matches!(
        app_source,
        AppSource::FileBasedApp(ref path) if file_name(path) == "app.cs"
    ));
}

#[test]
fn test_from_dir_solution_takes_precedence_over_project() {
    let app_source = AppSource::from_dir(Ok(files(&["MyApp.sln", "MyApp.csproj"]))).unwrap();
    assert!(matches!(
        app_source,
        AppSource::Solution(ref path) if file_name(path) == "MyApp.sln"
    ));
}

#[test]
fn test_from_dir_solution_takes_precedence_over_file_based_app() {
    let app_source = AppSource::from_dir(Ok(files(&["MyApp.sln", "app.cs"]))).unwrap();
    assert!(matches!(
        app_source,
        AppSource::Solution(ref path) if file_name(path) == "MyApp.sln"
    ));
}

#[test]
fn test_from_dir_project_takes_precedence_over_file_based_app() {
    let app_source = AppSource::from_dir(Ok(files(&["MyApp.csproj", "app.cs"]))).unwrap();
    assert!(matches!(
        app_source,
        AppSource::Project(ref path) if file_name(path) == "MyApp.csproj"
    ));
}

#[test]
fn test_from_dir_with_detection_io_error() {
    let listing = Err(io::Error::new(
        io::ErrorKind::NotFound,
        "/nonexistent/directory/that/does/not/exist",
    ));
    let result = AppSource::from_dir(listing).unwrap_err();

    assert!(
        matches!(result, DiscoveryError::DetectionIoError(ref error) if error.kind() == io::ErrorKind::NotFound)
    );
}

#[test]
fn test_from_dir_no_app_found_in_empty_directory() {
    let result = AppSource::from_dir(Ok(vec![]));
    assert!(matches!(result, Err(DiscoveryError::NoAppFound)));
}

#[test]
fn test_from_dir_multiple_solutions_error() {
    let result = AppSource::from_dir(Ok(files(&["App1.sln", "App2.sln"])));
    assert!(matches!(
        result,
        Err(DiscoveryError::MultipleSolutionFiles(ref paths)) if paths.len() == 2
    ));
}

#[test]
fn test_from_dir_multiple_projects_error() {
    let result = AppSource::from_dir(Ok(files(&["App1.csproj", "App2.csproj"])));
    assert!(matches!(
        result,
        Err(DiscoveryError::MultipleProjectFiles(ref paths)) if paths.len() == 2
    ));
}

#[test]
fn test_from_dir_multiple_file_based_apps_error() {
    let result = AppSource::from_dir(Ok(files(&["app1.cs", "app2.cs"])));
    assert!(matches!(
        result,
        Err(DiscoveryError::MultipleFileBasedApps(ref paths)) if paths.len() == 2
    ));
}

#[test]
fn from_dir_ignores_other_files_and_matches_extensions_exactly() {
    let result = AppSource::from_dir(Ok(files(&["README.md", "App.SLN", "app.cs", ".cs"])));
    assert!(matches!(
        result,
        Ok(AppSource::FileBasedApp(ref path)) if path == "/app/app.cs"
    ));
}

#[test]
fn test_from_file_discovers_solution() {
    let app_source = AppSource::from_file("/tmp/x/MyApp.sln").unwrap();
    assert!(matches!(
        app_source,
        AppSource::Solution(ref path) if file_name(path) == "MyApp.sln"
    ));
}

#[test]
fn test_from_file_discovers_slnx() {
    let app_source = AppSource::from_file("/tmp/x/MyApp.slnx").unwrap();
    assert!(matches!(
        app_source,
        AppSource::Solution(ref path) if file_name(path) == "MyApp.slnx"
    ));
}

#[test]
fn test_from_file_discovers_csproj() {
    let app_source = AppSource::from_file("/tmp/x/MyApp.csproj").unwrap();
    assert!(matches!(
        app_source,
        AppSource::Project(ref path) if file_name(path) == "MyApp.csproj"
    ));
}

#[test]
fn test_from_file_discovers_vbproj() {
    let app_source = AppSource::from_file("/tmp/x/MyApp.vbproj").unwrap();
    assert!(matches!(
        app_source,
        AppSource::Project(ref path) if file_name(path) == "MyApp.vbproj"
    ));
}

#[test]
fn test_from_file_discovers_fsproj() {
    let app_source = AppSource::from_file("/tmp/x/MyApp.fsproj").unwrap();
    assert!(matches!(
        app_source,
        AppSource::Project(ref path) if file_name(path) == "MyApp.fsproj"
    ));
}

#[test]
fn test_from_file_discovers_cs_file() {
    let app_source = AppSource::from_file("/tmp/x/app.cs").unwrap();
    assert!(matches!(
        app_source,
        AppSource::FileBasedApp(ref path) if file_name(path) == "app.cs"
    ));
}

#[test]
fn test_from_file_with_nested_path() {
    let expected_path = "/tmp/x/src/MyApp/MyApp.csproj".to_string();
    let app_source = AppSource::from_file(&expected_path).unwrap();
    assert!(matches!(app_source, AppSource::Project(ref path) if path == &expected_path));
}

#[test]
fn test_from_file_invalid_extension() {
    let invalid_path = "/tmp/x/MyApp.txt".to_string();
    let result = AppSource::from_file(&invalid_path).unwrap_err();
    assert!(
        matches!(result, DiscoveryError::UnrecognizedAppExtension(ref path) if path == &invalid_path)
    );
}

#[test]
fn test_from_file_no_extension() {
    let invalid_path = "/tmp/x/MyApp".to_string();
    let result = AppSource::from_file(&invalid_path).unwrap_err();
    assert!(
        matches!(result, DiscoveryError::UnrecognizedAppExtension(ref path) if path == &invalid_path)
    );
}

#[test]
fn from_file_compares_extensions_ignoring_case() {
    assert!(matches!(
        AppSource::from_file("/tmp/x/MyApp.SLN"),
        Ok(AppSource::Solution(ref path)) if path == "/tmp/x/MyApp.SLN"
    ));
    assert!(matches!(
        AppSource::from_file("/tmp/x/Program.Cs"),
        Ok(AppSource::FileBasedApp(_))
    ));
}

#[test]
fn test_path_returns_correct_path() {
    let solution_path = String::from("/tmp/test.sln");
    let project_path = String::from("/tmp/test.csproj");
    let cs_path = String::from("/tmp/test.cs");

    let solution = AppSource::Solution(solution_path.clone());
    let project = AppSource::Project(project_path.clone());
    let file_based = AppSource::FileBasedApp(cs_path.clone());

    assert_eq!(solution.path(), &solution_path);
    assert_eq!(project.path(), &project_path);
    assert_eq!(file_based.path(), &cs_path);
}

#[test]
fn test_from_io_error_converts_to_detection_io_error() {
    let io_error = io::Error::new(io::ErrorKind::NotFound, "file not found");
    let discovery_error: DiscoveryError = io_error.into();

    assert!(matches!(
        discovery_error,
        DiscoveryError::DetectionIoError(ref err) if err.kind() == io::ErrorKind::NotFound
    ));
}

#[test]
fn filter_by_extension_keeps_order_of_supported_files() {
    let supported = [
        &SOLUTION_EXTENSIONS[..],
        &PROJECT_EXTENSIONS[..],
        &FILE_BASED_APP_EXTENSIONS[..],
    ]
    .concat();
    let paths = files(&["b.csproj", "notes.txt", "a.sln", "Program.cs", "x.json"]);
    assert_eq!(
        filter_by_extension(&paths, &supported),
        files(&["b.csproj", "a.sln", "Program.cs"])
    );
}

fn net8_project_xml() -> ProjectXml {
    ProjectXml {
        sdk: Some("Microsoft.NET.Sdk".to_string()),
        sdk_element: None,
        property_groups: vec![PropertyGroup {
            target_framework: Some("net8.0".to_string()),
            output_type: None,
            assembly_name: None,
        }],
    }
}

fn load_project(path: &str) -> Result<Project, project::LoadError> {
    Project::from_project_xml(path, net8_project_xml(), || Ok(None))
}

fn no_solution(_path: &str) -> Result<Solution, solution::LoadError> {
    panic!("no solution is loaded here")
}

fn no_project(_path: &str) -> Result<Project, project::LoadError> {
    panic!("no project is loaded here")
}

fn no_file_based_app(_path: &str) -> Result<Project, io::Error> {
    panic!("no file-based app is loaded here")
}

#[test]
fn test_try_from_app_source_creates_ephemeral_solution_for_project() {
    let app_source = AppSource::Project("/tmp/app/MyApp.csproj".to_string());
    let solution = load_app_source(app_source, no_solution, load_project, no_file_based_app).unwrap();

    assert_eq!(solution.projects.len(), 1);
    assert_eq!(solution.projects[0].assembly_name, "MyApp");
    assert_eq!(solution.path, "/tmp/app/MyApp.csproj");
}

#[test]
fn test_try_from_app_source_creates_ephemeral_solution_for_file_based_app() {
    let app_source = AppSource::FileBasedApp("/tmp/app/MyApp.cs".to_string());
    let solution = load_app_source(app_source, no_solution, no_project, |p: &str| {
        Ok(Project::from_file_based_app(p, "Console.WriteLine(\"Hello, World!\");", || None))
    })
    .unwrap();

    assert_eq!(solution.projects.len(), 1);
    assert_eq!(solution.projects[0].assembly_name, "MyApp");
}

#[test]
fn test_try_from_app_source_returns_solution_for_slnx() {
    let app_source = AppSource::Solution("/tmp/app/MySolution.slnx".to_string());
    let solution = load_app_source(
        app_source,
        |p: &str| {
            let doc = SlnxSolution {
                projects: vec![SlnxProject { path: "MyProject.csproj".to_string() }],
                folders: vec![],
            };
            Solution::from_project_paths(p, extract_project_paths(&doc), |q: String| {
                load_project(&q).map_err(solution::LoadError::LoadProject)
            })
        },
        no_project,
        no_file_based_app,
    )
    .unwrap();

    assert_eq!(solution.projects.len(), 1);
    assert_eq!(solution.projects[0].assembly_name, "MyProject");
    assert_eq!(solution.projects[0].path, "/tmp/app/MyProject.csproj");
}

#[test]
fn load_app_source_reports_which_load_failed() {
    let result = load_app_source(
        AppSource::FileBasedApp("/tmp/app/a.cs".to_string()),
        no_solution,
        no_project,
        |_p: &str| Err(io::Error::new(io::ErrorKind::NotFound, "gone")),
    );
    assert!(matches!(result, Err(LoadError::FileBasedApp(ref e)) if e.kind() == io::ErrorKind::NotFound));

    let result = load_app_source(
        AppSource::Project("/tmp/app/a.csproj".to_string()),
        no_solution,
        |_p: &str| Err(project::LoadError::MissingTargetFramework("/tmp/app/a.csproj".to_string())),
        no_file_based_app,
    );
    assert!(matches!(result, Err(LoadError::Project(project::LoadError::MissingTargetFramework(_)))));
}
