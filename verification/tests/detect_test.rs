use dotnet_buildpack::detect::{
    directory_build_props_file, dotnet_tools_manifest_file, global_json_file, project_toml_file,
};

#[test]
fn test_global_json_file_exists() {
    let result = global_json_file("/app", |p: &str| p == "/app/global.json");
    assert_eq!(result, Some("/app/global.json".to_string()));
}

#[test]
fn test_global_json_file_does_not_exist() {
    let result = global_json_file("/app", |_: &str| false);
    assert_eq!(result, None);
}

#[test]
fn test_dotnet_tools_manifest_file_exists() {
    let result = dotnet_tools_manifest_file("/app", |p: &str| p == "/app/.config/dotnet-tools.json");
    assert_eq!(result, Some("/app/.config/dotnet-tools.json".to_string()));
}

#[test]
fn test_dotnet_tools_manifest_file_does_not_exist() {
    let result = dotnet_tools_manifest_file("/app", |_: &str| false);
    assert_eq!(result, None);
}

#[test]
fn test_project_toml_file_exists() {
    let result = project_toml_file("/app", |p: &str| p == "/app/project.toml");
    assert_eq!(result, Some("/app/project.toml".to_string()));
}

#[test]
fn test_project_toml_file_does_not_exist() {
    let result = project_toml_file("/app", |_: &str| false);
    assert_eq!(result, None);
}

#[test]
fn test_directory_build_props_file_exists_in_same_dir() {
    let result = directory_build_props_file("/app", |p: &str| p == "/app/Directory.Build.props");
    assert_eq!(result, Some("/app/Directory.Build.props".to_string()));
}

#[test]
fn test_directory_build_props_file_does_not_exist() {
    let result = directory_build_props_file("/app", |_: &str| false);
    assert_eq!(result, None);
}

#[test]
fn test_directory_build_props_file_walks_up_tree() {
    let result = directory_build_props_file("/app/src/project", |p: &str| {
        p == "/app/Directory.Build.props"
    });
    assert_eq!(result, Some("/app/Directory.Build.props".to_string()));
}

#[test]
fn test_directory_build_props_file_finds_nearest() {
    let result = directory_build_props_file("/app/src", |p: &str| {
        p == "/app/Directory.Build.props" || p == "/app/src/Directory.Build.props"
    });
    assert_eq!(result, Some("/app/src/Directory.Build.props".to_string()));
}

#[test]
fn directory_build_props_file_reaches_the_root() {
    let result = directory_build_props_file("/app/src", |p: &str| p == "/Directory.Build.props");
    assert_eq!(result, Some("/Directory.Build.props".to_string()));
}

#[test]
fn directory_build_props_file_asks_each_ancestor_once_nearest_first() {
    let asked = std::cell::RefCell::new(Vec::new());
    let result = directory_build_props_file("src/app", |p: &str| {
        asked.borrow_mut().push(p.to_string());
        false
    });
    assert_eq!(result, None);
    assert_eq!(
        asked.into_inner(),
        vec![
            "src/app/Directory.Build.props".to_string(),
            "src/Directory.Build.props".to_string(),
            "Directory.Build.props".to_string(),
        ]
    );
}
