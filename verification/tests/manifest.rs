use create_rust_app::files::FileState;
use create_rust_app::manifest::{upsert_dependency, ManifestError, Requirement};
use create_rust_app::project::{add_dependency, DependencyError};

const MANIFEST: &str = "[package]\nname = \"demo\"\nversion = \"0.1.0\"\n\n[dependencies]\nserde = \"1.0.0\"\n";

fn parse(text: &str) -> toml::Value {
    text.parse::<toml::Value>().unwrap()
}

#[test]
fn a_plain_version_becomes_a_string() {
    let written =
        upsert_dependency(MANIFEST, "anyhow", &Requirement::Version("1.0.33".to_string())).unwrap();
    let document = parse(&written);
    assert_eq!(document["dependencies"]["anyhow"].as_str(), Some("1.0.33"));
    assert_eq!(document["dependencies"]["serde"].as_str(), Some("1.0.0"));
    assert_eq!(document["package"]["name"].as_str(), Some("demo"));
    assert_ne!(written, MANIFEST);
}

#[test]
fn a_detailed_requirement_becomes_a_table() {
    let keys = "version = \"0.4.19\"\nfeatures = [\"serde\"]".to_string();
    let written = upsert_dependency(MANIFEST, "chrono", &Requirement::Detailed(keys)).unwrap();
    let document = parse(&written);
    let chrono = &document["dependencies"]["chrono"];
    assert_eq!(chrono["version"].as_str(), Some("0.4.19"));
    assert_eq!(chrono["features"].as_array().unwrap().len(), 1);
    assert_eq!(chrono["features"][0].as_str(), Some("serde"));
}

#[test]
fn an_old_entry_of_the_name_is_replaced() {
    let written =
        upsert_dependency(MANIFEST, "serde", &Requirement::Version("1.0.117".to_string())).unwrap();
    let document = parse(&written);
    assert_eq!(document["dependencies"]["serde"].as_str(), Some("1.0.117"));
    assert_eq!(document["dependencies"].as_table().unwrap().len(), 1);
}

#[test]
fn the_result_is_what_the_toml_crate_writes() {
    let mut document = parse(MANIFEST);
    document
        .get_mut("dependencies")
        .unwrap()
        .as_table_mut()
        .unwrap()
        .insert("tsync".to_string(), toml::Value::String("1.0.1".to_string()));
    assert_eq!(
        upsert_dependency(MANIFEST, "tsync", &Requirement::Version("1.0.1".to_string())).unwrap(),
        toml::to_string(&document).unwrap()
    );
}

#[test]
fn a_manifest_that_is_no_toml_is_malformed() {
    assert_eq!(
        upsert_dependency("[package", "a", &Requirement::Version("1".to_string())),
        Err(ManifestError::Malformed)
    );
}

#[test]
fn a_manifest_without_dependencies_is_refused() {
    assert_eq!(
        upsert_dependency("[package]\nname = \"demo\"\n", "a", &Requirement::Version("1".to_string())),
        Err(ManifestError::NoDependencies)
    );
    assert_eq!(
        upsert_dependency("dependencies = 3\n", "a", &Requirement::Version("1".to_string())),
        Err(ManifestError::NoDependencies)
    );
    assert_eq!(
        upsert_dependency("", "a", &Requirement::Version("1".to_string())),
        Err(ManifestError::NoDependencies)
    );
}

#[test]
fn keys_that_are_no_toml_are_refused() {
    assert_eq!(
        upsert_dependency(MANIFEST, "a", &Requirement::Detailed("version = ".to_string())),
        Err(ManifestError::MalformedRequirement)
    );
}

#[test]
fn add_dependency_writes_the_manifest_of_the_project() {
    let write = add_dependency(
        "my-app",
        "uuid",
        &Requirement::Detailed("version = \"0.8.1\"\nfeatures = [\"serde\", \"v4\"]".to_string()),
        &FileState::Text(MANIFEST.to_string()),
    )
    .unwrap();
    assert_eq!(write.path, "my-app/Cargo.toml");
    let document = parse(&write.content);
    assert_eq!(document["dependencies"]["uuid"]["features"][1].as_str(), Some("v4"));
}

#[test]
fn add_dependency_needs_a_manifest_that_can_be_read() {
    let version = Requirement::Version("1".to_string());
    assert_eq!(
        add_dependency("my-app", "a", &version, &FileState::Missing).unwrap_err(),
        DependencyError::Io
    );
    assert_eq!(
        add_dependency("my-app", "a", &version, &FileState::Unreadable).unwrap_err(),
        DependencyError::Io
    );
    assert_eq!(
        add_dependency("my-app", "a", &version, &FileState::Text("[package]".to_string()))
            .unwrap_err(),
        DependencyError::Manifest(ManifestError::NoDependencies)
    );
}
