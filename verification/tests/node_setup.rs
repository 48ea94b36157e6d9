use solanainit::action::{Action, Invocation, Outcome, Step};
use solanainit::config::{Dependencies, ProjectConfig};
use solanainit::error::ProjectError;
use solanainit::node_setup::{
    add_test_sections, initialize_node_project, install_dependencies, install_dev_dependencies,
    npm_init, update_package_json, NodeSetup,
};

fn npm(args: &[&str]) -> Invocation {
    Invocation {
        program: "npm".to_string(),
        args: args.iter().map(|word| word.to_string()).collect(),
        in_project_directory: true,
    }
}

fn run(args: &[&str]) -> Step {
    Step::Perform(Action::Run { command: npm(args) })
}

fn read_manifest() -> Step {
    Step::Perform(Action::ReadFile { path: "package.json".to_string() })
}

fn without_dev_dependencies() -> ProjectConfig {
    let mut config = ProjectConfig::default();
    config.npm_dev_dependencies = Dependencies::new();
    config
}

fn without_dependencies() -> ProjectConfig {
    let mut config = ProjectConfig::default();
    config.npm_dependencies = Dependencies::new();
    config
}

fn sections() -> (serde_json::Value, serde_json::Value) {
    let mut directories = serde_json::Map::new();
    directories.insert("test".to_string(), serde_json::Value::String("tests".to_string()));
    let mut scripts = serde_json::Map::new();
    scripts.insert("test".to_string(), serde_json::Value::String("jest".to_string()));
    scripts.insert("test:watch".to_string(), serde_json::Value::String("jest --watch".to_string()));
    scripts.insert(
        "test:coverage".to_string(),
        serde_json::Value::String("jest --coverage".to_string()),
    );
    (serde_json::Value::Object(directories), serde_json::Value::Object(scripts))
}

const UPDATED: &str = r#"{
  "directories": {
    "test": "tests"
  },
  "main": "index.js",
  "name": "demo",
  "scripts": {
    "test": "jest",
    "test:coverage": "jest --coverage",
    "test:watch": "jest --watch"
  },
  "version": "1.0.0"
}"#;

const GENERATED: &str =
    r#"{"name":"demo","version":"1.0.0","scripts":{"test":"echo \"Error\" && exit 1"},"main":"index.js"}"#;

#[test]
fn the_package_is_created_without_questions() {
    assert_eq!(npm_init(), npm(&["init", "-y"]));
}

#[test]
fn development_dependencies_are_installed_by_name_in_one_command() {
    assert_eq!(
        install_dev_dependencies(&ProjectConfig::default()),
        Some(npm(&["install", "--save-dev", "jest", "typescript", "@types/jest", "ts-jest"]))
    );
}

#[test]
fn dependencies_are_installed_by_name_in_one_command() {
    assert_eq!(
        install_dependencies(&ProjectConfig::default()),
        Some(npm(&["install", "@solana/web3.js", "borsh"]))
    );
}

#[test]
fn nothing_is_run_for_an_empty_set() {
    assert_eq!(install_dev_dependencies(&without_dev_dependencies()), None);
    assert_eq!(install_dependencies(&without_dependencies()), None);
    assert!(install_dependencies(&without_dev_dependencies()).is_some());
    assert!(install_dev_dependencies(&without_dependencies()).is_some());
}

#[test]
fn the_manifest_gets_its_sections_for_tests() {
    assert_eq!(update_package_json(GENERATED), Ok(UPDATED.to_string()));
}

#[test]
fn an_updated_manifest_is_left_as_it_is() {
    assert_eq!(update_package_json(UPDATED), Ok(UPDATED.to_string()));
}

#[test]
fn an_empty_object_gets_both_sections() {
    let expected = "{\n  \"directories\": {\n    \"test\": \"tests\"\n  },\n  \"scripts\": {\n    \"test\": \"jest\",\n    \"test:coverage\": \"jest --coverage\",\n    \"test:watch\": \"jest --watch\"\n  }\n}";
    assert_eq!(update_package_json("{}"), Ok(expected.to_string()));
    assert_eq!(update_package_json(" null "), Ok(expected.to_string()));
}

#[test]
fn a_manifest_that_is_no_json_is_a_configuration_error() {
    for text in ["", "{", "{\"name\": }", "not json", "{} {}"] {
        let expected = serde_json::from_str::<serde_json::Value>(text).unwrap_err().to_string();
        assert_eq!(update_package_json(text), Err(ProjectError::ConfigError(expected)));
    }
}

#[test]
fn a_manifest_that_is_no_object_is_a_configuration_error() {
    for text in ["[]", "[{}]", "1", "\"text\"", "true"] {
        assert_eq!(
            update_package_json(text),
            Err(ProjectError::ConfigError("package.json does not hold a JSON object".to_string()))
        );
    }
}

#[test]
fn sections_are_set_in_a_document() {
    let (directories, scripts) = sections();
    let mut expected = serde_json::Map::new();
    expected.insert("name".to_string(), serde_json::Value::String("demo".to_string()));
    expected.insert("directories".to_string(), directories);
    expected.insert("scripts".to_string(), scripts);

    let mut given = serde_json::Map::new();
    given.insert("name".to_string(), serde_json::Value::String("demo".to_string()));
    given.insert("scripts".to_string(), serde_json::Value::Bool(true));
    assert_eq!(
        add_test_sections(serde_json::Value::Object(given)),
        Ok(serde_json::Value::Object(expected))
    );
}

#[test]
fn null_becomes_an_object_with_the_sections() {
    let (directories, scripts) = sections();
    let mut expected = serde_json::Map::new();
    expected.insert("directories".to_string(), directories);
    expected.insert("scripts".to_string(), scripts);
    assert_eq!(add_test_sections(serde_json::Value::Null), Ok(serde_json::Value::Object(expected)));
}

#[test]
fn other_documents_take_no_sections() {
    let refused =
        Err(ProjectError::ConfigError("package.json does not hold a JSON object".to_string()));
    assert_eq!(add_test_sections(serde_json::Value::Array(Vec::new())), refused);
    assert_eq!(add_test_sections(serde_json::Value::Bool(false)), refused);
    assert_eq!(add_test_sections(serde_json::Value::String("{}".to_string())), refused);
    assert_eq!(add_test_sections(serde_json::Value::Number(serde_json::Number::from(3u64))), refused);
}

#[test]
fn the_stage_installs_both_sets_and_updates_the_manifest() {
    let config = ProjectConfig::default();
    let (stage, step) = initialize_node_project(NodeSetup::NotStarted, Outcome::Done, &config);
    assert_eq!((stage, step), (NodeSetup::Initializing, run(&["init", "-y"])));

    let (stage, step) = initialize_node_project(stage, Outcome::Done, &config);
    assert_eq!(stage, NodeSetup::InstallingDevDependencies);
    assert_eq!(step, run(&["install", "--save-dev", "jest", "typescript", "@types/jest", "ts-jest"]));

    let (stage, step) = initialize_node_project(stage, Outcome::Done, &config);
    assert_eq!(stage, NodeSetup::InstallingDependencies);
    assert_eq!(step, run(&["install", "@solana/web3.js", "borsh"]));

    let (stage, step) = initialize_node_project(stage, Outcome::Done, &config);
    assert_eq!((stage, step), (NodeSetup::ReadingManifest, read_manifest()));

    let (stage, step) = initialize_node_project(stage, Outcome::Content(GENERATED.to_string()), &config);
    assert_eq!(stage, NodeSetup::WritingManifest);
    assert_eq!(
        step,
        Step::Perform(Action::WriteFile {
            path: "package.json".to_string(),
            content: UPDATED.to_string(),
        })
    );

    let (stage, step) = initialize_node_project(stage, Outcome::Done, &config);
    assert_eq!((stage, step), (NodeSetup::Ready, Step::Finished));
    let (stage, step) = initialize_node_project(stage, Outcome::Done, &config);
    assert_eq!((stage, step), (NodeSetup::Ready, Step::Stopped));
}

#[test]
fn an_empty_set_of_development_dependencies_is_passed_over() {
    let config = without_dev_dependencies();
    let (stage, step) = initialize_node_project(NodeSetup::Initializing, Outcome::Done, &config);
    assert_eq!(stage, NodeSetup::InstallingDependencies);
    assert_eq!(step, run(&["install", "@solana/web3.js", "borsh"]));
}

#[test]
fn an_empty_set_of_dependencies_is_passed_over() {
    let config = without_dependencies();
    let (stage, step) =
        initialize_node_project(NodeSetup::InstallingDevDependencies, Outcome::Done, &config);
    assert_eq!((stage, step), (NodeSetup::ReadingManifest, read_manifest()));
}

#[test]
fn without_dependencies_the_manifest_follows_the_creation() {
    let mut config = without_dev_dependencies();
    config.npm_dependencies = Dependencies::new();
    let (stage, step) = initialize_node_project(NodeSetup::Initializing, Outcome::Done, &config);
    assert_eq!((stage, step), (NodeSetup::ReadingManifest, read_manifest()));
}

#[test]
fn each_command_fails_under_its_own_name() {
    let config = ProjectConfig::default();
    let cases = [
        (NodeSetup::Initializing, "npm init"),
        (NodeSetup::InstallingDevDependencies, "npm install dev dependencies"),
        (NodeSetup::InstallingDependencies, "npm install dependencies"),
    ];
    for (stage, what) in cases {
        let (next, step) = initialize_node_project(stage, Outcome::Failed(None), &config);
        assert_eq!(next, NodeSetup::Failed);
        assert_eq!(step, Step::Failed(ProjectError::CommandFailed(format!("{} failed", what))));
        let (next, step) =
            initialize_node_project(stage, Outcome::Failed(Some("not found".to_string())), &config);
        assert_eq!(next, NodeSetup::Failed);
        assert_eq!(step, Step::Failed(ProjectError::CommandFailed(format!("{}: not found", what))));
    }
}

#[test]
fn a_manifest_that_cannot_be_read_or_written_ends_the_stage() {
    let config = ProjectConfig::default();
    for stage in [NodeSetup::ReadingManifest, NodeSetup::WritingManifest] {
        let (next, step) =
            initialize_node_project(stage, Outcome::Failed(Some("denied".to_string())), &config);
        assert_eq!(next, NodeSetup::Failed);
        assert_eq!(step, Step::Failed(ProjectError::Io("denied".to_string())));
    }
    let (next, step) = initialize_node_project(NodeSetup::Failed, Outcome::Done, &config);
    assert_eq!((next, step), (NodeSetup::Failed, Step::Stopped));
}

#[test]
fn a_malformed_manifest_ends_the_stage() {
    let config = ProjectConfig::default();
    let (next, step) =
        initialize_node_project(NodeSetup::ReadingManifest, Outcome::Content("[".to_string()), &config);
    assert_eq!(next, NodeSetup::Failed);
    assert_eq!(step, Step::Failed(update_package_json("[").unwrap_err()));
    assert!(matches!(step, Step::Failed(ProjectError::ConfigError(_))));

    let (next, step) = initialize_node_project(NodeSetup::ReadingManifest, Outcome::Done, &config);
    assert_eq!(next, NodeSetup::Failed);
    assert_eq!(step, Step::Failed(update_package_json("").unwrap_err()));
}
