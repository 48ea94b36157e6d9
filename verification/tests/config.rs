use solanainit::config::{Dependencies, JestConfig, ProjectConfig, TypeScriptConfig};

fn pairs(dependencies: &Dependencies) -> Vec<(String, String)> {
    dependencies.entries().clone()
}

fn pair(name: &str, version: &str) -> (String, String) {
    (name.to_string(), version.to_string())
}

#[test]
fn default_configuration_has_the_documented_values() {
    let config = ProjectConfig::default();
    assert_eq!(config.solana_version, "2.3.0");
    assert_eq!(config.program_template, "hello_world");
    assert_eq!(pairs(&config.cargo_dependencies), vec![pair("solana-program", "2.3.0")]);
    assert_eq!(
        pairs(&config.npm_dev_dependencies),
        vec![
            pair("jest", "^30.0.5"),
            pair("typescript", "^5.8.3"),
            pair("@types/jest", "^30.0.0"),
            pair("ts-jest", "^29.4.0"),
        ]
    );
    assert_eq!(
        pairs(&config.npm_dependencies),
        vec![pair("@solana/web3.js", "^1.98.2"), pair("borsh", "^2.0.0")]
    );
}

#[test]
fn default_type_checker_settings() {
    let settings = TypeScriptConfig::default();
    assert_eq!(settings.target, "ES2020");
    assert_eq!(settings.module, "commonjs");
    assert_eq!(settings.lib, vec!["ES2020".to_string(), "DOM".to_string()]);
    assert!(settings.strict);
    assert_eq!(settings.out_dir, "./dist");
    assert_eq!(settings.root_dir, "./");
    let config = ProjectConfig::default();
    assert_eq!(config.typescript_config.lib, settings.lib);
    assert_eq!(config.typescript_config.target, settings.target);
}

#[test]
fn default_test_runner_settings() {
    let settings = JestConfig::default();
    assert_eq!(settings.preset, "ts-jest");
    assert_eq!(settings.test_environment, "node");
    assert_eq!(settings.test_match, vec!["**/tests/**/*.test.ts".to_string()]);
    assert_eq!(settings.module_file_extensions, vec!["ts".to_string(), "js".to_string()]);
}

#[test]
fn default_dependency_names_are_given_and_differ() {
    let config = ProjectConfig::default();
    for set in [&config.cargo_dependencies, &config.npm_dev_dependencies, &config.npm_dependencies] {
        let entries = set.entries();
        for (i, (name, _)) in entries.iter().enumerate() {
            assert!(!name.is_empty());
            for (other, _) in entries.iter().skip(i + 1) {
                assert_ne!(name, other);
            }
        }
    }
}

#[test]
fn new_dependencies_are_empty() {
    let set = Dependencies::new();
    assert!(set.is_empty());
    assert_eq!(set.len(), 0);
    assert!(set.get("jest").is_none());
    assert!(set.entries().is_empty());
}

#[test]
fn insert_appends_new_names_in_order() {
    let mut set = Dependencies::new();
    assert_eq!(set.insert("b".to_string(), "1".to_string()), None);
    assert_eq!(set.insert("a".to_string(), "2".to_string()), None);
    assert_eq!(set.insert("c".to_string(), "3".to_string()), None);
    assert_eq!(pairs(&set), vec![pair("b", "1"), pair("a", "2"), pair("c", "3")]);
    assert_eq!(set.len(), 3);
    assert!(!set.is_empty());
}

#[test]
fn insert_replaces_the_version_of_a_known_name() {
    let mut set = Dependencies::new();
    set.insert("b".to_string(), "1".to_string());
    set.insert("a".to_string(), "2".to_string());
    set.insert("c".to_string(), "3".to_string());
    assert_eq!(set.insert("a".to_string(), "9".to_string()), Some("2".to_string()));
    assert_eq!(pairs(&set), vec![pair("b", "1"), pair("a", "9"), pair("c", "3")]);
    assert_eq!(set.insert("b".to_string(), "8".to_string()), Some("1".to_string()));
    assert_eq!(set.insert("c".to_string(), "7".to_string()), Some("3".to_string()));
    assert_eq!(pairs(&set), vec![pair("b", "8"), pair("a", "9"), pair("c", "7")]);
    assert_eq!(set.len(), 3);
}

#[test]
fn get_finds_the_version_by_name() {
    let mut set = Dependencies::new();
    set.insert("jest".to_string(), "^30".to_string());
    set.insert("ts-jest".to_string(), "^29".to_string());
    assert_eq!(set.get("jest"), Some(&"^30".to_string()));
    assert_eq!(set.get("ts-jest"), Some(&"^29".to_string()));
    assert_eq!(set.get("ts"), None);
    assert_eq!(set.get("jest "), None);
    assert_eq!(set.get(""), None);
}

#[test]
fn names_are_compared_by_character() {
    let mut set = Dependencies::new();
    set.insert("café".to_string(), "1".to_string());
    set.insert("cafe".to_string(), "2".to_string());
    assert_eq!(set.len(), 2);
    assert_eq!(set.get("café"), Some(&"1".to_string()));
    assert_eq!(set.insert("café".to_string(), "3".to_string()), Some("1".to_string()));
    assert_eq!(set.len(), 2);
}

#[test]
fn clone_keeps_the_entries() {
    let config = ProjectConfig::default();
    let copy = config.npm_dev_dependencies.clone();
    assert_eq!(pairs(&copy), pairs(&config.npm_dev_dependencies));
    let whole = config.clone();
    assert_eq!(pairs(&whole.npm_dependencies), pairs(&config.npm_dependencies));
    assert_eq!(whole.program_template, config.program_template);
}
