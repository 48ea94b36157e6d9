use solanainit::config::{JestConfig, ProjectConfig, TypeScriptConfig};
use solanainit::error::ProjectError;
use solanainit::templates::{
    counter_template, gitignore_template, hello_world_template, jest_config_from,
    jest_config_template, render_jest_config, render_tsconfig, sample_test_template,
    solana_program_template, tsconfig_from, tsconfig_template, WrittenSettings,
};

fn with_template(name: &str) -> ProjectConfig {
    let mut config = ProjectConfig::default();
    config.program_template = name.to_string();
    config
}

fn json_failure() -> serde_json::Error {
    serde_json::from_str::<serde_json::Value>("{").unwrap_err()
}

#[test]
fn gitignore_is_the_fixed_list() {
    let text = gitignore_template();
    let lines: Vec<&str> = text.lines().collect();
    assert_eq!(
        lines,
        vec![
            "target/",
            "node_modules/",
            "dist/",
            ".DS_Store",
            "*.log",
            "*.tsbuildinfo",
            ".env",
            "coverage/",
            "# Solana artifacts",
            "*.so",
            "*.keypair.json",
            "# IDE files",
            ".vscode/",
            ".idea/",
            "*.swp",
            "*.swo",
        ]
    );
    assert!(!text.ends_with('\n'));
    assert_eq!(text, gitignore_template());
}

#[test]
fn gitignore_holds_the_node_modules_line() {
    assert!(gitignore_template().lines().any(|line| line == "node_modules/"));
}

#[test]
fn default_template_greets() {
    let text = solana_program_template(&ProjectConfig::default());
    assert!(text.contains("Hello, Solana World!"));
    assert_eq!(text, hello_world_template());
    assert!(text.starts_with("use solana_program::{\n    account_info::AccountInfo,"));
    assert!(text.ends_with("    Ok(())\n}"));
}

#[test]
fn counter_template_is_selected_by_name() {
    let text = solana_program_template(&with_template("counter"));
    assert_eq!(text, counter_template());
    assert!(text.contains("process_instruction"));
    assert!(text.contains("next_account_info"));
    assert!(text.contains("msg!(\"Counter program initialized\");"));
    assert_ne!(text, hello_world_template());
}

#[test]
fn unknown_template_falls_back_to_the_greeting() {
    let known = solana_program_template(&with_template("hello_world"));
    assert_eq!(solana_program_template(&with_template("nonexistent")), known);
    assert_eq!(solana_program_template(&with_template("")), known);
    assert_eq!(solana_program_template(&with_template("Counter")), known);
    assert_eq!(solana_program_template(&with_template("counter ")), known);
    assert!(!known.is_empty());
}

#[test]
fn sample_test_is_fixed() {
    let text = sample_test_template(&ProjectConfig::default());
    assert!(text.starts_with("import { Connection, PublicKey } from '@solana/web3.js';\n\n"));
    assert!(text.contains("    expect(1 + 1).toBe(2);\n"));
    assert!(text.contains("connection = new Connection('http://localhost:8899', 'confirmed');"));
    assert!(text.ends_with("  });\n});"));
    assert_eq!(text, sample_test_template(&with_template("counter")));
}

#[test]
fn tsconfig_of_the_default_configuration() {
    let expected = r#"{
  "compilerOptions": {
    "target": "ES2020",
    "module": "commonjs",
    "lib": ["ES2020","DOM"],
    "experimentalDecorators": true,
    "emitDecoratorMetadata": true,
    "strict": true,
    "esModuleInterop": true,
    "skipLibCheck": true,
    "forceConsistentCasingInFileNames": true,
    "outDir": "./dist",
    "rootDir": "./"
  },
  "include": ["src/**/*", "tests/**/*"],
  "exclude": ["node_modules", "dist"]
}"#;
    assert_eq!(tsconfig_template(&ProjectConfig::default()).unwrap(), expected);
}

fn read_back(config: &ProjectConfig) {
    let text = tsconfig_template(config).unwrap();
    let parsed: serde_json::Value = serde_json::from_str(&text).unwrap();
    let settings = &config.typescript_config;
    let options = &parsed["compilerOptions"];
    assert_eq!(options["target"].as_str(), Some(settings.target.as_str()));
    assert_eq!(options["module"].as_str(), Some(settings.module.as_str()));
    assert_eq!(options["strict"], serde_json::Value::Bool(settings.strict));
    assert_eq!(options["outDir"].as_str(), Some(settings.out_dir.as_str()));
    assert_eq!(options["rootDir"].as_str(), Some(settings.root_dir.as_str()));
    let lib: Vec<String> = options["lib"]
        .as_array()
        .unwrap()
        .iter()
        .map(|item| item.as_str().unwrap().to_string())
        .collect();
    assert_eq!(lib, settings.lib);
}

#[test]
fn tsconfig_round_trips_its_settings() {
    let mut config = ProjectConfig::default();
    config.typescript_config = TypeScriptConfig {
        target: "ES2022".to_string(),
        module: "esnext".to_string(),
        lib: vec!["ES2022".to_string(), "a \"quoted\" name".to_string(), "back\\slash".to_string()],
        strict: false,
        out_dir: "./build".to_string(),
        root_dir: "./src".to_string(),
    };
    read_back(&config);
}

#[test]
fn tsconfig_round_trips_texts_that_need_escaping() {
    let mut config = ProjectConfig::default();
    config.typescript_config = TypeScriptConfig {
        target: "ES\"2020".to_string(),
        module: "ends in a backslash\\".to_string(),
        lib: vec![String::new(), "x\ny".to_string(), "x\ny".to_string(), "\u{1}é\u{2028}".to_string()],
        strict: true,
        out_dir: "line\nbreak\r\tand tab".to_string(),
        root_dir: "\",\n    \"rootDir\": \"".to_string(),
    };
    read_back(&config);
    config.typescript_config.lib = Vec::new();
    config.typescript_config.strict = false;
    config.typescript_config.target = String::new();
    read_back(&config);
}

#[test]
fn a_quote_in_the_target_is_escaped() {
    let mut config = ProjectConfig::default();
    config.typescript_config.target = "ES\"2020".to_string();
    let text = tsconfig_template(&config).unwrap();
    assert!(text.contains("    \"target\": \"ES\\\"2020\",\n"));
    let parsed: serde_json::Value = serde_json::from_str(&text).unwrap();
    let target = parsed["compilerOptions"]["target"].as_str().unwrap();
    assert_eq!(target, "ES\"2020");
    assert_eq!(target.chars().count(), 7);
    assert_eq!(target.chars().nth(2), Some('"'));
    assert_eq!(parsed["compilerOptions"]["module"].as_str(), Some("commonjs"));
}

#[test]
fn tsconfig_round_trips_the_default_settings() {
    let config = ProjectConfig::default();
    let text = tsconfig_template(&config).unwrap();
    let parsed: serde_json::Value = serde_json::from_str(&text).unwrap();
    let options = &parsed["compilerOptions"];
    assert_eq!(options["target"].as_str(), Some("ES2020"));
    assert_eq!(options["module"].as_str(), Some("commonjs"));
    assert_eq!(options["strict"].as_bool(), Some(true));
    assert_eq!(options["outDir"].as_str(), Some("./dist"));
    assert_eq!(options["rootDir"].as_str(), Some("./"));
    assert_eq!(options["lib"][0].as_str(), Some("ES2020"));
    assert_eq!(options["lib"][1].as_str(), Some("DOM"));
    assert_eq!(options["lib"].as_array().unwrap().len(), 2);
}

#[test]
fn the_file_is_on_as_many_lines_whatever_the_settings_hold() {
    let mut config = ProjectConfig::default();
    let lines = tsconfig_template(&config).unwrap().lines().count();
    config.typescript_config.target = "a\nb\nc".to_string();
    config.typescript_config.lib = vec!["d\ne".to_string()];
    assert_eq!(tsconfig_template(&config).unwrap().lines().count(), lines);
    assert_eq!(lines, 17);
}

fn written(parts: [&str; 5], strict: bool) -> WrittenSettings {
    WrittenSettings {
        target: parts[0].to_string(),
        module: parts[1].to_string(),
        lib: parts[2].to_string(),
        strict,
        out_dir: parts[3].to_string(),
        root_dir: parts[4].to_string(),
    }
}

#[test]
fn tsconfig_is_written_around_the_given_parts() {
    let text = render_tsconfig(&written(["<T>", "<M>", "<list>", "<O>", "<R>"], false));
    let expected = format!(
        r#"{{
  "compilerOptions": {{
    "target": {},
    "module": {},
    "lib": {},
    "experimentalDecorators": true,
    "emitDecoratorMetadata": true,
    "strict": {},
    "esModuleInterop": true,
    "skipLibCheck": true,
    "forceConsistentCasingInFileNames": true,
    "outDir": {},
    "rootDir": {}
  }},
  "include": ["src/**/*", "tests/**/*"],
  "exclude": ["node_modules", "dist"]
}}"#,
        "<T>", "<M>", "<list>", false, "<O>", "<R>"
    );
    assert_eq!(text, expected);
    let text = render_tsconfig(&written(["", "", "", "", ""], true));
    assert!(text.contains("    \"target\": ,\n    \"module\": ,\n    \"lib\": ,\n"));
    assert!(text.contains("    \"strict\": true,\n"));
}

#[test]
fn tsconfig_hands_the_list_to_the_serializer() {
    let mut config = ProjectConfig::default();
    config.typescript_config.lib = vec!["x\ny".to_string(), "é".to_string()];
    let text = tsconfig_template(&config).unwrap();
    assert!(text.contains("    \"lib\": [\"x\\ny\",\"é\"],\n"));
    config.typescript_config.lib = Vec::new();
    assert!(tsconfig_template(&config).unwrap().contains("    \"lib\": [],\n"));
}

fn failure(text: &str) -> serde_json::Error {
    serde_json::from_str::<serde_json::Value>(text).unwrap_err()
}

#[test]
fn tsconfig_from_a_failure_is_a_configuration_error() {
    let broken = ["{", "[1,", "\"", "tru", "{\"a\""];
    let ok = |text: &str| -> Result<String, serde_json::Error> { Ok(text.to_string()) };
    for first in 0..5 {
        let part = |at: usize| {
            if at < first {
                ok("1")
            } else {
                Err(failure(broken[at]))
            }
        };
        let expected = failure(broken[first]).to_string();
        match tsconfig_from(true, part(0), part(1), part(2), part(3), part(4)) {
            Err(ProjectError::ConfigError(text)) => assert_eq!(text, expected),
            other => panic!("unexpected: {:?}", other),
        }
    }
    match tsconfig_from(true, ok("1"), ok("2"), Err(failure("{")), ok("4"), Err(failure("[1,"))) {
        Err(ProjectError::ConfigError(text)) => assert_eq!(text, failure("{").to_string()),
        other => panic!("unexpected: {:?}", other),
    }
    assert_eq!(
        tsconfig_from(false, ok("1"), ok("2"), ok("[3]"), ok("4"), ok("5")).unwrap(),
        render_tsconfig(&written(["1", "2", "[3]", "4", "5"], false))
    );
}

#[test]
fn tsconfig_is_rendered_for_every_configuration() {
    let mut config = ProjectConfig::default();
    for text in ["", "\"", "\\", "\n", "\u{0}", "\u{7f}", "\u{10ffff}", "a\"b\\c\nd"] {
        config.typescript_config.target = text.to_string();
        config.typescript_config.lib = vec![text.to_string(), text.to_string()];
        config.typescript_config.root_dir = text.to_string();
        assert!(tsconfig_template(&config).is_ok());
        config.jest_config.test_match = vec![text.to_string()];
        assert!(jest_config_template(&config).is_ok());
        read_back(&config);
    }
}

#[test]
fn jest_config_of_the_default_configuration() {
    let expected = r#"module.exports = {
  preset: 'ts-jest',
  testEnvironment: 'node',
  testMatch: ["**/tests/**/*.test.ts"],
  moduleFileExtensions: ["ts","js"],
  transform: {
    '^.+\\\\.ts$': 'ts-jest',
  },
};"#;
    assert_eq!(jest_config_template(&ProjectConfig::default()).unwrap(), expected);
}

#[test]
fn jest_config_is_written_around_the_given_lists() {
    let settings = JestConfig {
        preset: "P".to_string(),
        test_environment: "E".to_string(),
        test_match: Vec::new(),
        module_file_extensions: Vec::new(),
    };
    let expected = format!(
        r#"module.exports = {{
  preset: '{}',
  testEnvironment: '{}',
  testMatch: {},
  moduleFileExtensions: {},
  transform: {{
    '^.+\\\\.ts$': 'ts-jest',
  }},
}};"#,
        "P", "E", "<patterns>", "<extensions>"
    );
    assert_eq!(render_jest_config(&settings, "<patterns>", "<extensions>"), expected);
}

fn list_after<'a>(text: &'a str, label: &str) -> Vec<String> {
    let start = text.find(label).unwrap() + label.len();
    let rest = &text[start..];
    let end = rest.find(",\n").unwrap();
    serde_json::from_str(&rest[..end]).unwrap()
}

#[test]
fn jest_config_round_trips_its_lists() {
    let mut config = ProjectConfig::default();
    config.jest_config.test_match = vec![
        "**/tests/**/*.test.ts".to_string(),
        "**/?(*.)+(spec|test).[jt]s?(x)".to_string(),
        "with \"quotes\" and \\ and \u{1} and é".to_string(),
    ];
    config.jest_config.module_file_extensions =
        vec!["ts".to_string(), "tsx".to_string(), "js".to_string(), "json".to_string()];
    let text = jest_config_template(&config).unwrap();
    assert_eq!(list_after(&text, "  testMatch: "), config.jest_config.test_match);
    assert_eq!(
        list_after(&text, "  moduleFileExtensions: "),
        config.jest_config.module_file_extensions
    );
}

#[test]
fn jest_config_round_trips_the_default_lists() {
    let config = ProjectConfig::default();
    let text = jest_config_template(&config).unwrap();
    assert_eq!(list_after(&text, "  testMatch: "), vec!["**/tests/**/*.test.ts".to_string()]);
    assert_eq!(
        list_after(&text, "  moduleFileExtensions: "),
        vec!["ts".to_string(), "js".to_string()]
    );
}

#[test]
fn jest_config_from_failed_lists_is_a_configuration_error() {
    let settings = JestConfig::default();
    let first = json_failure();
    let first_text = first.to_string();
    let second = serde_json::from_str::<serde_json::Value>("[1,").unwrap_err();
    let second_text = second.to_string();
    assert_ne!(first_text, second_text);
    match jest_config_from(&settings, Err(first), Err(second)) {
        Err(ProjectError::ConfigError(text)) => assert_eq!(text, first_text),
        other => panic!("unexpected: {:?}", other),
    }
    let second = serde_json::from_str::<serde_json::Value>("[1,").unwrap_err();
    match jest_config_from(&settings, Ok("[]".to_string()), Err(second)) {
        Err(ProjectError::ConfigError(text)) => assert_eq!(text, second_text),
        other => panic!("unexpected: {:?}", other),
    }
    match jest_config_from(&settings, Err(json_failure()), Ok("[]".to_string())) {
        Err(ProjectError::ConfigError(text)) => assert_eq!(text, first_text),
        other => panic!("unexpected: {:?}", other),
    }
    assert_eq!(
        jest_config_from(&settings, Ok("[\"a\"]".to_string()), Ok("[\"b\"]".to_string())).unwrap(),
        render_jest_config(&settings, "[\"a\"]", "[\"b\"]")
    );
}

#[test]
fn rendering_twice_gives_the_same_bytes() {
    let first = ProjectConfig::default();
    let second = ProjectConfig::default();
    assert_eq!(gitignore_template().into_bytes(), gitignore_template().into_bytes());
    assert_eq!(solana_program_template(&first), solana_program_template(&second));
    assert_eq!(sample_test_template(&first), sample_test_template(&second));
    assert_eq!(tsconfig_template(&first).unwrap(), tsconfig_template(&second).unwrap());
    assert_eq!(tsconfig_template(&first).unwrap(), tsconfig_template(&first).unwrap());
    assert_eq!(jest_config_template(&first).unwrap(), jest_config_template(&second).unwrap());
    assert_eq!(jest_config_template(&first).unwrap(), jest_config_template(&first.clone()).unwrap());
}

#[test]
fn different_settings_give_different_files() {
    let base = ProjectConfig::default();
    let text = tsconfig_template(&base).unwrap();
    let mut other = ProjectConfig::default();
    other.typescript_config.target = "ES2021".to_string();
    assert_ne!(tsconfig_template(&other).unwrap(), text);
    let mut other = ProjectConfig::default();
    other.typescript_config.strict = false;
    assert_ne!(tsconfig_template(&other).unwrap(), text);
    let mut other = ProjectConfig::default();
    other.typescript_config.root_dir = "./src".to_string();
    assert_ne!(tsconfig_template(&other).unwrap(), text);
    let mut other = ProjectConfig::default();
    other.typescript_config.lib = vec!["DOM".to_string(), "ES2020".to_string()];
    assert_ne!(tsconfig_template(&other).unwrap(), text);

    let jest = JestConfig::default();
    let text = render_jest_config(&jest, "[\"a\"]", "[\"b\"]");
    assert_ne!(render_jest_config(&jest, "[\"b\"]", "[\"a\"]"), text);
    let mut other = JestConfig::default();
    other.test_environment = "jsdom".to_string();
    assert_ne!(render_jest_config(&other, "[\"a\"]", "[\"b\"]"), text);
}

#[test]
fn texts_with_quotes_cannot_pass_for_other_settings() {
    let mut first = ProjectConfig::default();
    first.typescript_config.target = "a".to_string();
    first.typescript_config.module = "b\",\n    \"module\": \"c".to_string();
    let mut second = ProjectConfig::default();
    second.typescript_config.target = "a\",\n    \"module\": \"b".to_string();
    second.typescript_config.module = "c".to_string();
    assert_ne!(tsconfig_template(&first).unwrap(), tsconfig_template(&second).unwrap());
    read_back(&first);
    read_back(&second);
}
