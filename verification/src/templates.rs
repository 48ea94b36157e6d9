//! The texts of the generated files. Each is a function of the configuration
//! alone; nothing here reads or writes a file.

use crate::config::{JestConfig, JestConfigView, ProjectConfig, TypeScriptConfigView};
use crate::error::{rendered_view, ProjectError, ProjectErrorView};
use crate::json::{
    config_error, error_text, json_list_text, json_text, list_model, reads_as, write_list,
    write_text, JsonModel,
};
use crate::text::{lemma_cancel_front, lemma_split_at_mark, same_text, without};
use vstd::prelude::*;

verus! {

/// The ignore list of a generated project.
pub const GITIGNORE: &'static str = r#"target/
node_modules/
dist/
.DS_Store
*.log
*.tsbuildinfo
.env
coverage/
# Solana artifacts
*.so
*.keypair.json
# IDE files
.vscode/
.idea/
*.swp
*.swo"#;

/// The program that greets.
pub const HELLO_WORLD_PROGRAM: &'static str = r#"use solana_program::{
    account_info::AccountInfo,
    entrypoint,
    entrypoint::ProgramResult,
    pubkey::Pubkey,
    msg,
};

entrypoint!(process_instruction);

pub fn process_instruction(
    _program_id: &Pubkey,
    _accounts: &[AccountInfo],
    _instruction_data: &[u8],
) -> ProgramResult {
    msg!("Hello, Solana World!");
    Ok(())
}"#;

/// The program that checks the accounts of a counter.
pub const COUNTER_PROGRAM: &'static str = r#"use solana_program::{
    account_info::{next_account_info, AccountInfo},
    entrypoint,
    entrypoint::ProgramResult,
    msg,
    program_error::ProgramError,
    pubkey::Pubkey,
    program_pack::{Pack, IsInitialized},
    sysvar::{rent::Rent, Sysvar},
};

entrypoint!(process_instruction);

pub fn process_instruction(
    program_id: &Pubkey,
    accounts: &[AccountInfo],
    _instruction_data: &[u8],
) -> ProgramResult {
    let accounts_iter = &mut accounts.iter();
    let counter_account = next_account_info(accounts_iter)?;
    let user = next_account_info(accounts_iter)?;
    let rent = &Rent::from_account_info(next_account_info(accounts_iter)?)?;

    if !user.is_signer {
        return Err(ProgramError::MissingRequiredSignature);
    }

    if counter_account.owner != program_id {
        return Err(ProgramError::IncorrectProgramId);
    }

    msg!("Counter program initialized");
    Ok(())
}"#;

/// The sample test of a generated project.
pub const SAMPLE_TEST: &'static str = r#"import { Connection, PublicKey } from '@solana/web3.js';

describe('Solana Program Tests', () => {
  let connection: Connection;

  beforeAll(() => {
    connection = new Connection('http://localhost:8899', 'confirmed');
  });

  test('example test', () => {
    expect(1 + 1).toBe(2);
  });

  test('connection test', async () => {
    const version = await connection.getVersion();
    expect(version).toBeDefined();
  });
});"#;

/// The type checker's configuration file from its start to where the target begins.
pub const TSCONFIG_UP_TO_TARGET: &'static str = r#"{
  "compilerOptions": {
    "target": "#;

/// The type checker's configuration file from the target to the module format.
pub const TSCONFIG_UP_TO_MODULE: &'static str = r#",
    "module": "#;

/// The type checker's configuration file from the module format to the library list.
pub const TSCONFIG_UP_TO_LIB: &'static str = r#",
    "lib": "#;

/// The type checker's configuration file from the library list to the strictness flag.
pub const TSCONFIG_UP_TO_STRICT: &'static str = r#",
    "experimentalDecorators": true,
    "emitDecoratorMetadata": true,
    "strict": "#;

/// The type checker's configuration file from the strictness flag to the output directory.
pub const TSCONFIG_UP_TO_OUT_DIR: &'static str = r#",
    "esModuleInterop": true,
    "skipLibCheck": true,
    "forceConsistentCasingInFileNames": true,
    "outDir": "#;

/// The type checker's configuration file from the output directory to the root directory.
pub const TSCONFIG_UP_TO_ROOT_DIR: &'static str = r#",
    "rootDir": "#;

/// The type checker's configuration file after the root directory.
pub const TSCONFIG_END: &'static str = r#"
  },
  "include": ["src/**/*", "tests/**/*"],
  "exclude": ["node_modules", "dist"]
}"#;

/// The test runner's configuration file from its start to where the preset begins.
pub const JEST_UP_TO_PRESET: &'static str = r#"module.exports = {
  preset: '"#;

/// The test runner's configuration file from the preset to the test environment.
pub const JEST_UP_TO_ENVIRONMENT: &'static str = r#"',
  testEnvironment: '"#;

/// The test runner's configuration file from the test environment to the test patterns.
pub const JEST_UP_TO_TEST_MATCH: &'static str = r#"',
  testMatch: "#;

/// The test runner's configuration file from the test patterns to the file extensions.
pub const JEST_UP_TO_EXTENSIONS: &'static str = r#",
  moduleFileExtensions: "#;

/// The test runner's configuration file after the file extensions: the transform rule and the end.
pub const JEST_END: &'static str = r#",
  transform: {
    '^.+\\\\.ts$': 'ts-jest',
  },
};"#;

/// The ignore list: the same text whatever the configuration.
pub fn gitignore_template() -> (text: String)
    ensures
        text@ == GITIGNORE@,
{
    GITIGNORE.to_owned()
}

/// Neither program is empty.
pub proof fn lemma_programs_are_not_empty()
    ensures
        HELLO_WORLD_PROGRAM@.len() > 0,
        COUNTER_PROGRAM@.len() > 0,
{
    reveal_strlit(r#"use solana_program::{
    account_info::AccountInfo,
    entrypoint,
    entrypoint::ProgramResult,
    pubkey::Pubkey,
    msg,
};

entrypoint!(process_instruction);

pub fn process_instruction(
    _program_id: &Pubkey,
    _accounts: &[AccountInfo],
    _instruction_data: &[u8],
) -> ProgramResult {
    msg!("Hello, Solana World!");
    Ok(())
}"#);
    reveal_strlit(r#"use solana_program::{
    account_info::{next_account_info, AccountInfo},
    entrypoint,
    entrypoint::ProgramResult,
    msg,
    program_error::ProgramError,
    pubkey::Pubkey,
    program_pack::{Pack, IsInitialized},
    sysvar::{rent::Rent, Sysvar},
};

entrypoint!(process_instruction);

pub fn process_instruction(
    program_id: &Pubkey,
    accounts: &[AccountInfo],
    _instruction_data: &[u8],
) -> ProgramResult {
    let accounts_iter = &mut accounts.iter();
    let counter_account = next_account_info(accounts_iter)?;
    let user = next_account_info(accounts_iter)?;
    let rent = &Rent::from_account_info(next_account_info(accounts_iter)?)?;

    if !user.is_signer {
        return Err(ProgramError::MissingRequiredSignature);
    }

    if counter_account.owner != program_id {
        return Err(ProgramError::IncorrectProgramId);
    }

    msg!("Counter program initialized");
    Ok(())
}"#);
}

/// The program that greets.
pub fn hello_world_template() -> (text: String)
    ensures
        text@ == HELLO_WORLD_PROGRAM@,
        text@.len() > 0,
{
    proof {
        lemma_programs_are_not_empty();
    }
    HELLO_WORLD_PROGRAM.to_owned()
}

/// The program that checks the accounts of a counter.
pub fn counter_template() -> (text: String)
    ensures
        text@ == COUNTER_PROGRAM@,
        text@.len() > 0,
{
    proof {
        lemma_programs_are_not_empty();
    }
    COUNTER_PROGRAM.to_owned()
}

/// The program that a template name selects: the counter for `counter`, the
/// greeting for `hello_world` and for every other name.
pub open spec fn program_text(template: Seq<char>) -> Seq<char> {
    if template == "counter"@ {
        COUNTER_PROGRAM@
    } else {
        HELLO_WORLD_PROGRAM@
    }
}

/// The library's entry point, chosen by the configuration's template name.
/// Every name gives a program; a name that is not known gives the greeting.
pub fn solana_program_template(config: &ProjectConfig) -> (text: String)
    ensures
        text@ == program_text(config@.program_template),
        text@.len() > 0,
        config@.program_template != "counter"@ ==> text@ == HELLO_WORLD_PROGRAM@,
{
    if same_text(config.program_template.as_str(), "counter") {
        counter_template()
    } else {
        hello_world_template()
    }
}

/// The sample test: the same text whatever the configuration.
pub fn sample_test_template(_config: &ProjectConfig) -> (text: String)
    ensures
        text@ == SAMPLE_TEST@,
{
    SAMPLE_TEST.to_owned()
}

/// How a flag is written: `true` or `false`.
pub open spec fn flag_text(flag: bool) -> Seq<char> {
    if flag {
        "true"@
    } else {
        "false"@
    }
}

/// The settings of the type checker as they stand in its file: each text
/// and the library list written as JSON, and the strictness flag.
#[derive(Debug, Clone, PartialEq, Eq)]
pub struct WrittenSettings {
    pub target: String,
    pub module: String,
    pub lib: String,
    pub strict: bool,
    pub out_dir: String,
    pub root_dir: String,
}

/// `WrittenSettings` with each text as a sequence of characters.
pub struct WrittenSettingsView {
    pub target: Seq<char>,
    pub module: Seq<char>,
    pub lib: Seq<char>,
    pub strict: bool,
    pub out_dir: Seq<char>,
    pub root_dir: Seq<char>,
}

impl View for WrittenSettings {
    type V = WrittenSettingsView;

    open spec fn view(&self) -> WrittenSettingsView {
        WrittenSettingsView {
            target: self.target@,
            module: self.module@,
            lib: self.lib@,
            strict: self.strict,
            out_dir: self.out_dir@,
            root_dir: self.root_dir@,
        }
    }
}

/// The type checker's configuration file around settings that are written
/// as JSON already.
pub open spec fn tsconfig_text(written: WrittenSettingsView) -> Seq<char> {
    TSCONFIG_UP_TO_TARGET@ + written.target
        + TSCONFIG_UP_TO_MODULE@ + written.module
        + TSCONFIG_UP_TO_LIB@ + written.lib
        + TSCONFIG_UP_TO_STRICT@ + flag_text(written.strict)
        + TSCONFIG_UP_TO_OUT_DIR@ + written.out_dir
        + TSCONFIG_UP_TO_ROOT_DIR@ + written.root_dir
        + TSCONFIG_END@
}

/// Writes the type checker's configuration file around settings that are
/// written as JSON already.
pub fn render_tsconfig(written: &WrittenSettings) -> (text: String)
    ensures
        text@ == tsconfig_text(written@),
{
    let mut text = TSCONFIG_UP_TO_TARGET.to_owned();
    text.append(written.target.as_str());
    text.append(TSCONFIG_UP_TO_MODULE);
    text.append(written.module.as_str());
    text.append(TSCONFIG_UP_TO_LIB);
    text.append(written.lib.as_str());
    text.append(TSCONFIG_UP_TO_STRICT);
    text.append(if written.strict { "true" } else { "false" });
    text.append(TSCONFIG_UP_TO_OUT_DIR);
    text.append(written.out_dir.as_str());
    text.append(TSCONFIG_UP_TO_ROOT_DIR);
    text.append(written.root_dir.as_str());
    text.append(TSCONFIG_END);
    text
}

/// What `serde_json` handed back for a value that it was asked to write,
/// with each text as a sequence of characters.
pub open spec fn written_view(written: Result<String, serde_json::Error>) -> Result<
    Seq<char>,
    Seq<char>,
> {
    match written {
        Ok(json) => Ok(json@),
        Err(error) => Err(error_text(error)),
    }
}

/// The type checker's configuration file once each of its settings has
/// been handed to be written: the file around what was written, or a
/// configuration error with the description of the first failure, the
/// settings taken in the order in which they stand in the file.
pub open spec fn tsconfig_assembled(
    strict: bool,
    target: Result<Seq<char>, Seq<char>>,
    module: Result<Seq<char>, Seq<char>>,
    lib: Result<Seq<char>, Seq<char>>,
    out_dir: Result<Seq<char>, Seq<char>>,
    root_dir: Result<Seq<char>, Seq<char>>,
) -> Result<Seq<char>, ProjectErrorView> {
    match (target, module, lib, out_dir, root_dir) {
        (Ok(target), Ok(module), Ok(lib), Ok(out_dir), Ok(root_dir)) => Ok(
            tsconfig_text(WrittenSettingsView { target, module, lib, strict, out_dir, root_dir }),
        ),
        (Err(description), _, _, _, _) => Err(ProjectErrorView::ConfigError(description)),
        (_, Err(description), _, _, _) => Err(ProjectErrorView::ConfigError(description)),
        (_, _, Err(description), _, _) => Err(ProjectErrorView::ConfigError(description)),
        (_, _, _, Err(description), _) => Err(ProjectErrorView::ConfigError(description)),
        (_, _, _, _, Err(description)) => Err(ProjectErrorView::ConfigError(description)),
    }
}

/// The type checker's configuration file of given settings: every text
/// and the library list as `serde_json` writes them, so that a quote, a
/// backslash or a line break in a setting stands escaped in the file.
pub open spec fn tsconfig_of(settings: TypeScriptConfigView) -> Result<
    Seq<char>,
    ProjectErrorView,
> {
    tsconfig_assembled(
        settings.strict,
        json_text(settings.target),
        json_text(settings.module),
        json_list_text(settings.lib),
        json_text(settings.out_dir),
        json_text(settings.root_dir),
    )
}

/// Every setting of the type checker is written, on one line, as JSON that
/// reads back to the setting: the four texts as texts, the library list as
/// the list of its texts in their order.
pub open spec fn settings_read_back(settings: TypeScriptConfigView) -> bool {
    &&& json_text(settings.target) matches Ok(json) && reads_as(
        json,
        JsonModel::Text(settings.target),
    )
    &&& json_text(settings.module) matches Ok(json) && reads_as(
        json,
        JsonModel::Text(settings.module),
    )
    &&& json_list_text(settings.lib) matches Ok(json) && reads_as(json, list_model(settings.lib))
    &&& json_text(settings.out_dir) matches Ok(json) && reads_as(
        json,
        JsonModel::Text(settings.out_dir),
    )
    &&& json_text(settings.root_dir) matches Ok(json) && reads_as(
        json,
        JsonModel::Text(settings.root_dir),
    )
}

/// Finishes the type checker's configuration file once each setting has
/// been handed to `serde_json`: the file where all were written, else a
/// configuration error with the description of the first outside error.
pub fn tsconfig_from(
    strict: bool,
    target: Result<String, serde_json::Error>,
    module: Result<String, serde_json::Error>,
    lib: Result<String, serde_json::Error>,
    out_dir: Result<String, serde_json::Error>,
    root_dir: Result<String, serde_json::Error>,
) -> (rendered: Result<String, ProjectError>)
    ensures
        rendered_view(rendered) == tsconfig_assembled(
            strict,
            written_view(target),
            written_view(module),
            written_view(lib),
            written_view(out_dir),
            written_view(root_dir),
        ),
{
    let target = match target {
        Ok(json) => json,
        Err(error) => {
            return Err(config_error(error));
        },
    };
    let module = match module {
        Ok(json) => json,
        Err(error) => {
            return Err(config_error(error));
        },
    };
    let lib = match lib {
        Ok(json) => json,
        Err(error) => {
            return Err(config_error(error));
        },
    };
    let out_dir = match out_dir {
        Ok(json) => json,
        Err(error) => {
            return Err(config_error(error));
        },
    };
    let root_dir = match root_dir {
        Ok(json) => json,
        Err(error) => {
            return Err(config_error(error));
        },
    };
    Ok(render_tsconfig(&WrittenSettings { target, module, lib, strict, out_dir, root_dir }))
}

/// The type checker's configuration file. Every setting is written by
/// `serde_json`, which does not fail on texts, so the file comes about for
/// every configuration, and each setting stands in it as JSON that reads
/// back to the setting.
pub fn tsconfig_template(config: &ProjectConfig) -> (rendered: Result<String, ProjectError>)
    ensures
        rendered_view(rendered) == tsconfig_of(config@.typescript_config),
        rendered is Ok,
        settings_read_back(config@.typescript_config),
{
    let settings = &config.typescript_config;
    let target = write_text(settings.target.as_str());
    let module = write_text(settings.module.as_str());
    let lib = write_list(&settings.lib);
    let out_dir = write_text(settings.out_dir.as_str());
    let root_dir = write_text(settings.root_dir.as_str());
    tsconfig_from(settings.strict, target, module, lib, out_dir, root_dir)
}

/// The test runner's configuration file for given settings, with the two
/// texts standing where the lists of test patterns and of file extensions
/// belong.
pub open spec fn jest_config_text(
    settings: JestConfigView,
    test_match_json: Seq<char>,
    extensions_json: Seq<char>,
) -> Seq<char> {
    JEST_UP_TO_PRESET@ + settings.preset
        + JEST_UP_TO_ENVIRONMENT@ + settings.test_environment
        + JEST_UP_TO_TEST_MATCH@ + test_match_json
        + JEST_UP_TO_EXTENSIONS@ + extensions_json
        + JEST_END@
}

/// Writes the test runner's configuration file around two lists that are
/// JSON already.
pub fn render_jest_config(settings: &JestConfig, test_match_json: &str, extensions_json: &str) -> (text:
    String)
    ensures
        text@ == jest_config_text(settings@, test_match_json@, extensions_json@),
{
    let mut text = JEST_UP_TO_PRESET.to_owned();
    text.append(settings.preset.as_str());
    text.append(JEST_UP_TO_ENVIRONMENT);
    text.append(settings.test_environment.as_str());
    text.append(JEST_UP_TO_TEST_MATCH);
    text.append(test_match_json);
    text.append(JEST_UP_TO_EXTENSIONS);
    text.append(extensions_json);
    text.append(JEST_END);
    text
}

/// The test runner's configuration file of a configuration: its settings
/// around their two lists as `serde_json` writes them, or a configuration
/// error with the description of the first outside error.
pub open spec fn jest_config_of(settings: JestConfigView) -> Result<Seq<char>, ProjectErrorView> {
    match json_list_text(settings.test_match) {
        Err(description) => Err(ProjectErrorView::ConfigError(description)),
        Ok(test_match_json) => match json_list_text(settings.module_file_extensions) {
            Err(description) => Err(ProjectErrorView::ConfigError(description)),
            Ok(extensions_json) => Ok(
                jest_config_text(settings, test_match_json, extensions_json),
            ),
        },
    }
}

/// Finishes the test runner's configuration file once its two lists have
/// been handed to `serde_json`: the file where both were written, else a
/// configuration error with the description of the first outside error.
pub fn jest_config_from(
    settings: &JestConfig,
    test_match_json: Result<String, serde_json::Error>,
    extensions_json: Result<String, serde_json::Error>,
) -> (rendered: Result<String, ProjectError>)
    ensures
        match (test_match_json, extensions_json) {
            (Ok(patterns), Ok(extensions)) => rendered matches Ok(text) && text@
                == jest_config_text(settings@, patterns@, extensions@),
            (Err(error), _) => rendered matches Err(failure) && failure@
                == ProjectErrorView::ConfigError(error_text(error)),
            (Ok(_), Err(error)) => rendered matches Err(failure) && failure@
                == ProjectErrorView::ConfigError(error_text(error)),
        },
{
    match test_match_json {
        Err(error) => Err(config_error(error)),
        Ok(patterns) => match extensions_json {
            Err(error) => Err(config_error(error)),
            Ok(extensions) => Ok(
                render_jest_config(settings, patterns.as_str(), extensions.as_str()),
            ),
        },
    }
}

/// Both lists of the test runner are written, on one line, as JSON that
/// reads back to the list of the same texts in the same order.
pub open spec fn lists_read_back(settings: JestConfigView) -> bool {
    &&& json_list_text(settings.test_match) matches Ok(json) && reads_as(
        json,
        list_model(settings.test_match),
    )
    &&& json_list_text(settings.module_file_extensions) matches Ok(json) && reads_as(
        json,
        list_model(settings.module_file_extensions),
    )
}

/// The test runner's configuration file. Its two lists are written by
/// `serde_json`, which does not fail on lists of texts, so the file comes
/// about for every configuration, and each list stands in it as JSON that
/// reads back to the list.
pub fn jest_config_template(config: &ProjectConfig) -> (rendered: Result<String, ProjectError>)
    ensures
        rendered_view(rendered) == jest_config_of(config@.jest_config),
        rendered is Ok,
        lists_read_back(config@.jest_config),
{
    let test_match_json = write_list(&config.jest_config.test_match);
    let extensions_json = write_list(&config.jest_config.module_file_extensions);
    jest_config_from(&config.jest_config, test_match_json, extensions_json)
}

/// Rendering is a function of the configuration: two configurations that
/// hold the same values give the same text for every generated file, byte
/// for byte, and fail alike where they fail.
pub proof fn lemma_rendering_is_determined(first: ProjectConfig, second: ProjectConfig)
    requires
        first@ == second@,
    ensures
        program_text(first@.program_template) == program_text(second@.program_template),
        tsconfig_of(first@.typescript_config) == tsconfig_of(second@.typescript_config),
        jest_config_of(first@.jest_config) == jest_config_of(second@.jest_config),
{
}

/// Every template name selects a program that is not empty, and every name
/// but `counter` selects the greeting.
pub proof fn lemma_program_selection_is_total(template: Seq<char>)
    ensures
        program_text(template).len() > 0,
        template != "counter"@ ==> program_text(template) == program_text("hello_world"@),
        program_text("hello_world"@) == HELLO_WORLD_PROGRAM@,
{
    reveal_strlit("counter");
    reveal_strlit("hello_world");
    assert("counter"@.len() == 7 && "hello_world"@.len() == 11);
    lemma_programs_are_not_empty();
}

/// The written settings hold no line break.
pub open spec fn on_one_line(written: WrittenSettingsView) -> bool {
    &&& without(written.target, '\n')
    &&& without(written.module, '\n')
    &&& without(written.lib, '\n')
    &&& without(written.out_dir, '\n')
    &&& without(written.root_dir, '\n')
}

/// What the type checker's configuration file holds from the root
/// directory on.
spec fn tsconfig_from_root(written: WrittenSettingsView) -> Seq<char> {
    written.root_dir + TSCONFIG_END@
}

/// What the type checker's configuration file holds from the output
/// directory on.
spec fn tsconfig_from_out_dir(written: WrittenSettingsView) -> Seq<char> {
    written.out_dir + (TSCONFIG_UP_TO_ROOT_DIR@ + tsconfig_from_root(written))
}

/// What the type checker's configuration file holds from the strictness
/// flag on.
spec fn tsconfig_from_strict(written: WrittenSettingsView) -> Seq<char> {
    flag_text(written.strict) + (TSCONFIG_UP_TO_OUT_DIR@ + tsconfig_from_out_dir(written))
}

/// What the type checker's configuration file holds from the library list
/// on.
spec fn tsconfig_from_lib(written: WrittenSettingsView) -> Seq<char> {
    written.lib + (TSCONFIG_UP_TO_STRICT@ + tsconfig_from_strict(written))
}

/// What the type checker's configuration file holds from the module
/// format on.
spec fn tsconfig_from_module(written: WrittenSettingsView) -> Seq<char> {
    written.module + (TSCONFIG_UP_TO_LIB@ + tsconfig_from_lib(written))
}

/// What the type checker's configuration file holds from the target on.
spec fn tsconfig_from_target(written: WrittenSettingsView) -> Seq<char> {
    written.target + (TSCONFIG_UP_TO_MODULE@ + tsconfig_from_module(written))
}

/// The type checker's configuration file is its fixed start and what it
/// holds from the target on.
proof fn lemma_tsconfig_in_parts(written: WrittenSettingsView)
    ensures
        tsconfig_text(written) == TSCONFIG_UP_TO_TARGET@ + tsconfig_from_target(written),
{
    assert(tsconfig_text(written) =~= TSCONFIG_UP_TO_TARGET@ + tsconfig_from_target(written));
}

/// How the fixed parts of the type checker's configuration file begin:
/// those between two settings with a comma and a line break, the last with
/// a line break. Neither way of writing the flag holds a line break.
proof fn lemma_tsconfig_marks()
    ensures
        TSCONFIG_UP_TO_MODULE@.len() > 1 && TSCONFIG_UP_TO_MODULE@[0] == ','
            && TSCONFIG_UP_TO_MODULE@[1] == '\n',
        TSCONFIG_UP_TO_LIB@.len() > 1 && TSCONFIG_UP_TO_LIB@[0] == ',' && TSCONFIG_UP_TO_LIB@[1]
            == '\n',
        TSCONFIG_UP_TO_STRICT@.len() > 1 && TSCONFIG_UP_TO_STRICT@[0] == ','
            && TSCONFIG_UP_TO_STRICT@[1] == '\n',
        TSCONFIG_UP_TO_OUT_DIR@.len() > 1 && TSCONFIG_UP_TO_OUT_DIR@[0] == ','
            && TSCONFIG_UP_TO_OUT_DIR@[1] == '\n',
        TSCONFIG_UP_TO_ROOT_DIR@.len() > 1 && TSCONFIG_UP_TO_ROOT_DIR@[0] == ','
            && TSCONFIG_UP_TO_ROOT_DIR@[1] == '\n',
        TSCONFIG_END@.len() > 0 && TSCONFIG_END@[0] == '\n',
        without(flag_text(true), '\n'),
        without(flag_text(false), '\n'),
        flag_text(true) != flag_text(false),
{
    reveal_strlit(r#",
    "module": "#);
    reveal_strlit(r#",
    "lib": "#);
    reveal_strlit(r#",
    "experimentalDecorators": true,
    "emitDecoratorMetadata": true,
    "strict": "#);
    reveal_strlit(r#",
    "esModuleInterop": true,
    "skipLibCheck": true,
    "forceConsistentCasingInFileNames": true,
    "outDir": "#);
    reveal_strlit(r#",
    "rootDir": "#);
    reveal_strlit(r#"
  },
  "include": ["src/**/*", "tests/**/*"],
  "exclude": ["node_modules", "dist"]
}"#);
    reveal_strlit("true");
    reveal_strlit("false");
    assert("true"@.len() == 4 && "false"@.len() == 5);
}

/// The type checker's configuration file shows what it was written
/// around: two files that agree, each around settings written without a
/// line break, hold the same written settings.
pub proof fn lemma_tsconfig_reads_back(first: WrittenSettingsView, second: WrittenSettingsView)
    requires
        tsconfig_text(first) == tsconfig_text(second),
        on_one_line(first),
        on_one_line(second),
    ensures
        first == second,
{
    lemma_tsconfig_marks();
    lemma_tsconfig_in_parts(first);
    lemma_tsconfig_in_parts(second);
    lemma_cancel_front(
        TSCONFIG_UP_TO_TARGET@,
        tsconfig_from_target(first),
        tsconfig_from_target(second),
    );
    lemma_split_at_mark(
        first.target,
        TSCONFIG_UP_TO_MODULE@ + tsconfig_from_module(first),
        second.target,
        TSCONFIG_UP_TO_MODULE@ + tsconfig_from_module(second),
        '\n',
        1,
    );
    lemma_cancel_front(
        TSCONFIG_UP_TO_MODULE@,
        tsconfig_from_module(first),
        tsconfig_from_module(second),
    );
    lemma_split_at_mark(
        first.module,
        TSCONFIG_UP_TO_LIB@ + tsconfig_from_lib(first),
        second.module,
        TSCONFIG_UP_TO_LIB@ + tsconfig_from_lib(second),
        '\n',
        1,
    );
    lemma_cancel_front(TSCONFIG_UP_TO_LIB@, tsconfig_from_lib(first), tsconfig_from_lib(second));
    lemma_split_at_mark(
        first.lib,
        TSCONFIG_UP_TO_STRICT@ + tsconfig_from_strict(first),
        second.lib,
        TSCONFIG_UP_TO_STRICT@ + tsconfig_from_strict(second),
        '\n',
        1,
    );
    lemma_cancel_front(
        TSCONFIG_UP_TO_STRICT@,
        tsconfig_from_strict(first),
        tsconfig_from_strict(second),
    );
    lemma_split_at_mark(
        flag_text(first.strict),
        TSCONFIG_UP_TO_OUT_DIR@ + tsconfig_from_out_dir(first),
        flag_text(second.strict),
        TSCONFIG_UP_TO_OUT_DIR@ + tsconfig_from_out_dir(second),
        '\n',
        1,
    );
    lemma_cancel_front(
        TSCONFIG_UP_TO_OUT_DIR@,
        tsconfig_from_out_dir(first),
        tsconfig_from_out_dir(second),
    );
    lemma_split_at_mark(
        first.out_dir,
        TSCONFIG_UP_TO_ROOT_DIR@ + tsconfig_from_root(first),
        second.out_dir,
        TSCONFIG_UP_TO_ROOT_DIR@ + tsconfig_from_root(second),
        '\n',
        1,
    );
    lemma_cancel_front(
        TSCONFIG_UP_TO_ROOT_DIR@,
        tsconfig_from_root(first),
        tsconfig_from_root(second),
    );
    lemma_split_at_mark(first.root_dir, TSCONFIG_END@, second.root_dir, TSCONFIG_END@, '\n', 0);
}

/// Two lists of texts that make the same document are the same list.
proof fn lemma_list_model_tells_lists_apart(first: Seq<Seq<char>>, second: Seq<Seq<char>>)
    requires
        list_model(first) == list_model(second),
    ensures
        first == second,
{
    let left = list_model(first)->List_0;
    let right = list_model(second)->List_0;
    assert(left.len() == first.len() && right.len() == second.len());
    assert forall|i: int| 0 <= i < first.len() implies first[i] == second[i] by {
        assert(left[i] == JsonModel::Text(first[i]));
        assert(right[i] == JsonModel::Text(second[i]));
    }
    assert(first =~= second);
}

/// The type checker's configuration file gives its settings back. Of two
/// settings that were each written as JSON that reads back to them, and
/// whose files agree, every field agrees: the target, the module format,
/// the library list with its order, the strictness flag, the output
/// directory and the root directory.
pub proof fn lemma_tsconfig_gives_settings_back(
    first: TypeScriptConfigView,
    second: TypeScriptConfigView,
)
    requires
        settings_read_back(first),
        settings_read_back(second),
        tsconfig_of(first) == tsconfig_of(second),
    ensures
        first.target == second.target,
        first.module == second.module,
        first.lib == second.lib,
        first.strict == second.strict,
        first.out_dir == second.out_dir,
        first.root_dir == second.root_dir,
{
    let left = WrittenSettingsView {
        target: json_text(first.target)->Ok_0,
        module: json_text(first.module)->Ok_0,
        lib: json_list_text(first.lib)->Ok_0,
        strict: first.strict,
        out_dir: json_text(first.out_dir)->Ok_0,
        root_dir: json_text(first.root_dir)->Ok_0,
    };
    let right = WrittenSettingsView {
        target: json_text(second.target)->Ok_0,
        module: json_text(second.module)->Ok_0,
        lib: json_list_text(second.lib)->Ok_0,
        strict: second.strict,
        out_dir: json_text(second.out_dir)->Ok_0,
        root_dir: json_text(second.root_dir)->Ok_0,
    };
    assert(tsconfig_of(first) == Ok::<Seq<char>, ProjectErrorView>(tsconfig_text(left)));
    assert(tsconfig_of(second) == Ok::<Seq<char>, ProjectErrorView>(tsconfig_text(right)));
    lemma_tsconfig_reads_back(left, right);
    lemma_list_model_tells_lists_apart(first.lib, second.lib);
}

/// What the test runner's configuration file holds from the file
/// extensions on.
spec fn jest_from_extensions(extensions_json: Seq<char>) -> Seq<char> {
    extensions_json + JEST_END@
}

/// What the test runner's configuration file holds from the test patterns
/// on.
spec fn jest_from_test_match(test_match_json: Seq<char>, extensions_json: Seq<char>) -> Seq<char> {
    test_match_json + (JEST_UP_TO_EXTENSIONS@ + jest_from_extensions(extensions_json))
}

/// What the test runner's configuration file holds from the test
/// environment on.
spec fn jest_from_environment(
    settings: JestConfigView,
    test_match_json: Seq<char>,
    extensions_json: Seq<char>,
) -> Seq<char> {
    settings.test_environment + (JEST_UP_TO_TEST_MATCH@ + jest_from_test_match(
        test_match_json,
        extensions_json,
    ))
}

/// What the test runner's configuration file holds from the preset on.
spec fn jest_from_preset(
    settings: JestConfigView,
    test_match_json: Seq<char>,
    extensions_json: Seq<char>,
) -> Seq<char> {
    settings.preset + (JEST_UP_TO_ENVIRONMENT@ + jest_from_environment(
        settings,
        test_match_json,
        extensions_json,
    ))
}

/// How the fixed parts of the test runner's configuration file begin: with
/// a single quote after a quoted text, and with a comma and a line break
/// after a list.
proof fn lemma_jest_marks()
    ensures
        JEST_UP_TO_ENVIRONMENT@.len() > 0 && JEST_UP_TO_ENVIRONMENT@[0] == '\'',
        JEST_UP_TO_TEST_MATCH@.len() > 0 && JEST_UP_TO_TEST_MATCH@[0] == '\'',
        JEST_UP_TO_EXTENSIONS@.len() > 1 && JEST_UP_TO_EXTENSIONS@[0] == ','
            && JEST_UP_TO_EXTENSIONS@[1] == '\n',
        JEST_END@.len() > 1 && JEST_END@[0] == ',' && JEST_END@[1] == '\n',
{
    reveal_strlit(r#"',
  testEnvironment: '"#);
    reveal_strlit(r#"',
  testMatch: "#);
    reveal_strlit(r#",
  moduleFileExtensions: "#);
    reveal_strlit(r#",
  transform: {
    '^.+\\\\.ts$': 'ts-jest',
  },
};"#);
}

/// The test runner's configuration file can be read back. Where the
/// preset and the test environment hold no single quote and the lists are
/// written on one line, two files that agree were written from the same
/// preset and test environment, and around the same two lists, in the
/// same order.
pub proof fn lemma_jest_config_reads_back(
    first: JestConfigView,
    first_test_match: Seq<char>,
    first_extensions: Seq<char>,
    second: JestConfigView,
    second_test_match: Seq<char>,
    second_extensions: Seq<char>,
)
    requires
        jest_config_text(first, first_test_match, first_extensions) == jest_config_text(
            second,
            second_test_match,
            second_extensions,
        ),
        without(first.preset, '\''),
        without(second.preset, '\''),
        without(first.test_environment, '\''),
        without(second.test_environment, '\''),
        without(first_test_match, '\n'),
        without(second_test_match, '\n'),
        without(first_extensions, '\n'),
        without(second_extensions, '\n'),
    ensures
        first.preset == second.preset,
        first.test_environment == second.test_environment,
        first_test_match == second_test_match,
        first_extensions == second_extensions,
{
    lemma_jest_marks();
    assert(jest_config_text(first, first_test_match, first_extensions) =~= JEST_UP_TO_PRESET@
        + jest_from_preset(first, first_test_match, first_extensions));
    assert(jest_config_text(second, second_test_match, second_extensions) =~= JEST_UP_TO_PRESET@
        + jest_from_preset(second, second_test_match, second_extensions));
    lemma_cancel_front(
        JEST_UP_TO_PRESET@,
        jest_from_preset(first, first_test_match, first_extensions),
        jest_from_preset(second, second_test_match, second_extensions),
    );
    lemma_split_at_mark(
        first.preset,
        JEST_UP_TO_ENVIRONMENT@ + jest_from_environment(first, first_test_match, first_extensions),
        second.preset,
        JEST_UP_TO_ENVIRONMENT@ + jest_from_environment(
            second,
            second_test_match,
            second_extensions,
        ),
        '\'',
        0,
    );
    lemma_cancel_front(
        JEST_UP_TO_ENVIRONMENT@,
        jest_from_environment(first, first_test_match, first_extensions),
        jest_from_environment(second, second_test_match, second_extensions),
    );
    lemma_split_at_mark(
        first.test_environment,
        JEST_UP_TO_TEST_MATCH@ + jest_from_test_match(first_test_match, first_extensions),
        second.test_environment,
        JEST_UP_TO_TEST_MATCH@ + jest_from_test_match(second_test_match, second_extensions),
        '\'',
        0,
    );
    lemma_cancel_front(
        JEST_UP_TO_TEST_MATCH@,
        jest_from_test_match(first_test_match, first_extensions),
        jest_from_test_match(second_test_match, second_extensions),
    );
    lemma_split_at_mark(
        first_test_match,
        JEST_UP_TO_EXTENSIONS@ + jest_from_extensions(first_extensions),
        second_test_match,
        JEST_UP_TO_EXTENSIONS@ + jest_from_extensions(second_extensions),
        '\n',
        1,
    );
    lemma_cancel_front(
        JEST_UP_TO_EXTENSIONS@,
        jest_from_extensions(first_extensions),
        jest_from_extensions(second_extensions),
    );
    lemma_split_at_mark(first_extensions, JEST_END@, second_extensions, JEST_END@, '\n', 1);
}

/// The test runner's configuration file gives its lists back. Of two
/// settings whose lists were each written as JSON that reads back to them,
/// whose preset and test environment hold no single quote, and whose files
/// agree, the test patterns agree and the file extensions agree, each with
/// its order, and so do the preset and the test environment.
pub proof fn lemma_jest_config_gives_lists_back(first: JestConfigView, second: JestConfigView)
    requires
        lists_read_back(first),
        lists_read_back(second),
        without(first.preset, '\''),
        without(second.preset, '\''),
        without(first.test_environment, '\''),
        without(second.test_environment, '\''),
        jest_config_of(first) == jest_config_of(second),
    ensures
        first.preset == second.preset,
        first.test_environment == second.test_environment,
        first.test_match == second.test_match,
        first.module_file_extensions == second.module_file_extensions,
{
    lemma_jest_config_reads_back(
        first,
        json_list_text(first.test_match)->Ok_0,
        json_list_text(first.module_file_extensions)->Ok_0,
        second,
        json_list_text(second.test_match)->Ok_0,
        json_list_text(second.module_file_extensions)->Ok_0,
    );
    lemma_list_model_tells_lists_apart(first.test_match, second.test_match);
    lemma_list_model_tells_lists_apart(first.module_file_extensions, second.module_file_extensions);
}

} // verus!
