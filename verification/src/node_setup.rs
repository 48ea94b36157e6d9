//! The script side of a run: the commands that create the package and
//! install its dependencies, and the sections that the package's manifest
//! gets for its tests.

use crate::action::{
    command_failed, command_failure, io_failed, io_failure, Action, ActionView, Invocation,
    InvocationView, Outcome, OutcomeView, Step, StepView,
};
use crate::config::{names_of, texts_view, Dependencies, ProjectConfig};
use crate::error::{rendered_view, ProjectError, ProjectErrorView};
use crate::json::{
    config_error, empty_object, is_null, is_object, json_model, parse_document, parsed_json,
    pretty_json, set_member, takes_members, text_value, with_member, write_document, JsonModel,
};
use vstd::prelude::*;

verus! {

/// The command that creates a package without asking questions.
pub open spec fn npm_init_command() -> InvocationView {
    InvocationView { program: "npm"@, args: seq!["init"@, "-y"@], in_project_directory: true }
}

/// The command that creates a package without asking questions.
pub fn npm_init() -> (command: Invocation)
    ensures
        command@ == npm_init_command(),
{
    let mut args: Vec<String> = Vec::new();
    args.push("init".to_owned());
    args.push("-y".to_owned());
    assert(texts_view(args@) =~= seq!["init"@, "-y"@]);
    Invocation { program: "npm".to_owned(), args, in_project_directory: true }
}

/// The command that installs packages by name: the words before the names,
/// then the names in order. Versions are left to the installer.
pub open spec fn npm_install_command(
    leading: Seq<Seq<char>>,
    dependencies: Seq<(Seq<char>, Seq<char>)>,
) -> InvocationView {
    InvocationView {
        program: "npm"@,
        args: leading + names_of(dependencies),
        in_project_directory: true,
    }
}

/// The command that installs a set of packages by name, after words that
/// say how; none where the set is empty.
fn install_command(leading: Vec<String>, dependencies: &Dependencies) -> (command: Option<
    Invocation,
>)
    ensures
        match command {
            Some(invocation) => dependencies@.len() > 0 && invocation@ == npm_install_command(
                texts_view(leading@),
                dependencies@,
            ),
            None => dependencies@.len() == 0,
        },
{
    if dependencies.is_empty() {
        return None;
    }
    let entries = dependencies.entries();
    let ghost first = texts_view(leading@);
    let ghost listed = dependencies@;
    let mut args = leading;
    let mut i: usize = 0;
    while i < entries.len()
        invariant
            i <= entries.len(),
            entries@.len() == listed.len(),
            forall|k: int| 0 <= k < entries@.len() ==> (#[trigger] entries@[k]).0@ == listed[k].0,
            texts_view(args@) =~= first + names_of(listed).take(i as int),
        decreases entries.len() - i,
    {
        let ghost before = args@;
        let name = entries[i].0.clone();
        args.push(name);
        proof {
            assert(args@.len() == before.len() + 1);
            assert(forall|k: int| 0 <= k < before.len() ==> args@[k] == before[k]);
            assert(texts_view(args@) =~= texts_view(before).push(listed[i as int].0));
            assert(names_of(listed).take(i + 1) =~= names_of(listed).take(i as int).push(
                listed[i as int].0,
            ));
        }
        i += 1;
    }
    assert(names_of(listed).take(i as int) =~= names_of(listed));
    Some(Invocation { program: "npm".to_owned(), args, in_project_directory: true })
}

/// The words before the names when packages are installed for development.
pub open spec fn development_install() -> Seq<Seq<char>> {
    seq!["install"@, "--save-dev"@]
}

/// The words before the names when packages are installed for use.
pub open spec fn plain_install() -> Seq<Seq<char>> {
    seq!["install"@]
}

/// The command that installs the development dependencies, all at once;
/// none where there are no such dependencies, so that nothing is run.
pub fn install_dev_dependencies(config: &ProjectConfig) -> (command: Option<Invocation>)
    ensures
        match command {
            Some(invocation) => config@.npm_dev_dependencies.len() > 0 && invocation@
                == npm_install_command(development_install(), config@.npm_dev_dependencies),
            None => config@.npm_dev_dependencies.len() == 0,
        },
{
    let mut leading: Vec<String> = Vec::new();
    leading.push("install".to_owned());
    leading.push("--save-dev".to_owned());
    assert(texts_view(leading@) =~= development_install());
    install_command(leading, &config.npm_dev_dependencies)
}

/// The command that installs the dependencies, all at once; none where
/// there are no dependencies, so that nothing is run.
pub fn install_dependencies(config: &ProjectConfig) -> (command: Option<Invocation>)
    ensures
        match command {
            Some(invocation) => config@.npm_dependencies.len() > 0 && invocation@
                == npm_install_command(plain_install(), config@.npm_dependencies),
            None => config@.npm_dependencies.len() == 0,
        },
{
    let mut leading: Vec<String> = Vec::new();
    leading.push("install".to_owned());
    assert(texts_view(leading@) =~= plain_install());
    install_command(leading, &config.npm_dependencies)
}

/// The section that says where the tests are.
pub open spec fn directories_section() -> JsonModel {
    with_member(JsonModel::Object(Map::empty()), "test"@, JsonModel::Text("tests"@))
}

/// The section of the commands that run the tests: once, on every change,
/// and with coverage.
pub open spec fn scripts_section() -> JsonModel {
    with_member(
        with_member(
            with_member(JsonModel::Object(Map::empty()), "test"@, JsonModel::Text("jest"@)),
            "test:watch"@,
            JsonModel::Text("jest --watch"@),
        ),
        "test:coverage"@,
        JsonModel::Text("jest --coverage"@),
    )
}

/// A package manifest with its two sections for tests set, whatever it held
/// under their names before.
pub open spec fn with_test_sections(manifest: JsonModel) -> JsonModel {
    with_member(
        with_member(manifest, "directories"@, directories_section()),
        "scripts"@,
        scripts_section(),
    )
}

/// What is said of a manifest that is JSON but can hold no sections.
pub open spec fn not_an_object() -> ProjectErrorView {
    ProjectErrorView::ConfigError("package.json does not hold a JSON object"@)
}

/// Sets the two sections for tests in a package manifest that was read.
/// A manifest that is neither an object nor null can hold no sections: that
/// is a configuration error.
pub fn add_test_sections(manifest: serde_json::Value) -> (patched: Result<
    serde_json::Value,
    ProjectError,
>)
    ensures
        match patched {
            Ok(document) => takes_members(json_model(manifest)) && json_model(document)
                == with_test_sections(json_model(manifest)),
            Err(failure) => !takes_members(json_model(manifest)) && failure@ == not_an_object(),
        },
{
    if !(is_object(&manifest) || is_null(&manifest)) {
        return Err(
            ProjectError::ConfigError("package.json does not hold a JSON object".to_owned()),
        );
    }
    let mut directories = empty_object();
    set_member(&mut directories, "test", text_value("tests"));

    let mut scripts = empty_object();
    set_member(&mut scripts, "test", text_value("jest"));
    set_member(&mut scripts, "test:watch", text_value("jest --watch"));
    set_member(&mut scripts, "test:coverage", text_value("jest --coverage"));

    let mut document = manifest;
    set_member(&mut document, "directories", directories);
    set_member(&mut document, "scripts", scripts);
    Ok(document)
}

/// The text of a package manifest after its two sections for tests were
/// set: the manifest is read as JSON, changed, and written with
/// indentation. Where it is no JSON, holds no object or cannot be written,
/// the result is a configuration error.
pub open spec fn updated_package_json(content: Seq<char>) -> Result<Seq<char>, ProjectErrorView> {
    match parsed_json(content) {
        Err(description) => Err(ProjectErrorView::ConfigError(description)),
        Ok(manifest) => if !takes_members(manifest) {
            Err(not_an_object())
        } else {
            match pretty_json(with_test_sections(manifest)) {
                Ok(text) => Ok(text),
                Err(description) => Err(ProjectErrorView::ConfigError(description)),
            }
        },
    }
}

/// A text that is read as a JSON object, or as null.
pub open spec fn holds_a_manifest(content: Seq<char>) -> bool {
    parsed_json(content) matches Ok(manifest) && takes_members(manifest)
}

/// Gives the text of a package manifest its two sections for tests. It
/// succeeds on every text that is read as a JSON object or as null, and on
/// no other.
pub fn update_package_json(content: &str) -> (updated: Result<String, ProjectError>)
    ensures
        rendered_view(updated) == updated_package_json(content@),
        updated is Ok <==> holds_a_manifest(content@),
{
    let manifest = match parse_document(content) {
        Ok(manifest) => manifest,
        Err(error) => {
            return Err(config_error(error));
        },
    };
    let document = match add_test_sections(manifest) {
        Ok(document) => document,
        Err(failure) => {
            return Err(failure);
        },
    };
    match write_document(&document) {
        Ok(text) => Ok(text),
        Err(error) => Err(config_error(error)),
    }
}

/// How far the script side of a run has come.
#[derive(Debug, Clone, Copy, PartialEq, Eq, Structural)]
pub enum NodeSetup {
    /// Nothing was asked yet.
    NotStarted,
    /// The command that creates the package runs.
    Initializing,
    /// The development dependencies are being installed.
    InstallingDevDependencies,
    /// The dependencies are being installed.
    InstallingDependencies,
    /// The package's manifest is being read.
    ReadingManifest,
    /// The updated manifest is being written.
    WritingManifest,
    /// The package stands, with its dependencies and its manifest updated.
    Ready,
    /// The stage was given up.
    Failed,
}

/// What follows the installation of the development dependencies: the
/// dependencies are installed, or, where there are none, the manifest is
/// read.
pub open spec fn after_dev_install(
    dependencies: Seq<(Seq<char>, Seq<char>)>,
) -> (NodeSetup, StepView) {
    if dependencies.len() > 0 {
        (
            NodeSetup::InstallingDependencies,
            StepView::Perform(
                ActionView::Run { command: npm_install_command(plain_install(), dependencies) },
            ),
        )
    } else {
        (
            NodeSetup::ReadingManifest,
            StepView::Perform(ActionView::ReadFile { path: "package.json"@ }),
        )
    }
}

/// What follows the creation of the package: the development dependencies
/// are installed, or, where there are none, what follows their installation
/// comes at once.
pub open spec fn after_init(
    dev_dependencies: Seq<(Seq<char>, Seq<char>)>,
    dependencies: Seq<(Seq<char>, Seq<char>)>,
) -> (NodeSetup, StepView) {
    if dev_dependencies.len() > 0 {
        (
            NodeSetup::InstallingDevDependencies,
            StepView::Perform(
                ActionView::Run {
                    command: npm_install_command(development_install(), dev_dependencies),
                },
            ),
        )
    } else {
        after_dev_install(dependencies)
    }
}

/// What the script side does when it is told an outcome: the stage it
/// moves to and what it says. It creates the package, installs the two
/// sets of dependencies, each with one command and only if there are any,
/// reads the manifest, writes the updated manifest and is ready; a failure
/// on the way ends it.
pub open spec fn node_step(
    stage: NodeSetup,
    outcome: OutcomeView,
    dev_dependencies: Seq<(Seq<char>, Seq<char>)>,
    dependencies: Seq<(Seq<char>, Seq<char>)>,
) -> (NodeSetup, StepView) {
    match stage {
        NodeSetup::NotStarted => (
            NodeSetup::Initializing,
            StepView::Perform(ActionView::Run { command: npm_init_command() }),
        ),
        NodeSetup::Initializing => match outcome {
            OutcomeView::Failed(reason) => (
                NodeSetup::Failed,
                StepView::Failed(command_failure("npm init"@, reason)),
            ),
            _ => after_init(dev_dependencies, dependencies),
        },
        NodeSetup::InstallingDevDependencies => match outcome {
            OutcomeView::Failed(reason) => (
                NodeSetup::Failed,
                StepView::Failed(command_failure("npm install dev dependencies"@, reason)),
            ),
            _ => after_dev_install(dependencies),
        },
        NodeSetup::InstallingDependencies => match outcome {
            OutcomeView::Failed(reason) => (
                NodeSetup::Failed,
                StepView::Failed(command_failure("npm install dependencies"@, reason)),
            ),
            _ => (
                NodeSetup::ReadingManifest,
                StepView::Perform(ActionView::ReadFile { path: "package.json"@ }),
            ),
        },
        NodeSetup::ReadingManifest => match outcome {
            OutcomeView::Failed(reason) => (NodeSetup::Failed, StepView::Failed(io_failure(reason))),
            _ => match updated_package_json(outcome.content()) {
                Ok(content) => (
                    NodeSetup::WritingManifest,
                    StepView::Perform(ActionView::WriteFile { path: "package.json"@, content }),
                ),
                Err(failure) => (NodeSetup::Failed, StepView::Failed(failure)),
            },
        },
        NodeSetup::WritingManifest => match outcome {
            OutcomeView::Failed(reason) => (NodeSetup::Failed, StepView::Failed(io_failure(reason))),
            _ => (NodeSetup::Ready, StepView::Finished),
        },
        NodeSetup::Ready => (NodeSetup::Ready, StepView::Stopped),
        NodeSetup::Failed => (NodeSetup::Failed, StepView::Stopped),
    }
}

/// Asks for the package's manifest.
fn read_manifest() -> (next: (NodeSetup, Step))
    ensures
        next.0 == NodeSetup::ReadingManifest,
        next.1@ == StepView::Perform(ActionView::ReadFile { path: "package.json"@ }),
{
    (NodeSetup::ReadingManifest, Step::Perform(Action::ReadFile { path: "package.json".to_owned() }))
}

/// Goes on after the development dependencies.
fn proceed_after_dev_install(config: &ProjectConfig) -> (next: (NodeSetup, Step))
    ensures
        (next.0, next.1@) == after_dev_install(config@.npm_dependencies),
{
    match install_dependencies(config) {
        Some(command) => (NodeSetup::InstallingDependencies, Step::Perform(Action::Run { command })),
        None => read_manifest(),
    }
}

/// Goes on after the package was created.
fn proceed_after_init(config: &ProjectConfig) -> (next: (NodeSetup, Step))
    ensures
        (next.0, next.1@) == after_init(config@.npm_dev_dependencies, config@.npm_dependencies),
{
    match install_dev_dependencies(config) {
        Some(command) => (
            NodeSetup::InstallingDevDependencies,
            Step::Perform(Action::Run { command }),
        ),
        None => proceed_after_dev_install(config),
    }
}

/// Goes on after the manifest was read.
fn proceed_with_manifest(content: &str) -> (next: (NodeSetup, Step))
    ensures
        (next.0, next.1@) == match updated_package_json(content@) {
            Ok(updated) => (
                NodeSetup::WritingManifest,
                StepView::Perform(
                    ActionView::WriteFile { path: "package.json"@, content: updated },
                ),
            ),
            Err(failure) => (NodeSetup::Failed, StepView::Failed(failure)),
        },
        next.1@ is Failed <==> !holds_a_manifest(content@),
{
    match update_package_json(content) {
        Ok(updated) => (
            NodeSetup::WritingManifest,
            Step::Perform(Action::WriteFile { path: "package.json".to_owned(), content: updated }),
        ),
        Err(failure) => (NodeSetup::Failed, Step::Failed(failure)),
    }
}

/// Takes the script side of a run one step on: given the stage it is in
/// and the outcome of what it asked last, it says what comes next. The
/// outcome told to a stage that has not started is not looked at.
pub fn initialize_node_project(stage: NodeSetup, outcome: Outcome, config: &ProjectConfig) -> (next: (
    NodeSetup,
    Step,
))
    ensures
        (next.0, next.1@) == node_step(
            stage,
            outcome@,
            config@.npm_dev_dependencies,
            config@.npm_dependencies,
        ),
        next.1@ is Failed ==> outcome@ is Failed || (stage == NodeSetup::ReadingManifest
            && !holds_a_manifest(outcome@.content())),
{
    match stage {
        NodeSetup::NotStarted => (
            NodeSetup::Initializing,
            Step::Perform(Action::Run { command: npm_init() }),
        ),
        NodeSetup::Initializing => match outcome {
            Outcome::Failed(reason) => (
                NodeSetup::Failed,
                Step::Failed(command_failed("npm init", reason)),
            ),
            _ => proceed_after_init(config),
        },
        NodeSetup::InstallingDevDependencies => match outcome {
            Outcome::Failed(reason) => (
                NodeSetup::Failed,
                Step::Failed(command_failed("npm install dev dependencies", reason)),
            ),
            _ => proceed_after_dev_install(config),
        },
        NodeSetup::InstallingDependencies => match outcome {
            Outcome::Failed(reason) => (
                NodeSetup::Failed,
                Step::Failed(command_failed("npm install dependencies", reason)),
            ),
            _ => read_manifest(),
        },
        NodeSetup::ReadingManifest => match outcome {
            Outcome::Failed(reason) => (NodeSetup::Failed, Step::Failed(io_failed(reason))),
            Outcome::Content(content) => proceed_with_manifest(content.as_str()),
            Outcome::Done => {
                proof {
                    reveal_strlit("");
                    assert(""@ =~= Seq::<char>::empty());
                }
                proceed_with_manifest("")
            },
        },
        NodeSetup::WritingManifest => match outcome {
            Outcome::Failed(reason) => (NodeSetup::Failed, Step::Failed(io_failed(reason))),
            _ => (NodeSetup::Ready, Step::Finished),
        },
        NodeSetup::Ready => (NodeSetup::Ready, Step::Stopped),
        NodeSetup::Failed => (NodeSetup::Failed, Step::Stopped),
    }
}

} // verus!
