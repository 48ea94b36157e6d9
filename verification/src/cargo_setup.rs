//! The compiled library's side of a run: the command that creates the
//! library project, and the additions to the manifest that the command
//! leaves behind.

use crate::action::{
    command_failed, command_failure, io_failed, io_failure, Action, ActionView, Invocation,
    InvocationView, Outcome, OutcomeView, Step, StepView,
};
use crate::config::{texts_view, ProjectConfig};
use crate::text::{
    contains, contains_text, find_text, first_occurrence, inserted,
    lemma_first_occurrence_is_first, lemma_kept_by_appending, lemma_kept_by_inserting,
    lemma_kept_by_prepending, occurs_at,
};
use vstd::prelude::*;

verus! {

/// The word by which a manifest is known to declare its feature flags.
pub open spec fn feature_mark() -> Seq<char> {
    "cargo-features"@
}

/// The feature-flag declaration that opens a patched manifest.
pub open spec fn feature_declaration() -> Seq<char> {
    "cargo-features = [\"edition2024\"]\n\n"@
}

/// The header of the section that says what kind of library is built.
pub open spec fn lib_mark() -> Seq<char> {
    "[lib]"@
}

/// The section that says what kind of library is built.
pub open spec fn lib_section() -> Seq<char> {
    "\n[lib]\ncrate-type = [\"cdylib\", \"lib\"]\n"@
}

/// The header of the dependency section.
pub open spec fn dependency_mark() -> Seq<char> {
    "[dependencies]"@
}

/// The dependency section's header at the start of a line.
pub open spec fn dependency_section_start() -> Seq<char> {
    "\n[dependencies]"@
}

/// The dependency section's header as it is appended to a manifest.
pub open spec fn dependency_header() -> Seq<char> {
    "\n[dependencies]\n"@
}

/// A manifest that declares its feature flags: the declaration is put in
/// front unless the manifest names feature flags already.
pub open spec fn with_features(manifest: Seq<char>) -> Seq<char> {
    if contains_text(manifest, feature_mark()) {
        manifest
    } else {
        feature_declaration() + manifest
    }
}

/// A manifest that has a library section: unless it has one already, the
/// section goes right before the dependency section, or last where there is
/// no dependency section.
pub open spec fn with_lib_section(manifest: Seq<char>) -> Seq<char> {
    if contains_text(manifest, lib_mark()) {
        manifest
    } else {
        match first_occurrence(manifest, dependency_section_start()) {
            Some(at) => inserted(manifest, at, lib_section()),
            None => manifest + lib_section(),
        }
    }
}

/// A manifest that has a dependency section: its header is appended unless
/// it is there already.
pub open spec fn with_dependency_header(manifest: Seq<char>) -> Seq<char> {
    if contains_text(manifest, dependency_mark()) {
        manifest
    } else {
        manifest + dependency_header()
    }
}

/// The text by which a manifest is known to declare a dependency: its name,
/// a space and an equals sign.
pub open spec fn dependency_key(name: Seq<char>) -> Seq<char> {
    name + " ="@
}

/// The line that declares a dependency.
pub open spec fn dependency_line(name: Seq<char>, version: Seq<char>) -> Seq<char> {
    name + " = \""@ + version + "\"\n"@
}

/// A manifest that declares a dependency: its line is appended unless the
/// manifest holds the dependency's key already.
pub open spec fn with_dependency(manifest: Seq<char>, name: Seq<char>, version: Seq<char>) -> Seq<
    char,
> {
    if contains_text(manifest, dependency_key(name)) {
        manifest
    } else {
        manifest + dependency_line(name, version)
    }
}

/// A manifest that declares each of a list of dependencies, taken in order.
pub open spec fn with_dependencies(
    manifest: Seq<char>,
    dependencies: Seq<(Seq<char>, Seq<char>)>,
) -> Seq<char>
    decreases dependencies.len(),
{
    if dependencies.len() == 0 {
        manifest
    } else {
        let earlier = with_dependencies(manifest, dependencies.drop_last());
        with_dependency(earlier, dependencies.last().0, dependencies.last().1)
    }
}

/// The manifest of a library project made ready for its dependencies.
pub open spec fn patched_manifest(
    manifest: Seq<char>,
    dependencies: Seq<(Seq<char>, Seq<char>)>,
) -> Seq<char> {
    with_dependencies(
        with_dependency_header(with_lib_section(with_features(manifest))),
        dependencies,
    )
}

/// Puts `addition` into `text` before the character at position `at`.
fn insert_text(text: &str, at: usize, addition: &str) -> (joined: String)
    requires
        at <= text@.len(),
    ensures
        joined@ == inserted(text@, at as int, addition@),
{
    let length = text.unicode_len();
    let head = text.substring_char(0, at);
    let tail = text.substring_char(at, length);
    head.to_owned().concat(addition).concat(tail)
}

/// Makes a library project's manifest ready: it gets a feature-flag
/// declaration, a library section, a dependency section and a line for each
/// compiled dependency of the configuration, each only where the manifest
/// does not hold it yet.
pub fn add_cargo_dependencies(manifest: &str, config: &ProjectConfig) -> (patched: String)
    ensures
        patched@ == patched_manifest(manifest@, config@.cargo_dependencies),
{
    let mut text: String = if contains(manifest, "cargo-features") {
        manifest.to_owned()
    } else {
        "cargo-features = [\"edition2024\"]\n\n".to_owned().concat(manifest)
    };
    if !contains(text.as_str(), "[lib]") {
        match find_text(text.as_str(), "\n[dependencies]") {
            Some(at) => {
                proof {
                    lemma_first_occurrence_is_first(text@, dependency_section_start(), 0);
                }
                text = insert_text(text.as_str(), at, "\n[lib]\ncrate-type = [\"cdylib\", \"lib\"]\n");
            },
            None => {
                text.append("\n[lib]\ncrate-type = [\"cdylib\", \"lib\"]\n");
            },
        }
    }
    if !contains(text.as_str(), "[dependencies]") {
        text.append("\n[dependencies]\n");
    }
    let entries = config.cargo_dependencies.entries();
    let ghost listed = config@.cargo_dependencies;
    let mut i: usize = 0;
    while i < entries.len()
        invariant
            i <= entries.len(),
            entries@.len() == listed.len(),
            forall|k: int| 0 <= k < entries@.len() ==> (#[trigger] entries@[k]).0@ == listed[k].0,
            forall|k: int| 0 <= k < entries@.len() ==> (#[trigger] entries@[k]).1@ == listed[k].1,
            text@ == with_dependencies(
                with_dependency_header(with_lib_section(with_features(manifest@))),
                listed.take(i as int),
            ),
        decreases entries.len() - i,
    {
        let name = entries[i].0.as_str();
        let version = entries[i].1.as_str();
        let key = name.to_owned().concat(" =");
        proof {
            assert(listed.take(i + 1).drop_last() =~= listed.take(i as int));
        }
        if !contains(text.as_str(), key.as_str()) {
            text.append(name);
            text.append(" = \"");
            text.append(version);
            text.append("\"\n");
        }
        i += 1;
    }
    assert(listed.take(i as int) =~= listed);
    text
}

/// How far the compiled library's side of a run has come.
#[derive(Debug, Clone, Copy, PartialEq, Eq, Structural)]
pub enum CargoSetup {
    /// Nothing was asked yet.
    NotStarted,
    /// The command that creates the library project runs.
    Initializing,
    /// The manifest that the command left is being read.
    ReadingManifest,
    /// The patched manifest is being written.
    WritingManifest,
    /// The library project stands, with its manifest patched.
    Ready,
    /// The stage was given up.
    Failed,
}

/// The command that creates a library project without version control at
/// a path.
pub open spec fn cargo_init_command(project_path: Seq<char>) -> InvocationView {
    InvocationView {
        program: "cargo"@,
        args: seq!["init"@, "--lib"@, "--vcs"@, "none"@, project_path],
        in_project_directory: false,
    }
}

/// The command that creates a library project without version control at
/// a path.
pub fn cargo_init(project_path: &str) -> (command: Invocation)
    ensures
        command@ == cargo_init_command(project_path@),
{
    let mut args: Vec<String> = Vec::new();
    args.push("init".to_owned());
    args.push("--lib".to_owned());
    args.push("--vcs".to_owned());
    args.push("none".to_owned());
    args.push(project_path.to_owned());
    assert(texts_view(args@) =~= seq!["init"@, "--lib"@, "--vcs"@, "none"@, project_path@]);
    Invocation { program: "cargo".to_owned(), args, in_project_directory: false }
}

/// What the compiled library's side does when it is told an outcome: the
/// stage it moves to and what it says. It runs the command, reads the
/// manifest, writes the patched manifest and is ready; a failure on the
/// way ends it.
pub open spec fn cargo_step(
    stage: CargoSetup,
    outcome: OutcomeView,
    project_path: Seq<char>,
    dependencies: Seq<(Seq<char>, Seq<char>)>,
) -> (CargoSetup, StepView) {
    match stage {
        CargoSetup::NotStarted => (
            CargoSetup::Initializing,
            StepView::Perform(ActionView::Run { command: cargo_init_command(project_path) }),
        ),
        CargoSetup::Initializing => match outcome {
            OutcomeView::Failed(reason) => (
                CargoSetup::Failed,
                StepView::Failed(command_failure("cargo init"@, reason)),
            ),
            _ => (
                CargoSetup::ReadingManifest,
                StepView::Perform(ActionView::ReadFile { path: "Cargo.toml"@ }),
            ),
        },
        CargoSetup::ReadingManifest => match outcome {
            OutcomeView::Failed(reason) => (CargoSetup::Failed, StepView::Failed(io_failure(reason))),
            _ => (
                CargoSetup::WritingManifest,
                StepView::Perform(
                    ActionView::WriteFile {
                        path: "Cargo.toml"@,
                        content: patched_manifest(outcome.content(), dependencies),
                    },
                ),
            ),
        },
        CargoSetup::WritingManifest => match outcome {
            OutcomeView::Failed(reason) => (CargoSetup::Failed, StepView::Failed(io_failure(reason))),
            _ => (CargoSetup::Ready, StepView::Finished),
        },
        CargoSetup::Ready => (CargoSetup::Ready, StepView::Stopped),
        CargoSetup::Failed => (CargoSetup::Failed, StepView::Stopped),
    }
}

/// Takes the compiled library's side of a run one step on: given the stage
/// it is in and the outcome of what it asked last, it says what comes next.
/// The outcome told to a stage that has not started is not looked at.
pub fn initialize_cargo_project(
    stage: CargoSetup,
    outcome: Outcome,
    project_path: &str,
    config: &ProjectConfig,
) -> (next: (CargoSetup, Step))
    ensures
        (next.0, next.1@) == cargo_step(stage, outcome@, project_path@, config@.cargo_dependencies),
{
    match stage {
        CargoSetup::NotStarted => (
            CargoSetup::Initializing,
            Step::Perform(Action::Run { command: cargo_init(project_path) }),
        ),
        CargoSetup::Initializing => match outcome {
            Outcome::Failed(reason) => (
                CargoSetup::Failed,
                Step::Failed(command_failed("cargo init", reason)),
            ),
            _ => (
                CargoSetup::ReadingManifest,
                Step::Perform(Action::ReadFile { path: "Cargo.toml".to_owned() }),
            ),
        },
        CargoSetup::ReadingManifest => match outcome {
            Outcome::Failed(reason) => (CargoSetup::Failed, Step::Failed(io_failed(reason))),
            Outcome::Content(manifest) => (
                CargoSetup::WritingManifest,
                Step::Perform(
                    Action::WriteFile {
                        path: "Cargo.toml".to_owned(),
                        content: add_cargo_dependencies(manifest.as_str(), config),
                    },
                ),
            ),
            Outcome::Done => {
                proof {
                    reveal_strlit("");
                    assert(""@ =~= Seq::<char>::empty());
                }
                (
                    CargoSetup::WritingManifest,
                    Step::Perform(
                        Action::WriteFile {
                            path: "Cargo.toml".to_owned(),
                            content: add_cargo_dependencies("", config),
                        },
                    ),
                )
            },
        },
        CargoSetup::WritingManifest => match outcome {
            Outcome::Failed(reason) => (CargoSetup::Failed, Step::Failed(io_failed(reason))),
            _ => (CargoSetup::Ready, Step::Finished),
        },
        CargoSetup::Ready => (CargoSetup::Ready, Step::Stopped),
        CargoSetup::Failed => (CargoSetup::Failed, Step::Stopped),
    }
}

/// A manifest that was given its feature-flag declaration names feature flags.
proof fn lemma_features_are_declared(manifest: Seq<char>)
    ensures
        contains_text(with_features(manifest), feature_mark()),
{
    if !contains_text(manifest, feature_mark()) {
        reveal_strlit("cargo-features");
        reveal_strlit("cargo-features = [\"edition2024\"]\n\n");
        assert(feature_declaration().subrange(0, 14) =~= feature_mark());
        assert(occurs_at(feature_declaration(), feature_mark(), 0));
        lemma_kept_by_appending(feature_declaration(), manifest, feature_mark(), 0);
    }
}

/// Giving a manifest its library section leaves it naming feature flags, and
/// the manifest then has a library section.
proof fn lemma_lib_section_is_there(manifest: Seq<char>)
    requires
        contains_text(manifest, feature_mark()),
    ensures
        contains_text(with_lib_section(manifest), feature_mark()),
        contains_text(with_lib_section(manifest), lib_mark()),
{
    if !contains_text(manifest, lib_mark()) {
        reveal_strlit("[lib]");
        reveal_strlit("\n[lib]\ncrate-type = [\"cdylib\", \"lib\"]\n");
        assert(lib_section().subrange(1, 6) =~= lib_mark());
        assert(occurs_at(lib_section(), lib_mark(), 1));
        let held = choose|held: int| occurs_at(manifest, feature_mark(), held);
        match first_occurrence(manifest, dependency_section_start()) {
            Some(at) => {
                lemma_first_occurrence_is_first(manifest, dependency_section_start(), 0);
                reveal_strlit("cargo-features");
                reveal_strlit("\n[dependencies]");
                let start = manifest.subrange(at, at + dependency_section_start().len());
                assert(start[0] == '\n');
                assert(manifest[at] == '\n');
                if held < at < held + feature_mark().len() {
                    let word = manifest.subrange(held, held + feature_mark().len());
                    assert(word[at - held] == manifest[at]);
                    assert(feature_mark()[at - held] != '\n');
                }
                lemma_kept_by_inserting(manifest, at, lib_section(), feature_mark(), held);
                let front = manifest.subrange(0, at);
                let back = manifest.subrange(at, manifest.len() as int);
                lemma_kept_by_prepending(front, lib_section(), lib_mark(), 1);
                lemma_kept_by_appending(
                    front + lib_section(),
                    back,
                    lib_mark(),
                    front.len() as int + 1,
                );
            },
            None => {
                lemma_kept_by_appending(manifest, lib_section(), feature_mark(), held);
                lemma_kept_by_prepending(manifest, lib_section(), lib_mark(), 1);
            },
        }
    }
}

/// Giving a manifest its dependency header takes nothing from it, and the
/// manifest then has a dependency section.
proof fn lemma_dependency_header_is_there(manifest: Seq<char>, pattern: Seq<char>)
    ensures
        contains_text(manifest, pattern) ==> contains_text(
            with_dependency_header(manifest),
            pattern,
        ),
        contains_text(with_dependency_header(manifest), dependency_mark()),
{
    if !contains_text(manifest, dependency_mark()) {
        reveal_strlit("[dependencies]");
        reveal_strlit("\n[dependencies]\n");
        assert(dependency_header().subrange(1, 15) =~= dependency_mark());
        assert(occurs_at(dependency_header(), dependency_mark(), 1));
        lemma_kept_by_prepending(manifest, dependency_header(), dependency_mark(), 1);
        if contains_text(manifest, pattern) {
            let held = choose|held: int| occurs_at(manifest, pattern, held);
            lemma_kept_by_appending(manifest, dependency_header(), pattern, held);
        }
    }
}

/// Declaring a dependency takes nothing from a manifest, and the manifest
/// then holds the dependency's key.
proof fn lemma_dependency_is_declared(
    manifest: Seq<char>,
    name: Seq<char>,
    version: Seq<char>,
    pattern: Seq<char>,
)
    ensures
        contains_text(manifest, pattern) ==> contains_text(
            with_dependency(manifest, name, version),
            pattern,
        ),
        contains_text(with_dependency(manifest, name, version), dependency_key(name)),
{
    if !contains_text(manifest, dependency_key(name)) {
        reveal_strlit(" =");
        reveal_strlit(" = \"");
        let line = dependency_line(name, version);
        let key = dependency_key(name);
        assert(line.subrange(0, key.len() as int) =~= key);
        assert(occurs_at(line, key, 0));
        lemma_kept_by_prepending(manifest, line, key, 0);
        if contains_text(manifest, pattern) {
            let held = choose|held: int| occurs_at(manifest, pattern, held);
            lemma_kept_by_appending(manifest, line, pattern, held);
        }
    }
}

/// Declaring a list of dependencies takes nothing from a manifest.
proof fn lemma_dependencies_keep(
    manifest: Seq<char>,
    dependencies: Seq<(Seq<char>, Seq<char>)>,
    pattern: Seq<char>,
)
    requires
        contains_text(manifest, pattern),
    ensures
        contains_text(with_dependencies(manifest, dependencies), pattern),
    decreases dependencies.len(),
{
    if dependencies.len() > 0 {
        let earlier = with_dependencies(manifest, dependencies.drop_last());
        lemma_dependencies_keep(manifest, dependencies.drop_last(), pattern);
        lemma_dependency_is_declared(
            earlier,
            dependencies.last().0,
            dependencies.last().1,
            pattern,
        );
    }
}

/// A manifest to which a list of dependencies was declared holds the key of
/// each of them.
proof fn lemma_dependencies_are_declared(
    manifest: Seq<char>,
    dependencies: Seq<(Seq<char>, Seq<char>)>,
    which: int,
)
    requires
        0 <= which < dependencies.len(),
    ensures
        contains_text(
            with_dependencies(manifest, dependencies),
            dependency_key(dependencies[which].0),
        ),
    decreases dependencies.len(),
{
    let earlier = with_dependencies(manifest, dependencies.drop_last());
    let key = dependency_key(dependencies[which].0);
    if which < dependencies.len() - 1 {
        lemma_dependencies_are_declared(manifest, dependencies.drop_last(), which);
    }
    lemma_dependency_is_declared(earlier, dependencies.last().0, dependencies.last().1, key);
}

/// Declaring dependencies whose keys a manifest holds already changes nothing.
proof fn lemma_declared_dependencies_change_nothing(
    manifest: Seq<char>,
    dependencies: Seq<(Seq<char>, Seq<char>)>,
    upto: int,
)
    requires
        0 <= upto <= dependencies.len(),
        forall|which: int|
            0 <= which < dependencies.len() ==> contains_text(
                manifest,
                #[trigger] dependency_key(dependencies[which].0),
            ),
    ensures
        with_dependencies(manifest, dependencies.take(upto)) == manifest,
    decreases upto,
{
    if upto > 0 {
        lemma_declared_dependencies_change_nothing(manifest, dependencies, upto - 1);
        assert(dependencies.take(upto).drop_last() =~= dependencies.take(upto - 1));
        assert(dependencies.take(upto).last() == dependencies[upto - 1]);
        assert(contains_text(manifest, dependency_key(dependencies[upto - 1].0)));
    }
}

/// Patching is idempotent: a manifest that was made ready for a list of
/// dependencies is left as it is when it is made ready for them again, so
/// that no declaration, section or dependency line comes to stand twice.
pub proof fn lemma_patch_is_idempotent(
    manifest: Seq<char>,
    dependencies: Seq<(Seq<char>, Seq<char>)>,
)
    ensures
        patched_manifest(patched_manifest(manifest, dependencies), dependencies)
            == patched_manifest(manifest, dependencies),
{
    let featured = with_features(manifest);
    let sectioned = with_lib_section(featured);
    let headed = with_dependency_header(sectioned);
    let done = with_dependencies(headed, dependencies);
    lemma_features_are_declared(manifest);
    lemma_lib_section_is_there(featured);
    lemma_dependency_header_is_there(sectioned, feature_mark());
    lemma_dependency_header_is_there(sectioned, lib_mark());
    lemma_dependencies_keep(headed, dependencies, feature_mark());
    lemma_dependencies_keep(headed, dependencies, lib_mark());
    lemma_dependencies_keep(headed, dependencies, dependency_mark());
    assert forall|which: int| 0 <= which < dependencies.len() implies contains_text(
        done,
        #[trigger] dependency_key(dependencies[which].0),
    ) by {
        lemma_dependencies_are_declared(headed, dependencies, which);
    }
    lemma_declared_dependencies_change_nothing(done, dependencies, dependencies.len() as int);
    assert(dependencies.take(dependencies.len() as int) =~= dependencies);
}

} // verus!
