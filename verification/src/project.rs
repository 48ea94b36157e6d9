//! A run from its first step to its last: the project directory is
//! created, the compiled library's side is set up, then the script side,
//! then the files are written. Each step waits for the outcome of the one
//! before; a failure ends the run where it stands, and nothing is undone.

use crate::action::{io_failed, io_failure, Action, ActionView, Outcome, OutcomeView, Step, StepView};
use crate::cargo_setup::{cargo_step, initialize_cargo_project, CargoSetup};
use crate::config::{ProjectConfig, ProjectConfigView};
use crate::error::{ProjectError, ProjectErrorView};
use crate::node_setup::{holds_a_manifest, initialize_node_project, node_step, NodeSetup};
use crate::templates::{
    gitignore_template, jest_config_of, jest_config_template, program_text,
    sample_test_template, solana_program_template, tsconfig_of, tsconfig_template, GITIGNORE,
    SAMPLE_TEST,
};
use vstd::prelude::*;

verus! {

/// How far the writing of the files has come.
#[derive(Debug, Clone, Copy, PartialEq, Eq, Structural)]
pub enum FileSetup {
    /// Nothing was asked yet.
    NotStarted,
    WritingGitignore,
    WritingProgram,
    WritingTypeCheckConfig,
    WritingTestRunnerConfig,
    CreatingTestsDirectory,
    WritingSampleTest,
    /// Every file is written.
    Materialized,
    /// The stage was given up.
    Failed,
}

/// The writing of a file.
pub open spec fn write_of(path: Seq<char>, content: Seq<char>) -> StepView {
    StepView::Perform(ActionView::WriteFile { path, content })
}

/// The writing of a file whose text may have failed to come about: the
/// file is written and the stage moves on, or the stage is given up for the
/// reason why there is no text.
pub open spec fn write_or_fail(
    stage: FileSetup,
    path: Seq<char>,
    rendered: Result<Seq<char>, ProjectErrorView>,
) -> (FileSetup, StepView) {
    match rendered {
        Ok(content) => (stage, write_of(path, content)),
        Err(failure) => (FileSetup::Failed, StepView::Failed(failure)),
    }
}

/// What follows in the writing of the files where the last action went
/// well: the ignore list, the library's entry point, the two configuration
/// files, the directory of the tests and the sample test in it, in this
/// order and each once.
pub open spec fn next_file(stage: FileSetup, config: ProjectConfigView) -> (FileSetup, StepView) {
    match stage {
        FileSetup::NotStarted => (FileSetup::WritingGitignore, write_of(".gitignore"@, GITIGNORE@)),
        FileSetup::WritingGitignore => (
            FileSetup::WritingProgram,
            write_of("src/lib.rs"@, program_text(config.program_template)),
        ),
        FileSetup::WritingProgram => write_or_fail(
            FileSetup::WritingTypeCheckConfig,
            "tsconfig.json"@,
            tsconfig_of(config.typescript_config),
        ),
        FileSetup::WritingTypeCheckConfig => write_or_fail(
            FileSetup::WritingTestRunnerConfig,
            "jest.config.js"@,
            jest_config_of(config.jest_config),
        ),
        FileSetup::WritingTestRunnerConfig => (
            FileSetup::CreatingTestsDirectory,
            StepView::Perform(ActionView::CreateDirectory { path: "tests"@ }),
        ),
        FileSetup::CreatingTestsDirectory => (
            FileSetup::WritingSampleTest,
            write_of("tests/example.test.ts"@, SAMPLE_TEST@),
        ),
        FileSetup::WritingSampleTest => (FileSetup::Materialized, StepView::Finished),
        FileSetup::Materialized => (FileSetup::Materialized, StepView::Stopped),
        FileSetup::Failed => (FileSetup::Failed, StepView::Stopped),
    }
}

/// What the writing of the files does when it is told an outcome: where
/// an action failed, the stage is given up; else the next file follows.
pub open spec fn file_step(
    stage: FileSetup,
    outcome: OutcomeView,
    config: ProjectConfigView,
) -> (FileSetup, StepView) {
    match (stage, outcome) {
        (FileSetup::NotStarted, _) => next_file(stage, config),
        (FileSetup::Materialized, _) => next_file(stage, config),
        (FileSetup::Failed, _) => next_file(stage, config),
        (_, OutcomeView::Failed(reason)) => (FileSetup::Failed, StepView::Failed(io_failure(reason))),
        _ => next_file(stage, config),
    }
}

/// How far a run has come.
#[derive(Debug, Clone, Copy, PartialEq, Eq, Structural)]
pub enum ProjectState {
    /// Nothing was asked yet.
    Uninitialized,
    /// The project directory is being created.
    CreatingDirectory,
    /// The directory is created; the compiled library's side is being set
    /// up and has come this far.
    DirectoryCreated(CargoSetup),
    /// The compiled toolchain is ready; the script side is being set up and
    /// has come this far.
    CompiledToolchainReady(NodeSetup),
    /// The script toolchain is ready; the files are being written and this
    /// is how far that has come.
    ScriptToolchainReady(FileSetup),
    /// The files are materialized, and with that the run is done.
    Done,
    /// The run was given up.
    Failed,
}

/// What a run does with the word of the stage it is in: it passes on what
/// the stage asks, is given up where the stage is, and stops where the
/// stage has nothing to ask.
pub open spec fn within_stage(state: ProjectState, said: StepView) -> (ProjectState, StepView) {
    match said {
        StepView::Failed(failure) => (ProjectState::Failed, said),
        _ => (state, said),
    }
}

/// The script side's first step.
pub open spec fn enter_node(config: ProjectConfigView) -> (ProjectState, StepView) {
    let next = node_step(
        NodeSetup::NotStarted,
        OutcomeView::Done,
        config.npm_dev_dependencies,
        config.npm_dependencies,
    );
    within_stage(ProjectState::CompiledToolchainReady(next.0), next.1)
}

/// The first step of the writing of the files.
pub open spec fn enter_files(config: ProjectConfigView) -> (ProjectState, StepView) {
    let next = file_step(FileSetup::NotStarted, OutcomeView::Done, config);
    within_stage(ProjectState::ScriptToolchainReady(next.0), next.1)
}

/// What a run does when it is told an outcome: the state it moves to and
/// what it says. The stages follow one another in a fixed order; where one
/// is finished the next begins at once, and where the last is finished the
/// run is done.
pub open spec fn project_step(
    state: ProjectState,
    outcome: OutcomeView,
    path: Seq<char>,
    config: ProjectConfigView,
) -> (ProjectState, StepView) {
    match state {
        ProjectState::Uninitialized => (
            ProjectState::CreatingDirectory,
            StepView::Perform(ActionView::CreateProjectDirectory),
        ),
        ProjectState::CreatingDirectory => match outcome {
            OutcomeView::Failed(reason) => (
                ProjectState::Failed,
                StepView::Failed(io_failure(reason)),
            ),
            _ => {
                let next = cargo_step(
                    CargoSetup::NotStarted,
                    OutcomeView::Done,
                    path,
                    config.cargo_dependencies,
                );
                within_stage(ProjectState::DirectoryCreated(next.0), next.1)
            },
        },
        ProjectState::DirectoryCreated(stage) => {
            let next = cargo_step(stage, outcome, path, config.cargo_dependencies);
            match next.1 {
                StepView::Finished => enter_node(config),
                _ => within_stage(ProjectState::DirectoryCreated(next.0), next.1),
            }
        },
        ProjectState::CompiledToolchainReady(stage) => {
            let next = node_step(
                stage,
                outcome,
                config.npm_dev_dependencies,
                config.npm_dependencies,
            );
            match next.1 {
                StepView::Finished => enter_files(config),
                _ => within_stage(ProjectState::CompiledToolchainReady(next.0), next.1),
            }
        },
        ProjectState::ScriptToolchainReady(stage) => {
            let next = file_step(stage, outcome, config);
            match next.1 {
                StepView::Finished => (ProjectState::Done, StepView::Finished),
                _ => within_stage(ProjectState::ScriptToolchainReady(next.0), next.1),
            }
        },
        ProjectState::Done => (ProjectState::Done, StepView::Stopped),
        ProjectState::Failed => (ProjectState::Failed, StepView::Stopped),
    }
}

/// How many steps a run has behind it in a state, counting a step that is
/// passed over as taken. The states of a stage in which a run never
/// waits, and the state of a run that was given up, have no such number.
pub open spec fn steps_behind(state: ProjectState) -> Option<nat> {
    match state {
        ProjectState::Uninitialized => Some(0),
        ProjectState::CreatingDirectory => Some(1),
        ProjectState::DirectoryCreated(CargoSetup::Initializing) => Some(2),
        ProjectState::DirectoryCreated(CargoSetup::ReadingManifest) => Some(3),
        ProjectState::DirectoryCreated(CargoSetup::WritingManifest) => Some(4),
        ProjectState::CompiledToolchainReady(NodeSetup::Initializing) => Some(5),
        ProjectState::CompiledToolchainReady(NodeSetup::InstallingDevDependencies) => Some(6),
        ProjectState::CompiledToolchainReady(NodeSetup::InstallingDependencies) => Some(7),
        ProjectState::CompiledToolchainReady(NodeSetup::ReadingManifest) => Some(8),
        ProjectState::CompiledToolchainReady(NodeSetup::WritingManifest) => Some(9),
        ProjectState::ScriptToolchainReady(FileSetup::WritingGitignore) => Some(10),
        ProjectState::ScriptToolchainReady(FileSetup::WritingProgram) => Some(11),
        ProjectState::ScriptToolchainReady(FileSetup::WritingTypeCheckConfig) => Some(12),
        ProjectState::ScriptToolchainReady(FileSetup::WritingTestRunnerConfig) => Some(13),
        ProjectState::ScriptToolchainReady(FileSetup::CreatingTestsDirectory) => Some(14),
        ProjectState::ScriptToolchainReady(FileSetup::WritingSampleTest) => Some(15),
        ProjectState::Done => Some(16),
        _ => None,
    }
}

/// A run goes forward only: told an outcome, a run that is under way
/// either is given up, and says why, or moves to a later state, so that no
/// step is taken twice and none is taken back. It is done exactly when it
/// says so, and until then it asks for one action after the other.
pub proof fn lemma_run_goes_forward(
    state: ProjectState,
    outcome: OutcomeView,
    path: Seq<char>,
    config: ProjectConfigView,
)
    requires
        steps_behind(state) is Some,
        state != ProjectState::Done,
    ensures
        ({
            let (next, said) = project_step(state, outcome, path, config);
            &&& next == ProjectState::Failed <==> said is Failed
            &&& next == ProjectState::Done <==> said is Finished
            &&& said is Perform || said is Finished || said is Failed
            &&& next != ProjectState::Failed ==> steps_behind(next) is Some && steps_behind(next)->0
                > steps_behind(state)->0
        }),
{
}

/// A run that has ended stays as it is and asks nothing.
pub proof fn lemma_ended_run_is_stopped(
    state: ProjectState,
    outcome: OutcomeView,
    path: Seq<char>,
    config: ProjectConfigView,
)
    requires
        state == ProjectState::Done || state == ProjectState::Failed,
    ensures
        project_step(state, outcome, path, config) == (state, StepView::Stopped),
{
}

/// A run: where the project goes, what it is generated from, and how far
/// the run has come.
#[derive(Debug)]
pub struct SolanaProject {
    path: String,
    config: ProjectConfig,
    state: ProjectState,
}

impl SolanaProject {
    /// The path of the project directory.
    pub closed spec fn spec_path(&self) -> Seq<char> {
        self.path@
    }

    /// What the project is generated from.
    pub closed spec fn spec_config(&self) -> ProjectConfigView {
        self.config@
    }

    /// How far the run has come.
    pub closed spec fn spec_state(&self) -> ProjectState {
        self.state
    }

    /// A run that has not begun.
    pub fn new(path: String, config: ProjectConfig) -> (made: Result<Self, ProjectError>)
        ensures
            made matches Ok(project) && project.spec_path() == path@ && project.spec_config()
                == config@ && project.spec_state() == ProjectState::Uninitialized,
    {
        Ok(SolanaProject { path, config, state: ProjectState::Uninitialized })
    }

    /// The path of the project directory.
    pub fn path(&self) -> (path: &str)
        ensures
            path@ == self.spec_path(),
    {
        self.path.as_str()
    }

    /// What the project is generated from.
    pub fn config(&self) -> (config: &ProjectConfig)
        ensures
            config@ == self.spec_config(),
    {
        &self.config
    }

    /// How far the run has come.
    pub fn state(&self) -> (state: ProjectState)
        ensures
            state == self.spec_state(),
    {
        self.state
    }

    /// The writing of the ignore list.
    pub fn create_gitignore(&self) -> (action: Action)
        ensures
            action@ == (ActionView::WriteFile { path: ".gitignore"@, content: GITIGNORE@ }),
    {
        Action::WriteFile { path: ".gitignore".to_owned(), content: gitignore_template() }
    }

    /// The writing of the library's entry point.
    pub fn create_solana_program(&self) -> (action: Action)
        ensures
            action@ == (ActionView::WriteFile {
                path: "src/lib.rs"@,
                content: program_text(self.spec_config().program_template),
            }),
    {
        Action::WriteFile {
            path: "src/lib.rs".to_owned(),
            content: solana_program_template(&self.config),
        }
    }

    /// The writing of a file whose text was rendered, or the reason why
    /// there is no text.
    fn write_rendered(path: &str, rendered: Result<String, ProjectError>) -> (action: Result<
        Action,
        ProjectError,
    >)
        ensures
            match rendered {
                Ok(content) => action matches Ok(write) && write@ == (ActionView::WriteFile {
                    path: path@,
                    content: content@,
                }),
                Err(failure) => action matches Err(given) && given@ == failure@,
            },
    {
        match rendered {
            Ok(content) => Ok(Action::WriteFile { path: path.to_owned(), content }),
            Err(failure) => Err(failure),
        }
    }

    /// The writing of the type checker's configuration file, which is
    /// rendered for every configuration.
    pub fn create_typescript_config(&self) -> (action: Result<Action, ProjectError>)
        ensures
            match tsconfig_of(self.spec_config().typescript_config) {
                Ok(content) => action matches Ok(write) && write@ == (ActionView::WriteFile {
                    path: "tsconfig.json"@,
                    content,
                }),
                Err(failure) => action matches Err(given) && given@ == failure,
            },
            action is Ok,
    {
        Self::write_rendered("tsconfig.json", tsconfig_template(&self.config))
    }

    /// The writing of the test runner's configuration file, which is
    /// rendered for every configuration.
    pub fn create_jest_config(&self) -> (action: Result<Action, ProjectError>)
        ensures
            match jest_config_of(self.spec_config().jest_config) {
                Ok(content) => action matches Ok(write) && write@ == (ActionView::WriteFile {
                    path: "jest.config.js"@,
                    content,
                }),
                Err(failure) => action matches Err(given) && given@ == failure,
            },
            action is Ok,
    {
        Self::write_rendered("jest.config.js", jest_config_template(&self.config))
    }

    /// The writing of the sample test. Its directory is to be created first.
    pub fn create_sample_test(&self) -> (action: Action)
        ensures
            action@ == (ActionView::WriteFile {
                path: "tests/example.test.ts"@,
                content: SAMPLE_TEST@,
            }),
    {
        Action::WriteFile {
            path: "tests/example.test.ts".to_owned(),
            content: sample_test_template(&self.config),
        }
    }

    /// What the writing of a rendered file comes to within the stage.
    fn written_or_failed(stage: FileSetup, action: Result<Action, ProjectError>) -> (next: (
        FileSetup,
        Step,
    ))
        ensures
            match action {
                Ok(write) => next.0 == stage && next.1@ == StepView::Perform(write@),
                Err(failure) => next.0 == FileSetup::Failed && next.1@ == StepView::Failed(
                    failure@,
                ),
            },
    {
        match action {
            Ok(write) => (stage, Step::Perform(write)),
            Err(failure) => (FileSetup::Failed, Step::Failed(failure)),
        }
    }

    /// Takes the writing of the files one step on: given the stage it is
    /// in and the outcome of what it asked last, it says what comes next.
    pub fn create_project_files(&self, stage: FileSetup, outcome: Outcome) -> (next: (
        FileSetup,
        Step,
    ))
        ensures
            (next.0, next.1@) == file_step(stage, outcome@, self.spec_config()),
            next.1@ is Failed ==> outcome@ is Failed,
    {
        let started = match stage {
            FileSetup::NotStarted | FileSetup::Materialized | FileSetup::Failed => false,
            _ => true,
        };
        if started {
            if let Outcome::Failed(reason) = outcome {
                return (FileSetup::Failed, Step::Failed(io_failed(reason)));
            }
        }
        match stage {
            FileSetup::NotStarted => (
                FileSetup::WritingGitignore,
                Step::Perform(self.create_gitignore()),
            ),
            FileSetup::WritingGitignore => (
                FileSetup::WritingProgram,
                Step::Perform(self.create_solana_program()),
            ),
            FileSetup::WritingProgram => Self::written_or_failed(
                FileSetup::WritingTypeCheckConfig,
                self.create_typescript_config(),
            ),
            FileSetup::WritingTypeCheckConfig => Self::written_or_failed(
                FileSetup::WritingTestRunnerConfig,
                self.create_jest_config(),
            ),
            FileSetup::WritingTestRunnerConfig => (
                FileSetup::CreatingTestsDirectory,
                Step::Perform(Action::CreateDirectory { path: "tests".to_owned() }),
            ),
            FileSetup::CreatingTestsDirectory => (
                FileSetup::WritingSampleTest,
                Step::Perform(self.create_sample_test()),
            ),
            FileSetup::WritingSampleTest => (FileSetup::Materialized, Step::Finished),
            FileSetup::Materialized => (FileSetup::Materialized, Step::Stopped),
            FileSetup::Failed => (FileSetup::Failed, Step::Stopped),
        }
    }

    /// Takes the compiled library's side one step on, for this run's path
    /// and configuration.
    pub fn setup_cargo_project(&self, stage: CargoSetup, outcome: Outcome) -> (next: (
        CargoSetup,
        Step,
    ))
        ensures
            (next.0, next.1@) == cargo_step(
                stage,
                outcome@,
                self.spec_path(),
                self.spec_config().cargo_dependencies,
            ),
    {
        initialize_cargo_project(stage, outcome, self.path.as_str(), &self.config)
    }

    /// Takes the script side one step on, for this run's configuration.
    pub fn setup_node_project(&self, stage: NodeSetup, outcome: Outcome) -> (next: (
        NodeSetup,
        Step,
    ))
        ensures
            (next.0, next.1@) == node_step(
                stage,
                outcome@,
                self.spec_config().npm_dev_dependencies,
                self.spec_config().npm_dependencies,
            ),
            next.1@ is Failed ==> outcome@ is Failed || (stage == NodeSetup::ReadingManifest
                && !holds_a_manifest(outcome@.content())),
    {
        initialize_node_project(stage, outcome, &self.config)
    }

    /// The state in which a stage leaves the run, given what the stage said.
    fn settle(&mut self, state: ProjectState, said: Step) -> (step: Step)
        ensures
            (final(self).spec_state(), step@) == within_stage(state, said@),
            final(self).spec_path() == old(self).spec_path(),
            final(self).spec_config() == old(self).spec_config(),
    {
        match said {
            Step::Failed(failure) => {
                self.state = ProjectState::Failed;
                Step::Failed(failure)
            },
            other => {
                self.state = state;
                other
            },
        }
    }

    /// Begins the run: the project directory is to be created. On a run
    /// that has begun it does what `advance` does when told that the last
    /// action was carried out.
    pub fn initialize(&mut self) -> (step: Step)
        ensures
            (final(self).spec_state(), step@) == project_step(
                old(self).spec_state(),
                OutcomeView::Done,
                old(self).spec_path(),
                old(self).spec_config(),
            ),
            final(self).spec_path() == old(self).spec_path(),
            final(self).spec_config() == old(self).spec_config(),
    {
        self.advance(Outcome::Done)
    }

    /// Takes the run one step on: told the outcome of what it asked last,
    /// it says what comes next. The outcome told to a run that has not
    /// begun is not looked at. A run is given up only for an action that
    /// failed, or for a package manifest that holds no JSON object.
    pub fn advance(&mut self, outcome: Outcome) -> (step: Step)
        ensures
            (final(self).spec_state(), step@) == project_step(
                old(self).spec_state(),
                outcome@,
                old(self).spec_path(),
                old(self).spec_config(),
            ),
            final(self).spec_path() == old(self).spec_path(),
            final(self).spec_config() == old(self).spec_config(),
            step@ is Failed ==> outcome@ is Failed || (old(self).spec_state()
                == ProjectState::CompiledToolchainReady(NodeSetup::ReadingManifest)
                && !holds_a_manifest(outcome@.content())),
    {
        match self.state {
            ProjectState::Uninitialized => {
                self.state = ProjectState::CreatingDirectory;
                Step::Perform(Action::CreateProjectDirectory)
            },
            ProjectState::CreatingDirectory => match outcome {
                Outcome::Failed(reason) => {
                    self.state = ProjectState::Failed;
                    Step::Failed(io_failed(reason))
                },
                _ => {
                    let next = self.setup_cargo_project(CargoSetup::NotStarted, Outcome::Done);
                    self.settle(ProjectState::DirectoryCreated(next.0), next.1)
                },
            },
            ProjectState::DirectoryCreated(stage) => {
                let next = self.setup_cargo_project(stage, outcome);
                match next.1 {
                    Step::Finished => {
                        let first = self.setup_node_project(NodeSetup::NotStarted, Outcome::Done);
                        self.settle(ProjectState::CompiledToolchainReady(first.0), first.1)
                    },
                    said => self.settle(ProjectState::DirectoryCreated(next.0), said),
                }
            },
            ProjectState::CompiledToolchainReady(stage) => {
                let next = self.setup_node_project(stage, outcome);
                match next.1 {
                    Step::Finished => {
                        let first = self.create_project_files(FileSetup::NotStarted, Outcome::Done);
                        self.settle(ProjectState::ScriptToolchainReady(first.0), first.1)
                    },
                    said => self.settle(ProjectState::CompiledToolchainReady(next.0), said),
                }
            },
            ProjectState::ScriptToolchainReady(stage) => {
                let next = self.create_project_files(stage, outcome);
                match next.1 {
                    Step::Finished => {
                        self.state = ProjectState::Done;
                        Step::Finished
                    },
                    said => self.settle(ProjectState::ScriptToolchainReady(next.0), said),
                }
            },
            ProjectState::Done => Step::Stopped,
            ProjectState::Failed => Step::Stopped,
        }
    }
}

} // verus!
