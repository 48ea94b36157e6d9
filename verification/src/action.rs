//! What a run asks of its surroundings and what it is told in return. The
//! crate never runs a command or touches a file: it names the next action,
//! the caller carries it out and reports the outcome.

use crate::config::texts_view;
use crate::error::{ProjectError, ProjectErrorView};
use vstd::prelude::*;

verus! {

/// An external command with its arguments.
#[derive(Debug, Clone, PartialEq, Eq)]
pub struct Invocation {
    pub program: String,
    pub args: Vec<String>,
    /// Whether the command runs inside the project directory. Where not,
    /// it runs where the caller stands.
    pub in_project_directory: bool,
}

/// An `Invocation` with each text as a sequence of characters.
pub struct InvocationView {
    pub program: Seq<char>,
    pub args: Seq<Seq<char>>,
    pub in_project_directory: bool,
}

impl View for Invocation {
    type V = InvocationView;

    open spec fn view(&self) -> InvocationView {
        InvocationView {
            program: self.program@,
            args: texts_view(self.args@),
            in_project_directory: self.in_project_directory,
        }
    }
}

/// One thing for the caller to do. Paths are relative to the project
/// directory.
#[derive(Debug, Clone, PartialEq, Eq)]
pub enum Action {
    /// Create the project directory itself, with the directories above it.
    CreateProjectDirectory,
    /// Create a directory, with the directories above it.
    CreateDirectory { path: String },
    /// Run a command and wait for it to end.
    Run { command: Invocation },
    /// Read a file as text.
    ReadFile { path: String },
    /// Write a file, replacing what it held.
    WriteFile { path: String, content: String },
}

/// An `Action` with each text as a sequence of characters.
pub enum ActionView {
    CreateProjectDirectory,
    CreateDirectory { path: Seq<char> },
    Run { command: InvocationView },
    ReadFile { path: Seq<char> },
    WriteFile { path: Seq<char>, content: Seq<char> },
}

impl View for Action {
    type V = ActionView;

    open spec fn view(&self) -> ActionView {
        match self {
            Action::CreateProjectDirectory => ActionView::CreateProjectDirectory,
            Action::CreateDirectory { path } => ActionView::CreateDirectory { path: path@ },
            Action::Run { command } => ActionView::Run { command: command@ },
            Action::ReadFile { path } => ActionView::ReadFile { path: path@ },
            Action::WriteFile { path, content } => ActionView::WriteFile {
                path: path@,
                content: content@,
            },
        }
    }
}

/// How an action ended. Every outcome is taken for what it says of the
/// action that was asked: a read that is told as done without a text counts
/// as the read of an empty file, and a text that comes with another action
/// is not looked at.
#[derive(Debug, Clone, PartialEq, Eq)]
pub enum Outcome {
    /// The action was carried out; a command ran and reported success.
    Done,
    /// The file was read, and this is its text.
    Content(String),
    /// The action failed. The text is the system's description where the
    /// system refused the action; without one, a command ran and reported
    /// failure.
    Failed(Option<String>),
}

/// An `Outcome` with each text as a sequence of characters.
pub enum OutcomeView {
    Done,
    Content(Seq<char>),
    Failed(Option<Seq<char>>),
}

impl View for Outcome {
    type V = OutcomeView;

    open spec fn view(&self) -> OutcomeView {
        match self {
            Outcome::Done => OutcomeView::Done,
            Outcome::Content(text) => OutcomeView::Content(text@),
            Outcome::Failed(Some(reason)) => OutcomeView::Failed(Some(reason@)),
            Outcome::Failed(None) => OutcomeView::Failed(None),
        }
    }
}

impl OutcomeView {
    /// The text that an outcome brings: what was read, and nothing where
    /// the outcome brings no text.
    pub open spec fn content(self) -> Seq<char> {
        match self {
            OutcomeView::Content(text) => text,
            _ => Seq::empty(),
        }
    }
}

/// What a run, or a stage of one, says after it was told an outcome.
#[derive(Debug, Clone, PartialEq, Eq)]
pub enum Step {
    /// This is to be done next, and its outcome reported.
    Perform(Action),
    /// All is done.
    Finished,
    /// The run is given up for this reason.
    Failed(ProjectError),
    /// Nothing is asked: the end was reached before.
    Stopped,
}

/// A `Step` with each text as a sequence of characters.
pub enum StepView {
    Perform(ActionView),
    Finished,
    Failed(ProjectErrorView),
    Stopped,
}

impl View for Step {
    type V = StepView;

    open spec fn view(&self) -> StepView {
        match self {
            Step::Perform(action) => StepView::Perform(action@),
            Step::Finished => StepView::Finished,
            Step::Failed(error) => StepView::Failed(error@),
            Step::Stopped => StepView::Stopped,
        }
    }
}

/// The failure of a command: with the system's description where the
/// command could not be started, without one where it ran and reported
/// failure. `what` names the command.
pub open spec fn command_failure(what: Seq<char>, reason: Option<Seq<char>>) -> ProjectErrorView {
    match reason {
        Some(description) => ProjectErrorView::CommandFailed(what + ": "@ + description),
        None => ProjectErrorView::CommandFailed(what + " failed"@),
    }
}

/// The failure of a file-system action: the system's description, or an
/// empty text where none came.
pub open spec fn io_failure(reason: Option<Seq<char>>) -> ProjectErrorView {
    match reason {
        Some(description) => ProjectErrorView::Io(description),
        None => ProjectErrorView::Io(Seq::empty()),
    }
}

/// Says why a command failed.
pub fn command_failed(what: &str, reason: Option<String>) -> (error: ProjectError)
    ensures
        error@ == command_failure(what@, crate::action::reason_view(reason)),
{
    match reason {
        Some(description) => ProjectError::CommandFailed(
            what.to_owned().concat(": ").concat(description.as_str()),
        ),
        None => ProjectError::CommandFailed(what.to_owned().concat(" failed")),
    }
}

/// Says why a file-system action failed.
pub fn io_failed(reason: Option<String>) -> (error: ProjectError)
    ensures
        error@ == io_failure(crate::action::reason_view(reason)),
{
    match reason {
        Some(description) => ProjectError::Io(description),
        None => ProjectError::Io(String::new()),
    }
}

/// A reason with its text as a sequence of characters.
pub open spec fn reason_view(reason: Option<String>) -> Option<Seq<char>> {
    match reason {
        Some(description) => Some(description@),
        None => None,
    }
}

} // verus!
