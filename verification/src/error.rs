//! The ways in which a run can fail.

use vstd::prelude::*;

verus! {

/// Why a run was given up.
#[derive(Debug, Clone, PartialEq, Eq)]
pub enum ProjectError {
    /// A file-system operation failed; the text is the system's description.
    Io(String),
    /// An external command could not be started or exited with a failure.
    CommandFailed(String),
    /// The target directory exists and holds entries; the text is its path.
    DirectoryExists(String),
    /// The command line was malformed.
    Usage(String),
    /// Structured data could not be parsed or written.
    ConfigError(String),
}

/// A `ProjectError` with each text as a sequence of characters.
pub enum ProjectErrorView {
    Io(Seq<char>),
    CommandFailed(Seq<char>),
    DirectoryExists(Seq<char>),
    Usage(Seq<char>),
    ConfigError(Seq<char>),
}

impl View for ProjectError {
    type V = ProjectErrorView;

    open spec fn view(&self) -> ProjectErrorView {
        match self {
            ProjectError::Io(text) => ProjectErrorView::Io(text@),
            ProjectError::CommandFailed(text) => ProjectErrorView::CommandFailed(text@),
            ProjectError::DirectoryExists(path) => ProjectErrorView::DirectoryExists(path@),
            ProjectError::Usage(text) => ProjectErrorView::Usage(text@),
            ProjectError::ConfigError(text) => ProjectErrorView::ConfigError(text@),
        }
    }
}

/// The one-line description of an error: a label for its kind, then its text.
pub open spec fn error_message(error: ProjectErrorView) -> Seq<char> {
    match error {
        ProjectErrorView::Io(text) => "IO error: "@ + text,
        ProjectErrorView::CommandFailed(text) => "Command failed: "@ + text,
        ProjectErrorView::DirectoryExists(path) => "Directory already exists and is not empty: "@
            + path,
        ProjectErrorView::Usage(text) => "Usage error: "@ + text,
        ProjectErrorView::ConfigError(text) => "Configuration error: "@ + text,
    }
}

/// A text or the reason why there is none, with each text as a sequence of
/// characters.
pub open spec fn rendered_view(rendered: Result<String, ProjectError>) -> Result<
    Seq<char>,
    ProjectErrorView,
> {
    match rendered {
        Ok(text) => Ok(text@),
        Err(failure) => Err(failure@),
    }
}

impl ProjectError {
    /// Describes the error in one line.
    pub fn message(&self) -> (text: String)
        ensures
            text@ == error_message(self@),
    {
        match self {
            ProjectError::Io(detail) => "IO error: ".to_owned().concat(detail.as_str()),
            ProjectError::CommandFailed(detail) => "Command failed: ".to_owned().concat(
                detail.as_str(),
            ),
            ProjectError::DirectoryExists(path) => "Directory already exists and is not empty: "
                .to_owned().concat(path.as_str()),
            ProjectError::Usage(detail) => "Usage error: ".to_owned().concat(detail.as_str()),
            ProjectError::ConfigError(detail) => "Configuration error: ".to_owned().concat(
                detail.as_str(),
            ),
        }
    }
}

} // verus!
