//! The command line: its one argument, the check of the target directory,
//! and what is said at the start and at the end of a run.

use crate::error::{error_message, ProjectError, ProjectErrorView};
use vstd::prelude::*;

verus! {

/// How the program is to be called.
pub const USAGE: &'static str = "Usage: solanainit <project_path> [--config <config_file>]";

/// The project path of a command line: the argument that follows the
/// program's name. A command line without one is a usage error.
pub fn project_path(args: &Vec<String>) -> (path: Result<String, ProjectError>)
    ensures
        match path {
            Ok(given) => args@.len() >= 2 && given@ == args@[1]@,
            Err(failure) => args@.len() < 2 && failure@ == ProjectErrorView::Usage(USAGE@),
        },
{
    if args.len() < 2 {
        return Err(ProjectError::Usage(USAGE.to_owned()));
    }
    Ok(args[1].clone())
}

/// What stands at the path where the project is to go.
#[derive(Debug, Clone, Copy, PartialEq, Eq, Structural)]
pub enum TargetKind {
    /// Nothing is there.
    Missing,
    /// A directory without entries.
    EmptyDirectory,
    /// A directory that holds at least one entry.
    OccupiedDirectory,
    /// Something that is no directory, such as a file.
    NotADirectory,
}

/// Whether a run may begin where this stands: where nothing is there, and
/// in an empty directory.
pub open spec fn is_free(kind: TargetKind) -> bool {
    kind == TargetKind::Missing || kind == TargetKind::EmptyDirectory
}

/// Checks that a run may begin at a path: the path is free, or an empty
/// directory stands there. Whatever else is there is refused, with the
/// path, before anything is created or written.
pub fn check_target_directory(path: &str, kind: TargetKind) -> (checked: Result<(), ProjectError>)
    ensures
        match checked {
            Ok(_) => is_free(kind),
            Err(failure) => !is_free(kind) && failure@ == ProjectErrorView::DirectoryExists(path@),
        },
{
    match kind {
        TargetKind::Missing | TargetKind::EmptyDirectory => Ok(()),
        TargetKind::OccupiedDirectory | TargetKind::NotADirectory => Err(
            ProjectError::DirectoryExists(path.to_owned()),
        ),
    }
}

/// What is said when a run begins.
pub open spec fn announcement_text(path: Seq<char>) -> Seq<char> {
    "Initializing Solana project at: "@ + path
}

/// What is said when a run begins.
pub fn announcement(path: &str) -> (text: String)
    ensures
        text@ == announcement_text(path@),
{
    "Initializing Solana project at: ".to_owned().concat(path)
}

/// What follows the path in the summary of a run that went well.
pub const SUMMARY_REST: &'static str = "\n\
📁 Project structure created\n\
🔧 Cargo.toml configured with Solana dependencies\n\
🧪 TypeScript test environment set up with Jest\n\
📝 Sample Solana program and tests created";

/// The summary of a run that went well: five lines, the first with the path.
pub open spec fn summary_text(path: Seq<char>) -> Seq<char> {
    "✅ Solana project initialized successfully at "@ + path + SUMMARY_REST@
}

/// The summary of a run that went well.
pub fn success_summary(path: &str) -> (text: String)
    ensures
        text@ == summary_text(path@),
{
    "✅ Solana project initialized successfully at ".to_owned().concat(path).concat(SUMMARY_REST)
}

/// The one line that is said of a run that failed.
pub open spec fn failure_text(error: ProjectErrorView) -> Seq<char> {
    "Error: "@ + error_message(error)
}

/// The one line that is said of a run that failed.
pub fn failure_line(error: &ProjectError) -> (text: String)
    ensures
        text@ == failure_text(error@),
{
    "Error: ".to_owned().concat(error.message().as_str())
}

/// The status with which the program ends: 0 after a run that went well,
/// 1 after one that failed.
pub fn exit_code(outcome: &Result<(), ProjectError>) -> (code: i32)
    ensures
        code == (if outcome is Ok { 0i32 } else { 1i32 }),
{
    match outcome {
        Ok(_) => 0,
        Err(_) => 1,
    }
}

} // verus!
