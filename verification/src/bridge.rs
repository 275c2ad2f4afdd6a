//! The dependency manager that knows where a project keeps its virtual
//! environment: how it is asked, and how its reply is read.

use vstd::prelude::*;
use crate::text::{trim, trimmed};

verus! {

/// What became of one call of the dependency manager.
#[derive(Debug, PartialEq, Eq)]
pub enum ToolOutcome {
    /// It ran to its end.
    Completed {
        /// Whether it left with status zero.
        success: bool,
        /// What it wrote to its output.
        stdout: String,
        /// What it wrote to its error stream.
        stderr: String,
    },
    /// It could not be started; the text says why.
    SpawnFailed(String),
}

/// The outcome of a call as plain values.
pub ghost enum ToolOutcomeView {
    Completed { success: bool, stdout: Seq<char>, stderr: Seq<char> },
    SpawnFailed(Seq<char>),
}

impl View for ToolOutcome {
    type V = ToolOutcomeView;

    open spec fn view(&self) -> ToolOutcomeView {
        match self {
            ToolOutcome::Completed { success, stdout, stderr } => ToolOutcomeView::Completed {
                success: *success,
                stdout: stdout@,
                stderr: stderr@,
            },
            ToolOutcome::SpawnFailed(detail) => ToolOutcomeView::SpawnFailed(detail@),
        }
    }
}

/// The name under which the dependency manager is looked up.
pub open spec fn tool_name() -> Seq<char> {
    "poetry"@
}

/// The arguments that ask for the environment of the project at `root`.
pub open spec fn tool_arguments(root: Seq<char>) -> Seq<Seq<char>> {
    seq!["env"@, "info"@, "--path"@, "--directory"@, root]
}

/// What is said of a project when the dependency manager did not give its
/// environment.
pub open spec fn failure_text(stderr: Seq<char>) -> Seq<char> {
    "Failed to get venv path from poetry: "@ + stderr
}

/// What is said of a project when the dependency manager did not start.
pub open spec fn spawn_failure_text(detail: Seq<char>) -> Seq<char> {
    "Failed to execute poetry command: "@ + detail
}

/// What a call of the dependency manager says: on status zero the path it
/// wrote, without the white space around it; otherwise why there is none.
pub open spec fn interpreted(outcome: ToolOutcomeView) -> Result<Seq<char>, Seq<char>> {
    match outcome {
        ToolOutcomeView::Completed { success, stdout, stderr } => if success {
            Ok(trimmed(stdout))
        } else {
            Err(failure_text(stderr))
        },
        ToolOutcomeView::SpawnFailed(detail) => Err(spawn_failure_text(detail)),
    }
}

/// The name under which the dependency manager is looked up.
pub fn program() -> (name: String)
    ensures
        name@ == tool_name(),
{
    String::from_str("poetry")
}

/// The arguments that ask the dependency manager, without any question to
/// the operator, for the environment of the project at `root`.
pub fn arguments(root: &str) -> (list: Vec<String>)
    ensures
        list@.len() == tool_arguments(root@).len(),
        forall|i: int| 0 <= i < list@.len() ==> list@[i]@ == tool_arguments(root@)[i],
{
    let mut list: Vec<String> = Vec::new();
    list.push(String::from_str("env"));
    list.push(String::from_str("info"));
    list.push(String::from_str("--path"));
    list.push(String::from_str("--directory"));
    list.push(String::from_str(root));
    list
}

/// Reads the outcome of a call: the environment's path, or the reason why
/// there is none.
pub fn interpret(outcome: &ToolOutcome) -> (reply: Result<String, String>)
    ensures
        match reply {
            Ok(path) => interpreted(outcome@) == Ok::<Seq<char>, Seq<char>>(path@),
            Err(detail) => interpreted(outcome@) == Err::<Seq<char>, Seq<char>>(detail@),
        },
{
    match outcome {
        ToolOutcome::Completed { success, stdout, stderr } => {
            if *success {
                Ok(trim(stdout.as_str()))
            } else {
                let mut detail = String::from_str("Failed to get venv path from poetry: ");
                detail.append(stderr.as_str());
                Err(detail)
            }
        },
        ToolOutcome::SpawnFailed(why) => {
            let mut detail = String::from_str("Failed to execute poetry command: ");
            detail.append(why.as_str());
            Err(detail)
        },
    }
}

} // verus!
