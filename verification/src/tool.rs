//! The version-control tool: how it is invoked, and what its outcome means.

use vstd::prelude::*;
use vstd::utf8::{decode_utf8, valid_utf8};
use crate::text::{decode_lossy, utf8_lossy};

verus! {

/// One call of an external program, with its arguments kept apart so that
/// none of them passes through a shell.
#[derive(Debug, PartialEq, Eq)]
pub struct ToolInvocation {
    pub program: String,
    pub args: Vec<String>,
}

/// What a [`ToolInvocation`] stands for in contracts.
pub struct ToolInvocationView {
    pub program: Seq<char>,
    pub args: Seq<Seq<char>>,
}

impl View for ToolInvocation {
    type V = ToolInvocationView;

    open spec fn view(&self) -> ToolInvocationView {
        ToolInvocationView {
            program: self.program@,
            args: self.args@.map_values(|a: String| a@),
        }
    }
}

/// How a call of the tool ended.
#[derive(Debug, PartialEq, Eq)]
pub enum ToolOutcome {
    /// The program could not be started; the text says why.
    LaunchFailed(String),
    /// The program ran to its end.
    Exited { success: bool, stdout: Vec<u8>, stderr: Vec<u8> },
}

/// What a [`ToolOutcome`] stands for in contracts.
pub enum ToolOutcomeView {
    LaunchFailed(Seq<char>),
    Exited { success: bool, stdout: Seq<u8>, stderr: Seq<u8> },
}

impl View for ToolOutcome {
    type V = ToolOutcomeView;

    open spec fn view(&self) -> ToolOutcomeView {
        match self {
            ToolOutcome::LaunchFailed(why) => ToolOutcomeView::LaunchFailed(why@),
            ToolOutcome::Exited { success, stdout, stderr } => ToolOutcomeView::Exited {
                success: *success,
                stdout: stdout@,
                stderr: stderr@,
            },
        }
    }
}

/// The view of a result whose two sides are both text.
pub open spec fn text_result_view(r: Result<String, String>) -> Result<Seq<char>, Seq<char>> {
    match r {
        Ok(text) => Ok(text@),
        Err(why) => Err(why@),
    }
}

/// The view of a result that carries text only on failure.
pub open spec fn unit_result_view(r: Result<(), String>) -> Result<(), Seq<char>> {
    match r {
        Ok(_) => Ok(()),
        Err(why) => Err(why@),
    }
}

/// The path whose presence marks the working directory as a repository.
pub open spec fn repository_marker() -> Seq<char> {
    ".git"@
}

/// The invocation that prints the staged changes, and only those.
pub open spec fn diff_invocation() -> ToolInvocationView {
    ToolInvocationView { program: "git"@, args: seq!["diff"@, "--cached"@] }
}

/// The invocation that commits with `message`, handed over as one argument.
pub open spec fn commit_invocation(message: Seq<char>) -> ToolInvocationView {
    ToolInvocationView { program: "git"@, args: seq!["commit"@, "-m"@, message] }
}

/// The generic failure of the commit step.
pub open spec fn commit_failure() -> Seq<char> {
    "Failed to commit changes"@
}

/// What the diff step yields: the tool's output as text when it succeeded,
/// otherwise what it wrote to its error stream, or why it did not start.
pub open spec fn diff_result(outcome: ToolOutcomeView) -> Result<Seq<char>, Seq<char>> {
    match outcome {
        ToolOutcomeView::LaunchFailed(why) => Err(why),
        ToolOutcomeView::Exited { success, stdout, stderr } => if success {
            Ok(utf8_lossy(stdout))
        } else {
            Err(utf8_lossy(stderr))
        },
    }
}

/// What the commit step yields. The tool's own output is not relayed.
pub open spec fn commit_result(outcome: ToolOutcomeView) -> Result<(), Seq<char>> {
    match outcome {
        ToolOutcomeView::LaunchFailed(why) => Err(why),
        ToolOutcomeView::Exited { success, stdout, stderr } => if success {
            Ok(())
        } else {
            Err(commit_failure())
        },
    }
}

/// Calls `std::path::Path::exists`. Trusted, and nothing is claimed of the
/// answer: it depends on what is on disk when the call is made.
#[verifier::external_body]
fn path_exists(path: &str) -> bool {
    std::path::Path::new(path).exists()
}

/// The name of the repository marker.
pub fn marker_path() -> (path: &'static str)
    ensures
        path@ == repository_marker(),
{
    ".git"
}

/// Whether the working directory holds the repository marker. Its absence
/// is an answer, not an error.
pub fn is_git_repository() -> bool {
    path_exists(marker_path())
}

/// Builds the invocation for the staged diff.
pub fn diff_command() -> (invocation: ToolInvocation)
    ensures
        invocation@ == diff_invocation(),
{
    let mut args: Vec<String> = Vec::new();
    args.push(String::from_str("diff"));
    args.push(String::from_str("--cached"));
    let invocation = ToolInvocation { program: String::from_str("git"), args };
    proof {
        assert(invocation@.args =~= diff_invocation().args);
    }
    invocation
}

/// Builds the invocation that commits with `message`. The message is the
/// third argument, unchanged.
pub fn commit_command(message: &str) -> (invocation: ToolInvocation)
    ensures
        invocation@ == commit_invocation(message@),
{
    let mut args: Vec<String> = Vec::new();
    args.push(String::from_str("commit"));
    args.push(String::from_str("-m"));
    args.push(String::from_str(message));
    let invocation = ToolInvocation { program: String::from_str("git"), args };
    proof {
        assert(invocation@.args =~= commit_invocation(message@).args);
    }
    invocation
}

/// Reads the staged diff out of the tool's outcome. An empty diff is a
/// success like any other.
pub fn get_git_diff(outcome: &ToolOutcome) -> (diff: Result<String, String>)
    ensures
        text_result_view(diff) == diff_result(outcome@),
        outcome is Exited && outcome->success && valid_utf8(outcome->stdout@) ==> diff is Ok
            && diff->Ok_0@ == decode_utf8(outcome->stdout@),
{
    match outcome {
        ToolOutcome::LaunchFailed(why) => Err(why.clone()),
        ToolOutcome::Exited { success, stdout, stderr } => {
            if *success {
                Ok(decode_lossy(stdout.as_slice()))
            } else {
                Err(decode_lossy(stderr.as_slice()))
            }
        },
    }
}

/// Reads the result of the commit step out of the tool's outcome.
pub fn commit_changes(outcome: &ToolOutcome) -> (done: Result<(), String>)
    ensures
        unit_result_view(done) == commit_result(outcome@),
{
    match outcome {
        ToolOutcome::LaunchFailed(why) => Err(why.clone()),
        ToolOutcome::Exited { success, stdout, stderr } => {
            if *success {
                Ok(())
            } else {
                Err(String::from_str("Failed to commit changes"))
            }
        },
    }
}

} // verus!
