//! The flow of one run, as a machine that is driven from outside.
//!
//! The caller performs the action it is handed, reports what came of it as an
//! event, and prints the lines of each transition before acting on it. The
//! flow is linear: every state but the last expects exactly one kind of
//! event, and no transition leads back.

use vstd::prelude::*;
use crate::chat::{
    api_call, call_for, generate_commit_message, generated_view, generation_result, reply_view,
    error_text, ApiCall, ApiCallView, ChatResponse, ChatResponseView, GenerateError,
    GenerateErrorView,
};
use crate::confirm::{is_confirmation, selects_commit};
use crate::tool::{
    commit_changes, commit_command, commit_invocation, commit_result, diff_command,
    diff_invocation, diff_result, get_git_diff, text_result_view, unit_result_view,
    ToolInvocation, ToolInvocationView, ToolOutcome, ToolOutcomeView,
};

verus! {

/// Where a line is printed.
#[derive(Debug, Clone, Copy, PartialEq, Eq)]
pub enum Stream {
    Stdout,
    Stderr,
}

/// One line for the console, without its line ending.
#[derive(Debug, PartialEq, Eq)]
pub struct Line {
    pub stream: Stream,
    pub text: String,
}

/// What a [`Line`] stands for in contracts.
pub struct LineView {
    pub stream: Stream,
    pub text: Seq<char>,
}

impl View for Line {
    type V = LineView;

    open spec fn view(&self) -> LineView {
        LineView { stream: self.stream, text: self.text@ }
    }
}

/// What the flow is waiting for.
#[derive(Debug, PartialEq, Eq)]
pub enum State {
    /// The answer of the repository check.
    CheckRepo,
    /// The optional environment file to have been loaded.
    LoadEnv,
    /// The outcome of the diff invocation.
    CollectDiff,
    /// The credential, with the diff that the request will carry.
    ResolveCredential { diff: String },
    /// The provider's reply.
    Generate,
    /// The user's answer, with the message that was proposed.
    Confirm { message: String },
    /// The outcome of the commit invocation.
    Commit,
    /// Nothing: the run is over.
    End,
}

/// What a [`State`] stands for in contracts.
pub enum StateView {
    CheckRepo,
    LoadEnv,
    CollectDiff,
    ResolveCredential { diff: Seq<char> },
    Generate,
    Confirm { message: Seq<char> },
    Commit,
    End,
}

impl View for State {
    type V = StateView;

    open spec fn view(&self) -> StateView {
        match self {
            State::CheckRepo => StateView::CheckRepo,
            State::LoadEnv => StateView::LoadEnv,
            State::CollectDiff => StateView::CollectDiff,
            State::ResolveCredential { diff } => StateView::ResolveCredential { diff: diff@ },
            State::Generate => StateView::Generate,
            State::Confirm { message } => StateView::Confirm { message: message@ },
            State::Commit => StateView::Commit,
            State::End => StateView::End,
        }
    }
}

/// What came of the action that the caller performed.
#[derive(Debug, PartialEq, Eq)]
pub enum Event {
    /// Whether the repository marker was found.
    RepoChecked(bool),
    /// The environment file was loaded, or was not there to load.
    EnvironmentLoaded,
    /// The tool was invoked.
    ToolFinished(ToolOutcome),
    /// The credential variable was read; `None` where it is not set.
    CredentialRead(Option<String>),
    /// The exchange with the provider ended: in a reply of the expected
    /// shape, or in a failure with its description.
    ReplyArrived(Result<ChatResponse, String>),
    /// A line was read from the console; `None` where the read failed.
    LineRead(Option<String>),
}

/// What a [`Event`] stands for in contracts.
pub enum EventView {
    RepoChecked(bool),
    EnvironmentLoaded,
    ToolFinished(ToolOutcomeView),
    CredentialRead(Option<Seq<char>>),
    ReplyArrived(Result<ChatResponseView, Seq<char>>),
    LineRead(Option<Seq<char>>),
}

/// The view of a text that may be absent.
pub open spec fn optional_text_view(text: Option<String>) -> Option<Seq<char>> {
    match text {
        Some(t) => Some(t@),
        None => None,
    }
}

impl View for Event {
    type V = EventView;

    open spec fn view(&self) -> EventView {
        match self {
            Event::RepoChecked(found) => EventView::RepoChecked(*found),
            Event::EnvironmentLoaded => EventView::EnvironmentLoaded,
            Event::ToolFinished(outcome) => EventView::ToolFinished(outcome@),
            Event::CredentialRead(key) => EventView::CredentialRead(optional_text_view(*key)),
            Event::ReplyArrived(reply) => EventView::ReplyArrived(reply_view(*reply)),
            Event::LineRead(line) => EventView::LineRead(optional_text_view(*line)),
        }
    }
}

/// What the caller is to do next.
#[derive(Debug, PartialEq, Eq)]
pub enum Action {
    /// Look for the repository marker.
    CheckRepository,
    /// Load the optional environment file; its absence is no failure.
    LoadEnvironment,
    /// Run the invocation and capture what it writes.
    CollectDiff(ToolInvocation),
    /// Read the environment variable of this name.
    ReadCredential(String),
    /// Send the call to the provider and await the reply.
    Send(ApiCall),
    /// Read one line from the console.
    ReadLine,
    /// Run the invocation; nothing of what it writes is captured.
    Commit(ToolInvocation),
    /// Abort the program with this diagnostic.
    Abort(String),
    /// Return normally.
    Stop,
}

/// What a [`Action`] stands for in contracts.
pub enum ActionView {
    CheckRepository,
    LoadEnvironment,
    CollectDiff(ToolInvocationView),
    ReadCredential(Seq<char>),
    Send(ApiCallView),
    ReadLine,
    Commit(ToolInvocationView),
    Abort(Seq<char>),
    Stop,
}

impl View for Action {
    type V = ActionView;

    open spec fn view(&self) -> ActionView {
        match self {
            Action::CheckRepository => ActionView::CheckRepository,
            Action::LoadEnvironment => ActionView::LoadEnvironment,
            Action::CollectDiff(invocation) => ActionView::CollectDiff(invocation@),
            Action::ReadCredential(name) => ActionView::ReadCredential(name@),
            Action::Send(call) => ActionView::Send(call@),
            Action::ReadLine => ActionView::ReadLine,
            Action::Commit(invocation) => ActionView::Commit(invocation@),
            Action::Abort(why) => ActionView::Abort(why@),
            Action::Stop => ActionView::Stop,
        }
    }
}

/// One move of the flow: the lines to print, in order, then the action to
/// perform, and the state in which its event is awaited.
#[derive(Debug, PartialEq, Eq)]
pub struct Transition {
    pub state: State,
    pub prints: Vec<Line>,
    pub action: Action,
}

/// What a [`Transition`] stands for in contracts.
pub struct TransitionView {
    pub state: StateView,
    pub prints: Seq<LineView>,
    pub action: ActionView,
}

impl View for Transition {
    type V = TransitionView;

    open spec fn view(&self) -> TransitionView {
        TransitionView {
            state: self.state@,
            prints: self.prints@.map_values(|l: Line| l@),
            action: self.action@,
        }
    }
}

/// The view of a transition that may be refused.
pub open spec fn optional_transition_view(t: Option<Transition>) -> Option<TransitionView> {
    match t {
        Some(t) => Some(t@),
        None => None,
    }
}

/// The diagnostic for a directory that is no repository.
pub open spec fn not_a_repository_text() -> Seq<char> {
    "Current directory is not a Git repository."@
}

/// The report of a failed diff step.
pub open spec fn diff_error_text(why: Seq<char>) -> Seq<char> {
    "Error getting git diff: "@ + why
}

/// The notice for an empty diff.
pub open spec fn no_changes_text() -> Seq<char> {
    "No changes detected."@
}

/// The name of the environment variable that holds the credential.
pub open spec fn credential_variable() -> Seq<char> {
    "OPENAI_API_KEY"@
}

/// The diagnostic for a credential that is not set.
pub open spec fn credential_missing_text() -> Seq<char> {
    "OPENAI_API_KEY not set in .env file"@
}

/// The report of a failed message generation.
pub open spec fn generation_error_text(why: Seq<char>) -> Seq<char> {
    "Error generating commit message: "@ + why
}

/// The proposed message under its header line.
pub open spec fn proposal_text(message: Seq<char>) -> Seq<char> {
    "Generated commit message:\n"@ + message
}

/// The yes/no prompt.
pub open spec fn prompt_text() -> Seq<char> {
    "Do you want to commit these changes? (y/n)"@
}

/// The diagnostic for a console read that failed.
pub open spec fn input_failure_text() -> Seq<char> {
    "Failed to read input"@
}

/// The report of a failed commit step.
pub open spec fn commit_error_text(why: Seq<char>) -> Seq<char> {
    "Error committing changes: "@ + why
}

/// The confirmation of a commit.
pub open spec fn committed_text() -> Seq<char> {
    "Changes committed successfully."@
}

/// The notice for a declined proposal.
pub open spec fn canceled_text() -> Seq<char> {
    "Commit canceled."@
}

/// A line for standard output.
pub open spec fn to_stdout(text: Seq<char>) -> LineView {
    LineView { stream: Stream::Stdout, text }
}

/// A line for the error stream.
pub open spec fn to_stderr(text: Seq<char>) -> LineView {
    LineView { stream: Stream::Stderr, text }
}

/// The transition that ends the run normally after printing `prints`.
pub open spec fn stop(prints: Seq<LineView>) -> TransitionView {
    TransitionView { state: StateView::End, prints, action: ActionView::Stop }
}

/// The transition that ends the run by aborting with `why`.
pub open spec fn abort(why: Seq<char>) -> TransitionView {
    TransitionView { state: StateView::End, prints: seq![], action: ActionView::Abort(why) }
}

/// A transition that prints nothing.
pub open spec fn proceed(state: StateView, action: ActionView) -> TransitionView {
    TransitionView { state, prints: seq![], action }
}

/// The state in which every run begins.
pub open spec fn initial() -> StateView {
    StateView::CheckRepo
}

/// The move that opens every run.
pub open spec fn opening() -> TransitionView {
    proceed(initial(), ActionView::CheckRepository)
}

/// After the repository check: outside a repository the run ends with the
/// diagnostic and nothing else is done.
pub open spec fn after_repo_check(found: bool) -> TransitionView {
    if found {
        proceed(StateView::LoadEnv, ActionView::LoadEnvironment)
    } else {
        stop(seq![to_stderr(not_a_repository_text())])
    }
}

/// After the environment file: the staged diff is collected.
pub open spec fn after_environment() -> TransitionView {
    proceed(StateView::CollectDiff, ActionView::CollectDiff(diff_invocation()))
}

/// After the diff step: a failure is reported, an empty diff ends the run
/// with a notice, and any other diff goes on to the credential.
pub open spec fn after_diff(diff: Result<Seq<char>, Seq<char>>) -> TransitionView {
    match diff {
        Err(why) => stop(seq![to_stderr(diff_error_text(why))]),
        Ok(text) => if text.len() == 0 {
            stop(seq![to_stdout(no_changes_text())])
        } else {
            proceed(
                StateView::ResolveCredential { diff: text },
                ActionView::ReadCredential(credential_variable()),
            )
        },
    }
}

/// After the credential lookup: without a credential the run aborts, with
/// one the request for the diff is sent.
pub open spec fn after_credential(diff: Seq<char>, key: Option<Seq<char>>) -> TransitionView {
    match key {
        None => abort(credential_missing_text()),
        Some(key) => proceed(StateView::Generate, ActionView::Send(call_for(key, diff))),
    }
}

/// After message generation: a failure is reported, a message is shown
/// under its header, followed by the prompt.
pub open spec fn after_generation(generated: Result<Seq<char>, GenerateErrorView>)
    -> TransitionView {
    match generated {
        Err(e) => stop(seq![to_stderr(generation_error_text(error_text(e)))]),
        Ok(message) => TransitionView {
            state: StateView::Confirm { message },
            prints: seq![to_stdout(proposal_text(message)), to_stdout(prompt_text())],
            action: ActionView::ReadLine,
        },
    }
}

/// After the console read: a failed read aborts, a yes commits with the
/// proposed message, and anything else cancels.
pub open spec fn after_answer(message: Seq<char>, line: Option<Seq<char>>) -> TransitionView {
    match line {
        None => abort(input_failure_text()),
        Some(answer) => if selects_commit(answer) {
            proceed(StateView::Commit, ActionView::Commit(commit_invocation(message)))
        } else {
            stop(seq![to_stdout(canceled_text())])
        },
    }
}

/// After the commit step: success or the failure is reported.
pub open spec fn after_commit(done: Result<(), Seq<char>>) -> TransitionView {
    match done {
        Ok(_) => stop(seq![to_stdout(committed_text())]),
        Err(why) => stop(seq![to_stderr(commit_error_text(why))]),
    }
}

/// The transition relation. An event that is not the one the state waits
/// for has no transition.
pub open spec fn next(state: StateView, event: EventView) -> Option<TransitionView> {
    match (state, event) {
        (StateView::CheckRepo, EventView::RepoChecked(found)) => Some(after_repo_check(found)),
        (StateView::LoadEnv, EventView::EnvironmentLoaded) => Some(after_environment()),
        (StateView::CollectDiff, EventView::ToolFinished(outcome)) => Some(
            after_diff(diff_result(outcome)),
        ),
        (StateView::ResolveCredential { diff }, EventView::CredentialRead(key)) => Some(
            after_credential(diff, key),
        ),
        (StateView::Generate, EventView::ReplyArrived(reply)) => Some(
            after_generation(generation_result(reply)),
        ),
        (StateView::Confirm { message }, EventView::LineRead(line)) => Some(
            after_answer(message, line),
        ),
        (StateView::Commit, EventView::ToolFinished(outcome)) => Some(
            after_commit(commit_result(outcome)),
        ),
        _ => None,
    }
}

/// How far a state is along the flow. No transition leads to a state that
/// is not further along.
pub open spec fn rank(state: StateView) -> nat {
    match state {
        StateView::CheckRepo => 0,
        StateView::LoadEnv => 1,
        StateView::CollectDiff => 2,
        StateView::ResolveCredential { diff } => 3,
        StateView::Generate => 4,
        StateView::Confirm { message } => 5,
        StateView::Commit => 6,
        StateView::End => 7,
    }
}

/// What holds of every state that a run can be in: a diff that is kept for
/// the request is not empty.
pub open spec fn well_formed(state: StateView) -> bool {
    match state {
        StateView::ResolveCredential { diff } => diff.len() > 0,
        _ => true,
    }
}

/// Whether an action invokes the version-control tool.
pub open spec fn runs_tool(action: ActionView) -> bool {
    action is CollectDiff || action is Commit
}

/// Whether an action reaches out to the provider.
pub open spec fn calls_provider(action: ActionView) -> bool {
    action is Send
}

/// The transitions that a sequence of events drives the flow through,
/// starting in `state`. The run ends with the events, or at the first event
/// that the state it meets does not wait for.
pub open spec fn run(state: StateView, events: Seq<EventView>) -> Seq<TransitionView>
    decreases events.len(),
{
    if events.len() == 0 {
        seq![]
    } else {
        match next(state, events[0]) {
            Some(t) => seq![t] + run(t.state, events.drop_first()),
            None => seq![],
        }
    }
}

/// The state in which the event at position `i` of a run is met.
pub open spec fn state_before(state: StateView, run: Seq<TransitionView>, i: int) -> StateView {
    if i == 0 {
        state
    } else {
        run[i - 1].state
    }
}

fn line_out(text: String) -> (line: Line)
    ensures
        line@ == to_stdout(text@),
{
    Line { stream: Stream::Stdout, text }
}

fn line_err(text: String) -> (line: Line)
    ensures
        line@ == to_stderr(text@),
{
    Line { stream: Stream::Stderr, text }
}

fn stop_after(line: Line) -> (t: Transition)
    ensures
        t@ == stop(seq![line@]),
{
    let mut prints: Vec<Line> = Vec::new();
    prints.push(line);
    let t = Transition { state: State::End, prints, action: Action::Stop };
    proof {
        assert(t@.prints =~= seq![line@]);
    }
    t
}

fn abort_with(why: String) -> (t: Transition)
    ensures
        t@ == abort(why@),
{
    let t = Transition { state: State::End, prints: Vec::new(), action: Action::Abort(why) };
    proof {
        assert(t@.prints =~= Seq::<LineView>::empty());
    }
    t
}

fn proceed_to(state: State, action: Action) -> (t: Transition)
    ensures
        t@ == proceed(state@, action@),
{
    let t = Transition { state, prints: Vec::new(), action };
    proof {
        assert(t@.prints =~= Seq::<LineView>::empty());
    }
    t
}

/// Opens a run: nothing is printed, and the repository is to be checked.
pub fn start() -> (t: Transition)
    ensures
        t@ == opening(),
{
    proceed_to(State::CheckRepo, Action::CheckRepository)
}

/// The move after the repository check.
pub fn on_repo_check(found: bool) -> (t: Transition)
    ensures
        t@ == after_repo_check(found),
{
    if found {
        proceed_to(State::LoadEnv, Action::LoadEnvironment)
    } else {
        stop_after(line_err(String::from_str("Current directory is not a Git repository.")))
    }
}

/// The move after the environment file was handled.
pub fn on_environment() -> (t: Transition)
    ensures
        t@ == after_environment(),
{
    proceed_to(State::CollectDiff, Action::CollectDiff(diff_command()))
}

/// The move after the diff step.
pub fn on_diff(diff: Result<String, String>) -> (t: Transition)
    ensures
        t@ == after_diff(text_result_view(diff)),
{
    match diff {
        Err(why) => stop_after(
            line_err(String::from_str("Error getting git diff: ").concat(why.as_str())),
        ),
        Ok(text) => {
            if text.as_str().is_empty() {
                stop_after(line_out(String::from_str("No changes detected.")))
            } else {
                proceed_to(
                    State::ResolveCredential { diff: text },
                    Action::ReadCredential(String::from_str("OPENAI_API_KEY")),
                )
            }
        },
    }
}

/// The move after the credential lookup, for the diff that was collected.
pub fn on_credential(diff: String, key: Option<String>) -> (t: Transition)
    ensures
        t@ == after_credential(diff@, optional_text_view(key)),
{
    match key {
        None => abort_with(String::from_str("OPENAI_API_KEY not set in .env file")),
        Some(key) => proceed_to(
            State::Generate,
            Action::Send(api_call(key.as_str(), diff.as_str())),
        ),
    }
}

/// The move after message generation.
pub fn on_generation(generated: Result<String, GenerateError>) -> (t: Transition)
    ensures
        t@ == after_generation(generated_view(generated)),
{
    match generated {
        Err(e) => {
            let why = e.describe();
            stop_after(
                line_err(
                    String::from_str("Error generating commit message: ").concat(why.as_str()),
                ),
            )
        },
        Ok(message) => {
            let mut prints: Vec<Line> = Vec::new();
            prints.push(
                line_out(String::from_str("Generated commit message:\n").concat(message.as_str())),
            );
            prints.push(line_out(String::from_str("Do you want to commit these changes? (y/n)")));
            let t = Transition {
                state: State::Confirm { message },
                prints,
                action: Action::ReadLine,
            };
            proof {
                assert(t@.prints =~= seq![to_stdout(proposal_text(message@)), to_stdout(prompt_text())]);
            }
            t
        },
    }
}

/// The move after the console read, for the message that was proposed.
pub fn on_answer(message: String, line: Option<String>) -> (t: Transition)
    ensures
        t@ == after_answer(message@, optional_text_view(line)),
{
    match line {
        None => abort_with(String::from_str("Failed to read input")),
        Some(answer) => {
            if is_confirmation(answer.as_str()) {
                proceed_to(State::Commit, Action::Commit(commit_command(message.as_str())))
            } else {
                stop_after(line_out(String::from_str("Commit canceled.")))
            }
        },
    }
}

/// The move after the commit step.
pub fn on_commit(done: Result<(), String>) -> (t: Transition)
    ensures
        t@ == after_commit(unit_result_view(done)),
{
    match done {
        Ok(_) => stop_after(line_out(String::from_str("Changes committed successfully."))),
        Err(why) => stop_after(
            line_err(String::from_str("Error committing changes: ").concat(why.as_str())),
        ),
    }
}

/// Moves the flow by one event. The result is `None` exactly when the event
/// is not the one that the state waits for; the state is then spent.
pub fn step(state: State, event: Event) -> (t: Option<Transition>)
    ensures
        optional_transition_view(t) == next(state@, event@),
{
    match (state, event) {
        (State::CheckRepo, Event::RepoChecked(found)) => Some(on_repo_check(found)),
        (State::LoadEnv, Event::EnvironmentLoaded) => Some(on_environment()),
        (State::CollectDiff, Event::ToolFinished(outcome)) => Some(
            on_diff(get_git_diff(&outcome)),
        ),
        (State::ResolveCredential { diff }, Event::CredentialRead(key)) => Some(
            on_credential(diff, key),
        ),
        (State::Generate, Event::ReplyArrived(reply)) => Some(
            on_generation(generate_commit_message(&reply)),
        ),
        (State::Confirm { message }, Event::LineRead(line)) => Some(on_answer(message, line)),
        (State::Commit, Event::ToolFinished(outcome)) => Some(on_commit(commit_changes(&outcome))),
        _ => None,
    }
}

} // verus!
