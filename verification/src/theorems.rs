//! What holds of every run of the flow.

use vstd::prelude::*;
use crate::chat::{
    call_for, first_content, no_response_text, request_for, system_prompt, ChatResponseView,
    GenerateErrorView, MessageView,
};
use crate::confirm::selects_commit;
use crate::flow::{
    abort, after_environment, after_repo_check, calls_provider, credential_missing_text,
    generation_error_text, initial, next, no_changes_text, not_a_repository_text, proceed,
    prompt_text, proposal_text, rank, run, runs_tool, state_before, stop, to_stderr, to_stdout,
    well_formed, ActionView, EventView, StateView, TransitionView,
};
use crate::tool::{commit_invocation, diff_result, ToolOutcomeView};

verus! {

/// The flow only moves forward: the state after a transition is further
/// along than the state before it.
pub proof fn no_way_back(state: StateView, event: EventView)
    requires
        next(state, event) is Some,
    ensures
        rank(next(state, event)->0.state) > rank(state),
{
}

/// The last state is final: it has no transition, whatever the event.
pub proof fn end_is_final(event: EventView)
    ensures
        next(StateView::End, event) is None,
{
}

/// A transition that stops or aborts leaves the flow in its last state.
pub proof fn stopping_is_terminal(state: StateView, event: EventView)
    requires
        next(state, event) is Some,
    ensures
        ({
            let t = next(state, event)->0;
            (t.action is Stop || t.action is Abort) <==> t.state is End
        }),
{
}

/// Every state of a run keeps a non-empty diff where it keeps one.
pub proof fn well_formed_is_kept(state: StateView, event: EventView)
    requires
        well_formed(state),
        next(state, event) is Some,
    ensures
        well_formed(initial()),
        well_formed(next(state, event)->0.state),
{
}

/// Each transition of a run is the one that the state before it has for the
/// event at its position, and the run is no longer than its events.
pub proof fn run_follows_next(state: StateView, events: Seq<EventView>)
    ensures
        run(state, events).len() <= events.len(),
        forall|i: int|
            0 <= i < run(state, events).len() ==> next(
                state_before(state, run(state, events), i),
                #[trigger] events[i],
            ) == Some(run(state, events)[i]),
    decreases events.len(),
{
    if events.len() > 0 {
        match next(state, events[0]) {
            Some(t) => {
                let rest = events.drop_first();
                run_follows_next(t.state, rest);
                let tail = run(t.state, rest);
                let whole = run(state, events);
                assert(whole =~= seq![t] + tail);
                assert forall|i: int| 0 <= i < whole.len() implies next(
                    state_before(state, whole, i),
                    #[trigger] events[i],
                ) == Some(whole[i]) by {
                    if i > 0 {
                        assert(events[i] == rest[i - 1]);
                        assert(whole[i] == tail[i - 1]);
                        assert(state_before(state, whole, i) == state_before(
                            t.state,
                            tail,
                            i - 1,
                        ));
                    }
                }
            },
            None => {},
        }
    }
}

/// A run has at most as many transitions as there are states left to pass.
pub proof fn run_is_bounded(state: StateView, events: Seq<EventView>)
    ensures
        run(state, events).len() + rank(state) <= 7,
    decreases events.len(),
{
    if events.len() > 0 {
        match next(state, events[0]) {
            Some(t) => {
                run_is_bounded(t.state, events.drop_first());
            },
            None => {},
        }
    }
}

/// Along a run the states only move forward: a later transition ends
/// further along than an earlier one.
pub proof fn ranks_grow_along_run(state: StateView, events: Seq<EventView>, j: int, k: int)
    requires
        0 <= j <= k < run(state, events).len(),
    ensures
        rank(run(state, events)[j].state) <= rank(run(state, events)[k].state),
        j < k ==> rank(run(state, events)[j].state) < rank(run(state, events)[k].state),
    decreases k - j,
{
    if j < k {
        ranks_grow_along_run(state, events, j, k - 1);
        run_follows_next(state, events);
        let before = state_before(state, run(state, events), k);
        assert(next(before, events[k]) == Some(run(state, events)[k]));
        no_way_back(before, events[k]);
    }
}

/// The action of a transition tells the state it leads to: the tool is
/// invoked and the provider is called only on the way into the state that
/// waits for their outcome.
pub proof fn action_tells_state(state: StateView, event: EventView)
    requires
        next(state, event) is Some,
    ensures
        ({
            let t = next(state, event)->0;
            &&& t.action is LoadEnvironment <==> t.state is LoadEnv
            &&& t.action is CollectDiff <==> t.state is CollectDiff
            &&& t.action is ReadCredential <==> t.state is ResolveCredential
            &&& t.action is Send <==> t.state is Generate
            &&& t.action is ReadLine <==> t.state is Confirm
            &&& t.action is Commit <==> t.state is Commit
            &&& !(t.action is CheckRepository)
        }),
{
}

/// Outside a repository the run consists of one transition, which prints
/// the diagnostic on the error stream and stops: the tool is not invoked and
/// the provider is not called, whatever events follow.
pub proof fn not_a_repository_ends_the_run(events: Seq<EventView>)
    requires
        events.len() > 0,
        events[0] == EventView::RepoChecked(false),
    ensures
        run(initial(), events) == seq![stop(seq![to_stderr(not_a_repository_text())])],
        forall|i: int|
            0 <= i < run(initial(), events).len() ==> {
                let action = #[trigger] run(initial(), events)[i].action;
                !runs_tool(action) && !calls_provider(action)
            },
{
    reveal_with_fuel(run, 3);
    assert(run(initial(), events) =~= seq![stop(seq![to_stderr(not_a_repository_text())])]);
}

/// Where the diff step succeeds with an empty diff, the run ends after the
/// notice: no request is built and nothing is committed, whatever events
/// follow.
pub proof fn empty_diff_ends_the_run(events: Seq<EventView>, outcome: ToolOutcomeView)
    requires
        events.len() >= 3,
        events[0] == EventView::RepoChecked(true),
        events[1] == EventView::EnvironmentLoaded,
        events[2] == EventView::ToolFinished(outcome),
        diff_result(outcome) == Ok::<Seq<char>, Seq<char>>(Seq::empty()),
    ensures
        run(initial(), events) == seq![
            after_repo_check(true),
            after_environment(),
            stop(seq![to_stdout(no_changes_text())]),
        ],
        forall|i: int|
            0 <= i < run(initial(), events).len() ==> {
                let action = #[trigger] run(initial(), events)[i].action;
                !calls_provider(action) && !(action is Commit)
            },
{
    reveal_with_fuel(run, 5);
    let e1 = events.drop_first();
    let e2 = e1.drop_first();
    assert(e1[0] == events[1]);
    assert(e2[0] == events[2]);
    assert(run(initial(), events) =~= seq![
        after_repo_check(true),
        after_environment(),
        stop(seq![to_stdout(no_changes_text())]),
    ]);
}

/// The request that is sent carries the collected diff: its message list
/// has two entries, the system instruction and then the diff, unchanged, as
/// the user's message.
pub proof fn request_carries_the_diff(diff: Seq<char>, key: Seq<char>)
    ensures
        next(StateView::ResolveCredential { diff }, EventView::CredentialRead(Some(key))) == Some(
            proceed(StateView::Generate, ActionView::Send(call_for(key, diff))),
        ),
        call_for(key, diff).body == request_for(diff),
        request_for(diff).messages.len() == 2,
        request_for(diff).messages[0] == (MessageView {
            role: "system"@,
            content: system_prompt(),
        }),
        request_for(diff).messages[1] == (MessageView { role: "user"@, content: diff }),
{
}

/// Without a credential the run aborts, whatever the diff: the failed
/// lookup is the last transition of the run, and no transition of the run
/// calls the provider.
pub proof fn missing_credential_aborts(events: Seq<EventView>, i: int)
    requires
        0 <= i < run(initial(), events).len(),
        events[i] == EventView::CredentialRead(None),
    ensures
        run(initial(), events).len() == i + 1,
        run(initial(), events)[i] == abort(credential_missing_text()),
        forall|j: int|
            0 <= j < run(initial(), events).len() ==> !calls_provider(
                #[trigger] run(initial(), events)[j].action,
            ),
{
    let taken = run(initial(), events);
    run_follows_next(initial(), events);
    let before = state_before(initial(), taken, i);
    assert(next(before, events[i]) == Some(taken[i]));
    assert(before is ResolveCredential);
    if taken.len() > i + 1 {
        assert(next(state_before(initial(), taken, i + 1), events[i + 1]) == Some(taken[i + 1]));
    }
    assert forall|j: int| 0 <= j < taken.len() implies !calls_provider(
        #[trigger] taken[j].action,
    ) by {
        if j < i {
            assert(next(state_before(initial(), taken, j), events[j]) == Some(taken[j]));
            action_tells_state(state_before(initial(), taken, j), events[j]);
            ranks_grow_along_run(initial(), events, j, i - 1);
        }
    }
}

/// A reply without candidates fails generation with the "no response"
/// error: its report is the last transition of the run, and no transition
/// of the run invokes the commit.
pub proof fn no_candidates_no_commit(events: Seq<EventView>, i: int, response: ChatResponseView)
    requires
        0 <= i < run(initial(), events).len(),
        events[i] == EventView::ReplyArrived(Ok(response)),
        response.choices.len() == 0,
    ensures
        first_content(response) == Err::<Seq<char>, GenerateErrorView>(
            GenerateErrorView::NoResponse,
        ),
        run(initial(), events).len() == i + 1,
        run(initial(), events)[i] == stop(
            seq![to_stderr(generation_error_text(no_response_text()))],
        ),
        forall|j: int|
            0 <= j < run(initial(), events).len() ==> !(#[trigger] run(
                initial(),
                events,
            )[j].action is Commit),
{
    let taken = run(initial(), events);
    run_follows_next(initial(), events);
    let before = state_before(initial(), taken, i);
    assert(next(before, events[i]) == Some(taken[i]));
    assert(before is Generate);
    if taken.len() > i + 1 {
        assert(next(state_before(initial(), taken, i + 1), events[i + 1]) == Some(taken[i + 1]));
    }
    assert forall|j: int| 0 <= j < taken.len() implies !(#[trigger] taken[j].action is Commit) by {
        if j < i {
            assert(next(state_before(initial(), taken, j), events[j]) == Some(taken[j]));
            action_tells_state(state_before(initial(), taken, j), events[j]);
            ranks_grow_along_run(initial(), events, j, i - 1);
        }
    }
}

/// A reply with candidates yields the content of the first one, as it came:
/// that content is shown under the header, kept for the commit, and the
/// user is asked.
pub proof fn first_candidate_is_proposed(response: ChatResponseView)
    requires
        response.choices.len() > 0,
    ensures
        first_content(response) == Ok::<Seq<char>, GenerateErrorView>(
            response.choices[0].message.content,
        ),
        next(StateView::Generate, EventView::ReplyArrived(Ok(response))) == Some(
            TransitionView {
                state: StateView::Confirm { message: response.choices[0].message.content },
                prints: seq![
                    to_stdout(proposal_text(response.choices[0].message.content)),
                    to_stdout(prompt_text()),
                ],
                action: ActionView::ReadLine,
            },
        ),
{
}

/// What is taken from a reply depends on its first candidate's content
/// alone: two replies that agree on it yield the same message and the same
/// transition, whatever else they hold.
pub proof fn later_candidates_do_not_matter(a: ChatResponseView, b: ChatResponseView)
    requires
        a.choices.len() > 0,
        b.choices.len() > 0,
        a.choices[0].message.content == b.choices[0].message.content,
    ensures
        first_content(a) == first_content(b),
        next(StateView::Generate, EventView::ReplyArrived(Ok(a))) == next(
            StateView::Generate,
            EventView::ReplyArrived(Ok(b)),
        ),
{
}

/// The commit is invoked only on the user's yes, and then with the message
/// that was proposed.
pub proof fn commit_needs_consent(state: StateView, event: EventView)
    requires
        next(state, event) is Some,
        next(state, event)->0.action is Commit,
    ensures
        state is Confirm,
        event is LineRead,
        event->LineRead_0 is Some,
        selects_commit(event->LineRead_0->0),
        next(state, event)->0.action == ActionView::Commit(
            commit_invocation(state->Confirm_message),
        ),
{
}

/// The provider is called only for a diff that was collected and with a
/// credential that was found.
pub proof fn send_needs_diff_and_credential(state: StateView, event: EventView)
    requires
        next(state, event) is Some,
        next(state, event)->0.action is Send,
    ensures
        state is ResolveCredential,
        event is CredentialRead,
        event->CredentialRead_0 is Some,
        next(state, event)->0.action == ActionView::Send(
            call_for(event->CredentialRead_0->0, state->ResolveCredential_diff),
        ),
{
}

} // verus!
