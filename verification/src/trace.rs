//! Runs of the turn machine over whole sequences of inputs, and what holds of
//! every such run.

use vstd::prelude::*;
use crate::events::ViewerEventView;
use crate::extract::RequestView;
use crate::text::occurs_in;
use crate::tools::{lemma_failure_is_reported, outcome_line, ToolResultView};
use crate::transcript::Role;
use crate::turn::{call_of, DirectiveView, Phase, Transition, TurnInputView, TurnState};

verus! {

/// The state after `inputs` have been taken in order, starting in `start`.
pub open spec fn run(start: TurnState, inputs: Seq<TurnInputView>) -> TurnState
    decreases inputs.len(),
{
    if inputs.len() == 0 {
        start
    } else {
        run(start, inputs.drop_last()).transition(inputs.last()).state
    }
}

/// The step that input number `i` causes in the run of `inputs` from `start`.
pub open spec fn step_at(start: TurnState, inputs: Seq<TurnInputView>, i: int) -> Transition
    recommends
        0 <= i < inputs.len(),
{
    run(start, inputs.take(i)).transition(inputs[i])
}

/// How often the run of `inputs` from `start` directs a model call.
pub open spec fn model_calls(start: TurnState, inputs: Seq<TurnInputView>) -> nat
    decreases inputs.len(),
{
    if inputs.len() == 0 {
        0
    } else {
        let earlier = model_calls(start, inputs.drop_last());
        if run(start, inputs.drop_last()).transition(inputs.last()).directive is CallModel {
            earlier + 1
        } else {
            earlier
        }
    }
}

/// How many user messages start a turn in the run of `inputs` from `start`.
pub open spec fn turns_started(start: TurnState, inputs: Seq<TurnInputView>) -> nat
    decreases inputs.len(),
{
    if inputs.len() == 0 {
        0
    } else {
        let earlier = turns_started(start, inputs.drop_last());
        if run(start, inputs.drop_last()).phase == Phase::AwaitingUser
            && inputs.last() is UserMessage {
            earlier + 1
        } else {
            earlier
        }
    }
}

/// The model calls that the turn in progress may still make.
pub open spec fn calls_left(state: TurnState) -> int {
    if state.phase == Phase::AwaitingUser {
        0
    } else {
        state.max_rounds - state.rounds
    }
}

/// The outcomes as the inputs that report them.
pub open spec fn as_inputs(outcomes: Seq<ToolResultView>) -> Seq<TurnInputView> {
    outcomes.map_values(|o: ToolResultView| TurnInputView::ToolOutcome(o))
}

/// The outcome lines of the invocations `pending[from..]`, one per outcome.
pub open spec fn gathered(
    pending: Seq<RequestView>,
    from: int,
    outcomes: Seq<ToolResultView>,
) -> Seq<Seq<char>> {
    Seq::new(outcomes.len(), |i: int| outcome_line(pending[from + i].name, outcomes[i]))
}

/// Every step leads from a state that the machine can be in to another, and
/// leaves the cap as it is.
pub proof fn lemma_step_keeps_wf(state: TurnState, input: TurnInputView)
    requires
        state.wf(),
    ensures
        state.transition(input).state.wf(),
        state.transition(input).state.max_rounds == state.max_rounds,
{
}

/// Every run leads from a state that the machine can be in to another, and
/// leaves the cap as it is.
pub proof fn lemma_run_keeps_wf(start: TurnState, inputs: Seq<TurnInputView>)
    requires
        start.wf(),
    ensures
        run(start, inputs).wf(),
        run(start, inputs).max_rounds == start.max_rounds,
    decreases inputs.len(),
{
    if inputs.len() > 0 {
        lemma_run_keeps_wf(start, inputs.drop_last());
        lemma_step_keeps_wf(run(start, inputs.drop_last()), inputs.last());
    }
}

/// The transcript only grows: whatever happens, what it held stays where it
/// was, and every step adds to its end or leaves it alone.
pub proof fn lemma_transcript_only_grows(start: TurnState, inputs: Seq<TurnInputView>)
    requires
        start.wf(),
    ensures
        start.transcript.is_prefix_of(run(start, inputs).transcript),
    decreases inputs.len(),
{
    if inputs.len() > 0 {
        let earlier = inputs.drop_last();
        lemma_transcript_only_grows(start, earlier);
        lemma_run_keeps_wf(start, earlier);
        let before = run(start, earlier);
        let after = before.transition(inputs.last()).state;
        assert(before.transcript.is_prefix_of(after.transcript));
    }
}

proof fn lemma_step_spends_a_call(state: TurnState, input: TurnInputView)
    requires
        state.wf(),
    ensures
        ({
            let taken = state.transition(input);
            let called: int = if taken.directive is CallModel {
                1
            } else {
                0
            };
            let started: int = if state.phase == Phase::AwaitingUser && input is UserMessage {
                state.max_rounds as int
            } else {
                0
            };
            called + calls_left(taken.state) <= calls_left(state) + started
        }),
{
}

proof fn lemma_calls_within_budget(start: TurnState, inputs: Seq<TurnInputView>)
    requires
        start.wf(),
    ensures
        model_calls(start, inputs) + calls_left(run(start, inputs)) <= calls_left(start)
            + turns_started(start, inputs) * start.max_rounds,
    decreases inputs.len(),
{
    if inputs.len() > 0 {
        let earlier = inputs.drop_last();
        lemma_calls_within_budget(start, earlier);
        lemma_run_keeps_wf(start, earlier);
        lemma_step_spends_a_call(run(start, earlier), inputs.last());
        let n = turns_started(start, earlier) as int;
        let cap = start.max_rounds as int;
        assert((n + 1) * cap == n * cap + cap) by (nonlinear_arith);
    }
}

/// However the model answers, no turn makes more model calls than the cap
/// allows: over any run that starts between turns, the model calls number at
/// most the cap times the turns started.
pub proof fn lemma_model_calls_are_capped(start: TurnState, inputs: Seq<TurnInputView>)
    requires
        start.wf(),
        start.phase == Phase::AwaitingUser,
    ensures
        model_calls(start, inputs) <= turns_started(start, inputs) * start.max_rounds,
{
    lemma_calls_within_budget(start, inputs);
    lemma_run_keeps_wf(start, inputs);
}

/// While outcomes come in for a round that has more invocations left, the
/// machine stays in that round, moves on by one invocation per outcome and
/// notes one line per outcome.
pub proof fn lemma_dispatch_progress(start: TurnState, outcomes: Seq<ToolResultView>, taken: int)
    requires
        start.wf(),
        start.phase == Phase::ToolDispatch,
        0 <= taken <= outcomes.len(),
        start.next + taken < start.pending.len(),
    ensures
        run(start, as_inputs(outcomes).take(taken)) == (TurnState {
            next: (start.next + taken) as nat,
            lines: start.lines + gathered(start.pending, start.next as int, outcomes.take(taken)),
            ..start
        }),
    decreases taken,
{
    let inputs = as_inputs(outcomes).take(taken);
    if taken == 0 {
        assert(start.lines + gathered(start.pending, start.next as int, outcomes.take(0))
            =~= start.lines);
    } else {
        lemma_dispatch_progress(start, outcomes, taken - 1);
        assert(inputs.drop_last() =~= as_inputs(outcomes).take(taken - 1));
        assert(inputs.last() == TurnInputView::ToolOutcome(outcomes[taken - 1]));
        let before = run(start, inputs.drop_last());
        assert(before.lines.push(
            outcome_line(before.pending[before.next as int].name, outcomes[taken - 1]),
        ) =~= start.lines + gathered(start.pending, start.next as int, outcomes.take(taken)));
    }
}

/// The tools of one round run in the order in which the answer requested
/// them, and their results are shown in that order: when outcome number `k`
/// of the round arrives, the tool that was to be run is invocation number `k`,
/// the event that the outcome causes names that invocation, and the tool to
/// run next is the invocation that follows it.
pub proof fn lemma_tools_run_in_order(
    state: TurnState,
    found: Seq<RequestView>,
    outcomes: Seq<ToolResultView>,
    k: int,
)
    requires
        state.wf(),
        state.phase == Phase::Streaming,
        found.len() > 0,
        outcomes.len() == found.len(),
        0 <= k < found.len(),
    ensures
        ({
            let begun = state.on_answer(Some(found));
            let before = run(begun.state, as_inputs(outcomes).take(k));
            let taken = step_at(begun.state, as_inputs(outcomes), k);
            &&& begun.directive == DirectiveView::Execute(call_of(found[0]))
            &&& before.phase == Phase::ToolDispatch
            &&& before.awaited() == DirectiveView::Execute(call_of(found[k]))
            &&& taken.events[0] == (ViewerEventView::ToolResult {
                tool: found[k].name,
                result: outcomes[k].result,
                success: outcomes[k].success,
            })
            &&& k + 1 < found.len() ==> taken.directive == DirectiveView::Execute(
                call_of(found[k + 1]),
            )
        }),
{
    let begun = state.on_answer(Some(found));
    lemma_dispatch_progress(begun.state, outcomes, k);
}

/// A tool that fails does not end the turn, and the model gets to see why it
/// failed. When the last outcome of a round has come in, the transcript has
/// grown by one tool entry in which the reason of every failed run of the
/// round occurs; and unless the cap is reached, the model is called again
/// with that transcript.
pub proof fn lemma_failure_reaches_the_model(
    state: TurnState,
    outcomes: Seq<ToolResultView>,
    failed: int,
)
    requires
        state.wf(),
        state.phase == Phase::ToolDispatch,
        state.next + outcomes.len() == state.pending.len(),
        0 <= failed < outcomes.len(),
        !outcomes[failed].success,
        outcomes[failed].error is Some,
    ensures
        ({
            let closing = step_at(state, as_inputs(outcomes), outcomes.len() - 1);
            let entry = closing.state.transcript.last();
            &&& closing.state.transcript == state.transcript.push(entry)
            &&& entry.0 == Role::Tool
            &&& occurs_in(outcomes[failed].error.unwrap(), entry.1)
            &&& state.rounds < state.max_rounds ==> closing.directive == DirectiveView::CallModel(
                closing.state.transcript,
            )
            &&& state.rounds >= state.max_rounds ==> closing.directive == DirectiveView::AwaitUser
                && closing.events.last() == ViewerEventView::End
        }),
{
    let last = outcomes.len() - 1;
    lemma_dispatch_progress(state, outcomes, last);
    let before = run(state, as_inputs(outcomes).take(last));
    let lines = before.lines.push(
        outcome_line(before.pending[before.next as int].name, outcomes[last]),
    );
    assert(lines =~= state.lines + gathered(state.pending, state.next as int, outcomes));
    lemma_failure_is_reported(
        lines,
        state.lines.len() + failed,
        state.pending[state.next + failed].name,
        outcomes[failed],
    );
}

} // verus!
