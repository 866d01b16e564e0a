//! The state machine that drives one conversational turn.
//!
//! A turn starts with a user message. The model is called, its answer is
//! streamed through the markup filter, and the tools that it requests are run
//! one after the other, in the order in which they were requested. Their
//! outcomes go back to the model in a further round, until the model answers
//! without a request or the cap on rounds is reached.
//!
//! The machine itself calls no model and runs no tool. Each step takes what
//! happened and tells the driver what to send to the viewers and what to do
//! next.

use vstd::prelude::*;
use crate::events::{event_views, ViewerEvent, ViewerEventView};
use crate::extract::{extraction, parse_tool_requests, request_views, CustomToolRequest, RequestView};
use crate::markup::{initial_state, shows, step, FilterState, MarkupFilter};
use crate::tools::{describe_outcome, format_results, outcome_line, results_entry, ToolCall, ToolCallView, ToolResult, ToolResultView};
use crate::transcript::{Role, Transcript, TranscriptEntry};

verus! {

/// The usual cap on model calls per turn.
pub const DEFAULT_MAX_ROUNDS: usize = 5;

/// Where a turn stands.
#[derive(Clone, Copy, Debug, PartialEq, Eq, Structural)]
pub enum Phase {
    /// No turn is running.
    AwaitingUser,
    /// The model is answering.
    Streaming,
    /// The tools of the last answer are running.
    ToolDispatch,
}

/// What happened, as the driver reports it.
#[derive(Clone, Debug, PartialEq)]
pub enum TurnInput {
    /// A viewer said something.
    UserMessage(String),
    /// The model sent the next fragment of its answer.
    Fragment(String),
    /// The model's answer is complete.
    StreamEnd,
    /// The model could not be reached, or its stream broke.
    StreamFailed,
    /// The tool that was to be run has run.
    ToolOutcome(ToolResult),
}

/// The content of a [`TurnInput`].
pub enum TurnInputView {
    UserMessage(Seq<char>),
    Fragment(Seq<char>),
    StreamEnd,
    StreamFailed,
    ToolOutcome(ToolResultView),
}

impl View for TurnInput {
    type V = TurnInputView;

    open spec fn view(&self) -> TurnInputView {
        match self {
            TurnInput::UserMessage(text) => TurnInputView::UserMessage(text@),
            TurnInput::Fragment(text) => TurnInputView::Fragment(text@),
            TurnInput::StreamEnd => TurnInputView::StreamEnd,
            TurnInput::StreamFailed => TurnInputView::StreamFailed,
            TurnInput::ToolOutcome(outcome) => TurnInputView::ToolOutcome(outcome@),
        }
    }
}

/// What the driver is to do next.
#[derive(Clone, Debug, PartialEq)]
pub enum Directive {
    /// Wait for the next user message.
    AwaitUser,
    /// Open a stream to the model with this context, then report its fragments.
    CallModel(Vec<TranscriptEntry>),
    /// Report the next fragment of the open stream, or its end.
    AwaitFragment,
    /// Run this tool and report its outcome.
    Execute(ToolCall),
}

/// The content of a [`Directive`].
pub enum DirectiveView {
    AwaitUser,
    CallModel(Seq<(Role, Seq<char>)>),
    AwaitFragment,
    Execute(ToolCallView),
}

impl View for Directive {
    type V = DirectiveView;

    open spec fn view(&self) -> DirectiveView {
        match self {
            Directive::AwaitUser => DirectiveView::AwaitUser,
            Directive::CallModel(context) => DirectiveView::CallModel(
                context@.map_values(|e: TranscriptEntry| e@),
            ),
            Directive::AwaitFragment => DirectiveView::AwaitFragment,
            Directive::Execute(call) => DirectiveView::Execute(call@),
        }
    }
}

/// What one step hands to the driver.
#[derive(Clone, Debug, PartialEq)]
pub struct TurnOutput {
    /// The events to broadcast, in this order.
    pub events: Vec<ViewerEvent>,
    /// What to do once they are sent.
    pub directive: Directive,
}

/// The state of the machine, as the contracts see it.
pub struct TurnState {
    /// The conversation so far.
    pub transcript: Seq<(Role, Seq<char>)>,
    /// The cap on model calls per turn.
    pub max_rounds: nat,
    /// Where the turn stands.
    pub phase: Phase,
    /// The model calls made in the current turn.
    pub rounds: nat,
    /// The markup filter of the answer that is streaming.
    pub filter: FilterState,
    /// The invocations of the current round.
    pub pending: Seq<RequestView>,
    /// The index of the invocation that is running.
    pub next: nat,
    /// The outcome lines of the invocations that have run.
    pub lines: Seq<Seq<char>>,
}

/// The outcome of one step, as the contracts see it.
pub struct Transition {
    pub state: TurnState,
    pub events: Seq<ViewerEventView>,
    pub directive: DirectiveView,
}

/// The call that runs an invocation.
pub open spec fn call_of(request: RequestView) -> ToolCallView {
    ToolCallView { name: request.name, arguments: request.arguments }
}

/// The names of a list of invocations, in order.
pub open spec fn names_of(requests: Seq<RequestView>) -> Seq<Seq<char>> {
    requests.map_values(|r: RequestView| r.name)
}

impl TurnState {
    /// The state is one that the machine can be in.
    pub open spec fn wf(self) -> bool {
        match self.phase {
            Phase::AwaitingUser => {
                &&& self.rounds == 0
                &&& self.filter == initial_state()
                &&& self.pending.len() == 0
                &&& self.next == 0
                &&& self.lines.len() == 0
            },
            Phase::Streaming => {
                &&& 1 <= self.rounds <= self.max_rounds
                &&& self.pending.len() == 0
                &&& self.next == 0
                &&& self.lines.len() == 0
            },
            Phase::ToolDispatch => {
                &&& 1 <= self.rounds <= self.max_rounds
                &&& self.filter == initial_state()
                &&& self.next < self.pending.len()
                &&& self.lines.len() == self.next
            },
        }
    }

    /// The state between two turns, with the given transcript.
    pub open spec fn idle(self, transcript: Seq<(Role, Seq<char>)>) -> TurnState {
        TurnState {
            transcript,
            max_rounds: self.max_rounds,
            phase: Phase::AwaitingUser,
            rounds: 0,
            filter: initial_state(),
            pending: Seq::empty(),
            next: 0,
            lines: Seq::empty(),
        }
    }

    /// The state at the start of round number `round`, with the given transcript.
    pub open spec fn streaming(self, transcript: Seq<(Role, Seq<char>)>, round: nat) -> TurnState {
        TurnState {
            transcript,
            max_rounds: self.max_rounds,
            phase: Phase::Streaming,
            rounds: round,
            filter: initial_state(),
            pending: Seq::empty(),
            next: 0,
            lines: Seq::empty(),
        }
    }

    /// What the machine is waiting for in this state.
    pub open spec fn awaited(self) -> DirectiveView {
        match self.phase {
            Phase::AwaitingUser => DirectiveView::AwaitUser,
            Phase::Streaming => DirectiveView::AwaitFragment,
            Phase::ToolDispatch => DirectiveView::Execute(call_of(self.pending[self.next as int])),
        }
    }

    /// An input that does not fit the phase changes nothing.
    pub open spec fn stay(self) -> Transition {
        Transition { state: self, events: Seq::empty(), directive: self.awaited() }
    }

    /// A user message starts a turn: it joins the transcript and the model is
    /// called, unless the cap allows no call at all.
    pub open spec fn on_user_message(self, text: Seq<char>) -> Transition {
        let transcript = self.transcript.push((Role::User, text));
        if self.max_rounds == 0 {
            Transition {
                state: self.idle(transcript),
                events: seq![ViewerEventView::Start, ViewerEventView::End],
                directive: DirectiveView::AwaitUser,
            }
        } else {
            Transition {
                state: self.streaming(transcript, 1),
                events: seq![ViewerEventView::Start],
                directive: DirectiveView::CallModel(transcript),
            }
        }
    }

    /// A fragment passes through the filter and is shown if the filter lets it.
    pub open spec fn on_fragment(self, text: Seq<char>) -> Transition {
        Transition {
            state: TurnState { filter: step(self.filter, text), ..self },
            events: if shows(self.filter, text) {
                seq![ViewerEventView::Chunk { content: text }]
            } else {
                Seq::empty()
            },
            directive: DirectiveView::AwaitFragment,
        }
    }

    /// A broken stream ends the turn without a word to the viewers. What the
    /// transcript holds stays.
    pub open spec fn on_stream_failed(self) -> Transition {
        Transition {
            state: self.idle(self.transcript),
            events: Seq::empty(),
            directive: DirectiveView::AwaitUser,
        }
    }

    /// The end of a round in which tools ran: their outcomes join the
    /// transcript, and the model is called again unless the cap is reached.
    pub open spec fn close_round(
        self,
        lines: Seq<Seq<char>>,
        events: Seq<ViewerEventView>,
    ) -> Transition {
        let transcript = self.transcript.push((Role::Tool, results_entry(lines)));
        if self.rounds < self.max_rounds {
            Transition {
                state: self.streaming(transcript, self.rounds + 1),
                events: events.push(ViewerEventView::Start),
                directive: DirectiveView::CallModel(transcript),
            }
        } else {
            Transition {
                state: self.idle(transcript),
                events: events.push(ViewerEventView::End),
                directive: DirectiveView::AwaitUser,
            }
        }
    }

    /// A complete answer joins the transcript. Without a request it is the
    /// final answer; with one, the tools are announced and the first is run.
    pub open spec fn on_answer(self, requests: Option<Seq<RequestView>>) -> Transition {
        let answered = TurnState {
            transcript: self.transcript.push((Role::Assistant, self.filter.raw)),
            filter: initial_state(),
            ..self
        };
        match requests {
            None => Transition {
                state: self.idle(answered.transcript),
                events: seq![ViewerEventView::End],
                directive: DirectiveView::AwaitUser,
            },
            Some(found) => {
                let announced = seq![ViewerEventView::ToolStart { tools: names_of(found) }];
                if found.len() == 0 {
                    answered.close_round(Seq::empty(), announced)
                } else {
                    Transition {
                        state: TurnState {
                            phase: Phase::ToolDispatch,
                            pending: found,
                            next: 0,
                            lines: Seq::empty(),
                            ..answered
                        },
                        events: announced,
                        directive: DirectiveView::Execute(call_of(found[0])),
                    }
                }
            },
        }
    }

    /// The outcome of the running tool is shown to the viewers and noted for
    /// the model, success or not. Then the next tool runs, or the round ends.
    pub open spec fn on_tool_outcome(self, outcome: ToolResultView) -> Transition {
        let current = self.pending[self.next as int];
        let lines = self.lines.push(outcome_line(current.name, outcome));
        let shown = seq![
            ViewerEventView::ToolResult {
                tool: current.name,
                result: outcome.result,
                success: outcome.success,
            },
        ];
        if self.next + 1 < self.pending.len() {
            Transition {
                state: TurnState { next: self.next + 1, lines, ..self },
                events: shown,
                directive: DirectiveView::Execute(call_of(self.pending[self.next + 1 as int])),
            }
        } else {
            self.close_round(lines, shown)
        }
    }

    /// The step that `input` causes in this state.
    pub open spec fn transition(self, input: TurnInputView) -> Transition {
        match (self.phase, input) {
            (Phase::AwaitingUser, TurnInputView::UserMessage(text)) => self.on_user_message(text),
            (Phase::Streaming, TurnInputView::Fragment(text)) => self.on_fragment(text),
            (Phase::Streaming, TurnInputView::StreamEnd) => self.on_answer(
                extraction(self.filter.raw),
            ),
            (Phase::Streaming, TurnInputView::StreamFailed) => self.on_stream_failed(),
            (Phase::ToolDispatch, TurnInputView::ToolOutcome(outcome)) => self.on_tool_outcome(
                outcome,
            ),
            _ => self.stay(),
        }
    }
}

/// The machine that drives the turns of one conversation.
pub struct TurnOrchestrator {
    transcript: Transcript,
    max_rounds: usize,
    phase: Phase,
    rounds: usize,
    filter: MarkupFilter,
    pending: Vec<CustomToolRequest>,
    next: usize,
    lines: Vec<String>,
}

impl View for TurnOrchestrator {
    type V = TurnState;

    closed spec fn view(&self) -> TurnState {
        TurnState {
            transcript: self.transcript@,
            max_rounds: self.max_rounds as nat,
            phase: self.phase,
            rounds: self.rounds as nat,
            filter: self.filter@,
            pending: request_views(self.pending@),
            next: self.next as nat,
            lines: self.lines@.map_values(|l: String| l@),
        }
    }
}

/// The output holds what the transition prescribes.
pub open spec fn carries(output: TurnOutput, transition: Transition) -> bool {
    &&& event_views(output.events@) == transition.events
    &&& output.directive@ == transition.directive
}

impl TurnOrchestrator {
    /// A machine between turns, with the system instructions as its whole
    /// transcript and `max_rounds` as the cap on model calls per turn.
    pub fn new(system_prompt: String, max_rounds: usize) -> (machine: TurnOrchestrator)
        ensures
            machine@.wf(),
            machine@.phase == Phase::AwaitingUser,
            machine@.max_rounds == max_rounds,
            machine@.transcript == seq![(Role::System, system_prompt@)],
    {
        let machine = TurnOrchestrator {
            transcript: Transcript::new(system_prompt),
            max_rounds,
            phase: Phase::AwaitingUser,
            rounds: 0,
            filter: MarkupFilter::new(),
            pending: Vec::new(),
            next: 0,
            lines: Vec::new(),
        };
        assert(machine@.pending =~= Seq::empty());
        assert(machine@.lines =~= Seq::empty());
        machine
    }

    /// Where the turn stands.
    pub fn phase(&self) -> (phase: Phase)
        ensures
            phase == self@.phase,
    {
        self.phase
    }

    /// The cap on model calls per turn.
    pub fn max_rounds(&self) -> (cap: usize)
        ensures
            cap == self@.max_rounds,
    {
        self.max_rounds
    }

    /// The model calls made so far in the current turn.
    pub fn rounds(&self) -> (rounds: usize)
        ensures
            rounds == self@.rounds,
    {
        self.rounds
    }

    /// The conversation so far.
    pub fn transcript(&self) -> (transcript: &Transcript)
        ensures
            transcript@ == self@.transcript,
    {
        &self.transcript
    }

    fn go_idle(&mut self)
        ensures
            final(self)@ == old(self)@.idle(old(self)@.transcript),
    {
        self.phase = Phase::AwaitingUser;
        self.rounds = 0;
        self.filter = MarkupFilter::new();
        self.pending = Vec::new();
        self.next = 0;
        self.lines = Vec::new();
        assert(self@.pending =~= Seq::empty());
        assert(self@.lines =~= Seq::empty());
    }

    fn go_streaming(&mut self, round: usize)
        ensures
            final(self)@ == old(self)@.streaming(old(self)@.transcript, round as nat),
    {
        self.phase = Phase::Streaming;
        self.rounds = round;
        self.filter = MarkupFilter::new();
        self.pending = Vec::new();
        self.next = 0;
        self.lines = Vec::new();
        assert(self@.pending =~= Seq::empty());
        assert(self@.lines =~= Seq::empty());
    }

    fn call_at(&self, index: usize) -> (call: ToolCall)
        requires
            index < self@.pending.len(),
        ensures
            call@ == call_of(self@.pending[index as int]),
    {
        let request = &self.pending[index];
        ToolCall { name: request.name.clone(), arguments: request.arguments.clone() }
    }

    fn user_message(&mut self, text: String) -> (output: TurnOutput)
        requires
            old(self)@.wf(),
            old(self)@.phase == Phase::AwaitingUser,
        ensures
            final(self)@ == old(self)@.on_user_message(text@).state,
            carries(output, old(self)@.on_user_message(text@)),
            final(self)@.wf(),
    {
        self.transcript.append(Role::User, text);
        let mut events: Vec<ViewerEvent> = Vec::new();
        events.push(ViewerEvent::Start);
        if self.max_rounds == 0 {
            events.push(ViewerEvent::End);
            self.go_idle();
            assert(event_views(events@) =~= seq![ViewerEventView::Start, ViewerEventView::End]);
            TurnOutput { events, directive: Directive::AwaitUser }
        } else {
            self.go_streaming(1);
            let context = self.transcript.snapshot();
            assert(event_views(events@) =~= seq![ViewerEventView::Start]);
            TurnOutput { events, directive: Directive::CallModel(context) }
        }
    }

    fn fragment(&mut self, text: String) -> (output: TurnOutput)
        requires
            old(self)@.wf(),
            old(self)@.phase == Phase::Streaming,
        ensures
            final(self)@ == old(self)@.on_fragment(text@).state,
            carries(output, old(self)@.on_fragment(text@)),
            final(self)@.wf(),
    {
        let visible = self.filter.feed(text.as_str());
        let mut events: Vec<ViewerEvent> = Vec::new();
        if visible {
            events.push(ViewerEvent::Chunk { content: text });
            assert(event_views(events@) =~= seq![ViewerEventView::Chunk { content: text@ }]);
        } else {
            assert(event_views(events@) =~= Seq::empty());
        }
        TurnOutput { events, directive: Directive::AwaitFragment }
    }

    fn stream_failed(&mut self) -> (output: TurnOutput)
        requires
            old(self)@.wf(),
            old(self)@.phase == Phase::Streaming,
        ensures
            final(self)@ == old(self)@.on_stream_failed().state,
            carries(output, old(self)@.on_stream_failed()),
            final(self)@.wf(),
    {
        self.go_idle();
        let events: Vec<ViewerEvent> = Vec::new();
        assert(event_views(events@) =~= Seq::empty());
        TurnOutput { events, directive: Directive::AwaitUser }
    }

    fn finish_round(&mut self, events: Vec<ViewerEvent>) -> (output: TurnOutput)
        requires
            1 <= old(self)@.rounds <= old(self)@.max_rounds,
        ensures
            final(self)@ == old(self)@.close_round(old(self)@.lines, event_views(events@)).state,
            carries(output, old(self)@.close_round(old(self)@.lines, event_views(events@))),
            final(self)@.wf(),
    {
        let mut events = events;
        let ghost before = events@;
        let entry = format_results(&self.lines);
        self.transcript.append(Role::Tool, entry);
        if self.rounds < self.max_rounds {
            events.push(ViewerEvent::Start);
            let round = self.rounds + 1;
            self.go_streaming(round);
            let context = self.transcript.snapshot();
            assert(event_views(events@) =~= event_views(before).push(ViewerEventView::Start));
            TurnOutput { events, directive: Directive::CallModel(context) }
        } else {
            events.push(ViewerEvent::End);
            self.go_idle();
            assert(event_views(events@) =~= event_views(before).push(ViewerEventView::End));
            TurnOutput { events, directive: Directive::AwaitUser }
        }
    }

    fn tool_outcome(&mut self, outcome: ToolResult) -> (output: TurnOutput)
        requires
            old(self)@.wf(),
            old(self)@.phase == Phase::ToolDispatch,
            outcome@.explained(),
        ensures
            final(self)@ == old(self)@.on_tool_outcome(outcome@).state,
            carries(output, old(self)@.on_tool_outcome(outcome@)),
            final(self)@.wf(),
    {
        let ghost start = self@;
        let ghost current = start.pending[start.next as int];
        let name = self.pending[self.next].name.clone();
        assert(name@ == current.name);
        let line = describe_outcome(name.as_str(), &outcome);
        self.lines.push(line);
        assert(self@.lines =~= start.lines.push(outcome_line(current.name, outcome@)));
        let mut events: Vec<ViewerEvent> = Vec::new();
        let shown = ViewerEvent::ToolResult {
            tool: name,
            result: outcome.result,
            success: outcome.success,
        };
        events.push(shown);
        assert(event_views(events@) =~= seq![shown@]);
        let count = self.pending.len();
        assert(self.next < count) by {
            assert(start.next < start.pending.len());
        }
        if self.next + 1 < count {
            self.next = self.next + 1;
            let call = self.call_at(self.next);
            TurnOutput { events, directive: Directive::Execute(call) }
        } else {
            self.finish_round(events)
        }
    }

    /// Takes the answer that has streamed as complete, with the invocations
    /// that were extracted from it. Outside the streaming phase this changes
    /// nothing.
    pub fn conclude_answer(&mut self, requests: Option<Vec<CustomToolRequest>>) -> (output:
        TurnOutput)
        requires
            old(self)@.wf(),
        ensures
            final(self)@.wf(),
            old(self)@.phase == Phase::Streaming ==> {
                let expected = old(self)@.on_answer(
                    match requests {
                        Some(found) => Some(request_views(found@)),
                        None => None,
                    },
                );
                final(self)@ == expected.state && carries(output, expected)
            },
            old(self)@.phase != Phase::Streaming ==> final(self)@ == old(self)@ && carries(
                output,
                old(self)@.stay(),
            ),
    {
        if self.phase != Phase::Streaming {
            return self.unmoved();
        }
        let raw = self.filter.take();
        self.transcript.append(Role::Assistant, raw);
        match requests {
            None => {
                self.go_idle();
                let mut events: Vec<ViewerEvent> = Vec::new();
                events.push(ViewerEvent::End);
                assert(event_views(events@) =~= seq![ViewerEventView::End]);
                TurnOutput { events, directive: Directive::AwaitUser }
            },
            Some(found) => {
                let mut tools: Vec<String> = Vec::new();
                let mut i: usize = 0;
                while i < found.len()
                    invariant
                        i <= found.len(),
                        tools@.map_values(|t: String| t@) == names_of(request_views(found@)).take(
                            i as int,
                        ),
                    decreases found.len() - i,
                {
                    let ghost before = tools@;
                    let name = found[i].name.clone();
                    tools.push(name);
                    assert(tools@.map_values(|t: String| t@) =~= before.map_values(
                        |t: String| t@,
                    ).push(name@));
                    assert(names_of(request_views(found@)).take(i + 1) =~= names_of(
                        request_views(found@),
                    ).take(i as int).push(found[i as int].name@));
                    i += 1;
                }
                assert(names_of(request_views(found@)).take(i as int) =~= names_of(
                    request_views(found@),
                ));
                let mut events: Vec<ViewerEvent> = Vec::new();
                let announced = ViewerEvent::ToolStart { tools };
                events.push(announced);
                assert(event_views(events@) =~= seq![announced@]);
                if found.len() == 0 {
                    assert(self@.lines =~= Seq::empty());
                    self.finish_round(events)
                } else {
                    self.phase = Phase::ToolDispatch;
                    self.pending = found;
                    self.next = 0;
                    self.lines = Vec::new();
                    assert(self@.lines =~= Seq::empty());
                    let call = self.call_at(0);
                    TurnOutput { events, directive: Directive::Execute(call) }
                }
            },
        }
    }

    fn unmoved(&self) -> (output: TurnOutput)
        requires
            self@.wf(),
        ensures
            carries(output, self@.stay()),
    {
        let events: Vec<ViewerEvent> = Vec::new();
        assert(event_views(events@) =~= Seq::empty());
        let directive = match self.phase {
            Phase::AwaitingUser => Directive::AwaitUser,
            Phase::Streaming => Directive::AwaitFragment,
            Phase::ToolDispatch => Directive::Execute(self.call_at(self.next)),
        };
        TurnOutput { events, directive }
    }

    /// Takes one input and tells what to broadcast and what to do next. An
    /// input that does not fit the phase changes nothing and repeats what the
    /// machine is waiting for.
    pub fn step(&mut self, input: TurnInput) -> (output: TurnOutput)
        requires
            old(self)@.wf(),
            input@ matches TurnInputView::ToolOutcome(outcome) ==> outcome.explained(),
        ensures
            final(self)@.wf(),
            final(self)@ == old(self)@.transition(input@).state,
            carries(output, old(self)@.transition(input@)),
    {
        match input {
            TurnInput::UserMessage(text) => {
                if self.phase == Phase::AwaitingUser {
                    self.user_message(text)
                } else {
                    self.unmoved()
                }
            },
            TurnInput::Fragment(text) => {
                if self.phase == Phase::Streaming {
                    self.fragment(text)
                } else {
                    self.unmoved()
                }
            },
            TurnInput::StreamEnd => {
                if self.phase == Phase::Streaming {
                    let requests = parse_tool_requests(self.filter.raw());
                    self.conclude_answer(requests)
                } else {
                    self.unmoved()
                }
            },
            TurnInput::StreamFailed => {
                if self.phase == Phase::Streaming {
                    self.stream_failed()
                } else {
                    self.unmoved()
                }
            },
            TurnInput::ToolOutcome(outcome) => {
                if self.phase == Phase::ToolDispatch {
                    self.tool_outcome(outcome)
                } else {
                    self.unmoved()
                }
            },
        }
    }
}

} // verus!
