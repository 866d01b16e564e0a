//! What is decided and computed when the model server is brought up: the
//! command lines for its control program, the loaded instances of a model
//! that are to be unloaded, and the order of probing, launching and waiting.
//! Running the commands and probing the server is left to the program around
//! this library.

use vstd::prelude::*;
use vstd::string::StringExecFns;
use crate::text::{contains_str, has_prefix, lines, lines_of, occurs_in, starts_with_text, texts, trim_text, trimmed};

verus! {

/// A command for the control program of the model server.
#[derive(Clone, Debug, PartialEq, Eq)]
pub enum LmsCommand {
    StartServer,
    StopServer,
    /// Lists the loaded models.
    ListLoaded,
    Load(String),
    Unload(String),
}

/// The content of an [`LmsCommand`].
pub enum LmsCommandView {
    StartServer,
    StopServer,
    ListLoaded,
    Load(Seq<char>),
    Unload(Seq<char>),
}

impl View for LmsCommand {
    type V = LmsCommandView;

    open spec fn view(&self) -> LmsCommandView {
        match self {
            LmsCommand::StartServer => LmsCommandView::StartServer,
            LmsCommand::StopServer => LmsCommandView::StopServer,
            LmsCommand::ListLoaded => LmsCommandView::ListLoaded,
            LmsCommand::Load(model) => LmsCommandView::Load(model@),
            LmsCommand::Unload(model) => LmsCommandView::Unload(model@),
        }
    }
}

impl LmsCommandView {
    /// The words that follow the name of the control program.
    pub open spec fn words(self) -> Seq<Seq<char>> {
        match self {
            LmsCommandView::StartServer => seq!["server"@, "start"@],
            LmsCommandView::StopServer => seq!["server"@, "stop"@],
            LmsCommandView::ListLoaded => seq!["ps"@],
            LmsCommandView::Load(model) => seq!["load"@, model],
            LmsCommandView::Unload(model) => seq!["unload"@, model],
        }
    }

    /// The line that a shell runs.
    pub open spec fn shell_line(self) -> Seq<char> {
        match self {
            LmsCommandView::StartServer => "~/.lmstudio/bin/lms server start"@,
            LmsCommandView::StopServer => "~/.lmstudio/bin/lms server stop"@,
            LmsCommandView::ListLoaded => "~/.lmstudio/bin/lms ps"@,
            LmsCommandView::Load(model) => "~/.lmstudio/bin/lms load "@ + model,
            LmsCommandView::Unload(model) => "~/.lmstudio/bin/lms unload "@ + model,
        }
    }

    /// The arguments that the Windows command interpreter gets.
    pub open spec fn windows_arguments(self) -> Seq<Seq<char>> {
        seq!["/C"@, "%USERPROFILE%\\.lmstudio\\bin\\lms.exe"@] + self.words()
    }
}

impl LmsCommand {
    /// Writes the line that `sh -c` runs.
    pub fn shell_line(&self) -> (line: String)
        ensures
            line@ == self@.shell_line(),
    {
        match self {
            LmsCommand::StartServer => String::from_str("~/.lmstudio/bin/lms server start"),
            LmsCommand::StopServer => String::from_str("~/.lmstudio/bin/lms server stop"),
            LmsCommand::ListLoaded => String::from_str("~/.lmstudio/bin/lms ps"),
            LmsCommand::Load(model) => {
                let mut line = String::from_str("~/.lmstudio/bin/lms load ");
                line.append(model.as_str());
                line
            },
            LmsCommand::Unload(model) => {
                let mut line = String::from_str("~/.lmstudio/bin/lms unload ");
                line.append(model.as_str());
                line
            },
        }
    }

    /// Lists the arguments that `cmd` gets on Windows.
    pub fn windows_arguments(&self) -> (arguments: Vec<String>)
        ensures
            texts(arguments@) == self@.windows_arguments(),
    {
        let mut arguments: Vec<String> = Vec::new();
        arguments.push(String::from_str("/C"));
        arguments.push(String::from_str("%USERPROFILE%\\.lmstudio\\bin\\lms.exe"));
        match self {
            LmsCommand::StartServer => {
                arguments.push(String::from_str("server"));
                arguments.push(String::from_str("start"));
            },
            LmsCommand::StopServer => {
                arguments.push(String::from_str("server"));
                arguments.push(String::from_str("stop"));
            },
            LmsCommand::ListLoaded => {
                arguments.push(String::from_str("ps"));
            },
            LmsCommand::Load(model) => {
                arguments.push(String::from_str("load"));
                arguments.push(model.clone());
            },
            LmsCommand::Unload(model) => {
                arguments.push(String::from_str("unload"));
                arguments.push(model.clone());
            },
        }
        assert(texts(arguments@) =~= self@.windows_arguments());
        arguments
    }
}

/// A line of the list of loaded models speaks of `model` if it holds its name
/// and a colon.
pub open spec fn mentions(model: Seq<char>, line: Seq<char>) -> bool {
    occurs_in(model, line) && occurs_in(":"@, line)
}

/// The trimmed lines among `all` that speak of `model`, in order.
pub open spec fn candidates(model: Seq<char>, all: Seq<Seq<char>>) -> Seq<Seq<char>>
    decreases all.len(),
{
    if all.len() == 0 {
        Seq::empty()
    } else if mentions(model, all.last()) {
        candidates(model, all.drop_last()).push(trimmed(all.last()))
    } else {
        candidates(model, all.drop_last())
    }
}

/// Those of `names` that begin with the name of `model`, in order.
pub open spec fn instances(model: Seq<char>, names: Seq<Seq<char>>) -> Seq<Seq<char>>
    decreases names.len(),
{
    if names.len() == 0 {
        Seq::empty()
    } else if has_prefix(names.last(), model) {
        instances(model, names.drop_last()).push(names.last())
    } else {
        instances(model, names.drop_last())
    }
}

/// Picks from the list of loaded models the lines that speak of the model,
/// trimmed.
pub fn loaded_candidates(model_name: &str, ps_output: &str) -> (found: Vec<String>)
    ensures
        texts(found@) == candidates(model_name@, lines(ps_output@)),
{
    let all = lines_of(ps_output);
    let ghost whole = texts(all@);
    let mut found: Vec<String> = Vec::new();
    let mut i: usize = 0;
    assert(whole.take(0) =~= Seq::empty());
    while i < all.len()
        invariant
            i <= all.len(),
            whole == texts(all@),
            texts(found@) == candidates(model_name@, whole.take(i as int)),
        decreases all.len() - i,
    {
        let line = all[i].as_str();
        proof {
            assert(whole.take(i + 1).drop_last() =~= whole.take(i as int));
            assert(whole.take(i + 1).last() == line@);
        }
        if contains_str(line, model_name) && contains_str(line, ":") {
            let ghost before = found@;
            let name = trim_text(line);
            found.push(name.to_string());
            assert(texts(found@) =~= texts(before).push(name@));
        }
        i += 1;
    }
    assert(whole.take(i as int) =~= whole);
    found
}

/// Keeps the names that begin with the name of the model: its instances.
/// Names that merely hold the model's name somewhere are other models.
pub fn keep_instances(model_name: &str, names: Vec<String>) -> (kept: Vec<String>)
    ensures
        texts(kept@) == instances(model_name@, texts(names@)),
{
    let ghost whole = texts(names@);
    let mut kept: Vec<String> = Vec::new();
    assert(whole.take(0) =~= Seq::empty());
    for name in it: names
        invariant
            whole == texts(it.seq()),
            texts(kept@) == instances(model_name@, whole.take(it.index() as int)),
    {
        proof {
            assert(whole.take(it.index() + 1).drop_last() =~= whole.take(it.index() as int));
            assert(whole.take(it.index() + 1).last() == name@);
        }
        if starts_with_text(name.as_str(), model_name) {
            let ghost before = kept@;
            kept.push(name);
            assert(texts(kept@) =~= texts(before).push(name@));
        }
    }
    assert(whole.take(whole.len() as int) =~= whole);
    kept
}

/// Names the loaded instances of the model that are to be unloaded before a
/// fresh one is loaded.
pub fn duplicate_instances(model_name: &str, ps_output: &str) -> (names: Vec<String>)
    ensures
        texts(names@) == instances(model_name@, candidates(model_name@, lines(ps_output@))),
{
    keep_instances(model_name, loaded_candidates(model_name, ps_output))
}

/// Tells whether the list of loaded models speaks of the model at all.
pub fn is_loaded(model_name: &str, ps_output: &str) -> (loaded: bool)
    ensures
        loaded == occurs_in(model_name@, ps_output@),
{
    contains_str(ps_output, model_name)
}

/// How often the server is launched at most.
pub const MAX_ATTEMPTS: u32 = 3;

/// Where the bring-up of the server stands.
#[derive(Clone, Copy, Debug, PartialEq, Eq, Structural)]
pub enum Startup {
    /// The server is being probed before launch number `attempt`.
    Probing { attempt: u32 },
    /// Launch number `attempt` is running.
    Launching { attempt: u32 },
    /// The server is being probed after launch number `attempt`.
    Confirming { attempt: u32 },
    /// The bring-up is over.
    Finished,
}

/// What the driver reports.
#[derive(Clone, Copy, Debug, PartialEq, Eq, Structural)]
pub enum StartupEvent {
    /// The probe was answered.
    Reachable,
    /// The probe was not answered.
    Unreachable,
    /// The launch command has ended, well or not.
    Launched { success: bool },
}

/// Why the bring-up failed.
#[derive(Clone, Copy, Debug, PartialEq, Eq, Structural)]
pub enum StartupFailure {
    /// The launch command ended badly.
    LaunchFailed,
    /// The server did not answer after the last launch.
    Unreachable,
}

/// What the driver is to do next.
#[derive(Clone, Copy, Debug, PartialEq, Eq, Structural)]
pub enum StartupAction {
    /// Probe the server now.
    Probe,
    /// Run the launch command, for the time numbered `attempt`.
    Launch { attempt: u32 },
    /// Give the server time to come up, then probe it.
    WaitThenProbe,
    /// The server answers: see to the model. `started` tells whether this
    /// bring-up launched it, at this attempt or at an earlier one.
    Ready { started: bool },
    GiveUp(StartupFailure),
    /// The event does not fit: keep doing what was asked.
    Ignore,
}

impl Startup {
    /// The state in which a bring-up begins. The first thing to do is to probe.
    pub open spec fn initial() -> Startup {
        Startup::Probing { attempt: 1 }
    }

    /// The state is one that a bring-up can be in.
    pub open spec fn wf(self) -> bool {
        match self {
            Startup::Probing { attempt } => 1 <= attempt <= MAX_ATTEMPTS,
            Startup::Launching { attempt } => 1 <= attempt <= MAX_ATTEMPTS,
            Startup::Confirming { attempt } => 1 <= attempt <= MAX_ATTEMPTS,
            Startup::Finished => true,
        }
    }

    /// The launches that may still be made.
    pub open spec fn launches_left(self) -> int {
        match self {
            Startup::Probing { attempt } => MAX_ATTEMPTS - attempt + 1,
            Startup::Launching { attempt } => MAX_ATTEMPTS - attempt,
            Startup::Confirming { attempt } => MAX_ATTEMPTS - attempt,
            Startup::Finished => 0,
        }
    }

    /// The state and the action that `event` leads to.
    pub open spec fn next(self, event: StartupEvent) -> (Startup, StartupAction) {
        match (self, event) {
            (Startup::Probing { attempt }, StartupEvent::Reachable) => (
                Startup::Finished,
                StartupAction::Ready { started: attempt > 1 },
            ),
            (Startup::Probing { attempt }, StartupEvent::Unreachable) => (
                Startup::Launching { attempt },
                StartupAction::Launch { attempt },
            ),
            (Startup::Launching { attempt }, StartupEvent::Launched { success }) => if success {
                (Startup::Confirming { attempt }, StartupAction::WaitThenProbe)
            } else {
                (Startup::Finished, StartupAction::GiveUp(StartupFailure::LaunchFailed))
            },
            (Startup::Confirming { attempt }, StartupEvent::Reachable) => (
                Startup::Finished,
                StartupAction::Ready { started: true },
            ),
            (Startup::Confirming { attempt }, StartupEvent::Unreachable) => if attempt
                >= MAX_ATTEMPTS {
                (Startup::Finished, StartupAction::GiveUp(StartupFailure::Unreachable))
            } else {
                (Startup::Probing { attempt: (attempt + 1) as u32 }, StartupAction::Probe)
            },
            _ => (self, StartupAction::Ignore),
        }
    }

    /// Begins a bring-up.
    pub fn begin() -> (state: Startup)
        ensures
            state == Startup::initial(),
            state.wf(),
    {
        Startup::Probing { attempt: 1 }
    }

    /// Takes one event and tells what to do next.
    pub fn advance(self, event: StartupEvent) -> (step: (Startup, StartupAction))
        requires
            self.wf(),
        ensures
            step == self.next(event),
            step.0.wf(),
            step.1 is Launch ==> step.0.launches_left() == self.launches_left() - 1,
            !(step.1 is Launch) ==> step.0.launches_left() <= self.launches_left(),
    {
        match (self, event) {
            (Startup::Probing { attempt }, StartupEvent::Reachable) => (
                Startup::Finished,
                StartupAction::Ready { started: attempt > 1 },
            ),
            (Startup::Probing { attempt }, StartupEvent::Unreachable) => (
                Startup::Launching { attempt },
                StartupAction::Launch { attempt },
            ),
            (Startup::Launching { attempt }, StartupEvent::Launched { success }) => if success {
                (Startup::Confirming { attempt }, StartupAction::WaitThenProbe)
            } else {
                (Startup::Finished, StartupAction::GiveUp(StartupFailure::LaunchFailed))
            },
            (Startup::Confirming { attempt }, StartupEvent::Reachable) => (
                Startup::Finished,
                StartupAction::Ready { started: true },
            ),
            (Startup::Confirming { attempt }, StartupEvent::Unreachable) => if attempt
                >= MAX_ATTEMPTS {
                (Startup::Finished, StartupAction::GiveUp(StartupFailure::Unreachable))
            } else {
                (Startup::Probing { attempt: attempt + 1 }, StartupAction::Probe)
            },
            _ => (self, StartupAction::Ignore),
        }
    }
}

/// The state after `events` have been taken in order, starting in `start`.
pub open spec fn startup_run(start: Startup, events: Seq<StartupEvent>) -> Startup
    decreases events.len(),
{
    if events.len() == 0 {
        start
    } else {
        startup_run(start, events.drop_last()).next(events.last()).0
    }
}

/// How often the run of `events` from `start` asks for a launch.
pub open spec fn launches(start: Startup, events: Seq<StartupEvent>) -> nat
    decreases events.len(),
{
    if events.len() == 0 {
        0
    } else {
        let earlier = launches(start, events.drop_last());
        if startup_run(start, events.drop_last()).next(events.last()).1 is Launch {
            earlier + 1
        } else {
            earlier
        }
    }
}

proof fn lemma_launches_within_budget(start: Startup, events: Seq<StartupEvent>)
    requires
        start.wf(),
    ensures
        startup_run(start, events).wf(),
        launches(start, events) + startup_run(start, events).launches_left()
            <= start.launches_left(),
    decreases events.len(),
{
    if events.len() > 0 {
        lemma_launches_within_budget(start, events.drop_last());
    }
}

/// The launches that were made when a bring-up has come to `state`, where
/// the state still tells.
pub open spec fn launches_made(state: Startup) -> Option<int> {
    match state {
        Startup::Probing { attempt } => Some(attempt - 1),
        Startup::Launching { attempt } => Some(attempt as int),
        Startup::Confirming { attempt } => Some(attempt as int),
        Startup::Finished => None,
    }
}

proof fn lemma_state_counts_launches(events: Seq<StartupEvent>)
    ensures
        startup_run(Startup::initial(), events).wf(),
        launches_made(startup_run(Startup::initial(), events)) matches Some(made) ==> made
            == launches(Startup::initial(), events),
    decreases events.len(),
{
    if events.len() > 0 {
        lemma_state_counts_launches(events.drop_last());
    }
}

/// When a bring-up ends with the server answering, it says that the server
/// was started here exactly when it has launched it: at once after a launch,
/// or at the probe of a later attempt.
pub proof fn lemma_started_means_launched(events: Seq<StartupEvent>, started: bool)
    requires
        events.len() > 0,
        startup_run(Startup::initial(), events.drop_last()).next(events.last()).1 == (
        StartupAction::Ready { started }),
    ensures
        started == (launches(Startup::initial(), events) > 0),
{
    lemma_state_counts_launches(events.drop_last());
}

/// Whatever the probes say, a bring-up launches the server three times at
/// most.
pub proof fn lemma_launches_are_capped(events: Seq<StartupEvent>)
    ensures
        launches(Startup::initial(), events) <= MAX_ATTEMPTS,
{
    lemma_launches_within_budget(Startup::initial(), events);
}

/// Tells whether the server that was started here is to be stopped at the
/// end: only a server that this program launched is.
pub fn stop_command(started_server: bool) -> (command: Option<LmsCommand>)
    ensures
        command matches Some(c) ==> started_server && c@ == LmsCommandView::StopServer,
        command is None ==> !started_server,
{
    if started_server {
        Some(LmsCommand::StopServer)
    } else {
        None
    }
}

} // verus!
