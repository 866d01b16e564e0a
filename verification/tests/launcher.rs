use chat_relay::launcher::{
    duplicate_instances, is_loaded, keep_instances, loaded_candidates, stop_command, LmsCommand,
    Startup, StartupAction, StartupEvent, StartupFailure, MAX_ATTEMPTS,
};

fn owned(items: &[&str]) -> Vec<String> {
    items.iter().map(|s| s.to_string()).collect()
}

#[test]
fn shell_lines_are_exact() {
    assert_eq!(LmsCommand::StartServer.shell_line(), "~/.lmstudio/bin/lms server start");
    assert_eq!(LmsCommand::StopServer.shell_line(), "~/.lmstudio/bin/lms server stop");
    assert_eq!(LmsCommand::ListLoaded.shell_line(), "~/.lmstudio/bin/lms ps");
    assert_eq!(
        LmsCommand::Load("ibm/granite-3.1-8b".to_string()).shell_line(),
        "~/.lmstudio/bin/lms load ibm/granite-3.1-8b"
    );
    assert_eq!(
        LmsCommand::Unload("ibm/granite-3.1-8b:2".to_string()).shell_line(),
        "~/.lmstudio/bin/lms unload ibm/granite-3.1-8b:2"
    );
}

#[test]
fn windows_arguments_are_exact() {
    let program = "%USERPROFILE%\\.lmstudio\\bin\\lms.exe";
    assert_eq!(
        LmsCommand::StartServer.windows_arguments(),
        owned(&["/C", program, "server", "start"])
    );
    assert_eq!(
        LmsCommand::StopServer.windows_arguments(),
        owned(&["/C", program, "server", "stop"])
    );
    assert_eq!(LmsCommand::ListLoaded.windows_arguments(), owned(&["/C", program, "ps"]));
    assert_eq!(
        LmsCommand::Load("m".to_string()).windows_arguments(),
        owned(&["/C", program, "load", "m"])
    );
    assert_eq!(
        LmsCommand::Unload("m:2".to_string()).windows_arguments(),
        owned(&["/C", program, "unload", "m:2"])
    );
}

const PS: &str = "LOADED MODELS\r\n\r\n  ibm/granite-3.1-8b:2   4.9 GB\n\tother/ibm/granite-3.1-8b: x\nibm/granite-3.1-8b   4.9 GB\n  ibm/granite-3.1-8b:3  \n";

#[test]
fn candidates_are_the_trimmed_lines_with_name_and_colon() {
    assert_eq!(
        loaded_candidates("ibm/granite-3.1-8b", PS),
        owned(&[
            "ibm/granite-3.1-8b:2   4.9 GB",
            "other/ibm/granite-3.1-8b: x",
            "ibm/granite-3.1-8b:3",
        ])
    );
    assert_eq!(loaded_candidates("ibm/granite-3.1-8b", ""), owned(&[]));
    assert_eq!(loaded_candidates("m", "m:1\r\nm:2\r"), owned(&["m:1", "m:2"]));
}

#[test]
fn instances_begin_with_the_model_name() {
    assert_eq!(
        keep_instances("m", owned(&["m:2", "other/m:1", "m", "", "mm:3"])),
        owned(&["m:2", "m", "mm:3"])
    );
    assert_eq!(keep_instances("m", vec![]), owned(&[]));
}

#[test]
fn duplicates_are_the_instances_among_the_candidates() {
    assert_eq!(
        duplicate_instances("ibm/granite-3.1-8b", PS),
        owned(&["ibm/granite-3.1-8b:2   4.9 GB", "ibm/granite-3.1-8b:3"])
    );
}

#[test]
fn loaded_means_named_in_the_list() {
    assert!(is_loaded("ibm/granite-3.1-8b", PS));
    assert!(!is_loaded("llama", PS));
}

#[test]
fn running_server_needs_no_launch() {
    let state = Startup::begin();
    assert_eq!(state, Startup::Probing { attempt: 1 });
    assert_eq!(
        state.advance(StartupEvent::Reachable),
        (Startup::Finished, StartupAction::Ready { started: false })
    );
}

#[test]
fn server_is_launched_and_confirmed() {
    let (state, action) = Startup::begin().advance(StartupEvent::Unreachable);
    assert_eq!((state, action), (Startup::Launching { attempt: 1 }, StartupAction::Launch { attempt: 1 }));
    let (state, action) = state.advance(StartupEvent::Launched { success: true });
    assert_eq!((state, action), (Startup::Confirming { attempt: 1 }, StartupAction::WaitThenProbe));
    assert_eq!(
        state.advance(StartupEvent::Reachable),
        (Startup::Finished, StartupAction::Ready { started: true })
    );
}

#[test]
fn server_that_answers_at_a_later_attempt_was_started_here() {
    let (state, _) = Startup::begin().advance(StartupEvent::Unreachable);
    let (state, _) = state.advance(StartupEvent::Launched { success: true });
    let (state, action) = state.advance(StartupEvent::Unreachable);
    assert_eq!((state, action), (Startup::Probing { attempt: 2 }, StartupAction::Probe));
    assert_eq!(
        state.advance(StartupEvent::Reachable),
        (Startup::Finished, StartupAction::Ready { started: true })
    );
    assert_eq!(
        Startup::Probing { attempt: 3 }.advance(StartupEvent::Reachable),
        (Startup::Finished, StartupAction::Ready { started: true })
    );
}

#[test]
fn failed_launch_gives_up_at_once() {
    let (state, _) = Startup::begin().advance(StartupEvent::Unreachable);
    assert_eq!(
        state.advance(StartupEvent::Launched { success: false }),
        (Startup::Finished, StartupAction::GiveUp(StartupFailure::LaunchFailed))
    );
}

#[test]
fn server_that_never_answers_is_launched_three_times() {
    assert_eq!(MAX_ATTEMPTS, 3);
    let mut state = Startup::begin();
    let mut launches = 0;
    let mut event = StartupEvent::Unreachable;
    let failure = loop {
        let (next, action) = state.advance(event);
        state = next;
        event = match action {
            StartupAction::Launch { attempt } => {
                launches += 1;
                assert_eq!(attempt, launches);
                StartupEvent::Launched { success: true }
            }
            StartupAction::WaitThenProbe | StartupAction::Probe => StartupEvent::Unreachable,
            StartupAction::GiveUp(failure) => break failure,
            other => panic!("unexpected action {:?}", other),
        };
        assert!(launches <= 3);
    };
    assert_eq!(launches, 3);
    assert_eq!(failure, StartupFailure::Unreachable);
    assert_eq!(state, Startup::Finished);
}

#[test]
fn event_out_of_place_is_ignored() {
    let state = Startup::begin();
    assert_eq!(
        state.advance(StartupEvent::Launched { success: true }),
        (state, StartupAction::Ignore)
    );
    assert_eq!(
        Startup::Finished.advance(StartupEvent::Reachable),
        (Startup::Finished, StartupAction::Ignore)
    );
    assert_eq!(
        Startup::Launching { attempt: 2 }.advance(StartupEvent::Unreachable),
        (Startup::Launching { attempt: 2 }, StartupAction::Ignore)
    );
}

#[test]
fn only_a_server_started_here_is_stopped() {
    assert_eq!(stop_command(true), Some(LmsCommand::StopServer));
    assert_eq!(stop_command(false), None);
}
