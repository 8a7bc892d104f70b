use deck_sync::cycle::{poll_step, CycleAction, CycleError, PollOutcome};
use deck_sync::dispatch::Command;
use deck_sync::snapshot::Snapshot;

#[test]
fn no_data_never_dispatches() {
    let snap = Snapshot::new(String::from("Coding"), false);
    let action = poll_step(PollOutcome::NoData, &snap);
    assert_eq!(action, CycleAction::Idle);
    let snap = Snapshot::new(String::from("Unknown"), true);
    let action = poll_step(PollOutcome::NoData, &snap);
    assert_eq!(action, CycleAction::Idle);
}

#[test]
fn device_error_ends_the_loop() {
    let snap = Snapshot::new(String::from("Coding"), false);
    let action = poll_step(PollOutcome::DeviceError, &snap);
    assert_eq!(action, CycleAction::Fail(CycleError::Device));
}

#[test]
fn press_vector_is_dispatched_against_the_snapshot() {
    let snap = Snapshot::new(String::from("Coding"), true);
    let action = poll_step(PollOutcome::Pressed(vec![1, 1]), &snap);
    assert_eq!(
        action,
        CycleAction::Issue(vec![
            Command::SetScene(String::from("Talking")),
            Command::StopRecording,
        ])
    );
}

#[test]
fn press_vector_with_no_flag_issues_nothing() {
    let snap = Snapshot::new(String::from("Talking"), false);
    let action = poll_step(PollOutcome::Pressed(vec![0, 0]), &snap);
    assert_eq!(action, CycleAction::Issue(Vec::new()));
}

#[test]
fn scene_press_on_unknown_scene_ends_the_loop() {
    let snap = Snapshot::new(String::from("Lobby"), false);
    let action = poll_step(PollOutcome::Pressed(vec![1, 0]), &snap);
    assert_eq!(action, CycleAction::Fail(CycleError::UnknownScene));
}
