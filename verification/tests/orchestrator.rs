use hil_orchestrator::device::{DeviceCode, TestData};
use hil_orchestrator::orchestrator::{
    begin_test, flag_message, Message, RunAction, RunStage, TestRun,
};
use hil_orchestrator::state::State;

fn begin(device: &str, check: bool) -> (TestRun, RunAction) {
    begin_test(&TestData::new(device.to_string(), check))
}

/// The state that a run reports when it gets these answers, and the
/// requests it sent before.
fn drive(device: &str, check: bool, answers: &[bool]) -> (Vec<RunAction>, Option<State>) {
    let (mut run, first) = begin(device, check);
    let mut actions = vec![first];
    for &answer in answers {
        let (next, action) = run.advance(answer);
        run = next;
        match action {
            Some(RunAction::Report(state)) => return (actions, Some(state)),
            Some(other) => actions.push(other),
            None => panic!("a run that is not over asks for something"),
        }
    }
    (actions, None)
}

#[test]
fn message_texts() {
    assert_eq!(Message::Probe.text(), "hello\n");
    assert_eq!(Message::Flag(true).text(), "yes\n");
    assert_eq!(Message::Flag(false).text(), "no\n");
}

#[test]
fn only_the_brake_signal_transmitter_has_a_flag_to_switch_on() {
    assert_eq!(flag_message(DeviceCode::Bst, true), Message::Flag(true));
    assert_eq!(flag_message(DeviceCode::Bst, false), Message::Flag(false));
    for code in [DeviceCode::Cws, DeviceCode::Prs, DeviceCode::Escm, DeviceCode::Unknown] {
        assert_eq!(flag_message(code, true), Message::Flag(false));
        assert_eq!(flag_message(code, false), Message::Flag(false));
    }
}

#[test]
fn begin_test_starts_the_firmware_of_the_named_device() {
    let (run, action) = begin("Continuous Wear Sensor", true);
    assert_eq!(action, RunAction::StartFirmware(DeviceCode::Cws));
    assert_eq!(run, TestRun { code: DeviceCode::Cws, check: true, stage: RunStage::Starting });
}

#[test]
fn a_run_in_which_all_goes_well_is_awake() {
    let (actions, state) = drive("Pressure Sensor", true, &[true, true, true]);
    assert_eq!(
        actions,
        vec![
            RunAction::StartFirmware(DeviceCode::Prs),
            RunAction::Exchange(Message::Probe),
            RunAction::Exchange(Message::Flag(false)),
        ]
    );
    assert_eq!(state, Some(State::Awake));
}

#[test]
fn firmware_that_does_not_start_ends_the_run_at_once() {
    let (actions, state) = drive("Pressure Sensor", true, &[false]);
    assert_eq!(actions, vec![RunAction::StartFirmware(DeviceCode::Prs)]);
    assert_eq!(state, Some(State::ENoFirmware));
}

#[test]
fn a_failed_probe_ends_the_run_before_the_flag() {
    let (actions, state) = drive("Brake Signal Transmitter", true, &[true, false]);
    assert_eq!(
        actions,
        vec![RunAction::StartFirmware(DeviceCode::Bst), RunAction::Exchange(Message::Probe)]
    );
    assert_eq!(state, Some(State::EOpen));
}

#[test]
fn a_failed_flag_ends_the_run_in_open() {
    let (actions, state) = drive("Brake Signal Transmitter", false, &[true, true, false]);
    assert_eq!(
        actions,
        vec![
            RunAction::StartFirmware(DeviceCode::Bst),
            RunAction::Exchange(Message::Probe),
            RunAction::Exchange(Message::Flag(false)),
        ]
    );
    assert_eq!(state, Some(State::EOpen));
}

#[test]
fn a_run_that_is_over_asks_for_nothing_more() {
    let (run, _) = begin("Pressure Sensor", true);
    let (run, _) = run.advance(false);
    assert_eq!(run.stage, RunStage::Finished);
    assert_eq!(run.advance(true), (run, None));
    assert_eq!(run.advance(false), (run, None));
}

#[test]
fn a_run_never_reports_before_an_answer() {
    let (actions, state) = drive("Pressure Sensor", true, &[]);
    assert_eq!(actions, vec![RunAction::StartFirmware(DeviceCode::Prs)]);
    assert_eq!(state, None);
    let (_, state) = drive("Pressure Sensor", true, &[true, true]);
    assert_eq!(state, None);
}
