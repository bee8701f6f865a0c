use hil_orchestrator::channel::{
    decode_response, ChannelAction, ChannelError, ChannelEvent, Exchange, ReadOutcome,
};
use hil_orchestrator::device::{DeviceCode, TestData};
use hil_orchestrator::export::{download_path, export_path};
use hil_orchestrator::firmware::{
    m4_firmware, FimwareOption, FirmwareAction, FirmwareError, FirmwareEvent, ScriptStatus,
};
use hil_orchestrator::orchestrator::{begin_test, Message, RunAction};
use hil_orchestrator::registry::TestRegistry;
use hil_orchestrator::retrieval::{Retrieval, RetrievalAction, RetrievalError, RetrievalEvent};
use hil_orchestrator::state::State;

/// A bench that stands in for the board: which firmware directories exist,
/// whether the channel can be opened, and what was asked of it.
struct Bench {
    firmware: Vec<&'static str>,
    channel_opens: bool,
    started: Vec<String>,
    stopped: Vec<String>,
    sent: Vec<String>,
    exported: Vec<String>,
}

impl Bench {
    fn new(channel_opens: bool) -> Bench {
        Bench {
            firmware: vec!["BST", "CWS", "PrS", "ESCM"],
            channel_opens,
            started: Vec::new(),
            stopped: Vec::new(),
            sent: Vec::new(),
            exported: Vec::new(),
        }
    }

    /// Runs the control script as the firmware call asks, with a device node
    /// that appears at the third look.
    fn firmware(&mut self, dev: &str, option: FimwareOption) -> Result<(), FirmwareError> {
        let (mut call, script) = m4_firmware(dev, option);
        let known = self.firmware.iter().any(|code| {
            script.directory() == format!("/home/root/M4_Firmware/{}-Firmware/", code)
        });
        match option {
            FimwareOption::START => self.started.push(dev.to_string()),
            FimwareOption::STOP => self.stopped.push(dev.to_string()),
        }
        let status = if known { ScriptStatus::Exited(0) } else { ScriptStatus::NotRun };
        let mut event = FirmwareEvent::Ran(status);
        let mut looks = 0;
        loop {
            let (next, action) = call.step(event);
            call = next;
            event = match action.unwrap() {
                FirmwareAction::Probe => {
                    looks += 1;
                    FirmwareEvent::Probed(looks == 3)
                },
                FirmwareAction::Sleep(_) => FirmwareEvent::Slept,
                FirmwareAction::Done => return Ok(()),
                FirmwareAction::Failed(e) => return Err(e),
            };
        }
    }

    /// Sends a request and takes the echo that the firmware answers with.
    fn exchange(&mut self, message: &str) -> Result<String, ChannelError> {
        let (mut exchange, mut action) = Exchange::begin();
        let mut response = Vec::new();
        loop {
            let event = match action {
                ChannelAction::Open => ChannelEvent::Opened(self.channel_opens),
                ChannelAction::Write => {
                    self.sent.push(message.to_string());
                    ChannelEvent::Written(true)
                },
                ChannelAction::ReadClock => ChannelEvent::Clock(0),
                ChannelAction::Read => {
                    response.extend_from_slice(message.as_bytes());
                    ChannelEvent::Read {
                        outcome: ReadOutcome::Taken(message.len()),
                        buffered: response.len(),
                    }
                },
                ChannelAction::Sleep(_) => ChannelEvent::Slept,
                ChannelAction::Complete => return decode_response(response),
                ChannelAction::Fail(e) => return Err(e),
            };
            let (next, asked) = exchange.step(event);
            exchange = next;
            action = asked.unwrap();
        }
    }

    /// A whole run of a submitted test.
    fn submit(&mut self, data: &TestData) -> State {
        let (mut run, mut action) = begin_test(data);
        loop {
            let succeeded = match action {
                RunAction::StartFirmware(code) => {
                    self.firmware(code.as_str(), FimwareOption::START).is_ok()
                },
                RunAction::Exchange(message) => self.exchange(message.text()).is_ok(),
                RunAction::Report(state) => return state,
            };
            let (next, asked) = run.advance(succeeded);
            run = next;
            action = asked.unwrap();
        }
    }

    /// Fetches the result of the latest run, which stands at `state`.
    fn result(&mut self, registry: &TestRegistry, state: State) -> Result<State, RetrievalError> {
        let (mut retrieval, mut action) = Retrieval::begin(registry)?;
        loop {
            let event = match action {
                RetrievalAction::Poll => RetrievalEvent::Polled(state),
                RetrievalAction::Sleep(_) => RetrievalEvent::Slept,
                RetrievalAction::Export(code) => {
                    self.exported.push(export_path(code));
                    RetrievalEvent::Exported(true)
                },
                RetrievalAction::StopFirmware(code) => RetrievalEvent::Stopped(
                    self.firmware(code.as_str(), FimwareOption::STOP).is_ok(),
                ),
                RetrievalAction::Reply(state) => return Ok(state),
                RetrievalAction::Shutdown => panic!("the firmware could not be stopped"),
            };
            let (next, asked) = retrieval.step(event);
            retrieval = next;
            action = asked.unwrap();
        }
    }
}

#[test]
fn a_brake_signal_transmitter_with_its_flag_set_comes_awake() {
    let mut bench = Bench::new(true);
    let data = TestData::new("Brake Signal Transmitter".to_string(), true);
    assert_eq!(bench.submit(&data), State::Awake);
    assert_eq!(bench.started, vec!["BST"]);
    assert_eq!(bench.sent, vec!["hello\n", "yes\n"]);
    assert!(bench.stopped.is_empty());
}

#[test]
fn a_brake_signal_transmitter_without_its_flag_is_told_no() {
    let mut bench = Bench::new(true);
    let data = TestData::new("Brake Signal Transmitter".to_string(), false);
    assert_eq!(bench.submit(&data), State::Awake);
    assert_eq!(bench.sent, vec!["hello\n", "no\n"]);
}

#[test]
fn an_unknown_device_has_no_firmware() {
    let mut bench = Bench::new(true);
    let data = TestData::new("Toaster".to_string(), true);
    assert_eq!(data.device_code(), DeviceCode::Unknown);
    assert_eq!(bench.submit(&data), State::ENoFirmware);
    assert_eq!(bench.started, vec!["ERR"]);
    assert!(bench.sent.is_empty());
}

#[test]
fn a_channel_that_does_not_open_ends_in_open_and_the_firmware_is_stopped_once() {
    let mut bench = Bench::new(false);
    let mut registry = TestRegistry::new();
    let data = TestData::new("Continuous Wear Sensor".to_string(), true);
    let state = bench.submit(&data);
    registry.append(data.clone());
    assert_eq!(state, State::EOpen);
    assert!(bench.sent.is_empty());
    assert_eq!(bench.result(&registry, state), Ok(State::EOpen));
    assert_eq!(bench.started, vec!["CWS"]);
    assert_eq!(bench.stopped, vec!["CWS"]);
    assert_eq!(bench.exported, vec!["data/CWS-test.csv"]);
}

#[test]
fn a_channel_that_fails_at_the_second_exchange_ends_in_open_too() {
    let data = TestData::new("Pressure Sensor".to_string(), true);
    let (run, _) = begin_test(&data);
    let (run, action) = run.advance(true);
    assert_eq!(action, Some(RunAction::Exchange(Message::Probe)));
    let (run, action) = run.advance(true);
    assert_eq!(action, Some(RunAction::Exchange(Message::Flag(false))));
    let (_, action) = run.advance(false);
    assert_eq!(action, Some(RunAction::Report(State::EOpen)));
}

#[test]
fn a_result_asked_for_before_any_submission_is_refused() {
    let mut bench = Bench::new(true);
    let registry = TestRegistry::new();
    assert_eq!(Retrieval::begin(&registry), Err(RetrievalError::RegistryEmpty));
    assert_eq!(bench.result(&registry, State::Idle), Err(RetrievalError::RegistryEmpty));
    assert!(bench.stopped.is_empty());
    assert!(bench.exported.is_empty());
}

#[test]
fn the_csv_of_a_brake_signal_transmitter_is_served_under_its_code() {
    let mut bench = Bench::new(true);
    let mut registry = TestRegistry::new();
    let data = TestData::new("Brake Signal Transmitter".to_string(), true);
    assert_eq!(bench.submit(&data), State::Awake);
    registry.append(data);
    assert_eq!(bench.result(&registry, State::Pass), Ok(State::Pass));
    assert_eq!(bench.exported, vec!["data/BST-test.csv"]);
    assert_eq!(download_path("BST"), bench.exported[0]);
    assert_eq!(bench.stopped, vec!["BST"]);
}

#[test]
fn a_passed_run_is_replied_after_one_stop() {
    let mut bench = Bench::new(true);
    let mut registry = TestRegistry::new();
    let first = TestData::new("Pressure Sensor".to_string(), false);
    let second = TestData::new("Electronic Stability Control Module".to_string(), false);
    registry.append(first);
    registry.append(second);
    assert_eq!(bench.result(&registry, State::Done), Ok(State::Done));
    assert_eq!(bench.stopped, vec!["ESCM"]);
    assert_eq!(bench.exported, vec!["data/ESCM-test.csv"]);
}
