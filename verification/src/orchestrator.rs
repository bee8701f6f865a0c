//! One test run: start the firmware, probe the device, send the feature
//! flag. The run is a machine that is told whether the last action
//! succeeded and answers with the next one.

use vstd::prelude::*;
use crate::device::{resolve_device_code, DeviceCode, Submission, TestData};
use crate::state::State;

verus! {

/// A request that a run sends over the channel.
#[derive(Clone, Copy, Debug, PartialEq, Eq, Structural)]
pub enum Message {
    /// The greeting that probes the device.
    Probe,
    /// The feature flag: switched on, or off.
    Flag(bool),
}

impl Message {
    /// The request as it is written to the channel.
    pub open spec fn spec_text(self) -> Seq<char> {
        match self {
            Message::Probe => "hello\n"@,
            Message::Flag(true) => "yes\n"@,
            Message::Flag(false) => "no\n"@,
        }
    }

    /// The request as it is written to the channel.
    pub fn text(&self) -> (text: &'static str)
        ensures
            text@ == self.spec_text(),
    {
        match self {
            Message::Probe => "hello\n",
            Message::Flag(true) => "yes\n",
            Message::Flag(false) => "no\n",
        }
    }
}

/// The flag request of a run: only the Brake Signal Transmitter has a
/// feature to switch on, so for every other device the flag is off.
pub open spec fn spec_flag_message(code: DeviceCode, check: bool) -> Message {
    Message::Flag(code is Bst && check)
}

/// What the caller has to do next for a run.
#[derive(Clone, Copy, Debug, PartialEq, Eq, Structural)]
pub enum RunAction {
    /// Start the firmware of the device with this code.
    StartFirmware(DeviceCode),
    /// Send this request over the channel and take the response.
    Exchange(Message),
    /// The run is over: this is its state.
    Report(State),
}

/// How far a run has come.
#[derive(Clone, Copy, Debug, PartialEq, Eq, Structural)]
pub enum RunStage {
    /// The firmware is being started.
    Starting,
    /// The probe is under way.
    Probing,
    /// The flag is under way.
    Flagging,
    /// The run is over.
    Finished,
}

/// One test run.
#[derive(Clone, Copy, Debug, PartialEq, Eq, Structural)]
pub struct TestRun {
    /// The device under test.
    pub code: DeviceCode,
    /// The submitted feature flag.
    pub check: bool,
    /// How far the run has come.
    pub stage: RunStage,
}

/// The state that a run ends in, given how its three steps went (a step
/// after a failed one does not take place, and its answer does not count):
/// `ENoFirmware` if the firmware did not start, `EOpen` if either exchange
/// failed, `Awake` if all went well.
pub open spec fn spec_outcome(firmware_started: bool, probed: bool, flagged: bool) -> State {
    if !firmware_started {
        State::ENoFirmware
    } else if !probed || !flagged {
        State::EOpen
    } else {
        State::Awake
    }
}

/// Everything that a run of the device with `code` asks for after its
/// first action, given the answers it gets, in order: the probe once the
/// firmware has started, the flag once the probe was answered, and the
/// report as soon as a step has failed or all three have succeeded.
/// Answers after the report count for nothing.
pub open spec fn spec_actions(code: DeviceCode, check: bool, answers: Seq<bool>) -> Seq<
    RunAction,
> {
    if answers.len() == 0 {
        seq![]
    } else if !answers[0] {
        seq![RunAction::Report(spec_outcome(false, false, false))]
    } else if answers.len() == 1 {
        seq![RunAction::Exchange(Message::Probe)]
    } else if !answers[1] {
        seq![
            RunAction::Exchange(Message::Probe),
            RunAction::Report(spec_outcome(true, false, false)),
        ]
    } else if answers.len() == 2 {
        seq![
            RunAction::Exchange(Message::Probe),
            RunAction::Exchange(spec_flag_message(code, check)),
        ]
    } else {
        seq![
            RunAction::Exchange(Message::Probe),
            RunAction::Exchange(spec_flag_message(code, check)),
            RunAction::Report(spec_outcome(true, true, answers[2])),
        ]
    }
}

impl TestRun {
    /// The run after the last action succeeded or failed, and what to do
    /// next. A run that is over stays as it is and asks for nothing.
    pub open spec fn spec_advance(self, succeeded: bool) -> (TestRun, Option<RunAction>) {
        let finished = TestRun { code: self.code, check: self.check, stage: RunStage::Finished };
        match self.stage {
            RunStage::Starting => {
                if succeeded {
                    (
                        TestRun { code: self.code, check: self.check, stage: RunStage::Probing },
                        Some(RunAction::Exchange(Message::Probe)),
                    )
                } else {
                    (finished, Some(RunAction::Report(State::ENoFirmware)))
                }
            },
            RunStage::Probing => {
                if succeeded {
                    (
                        TestRun { code: self.code, check: self.check, stage: RunStage::Flagging },
                        Some(RunAction::Exchange(spec_flag_message(self.code, self.check))),
                    )
                } else {
                    (finished, Some(RunAction::Report(State::EOpen)))
                }
            },
            RunStage::Flagging => {
                if succeeded {
                    (finished, Some(RunAction::Report(State::Awake)))
                } else {
                    (finished, Some(RunAction::Report(State::EOpen)))
                }
            },
            RunStage::Finished => (self, None),
        }
    }

    /// The run after a series of answers, and the actions that were asked
    /// for on the way, in order.
    pub open spec fn spec_run(self, answers: Seq<bool>) -> (TestRun, Seq<RunAction>)
        decreases answers.len(),
    {
        if answers.len() == 0 {
            (self, Seq::empty())
        } else {
            let first = self.spec_advance(answers[0]);
            let rest = first.0.spec_run(answers.drop_first());
            match first.1 {
                Some(action) => (rest.0, seq![action] + rest.1),
                None => rest,
            }
        }
    }

    /// The run after the last action succeeded or failed, and what to do
    /// next.
    pub fn advance(self, succeeded: bool) -> (next: (TestRun, Option<RunAction>))
        ensures
            next == self.spec_advance(succeeded),
    {
        let finished = TestRun { code: self.code, check: self.check, stage: RunStage::Finished };
        match self.stage {
            RunStage::Starting => {
                if succeeded {
                    (
                        TestRun { code: self.code, check: self.check, stage: RunStage::Probing },
                        Some(RunAction::Exchange(Message::Probe)),
                    )
                } else {
                    (finished, Some(RunAction::Report(State::ENoFirmware)))
                }
            },
            RunStage::Probing => {
                if succeeded {
                    (
                        TestRun { code: self.code, check: self.check, stage: RunStage::Flagging },
                        Some(RunAction::Exchange(flag_message(self.code, self.check))),
                    )
                } else {
                    (finished, Some(RunAction::Report(State::EOpen)))
                }
            },
            RunStage::Flagging => {
                if succeeded {
                    (finished, Some(RunAction::Report(State::Awake)))
                } else {
                    (finished, Some(RunAction::Report(State::EOpen)))
                }
            },
            RunStage::Finished => (self, None),
        }
    }
}

/// The flag request of a run.
pub fn flag_message(code: DeviceCode, check: bool) -> (message: Message)
    ensures
        message == spec_flag_message(code, check),
{
    match code {
        DeviceCode::Bst => Message::Flag(check),
        _ => Message::Flag(false),
    }
}

/// The run that a submission begins with.
pub open spec fn spec_begin_test(submission: Submission) -> TestRun {
    TestRun {
        code: resolve_device_code(submission.device),
        check: submission.check,
        stage: RunStage::Starting,
    }
}

/// Begins the run of a submitted test: the run, and its first action, which
/// is to start the firmware of the device that the test names.
pub fn begin_test(test_data: &TestData) -> (begun: (TestRun, RunAction))
    ensures
        begun.0 == spec_begin_test(test_data@),
        begun.1 == RunAction::StartFirmware(resolve_device_code(test_data@.device)),
{
    let code = test_data.device_code();
    (
        TestRun { code, check: test_data.check(), stage: RunStage::Starting },
        RunAction::StartFirmware(code),
    )
}

/// A run that failed reports a state in which it is over; a run in which
/// all went well reports one in which it is still going.
pub proof fn lemma_only_a_failed_run_is_over(firmware_started: bool, probed: bool, flagged: bool)
    ensures
        spec_outcome(firmware_started, probed, flagged).spec_is_terminal() <==> !(firmware_started
            && probed && flagged),
        spec_outcome(firmware_started, probed, flagged).spec_is_terminal() <==> spec_outcome(
            firmware_started,
            probed,
            flagged,
        ).spec_is_error(),
{
}

/// No answer moves a run that is over, and it asks for nothing more.
pub proof fn lemma_finished_run_stays(run: TestRun, answers: Seq<bool>)
    requires
        run.stage is Finished,
    ensures
        run.spec_run(answers) == (run, Seq::<RunAction>::empty()),
    decreases answers.len(),
{
    if answers.len() > 0 {
        lemma_finished_run_stays(run, answers.drop_first());
    }
}

/// Whatever the answers, a run asks for exactly the actions of
/// `spec_actions`: the firmware is started before anything is sent, the
/// probe goes before the flag, a failure ends the run at once, and the run
/// reports once, at its end, the state of `spec_outcome`.
pub proof fn lemma_run_follows_the_plan(submission: Submission, answers: Seq<bool>)
    ensures
        spec_begin_test(submission).spec_run(answers).1 == spec_actions(
            resolve_device_code(submission.device),
            submission.check,
            answers,
        ),
{
    let run = spec_begin_test(submission);
    if answers.len() > 0 {
        let first = run.spec_advance(answers[0]);
        let tail1 = answers.drop_first();
        if !answers[0] {
            lemma_finished_run_stays(first.0, tail1);
        } else if tail1.len() == 0 {
            assert(first.0.spec_run(tail1).1 =~= Seq::<RunAction>::empty());
        } else {
            let second = first.0.spec_advance(tail1[0]);
            let tail2 = tail1.drop_first();
            if !tail1[0] {
                lemma_finished_run_stays(second.0, tail2);
            } else if tail2.len() == 0 {
                assert(second.0.spec_run(tail2).1 =~= Seq::<RunAction>::empty());
                assert(first.0.spec_run(tail1).1 =~= seq![
                    RunAction::Exchange(spec_flag_message(run.code, run.check)),
                ]);
            } else {
                let third = second.0.spec_advance(tail2[0]);
                lemma_finished_run_stays(third.0, tail2.drop_first());
                assert(second.0.spec_run(tail2).1 =~= seq![third.1->0]);
                assert(first.0.spec_run(tail1).1 =~= seq![
                    RunAction::Exchange(spec_flag_message(run.code, run.check)),
                    third.1->0,
                ]);
            }
        }
    }
}

} // verus!
