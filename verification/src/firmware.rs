//! Starting and stopping the remote core's firmware through its control
//! script, and waiting for the channel that a started firmware publishes.

use vstd::prelude::*;
use crate::text::join3;

verus! {

/// The device node of the channel to the remote core.
pub const VIRT_DEVICE: &'static str = "/dev/ttyRPMSG0";

/// How long to wait between two looks for the channel's device node, in
/// milliseconds.
pub const READY_POLL_MS: u64 = 1;

/// What to ask of the control script.
#[derive(Clone, Copy, Debug, PartialEq, Eq, Structural)]
pub enum FimwareOption {
    /// Load the firmware and start the remote core.
    START,
    /// Stop the remote core.
    STOP,
}

impl FimwareOption {
    /// The argument that the control script takes for this option.
    pub open spec fn spec_arg(self) -> Seq<char> {
        match self {
            FimwareOption::START => "start"@,
            FimwareOption::STOP => "stop"@,
        }
    }

    /// The argument that the control script takes for this option.
    pub fn arg(&self) -> (arg: &'static str)
        ensures
            arg@ == self.spec_arg(),
    {
        match self {
            FimwareOption::START => "start",
            FimwareOption::STOP => "stop",
        }
    }
}

/// The directory that holds the firmware of the device with that code.
pub open spec fn spec_firmware_dir(dev: Seq<char>) -> Seq<char> {
    "/home/root/M4_Firmware/"@ + dev + "-Firmware/"@
}

/// One run of the control script, as plain text.
pub struct ScriptRun {
    /// The working directory.
    pub directory: Seq<char>,
    /// The program, relative to the working directory.
    pub program: Seq<char>,
    /// Its one argument.
    pub argument: Seq<char>,
}

/// The run of the control script that performs `option` for the device with
/// code `dev`.
pub open spec fn spec_script_run(dev: Seq<char>, option: FimwareOption) -> ScriptRun {
    ScriptRun {
        directory: spec_firmware_dir(dev),
        program: "./fw_cortex_m4.sh"@,
        argument: option.spec_arg(),
    }
}

/// One run of the control script: what to execute, where, and with which
/// argument.
#[derive(Debug)]
pub struct ScriptCall {
    directory: String,
    program: &'static str,
    argument: &'static str,
}

impl View for ScriptCall {
    type V = ScriptRun;

    closed spec fn view(&self) -> ScriptRun {
        ScriptRun {
            directory: self.directory@,
            program: self.program@,
            argument: self.argument@,
        }
    }
}

impl ScriptCall {
    /// The working directory.
    pub fn directory(&self) -> (dir: &str)
        ensures
            dir@ == self@.directory,
    {
        self.directory.as_str()
    }

    /// The program, relative to the working directory.
    pub fn program(&self) -> (program: &'static str)
        ensures
            program@ == self@.program,
    {
        self.program
    }

    /// The program's one argument.
    pub fn argument(&self) -> (arg: &'static str)
        ensures
            arg@ == self@.argument,
    {
        self.argument
    }
}

/// How a run of the control script ended.
#[derive(Clone, Copy, Debug, PartialEq, Eq, Structural)]
pub enum ScriptStatus {
    /// The script could not be run at all.
    NotRun,
    /// The script ran and exited with this code.
    Exited(i32),
    /// The script ran and was ended by a signal.
    Killed,
}

/// Why the firmware could not be started or stopped.
#[derive(Clone, Copy, Debug, PartialEq, Eq, Structural)]
pub enum FirmwareError {
    /// The script could not be run at all.
    Launch,
    /// The script exited with this code, which is not zero.
    Exit(i32),
    /// The script was ended by a signal.
    Killed,
}

/// What the caller has to do next for a firmware call.
#[derive(Clone, Copy, Debug, PartialEq, Eq, Structural)]
pub enum FirmwareAction {
    /// Look whether the channel's device node exists.
    Probe,
    /// Wait this many milliseconds.
    Sleep(u64),
    /// The call is over and succeeded.
    Done,
    /// The call is over and failed.
    Failed(FirmwareError),
}

/// What the caller reports back.
#[derive(Clone, Copy, Debug, PartialEq, Eq, Structural)]
pub enum FirmwareEvent {
    /// The control script was run, or could not be.
    Ran(ScriptStatus),
    /// The look for the device node: whether it exists.
    Probed(bool),
    /// The wait is over.
    Slept,
}

/// How far a firmware call has come.
#[derive(Clone, Copy, Debug, PartialEq, Eq, Structural)]
pub enum FirmwareStage {
    /// The control script is to be run.
    Launching,
    /// A look for the device node is under way.
    Probing,
    /// A wait between two looks is under way.
    Sleeping,
    /// The call is over.
    Finished,
}

/// One call to start or stop the firmware.
#[derive(Clone, Copy, Debug, PartialEq, Eq, Structural)]
pub struct FirmwareCall {
    /// What was asked of the control script.
    pub option: FimwareOption,
    /// How far the call has come.
    pub stage: FirmwareStage,
}

impl FirmwareCall {
    /// Only a call that starts the firmware looks or waits for the channel.
    pub open spec fn wf(self) -> bool {
        self.stage is Probing || self.stage is Sleeping ==> self.option is START
    }

    /// The call after `event`, and what to do next. An event that does not
    /// answer the last action changes nothing and asks for nothing.
    ///
    /// A script that could not be run, was killed or exited with another
    /// code than zero fails the call. After a successful `STOP` the call is
    /// over at once; after a successful `START` the device node is looked
    /// for, with a wait after each look that does not find it, until one
    /// finds it.
    pub open spec fn spec_step(self, event: FirmwareEvent) -> (FirmwareCall, Option<FirmwareAction>) {
        let finished = FirmwareCall { option: self.option, stage: FirmwareStage::Finished };
        let probing = FirmwareCall { option: self.option, stage: FirmwareStage::Probing };
        let sleeping = FirmwareCall { option: self.option, stage: FirmwareStage::Sleeping };
        match (self.stage, event) {
            (FirmwareStage::Launching, FirmwareEvent::Ran(ScriptStatus::NotRun)) => (
                finished,
                Some(FirmwareAction::Failed(FirmwareError::Launch)),
            ),
            (FirmwareStage::Launching, FirmwareEvent::Ran(ScriptStatus::Killed)) => (
                finished,
                Some(FirmwareAction::Failed(FirmwareError::Killed)),
            ),
            (FirmwareStage::Launching, FirmwareEvent::Ran(ScriptStatus::Exited(code))) => {
                if code != 0 {
                    (finished, Some(FirmwareAction::Failed(FirmwareError::Exit(code))))
                } else if self.option is STOP {
                    (finished, Some(FirmwareAction::Done))
                } else {
                    (probing, Some(FirmwareAction::Probe))
                }
            },
            (FirmwareStage::Probing, FirmwareEvent::Probed(exists)) => {
                if exists {
                    (finished, Some(FirmwareAction::Done))
                } else {
                    (sleeping, Some(FirmwareAction::Sleep(READY_POLL_MS)))
                }
            },
            (FirmwareStage::Sleeping, FirmwareEvent::Slept) => (
                probing,
                Some(FirmwareAction::Probe),
            ),
            _ => (self, None),
        }
    }

    /// The call after a series of events, and the actions that were asked
    /// for on the way, in order.
    pub open spec fn spec_run(self, events: Seq<FirmwareEvent>) -> (
        FirmwareCall,
        Seq<FirmwareAction>,
    )
        decreases events.len(),
    {
        if events.len() == 0 {
            (self, Seq::empty())
        } else {
            let first = self.spec_step(events[0]);
            let rest = first.0.spec_run(events.drop_first());
            match first.1 {
                Some(action) => (rest.0, seq![action] + rest.1),
                None => rest,
            }
        }
    }

    /// The call after `event`, and what to do next.
    pub fn step(self, event: FirmwareEvent) -> (next: (FirmwareCall, Option<FirmwareAction>))
        ensures
            next == self.spec_step(event),
            self.wf() ==> next.0.wf(),
    {
        let finished = FirmwareCall { option: self.option, stage: FirmwareStage::Finished };
        let probing = FirmwareCall { option: self.option, stage: FirmwareStage::Probing };
        let sleeping = FirmwareCall { option: self.option, stage: FirmwareStage::Sleeping };
        match (self.stage, event) {
            (FirmwareStage::Launching, FirmwareEvent::Ran(status)) => match status {
                ScriptStatus::NotRun => (
                    finished,
                    Some(FirmwareAction::Failed(FirmwareError::Launch)),
                ),
                ScriptStatus::Killed => (
                    finished,
                    Some(FirmwareAction::Failed(FirmwareError::Killed)),
                ),
                ScriptStatus::Exited(code) => {
                    if code != 0 {
                        (finished, Some(FirmwareAction::Failed(FirmwareError::Exit(code))))
                    } else {
                        match self.option {
                            FimwareOption::STOP => (finished, Some(FirmwareAction::Done)),
                            FimwareOption::START => (probing, Some(FirmwareAction::Probe)),
                        }
                    }
                },
            },
            (FirmwareStage::Probing, FirmwareEvent::Probed(exists)) => {
                if exists {
                    (finished, Some(FirmwareAction::Done))
                } else {
                    (sleeping, Some(FirmwareAction::Sleep(READY_POLL_MS)))
                }
            },
            (FirmwareStage::Sleeping, FirmwareEvent::Slept) => (
                probing,
                Some(FirmwareAction::Probe),
            ),
            _ => (self, None),
        }
    }
}

/// Begins a call that performs `option` on the firmware of the device with
/// code `dev`: the call, and the run of the control script that it starts
/// with. The run's outcome goes to `FirmwareCall::step` as `Ran`.
pub fn m4_firmware(dev: &str, option: FimwareOption) -> (begun: (FirmwareCall, ScriptCall))
    ensures
        begun.0 == (FirmwareCall { option, stage: FirmwareStage::Launching }),
        begun.0.wf(),
        begun.1@ == spec_script_run(dev@, option),
{
    let directory = join3("/home/root/M4_Firmware/", dev, "-Firmware/");
    let call = ScriptCall { directory, program: "./fw_cortex_m4.sh", argument: option.arg() };
    (FirmwareCall { option, stage: FirmwareStage::Launching }, call)
}

/// A stop never looks or waits for the channel: it is over as soon as the
/// script has run. A start succeeds only on a look that found the channel's
/// device node, and waits the fixed interval after each look that did not.
/// Either succeeds only if the script exited with zero.
pub proof fn lemma_only_a_start_waits(call: FirmwareCall, event: FirmwareEvent)
    requires
        call.wf(),
    ensures
        call.spec_step(event).0.wf(),
        call.spec_step(event).0.option == call.option,
        call.option is STOP ==> !(call.spec_step(event).1 matches Some(action) && (action is Probe
            || action is Sleep)),
        call.spec_step(event).1 == Some(FirmwareAction::Done) ==> {
            ||| call.option is STOP && call.stage is Launching && event == FirmwareEvent::Ran(
                ScriptStatus::Exited(0),
            )
            ||| call.option is START && call.stage is Probing && event == FirmwareEvent::Probed(
                true,
            )
        },
        call.spec_step(event).1 matches Some(FirmwareAction::Sleep(wait)) ==> {
            &&& wait == READY_POLL_MS
            &&& call.stage is Probing
            &&& event == FirmwareEvent::Probed(false)
        },
        call.spec_step(event).0.stage is Probing && !(call.stage is Probing) ==> {
            ||| call.stage is Sleeping
            ||| event == FirmwareEvent::Ran(ScriptStatus::Exited(0))
        },
{
}

/// No event moves a call that is over, and it asks for nothing more.
pub proof fn lemma_finished_call_stays(call: FirmwareCall, events: Seq<FirmwareEvent>)
    requires
        call.stage is Finished,
    ensures
        call.spec_run(events) == (call, Seq::<FirmwareAction>::empty()),
    decreases events.len(),
{
    if events.len() > 0 {
        lemma_finished_call_stays(call, events.drop_first());
    }
}

/// Whatever happens, a call that is looking or waiting for the channel
/// asks for more looks and waits, and at most at the very end for `Done`.
proof fn lemma_run_from_waiting(call: FirmwareCall, events: Seq<FirmwareEvent>)
    requires
        call.stage is Probing || call.stage is Sleeping,
    ensures
        ({
            let actions = call.spec_run(events).1;
            forall|i: int|
                0 <= i < actions.len() ==> {
                    ||| #[trigger] actions[i] is Probe
                    ||| actions[i] == FirmwareAction::Sleep(READY_POLL_MS)
                    ||| actions[i] is Done && i == actions.len() - 1
                }
        }),
    decreases events.len(),
{
    if events.len() > 0 {
        let first = call.spec_step(events[0]);
        let rest = first.0.spec_run(events.drop_first()).1;
        let actions = call.spec_run(events).1;
        if first.0.stage is Finished {
            lemma_finished_call_stays(first.0, events.drop_first());
        } else {
            lemma_run_from_waiting(first.0, events.drop_first());
            if first.1 is Some {
                assert forall|i: int| 0 < i < actions.len() implies #[trigger] actions[i] == rest[i
                    - 1] by {}
            }
        }
    }
}

/// Whatever happens, a stop asks for nothing but its end, once: `Done` or
/// `Failed`. A start asks for nothing after a failure; otherwise it asks
/// for looks and waits of the fixed interval, for as long as it takes, and
/// for `Done` only as its last action.
pub proof fn lemma_call_ends_once(option: FimwareOption, events: Seq<FirmwareEvent>)
    ensures
        ({
            let call = FirmwareCall { option, stage: FirmwareStage::Launching };
            let actions = call.spec_run(events).1;
            &&& forall|i: int|
                0 <= i < actions.len() && (#[trigger] actions[i] is Done || actions[i]
                    is Failed) ==> i == actions.len() - 1
            &&& forall|i: int|
                0 <= i < actions.len() && #[trigger] actions[i] is Failed ==> i == 0
            &&& forall|i: int|
                0 <= i < actions.len() && #[trigger] actions[i] is Sleep ==> actions[i]
                    == FirmwareAction::Sleep(READY_POLL_MS)
            &&& option is STOP ==> actions.len() <= 1 && forall|i: int|
                0 <= i < actions.len() ==> #[trigger] actions[i] is Done || actions[i] is Failed
        }),
    decreases events.len(),
{
    let call = FirmwareCall { option, stage: FirmwareStage::Launching };
    let actions = call.spec_run(events).1;
    if events.len() > 0 {
        let first = call.spec_step(events[0]);
        let rest = first.0.spec_run(events.drop_first()).1;
        match first.1 {
            None => {
                lemma_call_ends_once(option, events.drop_first());
            },
            Some(_) => {
                if first.0.stage is Finished {
                    lemma_finished_call_stays(first.0, events.drop_first());
                } else {
                    lemma_run_from_waiting(first.0, events.drop_first());
                    assert forall|i: int| 0 < i < actions.len() implies #[trigger] actions[i]
                        == rest[i - 1] by {}
                }
            },
        }
    }
}

} // verus!
