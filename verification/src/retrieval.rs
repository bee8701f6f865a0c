//! Fetching the result of the latest submitted test: wait until the run is
//! over, export its trace, stop the firmware, reply. The retrieval is a
//! machine that is told what happened and answers with what to do next.

use vstd::prelude::*;
use crate::device::{resolve_device_code, DeviceCode, Submission};
use crate::registry::{spec_latest, TestRegistry};
use crate::state::State;

verus! {

/// How long to wait between two looks at the run's state, in milliseconds.
pub const RESULT_POLL_MS: u64 = 500;

/// Why a result cannot be fetched.
#[derive(Clone, Copy, Debug, PartialEq, Eq, Structural)]
pub enum RetrievalError {
    /// No test was ever submitted.
    RegistryEmpty,
}

/// What the caller has to do next for a retrieval.
#[derive(Clone, Copy, Debug, PartialEq, Eq, Structural)]
pub enum RetrievalAction {
    /// Look at the state of the run.
    Poll,
    /// Wait this many milliseconds.
    Sleep(u64),
    /// Export the trace of the device with this code.
    Export(DeviceCode),
    /// Stop the firmware of the device with this code.
    StopFirmware(DeviceCode),
    /// The retrieval is over: reply with this state.
    Reply(State),
    /// The firmware could not be stopped: serve no more requests.
    Shutdown,
}

/// What the caller reports back.
#[derive(Clone, Copy, Debug, PartialEq, Eq, Structural)]
pub enum RetrievalEvent {
    /// The state of the run at this look.
    Polled(State),
    /// The wait is over.
    Slept,
    /// The export was made, or could not be.
    Exported(bool),
    /// The firmware was stopped, or could not be.
    Stopped(bool),
}

/// How far a retrieval has come.
#[derive(Clone, Copy, Debug, PartialEq, Eq, Structural)]
pub enum RetrievalStage {
    /// A look at the run's state is under way.
    Polling,
    /// A wait between two looks is under way.
    Sleeping,
    /// The run ended in this state; its trace is being exported.
    Exporting(State),
    /// The run ended in this state; the firmware is being stopped.
    Stopping(State),
    /// The retrieval is over.
    Finished,
}

/// One retrieval of a result.
#[derive(Clone, Copy, Debug, PartialEq, Eq, Structural)]
pub struct Retrieval {
    /// The device of the latest submitted test.
    pub code: DeviceCode,
    /// How far the retrieval has come.
    pub stage: RetrievalStage,
}

impl Retrieval {
    /// The retrieval after `event`, and what to do next. An event that
    /// does not answer the last action changes nothing and asks for
    /// nothing.
    ///
    /// The run's state is looked at, with a wait after each look that finds
    /// the run still going, until a look finds it over. Then the trace is
    /// exported; whether or not that went well, the firmware is stopped
    /// next. If it stopped, the state that ended the wait is the reply; if
    /// it did not, the server shuts down.
    pub open spec fn spec_step(self, event: RetrievalEvent) -> (
        Retrieval,
        Option<RetrievalAction>,
    ) {
        let code = self.code;
        match (self.stage, event) {
            (RetrievalStage::Polling, RetrievalEvent::Polled(state)) => {
                if state.spec_is_terminal() {
                    (
                        Retrieval { code, stage: RetrievalStage::Exporting(state) },
                        Some(RetrievalAction::Export(code)),
                    )
                } else {
                    (
                        Retrieval { code, stage: RetrievalStage::Sleeping },
                        Some(RetrievalAction::Sleep(RESULT_POLL_MS)),
                    )
                }
            },
            (RetrievalStage::Sleeping, RetrievalEvent::Slept) => (
                Retrieval { code, stage: RetrievalStage::Polling },
                Some(RetrievalAction::Poll),
            ),
            (RetrievalStage::Exporting(state), RetrievalEvent::Exported(_)) => (
                Retrieval { code, stage: RetrievalStage::Stopping(state) },
                Some(RetrievalAction::StopFirmware(code)),
            ),
            (RetrievalStage::Stopping(state), RetrievalEvent::Stopped(ok)) => {
                if ok {
                    (
                        Retrieval { code, stage: RetrievalStage::Finished },
                        Some(RetrievalAction::Reply(state)),
                    )
                } else {
                    (
                        Retrieval { code, stage: RetrievalStage::Finished },
                        Some(RetrievalAction::Shutdown),
                    )
                }
            },
            _ => (self, None),
        }
    }

    /// The retrieval after a series of events, and the actions that were
    /// asked for on the way, in order.
    pub open spec fn spec_run(self, events: Seq<RetrievalEvent>) -> (
        Retrieval,
        Seq<RetrievalAction>,
    )
        decreases events.len(),
    {
        if events.len() == 0 {
            (self, Seq::empty())
        } else {
            let first = self.spec_step(events[0]);
            let rest = first.0.spec_run(events.drop_first());
            match first.1 {
                Some(action) => (rest.0, seq![action] + rest.1),
                None => rest,
            }
        }
    }

    /// Begins the retrieval of the result of the test that was submitted
    /// last: the retrieval, and its first action, which is to look at the
    /// run's state. `RegistryEmpty` if no test was ever submitted.
    pub fn begin(registry: &TestRegistry) -> (begun: Result<
        (Retrieval, RetrievalAction),
        RetrievalError,
    >)
        ensures
            begun == spec_begin(registry@),
    {
        match registry.latest() {
            None => Err(RetrievalError::RegistryEmpty),
            Some(data) => Ok(
                (
                    Retrieval { code: data.device_code(), stage: RetrievalStage::Polling },
                    RetrievalAction::Poll,
                ),
            ),
        }
    }

    /// The retrieval after `event`, and what to do next.
    pub fn step(self, event: RetrievalEvent) -> (next: (Retrieval, Option<RetrievalAction>))
        ensures
            next == self.spec_step(event),
    {
        let code = self.code;
        match (self.stage, event) {
            (RetrievalStage::Polling, RetrievalEvent::Polled(state)) => {
                if state.is_terminal() {
                    (
                        Retrieval { code, stage: RetrievalStage::Exporting(state) },
                        Some(RetrievalAction::Export(code)),
                    )
                } else {
                    (
                        Retrieval { code, stage: RetrievalStage::Sleeping },
                        Some(RetrievalAction::Sleep(RESULT_POLL_MS)),
                    )
                }
            },
            (RetrievalStage::Sleeping, RetrievalEvent::Slept) => (
                Retrieval { code, stage: RetrievalStage::Polling },
                Some(RetrievalAction::Poll),
            ),
            (RetrievalStage::Exporting(state), RetrievalEvent::Exported(_)) => (
                Retrieval { code, stage: RetrievalStage::Stopping(state) },
                Some(RetrievalAction::StopFirmware(code)),
            ),
            (RetrievalStage::Stopping(state), RetrievalEvent::Stopped(ok)) => {
                if ok {
                    (
                        Retrieval { code, stage: RetrievalStage::Finished },
                        Some(RetrievalAction::Reply(state)),
                    )
                } else {
                    (
                        Retrieval { code, stage: RetrievalStage::Finished },
                        Some(RetrievalAction::Shutdown),
                    )
                }
            },
            _ => (self, None),
        }
    }
}

/// How a retrieval begins, given the tests that were submitted: with a
/// look at the run of the device that the latest of them names, or not at
/// all if there is none.
pub open spec fn spec_begin(entries: Seq<Submission>) -> Result<
    (Retrieval, RetrievalAction),
    RetrievalError,
> {
    match spec_latest(entries) {
        None => Err(RetrievalError::RegistryEmpty),
        Some(entry) => Ok(
            (
                Retrieval {
                    code: resolve_device_code(entry.device),
                    stage: RetrievalStage::Polling,
                },
                RetrievalAction::Poll,
            ),
        ),
    }
}

/// How many looks and waits a series of actions starts with.
pub open spec fn leading_waits(actions: Seq<RetrievalAction>) -> nat
    decreases actions.len(),
{
    if actions.len() == 0 {
        0
    } else if actions[0] is Poll || actions[0] is Sleep {
        1 + leading_waits(actions.drop_first())
    } else {
        0
    }
}

/// The end of a retrieval, or a beginning of that end: the export, then
/// the one stop of the firmware, then the reply with the state that ended
/// the wait, or the shutdown.
pub open spec fn is_ending(code: DeviceCode, actions: Seq<RetrievalAction>) -> bool {
    ||| actions == Seq::<RetrievalAction>::empty()
    ||| actions == seq![RetrievalAction::Export(code)]
    ||| actions == seq![RetrievalAction::Export(code), RetrievalAction::StopFirmware(code)]
    ||| actions == seq![
        RetrievalAction::Export(code),
        RetrievalAction::StopFirmware(code),
        RetrievalAction::Shutdown,
    ]
    ||| exists|state: State|
        state.spec_is_terminal() && actions == seq![
            RetrievalAction::Export(code),
            RetrievalAction::StopFirmware(code),
            RetrievalAction::Reply(state),
        ]
}

/// No event moves a retrieval that is over, and it asks for nothing more.
pub proof fn lemma_finished_retrieval_stays(retrieval: Retrieval, events: Seq<RetrievalEvent>)
    requires
        retrieval.stage is Finished,
    ensures
        retrieval.spec_run(events) == (retrieval, Seq::<RetrievalAction>::empty()),
    decreases events.len(),
{
    if events.len() > 0 {
        lemma_finished_retrieval_stays(retrieval, events.drop_first());
    }
}

/// A retrieval that is stopping the firmware can only go on to reply with
/// the state that ended the wait, or to shut down.
proof fn lemma_run_from_stopping(retrieval: Retrieval, events: Seq<RetrievalEvent>)
    requires
        retrieval.stage is Stopping,
    ensures
        ({
            let actions = retrieval.spec_run(events).1;
            ||| actions == Seq::<RetrievalAction>::empty()
            ||| actions == seq![RetrievalAction::Shutdown]
            ||| actions == seq![RetrievalAction::Reply(retrieval.stage->Stopping_0)]
        }),
    decreases events.len(),
{
    if events.len() > 0 {
        if events[0] is Stopped {
            lemma_finished_retrieval_stays(retrieval.spec_step(events[0]).0, events.drop_first());
        } else {
            lemma_run_from_stopping(retrieval, events.drop_first());
        }
    }
}

/// A retrieval that is exporting can only go on to stop the firmware, once,
/// and then as one that is stopping it.
proof fn lemma_run_from_exporting(retrieval: Retrieval, events: Seq<RetrievalEvent>)
    requires
        retrieval.stage is Exporting,
    ensures
        ({
            let actions = retrieval.spec_run(events).1;
            let stop = RetrievalAction::StopFirmware(retrieval.code);
            ||| actions == Seq::<RetrievalAction>::empty()
            ||| actions == seq![stop]
            ||| actions == seq![stop, RetrievalAction::Shutdown]
            ||| actions == seq![stop, RetrievalAction::Reply(retrieval.stage->Exporting_0)]
        }),
    decreases events.len(),
{
    if events.len() > 0 {
        if events[0] is Exported {
            lemma_run_from_stopping(retrieval.spec_step(events[0]).0, events.drop_first());
        } else {
            lemma_run_from_exporting(retrieval, events.drop_first());
        }
    }
}

/// Whatever happens, a retrieval asks for looks and waits, and after them
/// for nothing but the export, then the one stop of the firmware, then the
/// reply or the shutdown. So the firmware is stopped at most once, always
/// after the export and before the reply, and exactly once in every
/// retrieval that comes to an end; and the state that is replied is one in
/// which the run is over.
pub proof fn lemma_retrieval_stops_firmware_once(retrieval: Retrieval, events: Seq<RetrievalEvent>)
    requires
        retrieval.stage is Polling || retrieval.stage is Sleeping,
    ensures
        ({
            let actions = retrieval.spec_run(events).1;
            let waits = leading_waits(actions) as int;
            &&& 0 <= waits <= actions.len()
            &&& is_ending(retrieval.code, actions.skip(waits))
        }),
    decreases events.len(),
{
    let actions = retrieval.spec_run(events).1;
    let code = retrieval.code;
    if events.len() == 0 {
        assert(actions.skip(0) =~= Seq::<RetrievalAction>::empty());
    } else {
        let first = retrieval.spec_step(events[0]);
        let rest = first.0.spec_run(events.drop_first()).1;
        match first.1 {
            None => {
                lemma_retrieval_stops_firmware_once(retrieval, events.drop_first());
            },
            Some(RetrievalAction::Export(_)) => {
                let state = first.0.stage->Exporting_0;
                let export = RetrievalAction::Export(code);
                let stop = RetrievalAction::StopFirmware(code);
                lemma_run_from_exporting(first.0, events.drop_first());
                assert(actions.skip(0) =~= actions);
                if rest == seq![stop] {
                    assert(actions =~= seq![export, stop]);
                } else if rest == seq![stop, RetrievalAction::Shutdown] {
                    assert(actions =~= seq![export, stop, RetrievalAction::Shutdown]);
                } else if rest.len() > 0 {
                    assert(actions =~= seq![export, stop, RetrievalAction::Reply(state)]);
                }
            },
            Some(wait) => {
                lemma_retrieval_stops_firmware_once(first.0, events.drop_first());
                assert(actions.drop_first() =~= rest);
                assert(actions.skip(1 + leading_waits(rest) as int) =~= rest.skip(
                    leading_waits(rest) as int,
                ));
            },
        }
    }
}

/// The actions that `leading_waits` counts are looks and waits, and no
/// more of them than there are actions.
proof fn lemma_leading_waits(actions: Seq<RetrievalAction>)
    ensures
        leading_waits(actions) <= actions.len(),
        forall|i: int|
            0 <= i < leading_waits(actions) ==> #[trigger] actions[i] is Poll || actions[i] is Sleep,
    decreases actions.len(),
{
    if actions.len() > 0 && (actions[0] is Poll || actions[0] is Sleep) {
        let rest = actions.drop_first();
        lemma_leading_waits(rest);
        assert forall|i: int| 0 <= i < leading_waits(actions) implies #[trigger] actions[i] is Poll
            || actions[i] is Sleep by {
            if i > 0 {
                assert(actions[i] == rest[i - 1]);
            }
        }
    }
}

/// Whatever happens, a retrieval asks no more than once for the firmware
/// to be stopped; and where it asks for the reply or the shutdown, that is
/// its last action, and the two before it were the export and the stop of
/// the firmware of the retrieval's device.
pub proof fn lemma_one_stop_before_the_reply(retrieval: Retrieval, events: Seq<RetrievalEvent>)
    requires
        retrieval.stage is Polling || retrieval.stage is Sleeping,
    ensures
        ({
            let actions = retrieval.spec_run(events).1;
            &&& forall|i: int, j: int|
                0 <= i < actions.len() && 0 <= j < actions.len() && #[trigger] actions[i]
                    is StopFirmware && #[trigger] actions[j] is StopFirmware ==> i == j
            &&& forall|i: int|
                0 <= i < actions.len() && (#[trigger] actions[i] is Reply || actions[i]
                    is Shutdown) ==> {
                    &&& i == actions.len() - 1
                    &&& i >= 2
                    &&& actions[i - 1] == RetrievalAction::StopFirmware(retrieval.code)
                    &&& actions[i - 2] == RetrievalAction::Export(retrieval.code)
                }
        }),
{
    let actions = retrieval.spec_run(events).1;
    let waits = leading_waits(actions) as int;
    let ending = actions.skip(waits);
    lemma_retrieval_stops_firmware_once(retrieval, events);
    lemma_leading_waits(actions);
    assert forall|i: int| waits <= i < actions.len() implies actions[i] == #[trigger] ending[i
        - waits] by {}
    assert forall|i: int|
        0 <= i < actions.len() && (#[trigger] actions[i] is Reply || actions[i]
            is Shutdown) implies {
        &&& i == actions.len() - 1
        &&& i >= 2
        &&& actions[i - 1] == RetrievalAction::StopFirmware(retrieval.code)
        &&& actions[i - 2] == RetrievalAction::Export(retrieval.code)
    } by {
        assert(i >= waits);
        assert(actions[i] == ending[i - waits]);
        assert(ending.len() == 3);
    }
}

} // verus!
