//! One request and response over the channel to the remote core: open the
//! endpoint, write the request, then poll for the response within a fixed
//! window.
//!
//! The exchange is a machine that is told what happened and answers with
//! what to do next. It holds no bytes: the caller writes the request and
//! gathers the response, and reports how much has come in.

use vstd::prelude::*;
use vstd::utf8::*;

verus! {

/// How long to poll for a response after the request was written, in
/// milliseconds.
pub const TIMEOUT_MS: u64 = 1000;

/// How long to wait between two polls, in milliseconds.
pub const POLL_DELTA_MS: u64 = 50;

/// Why an exchange failed.
#[derive(Clone, Copy, Debug, PartialEq, Eq, Structural)]
pub enum ChannelError {
    /// The endpoint could not be opened.
    Open,
    /// The request could not be written.
    Write,
    /// Reading the response failed for another reason than that nothing
    /// was ready yet.
    Read,
    /// The response is not valid UTF-8.
    Decode,
}

/// What one attempt to read did.
#[derive(Clone, Copy, Debug, PartialEq, Eq, Structural)]
pub enum ReadOutcome {
    /// The read returned, having taken this many bytes: none at the end
    /// of what there is to read.
    Taken(usize),
    /// Nothing was ready yet.
    WouldBlock,
    /// The read failed.
    Failed,
}

/// What the caller has to do next for an exchange.
#[derive(Clone, Copy, Debug, PartialEq, Eq, Structural)]
pub enum ChannelAction {
    /// Open the endpoint for reading and writing, without blocking.
    Open,
    /// Write the request, and start the clock when it is written.
    Write,
    /// Read the clock: the milliseconds since the request was written.
    ReadClock,
    /// Read what is ready into the response.
    Read,
    /// Wait this many milliseconds.
    Sleep(u64),
    /// The exchange is over: the response is what was gathered.
    Complete,
    /// The exchange is over and failed.
    Fail(ChannelError),
}

/// What the caller reports back.
#[derive(Clone, Copy, Debug, PartialEq, Eq, Structural)]
pub enum ChannelEvent {
    /// The endpoint was opened, or could not be.
    Opened(bool),
    /// The request was written, or could not be.
    Written(bool),
    /// The milliseconds since the request was written.
    Clock(u64),
    /// An attempt to read: what it did, and how many bytes the response
    /// holds after it.
    Read { outcome: ReadOutcome, buffered: usize },
    /// The wait is over.
    Slept,
}

/// How far an exchange has come.
#[derive(Clone, Copy, Debug, PartialEq, Eq, Structural)]
pub enum ChannelStage {
    /// The endpoint is to be opened.
    Opening,
    /// The request is to be written.
    Writing,
    /// The clock is to be read before the next poll.
    Timing,
    /// A read is under way; the clock stood at this many milliseconds
    /// before it.
    Reading(u64),
    /// A wait between two polls is under way.
    Sleeping,
    /// The exchange is over.
    Finished,
}

/// One exchange with the remote core.
#[derive(Clone, Copy, Debug, PartialEq, Eq, Structural)]
pub struct Exchange {
    /// How far the exchange has come.
    pub stage: ChannelStage,
}

impl Exchange {
    /// A read is only under way while the window is open.
    pub open spec fn wf(self) -> bool {
        self.stage matches ChannelStage::Reading(elapsed) ==> elapsed < TIMEOUT_MS
    }

    /// The exchange after `event`, and what to do next. An event that does
    /// not answer the last action changes nothing and asks for nothing.
    ///
    /// A failure to open or to write ends the exchange at once. After the
    /// write each round reads the clock first: once the window has passed
    /// the exchange is complete with what was gathered, be it nothing.
    /// Within the window a read follows. A read that fails ends the
    /// exchange; one that took bytes, or that leaves the response not
    /// empty, completes it; otherwise a wait of one delta follows, and then
    /// the next round.
    pub open spec fn spec_step(self, event: ChannelEvent) -> (Exchange, Option<ChannelAction>) {
        let finished = Exchange { stage: ChannelStage::Finished };
        match (self.stage, event) {
            (ChannelStage::Opening, ChannelEvent::Opened(ok)) => {
                if ok {
                    (Exchange { stage: ChannelStage::Writing }, Some(ChannelAction::Write))
                } else {
                    (finished, Some(ChannelAction::Fail(ChannelError::Open)))
                }
            },
            (ChannelStage::Writing, ChannelEvent::Written(ok)) => {
                if ok {
                    (Exchange { stage: ChannelStage::Timing }, Some(ChannelAction::ReadClock))
                } else {
                    (finished, Some(ChannelAction::Fail(ChannelError::Write)))
                }
            },
            (ChannelStage::Timing, ChannelEvent::Clock(elapsed)) => {
                if elapsed < TIMEOUT_MS {
                    (
                        Exchange { stage: ChannelStage::Reading(elapsed) },
                        Some(ChannelAction::Read),
                    )
                } else {
                    (finished, Some(ChannelAction::Complete))
                }
            },
            (ChannelStage::Reading(_), ChannelEvent::Read { outcome, buffered }) => {
                if outcome is Failed {
                    (finished, Some(ChannelAction::Fail(ChannelError::Read)))
                } else if spec_response_ended(outcome, buffered) {
                    (finished, Some(ChannelAction::Complete))
                } else {
                    (
                        Exchange { stage: ChannelStage::Sleeping },
                        Some(ChannelAction::Sleep(POLL_DELTA_MS)),
                    )
                }
            },
            (ChannelStage::Sleeping, ChannelEvent::Slept) => (
                Exchange { stage: ChannelStage::Timing },
                Some(ChannelAction::ReadClock),
            ),
            _ => (self, None),
        }
    }

    /// The exchange after a series of events, and the actions that were
    /// asked for on the way, in order.
    pub open spec fn spec_run(self, events: Seq<ChannelEvent>) -> (Exchange, Seq<ChannelAction>)
        decreases events.len(),
    {
        if events.len() == 0 {
            (self, Seq::empty())
        } else {
            let first = self.spec_step(events[0]);
            let rest = first.0.spec_run(events.drop_first());
            match first.1 {
                Some(action) => (rest.0, seq![action] + rest.1),
                None => rest,
            }
        }
    }

    /// A new exchange, and its first action: to open the endpoint.
    pub fn begin() -> (begun: (Exchange, ChannelAction))
        ensures
            begun == (Exchange { stage: ChannelStage::Opening }, ChannelAction::Open),
            begun.0.wf(),
    {
        (Exchange { stage: ChannelStage::Opening }, ChannelAction::Open)
    }

    /// The exchange after `event`, and what to do next.
    pub fn step(self, event: ChannelEvent) -> (next: (Exchange, Option<ChannelAction>))
        ensures
            next == self.spec_step(event),
            self.wf() ==> next.0.wf(),
    {
        let finished = Exchange { stage: ChannelStage::Finished };
        match (self.stage, event) {
            (ChannelStage::Opening, ChannelEvent::Opened(ok)) => {
                if ok {
                    (Exchange { stage: ChannelStage::Writing }, Some(ChannelAction::Write))
                } else {
                    (finished, Some(ChannelAction::Fail(ChannelError::Open)))
                }
            },
            (ChannelStage::Writing, ChannelEvent::Written(ok)) => {
                if ok {
                    (Exchange { stage: ChannelStage::Timing }, Some(ChannelAction::ReadClock))
                } else {
                    (finished, Some(ChannelAction::Fail(ChannelError::Write)))
                }
            },
            (ChannelStage::Timing, ChannelEvent::Clock(elapsed)) => {
                if elapsed < TIMEOUT_MS {
                    (
                        Exchange { stage: ChannelStage::Reading(elapsed) },
                        Some(ChannelAction::Read),
                    )
                } else {
                    (finished, Some(ChannelAction::Complete))
                }
            },
            (ChannelStage::Reading(_), ChannelEvent::Read { outcome, buffered }) => {
                match outcome {
                    ReadOutcome::Failed => (
                        finished,
                        Some(ChannelAction::Fail(ChannelError::Read)),
                    ),
                    _ => {
                        if response_ended(outcome, buffered) {
                            (finished, Some(ChannelAction::Complete))
                        } else {
                            (
                                Exchange { stage: ChannelStage::Sleeping },
                                Some(ChannelAction::Sleep(POLL_DELTA_MS)),
                            )
                        }
                    },
                }
            },
            (ChannelStage::Sleeping, ChannelEvent::Slept) => (
                Exchange { stage: ChannelStage::Timing },
                Some(ChannelAction::ReadClock),
            ),
            _ => (self, None),
        }
    }
}

/// An action of the polling rounds that follow a successful write.
pub open spec fn is_poll_action(action: ChannelAction) -> bool {
    action is ReadClock || action is Read || action == ChannelAction::Sleep(POLL_DELTA_MS)
        || action is Complete || action == ChannelAction::Fail(ChannelError::Read)
}

/// A stage that lies behind the write: one of the polling rounds, or the
/// end.
pub open spec fn past_write(stage: ChannelStage) -> bool {
    !(stage is Opening) && !(stage is Writing)
}

/// No event moves a finished exchange, and it asks for nothing more.
pub proof fn lemma_finished_exchange_stays(events: Seq<ChannelEvent>)
    ensures
        (Exchange { stage: ChannelStage::Finished }).spec_run(events) == (
            Exchange { stage: ChannelStage::Finished },
            Seq::<ChannelAction>::empty(),
        ),
    decreases events.len(),
{
    if events.len() > 0 {
        lemma_finished_exchange_stays(events.drop_first());
    }
}

/// Whatever happens, an exchange that has left the write behind asks only
/// for actions of the polling rounds.
pub proof fn lemma_after_write_only_polls(exchange: Exchange, events: Seq<ChannelEvent>)
    requires
        past_write(exchange.stage),
    ensures
        past_write(exchange.spec_run(events).0.stage),
        forall|i: int|
            0 <= i < exchange.spec_run(events).1.len() ==> is_poll_action(
                #[trigger] exchange.spec_run(events).1[i],
            ),
    decreases events.len(),
{
    if events.len() > 0 {
        let first = exchange.spec_step(events[0]);
        lemma_after_write_only_polls(first.0, events.drop_first());
    }
}

/// What an exchange that is about to write can go on to ask for: nothing,
/// or to fail on the write and nothing after it, or polling rounds.
proof fn lemma_run_from_writing(events: Seq<ChannelEvent>)
    ensures
        ({
            let actions = (Exchange { stage: ChannelStage::Writing }).spec_run(events).1;
            ||| actions.len() == 0
            ||| actions == seq![ChannelAction::Fail(ChannelError::Write)]
            ||| forall|i: int| 0 <= i < actions.len() ==> is_poll_action(#[trigger] actions[i])
        }),
    decreases events.len(),
{
    if events.len() > 0 {
        let writing = Exchange { stage: ChannelStage::Writing };
        match events[0] {
            ChannelEvent::Written(true) => {
                lemma_after_write_only_polls(writing.spec_step(events[0]).0, events.drop_first());
            },
            ChannelEvent::Written(false) => {
                lemma_finished_exchange_stays(events.drop_first());
            },
            _ => {
                lemma_run_from_writing(events.drop_first());
            },
        }
    }
}

/// What a new exchange can go on to ask for: nothing, or to fail on the
/// open and nothing after it, or a write followed by what an exchange that
/// is about to write asks for.
proof fn lemma_run_from_opening(events: Seq<ChannelEvent>)
    ensures
        ({
            let actions = (Exchange { stage: ChannelStage::Opening }).spec_run(events).1;
            ||| actions.len() == 0
            ||| actions == seq![ChannelAction::Fail(ChannelError::Open)]
            ||| actions == seq![ChannelAction::Write]
            ||| actions == seq![
                ChannelAction::Write,
                ChannelAction::Fail(ChannelError::Write),
            ]
            ||| {
                &&& actions.len() >= 2
                &&& actions[0] == ChannelAction::Write
                &&& forall|i: int| 1 <= i < actions.len() ==> is_poll_action(#[trigger] actions[i])
            }
        }),
    decreases events.len(),
{
    if events.len() > 0 {
        let opening = Exchange { stage: ChannelStage::Opening };
        let actions = opening.spec_run(events).1;
        match events[0] {
            ChannelEvent::Opened(true) => {
                let rest = (Exchange { stage: ChannelStage::Writing }).spec_run(
                    events.drop_first(),
                ).1;
                lemma_run_from_writing(events.drop_first());
                assert forall|i: int| 1 <= i < actions.len() implies #[trigger] actions[i] == rest[i
                    - 1] by {}
            },
            ChannelEvent::Opened(false) => {
                lemma_finished_exchange_stays(events.drop_first());
            },
            _ => {
                lemma_run_from_opening(events.drop_first());
            },
        }
    }
}

/// Writing comes before reading, whatever happens: an exchange asks for a
/// read only after it has asked for the write, and one whose write failed
/// never asks for a read, nor for anything else after the failure.
pub proof fn lemma_write_precedes_read(events: Seq<ChannelEvent>)
    ensures
        ({
            let actions = (Exchange { stage: ChannelStage::Opening }).spec_run(events).1;
            &&& forall|i: int|
                0 <= i < actions.len() && #[trigger] actions[i] is Read ==> i > 0 && actions[0]
                    == ChannelAction::Write
            &&& forall|i: int|
                0 <= i < actions.len() && #[trigger] actions[i] == ChannelAction::Fail(
                    ChannelError::Write,
                ) ==> i == actions.len() - 1 && forall|j: int|
                    0 <= j < actions.len() ==> !(#[trigger] actions[j] is Read)
        }),
{
    lemma_run_from_opening(events);
}

/// A wait is asked for only in answer to a read that began while the
/// window was open, and lasts one delta: counted from the write, it is
/// over before the window plus one delta has passed.
pub proof fn lemma_wait_ends_within_window(exchange: Exchange, event: ChannelEvent)
    requires
        exchange.wf(),
    ensures
        exchange.spec_step(event).0.wf(),
        exchange.spec_step(event).1 matches Some(ChannelAction::Sleep(wait)) ==> {
            &&& exchange.stage matches ChannelStage::Reading(elapsed)
            &&& wait == POLL_DELTA_MS
            &&& elapsed + wait < TIMEOUT_MS + POLL_DELTA_MS
        },
{
}

/// How many waits a series of actions holds.
pub open spec fn count_waits(actions: Seq<ChannelAction>) -> nat
    decreases actions.len(),
{
    if actions.len() == 0 {
        0
    } else if actions[0] is Sleep {
        1 + count_waits(actions.drop_first())
    } else {
        count_waits(actions.drop_first())
    }
}

/// A clock that runs while the exchange waits: the first reading among
/// `events` is at least `from`, and each one after it is at least one
/// delta later than the one before.
pub open spec fn clock_runs(events: Seq<ChannelEvent>, from: int) -> bool
    decreases events.len(),
{
    if events.len() == 0 {
        true
    } else {
        match events[0] {
            ChannelEvent::Clock(elapsed) => elapsed >= from && clock_runs(
                events.drop_first(),
                elapsed + POLL_DELTA_MS,
            ),
            _ => clock_runs(events.drop_first(), from),
        }
    }
}

/// How many readings of a running clock can still fall into the window,
/// if none comes before `from`.
pub open spec fn rounds_left(from: int) -> int {
    if from >= TIMEOUT_MS {
        0
    } else {
        (TIMEOUT_MS - from + POLL_DELTA_MS - 1) / (POLL_DELTA_MS as int)
    }
}

/// With a running clock, an exchange in any stage can still ask for as
/// many waits as readings can fall into the window, and for one more if a
/// read is under way.
proof fn lemma_waits_left(exchange: Exchange, events: Seq<ChannelEvent>, from: int)
    requires
        exchange.wf(),
        0 <= from,
        clock_runs(events, from),
    ensures
        count_waits(exchange.spec_run(events).1) <= rounds_left(from) + (if exchange.stage
            is Reading {
            1int
        } else {
            0int
        }),
    decreases events.len(),
{
    if events.len() > 0 {
        let first = exchange.spec_step(events[0]);
        let rest = first.0.spec_run(events.drop_first()).1;
        let actions = exchange.spec_run(events).1;
        let later = match events[0] {
            ChannelEvent::Clock(elapsed) => elapsed + POLL_DELTA_MS,
            _ => from,
        };
        lemma_waits_left(first.0, events.drop_first(), later);
        if first.1 is Some {
            assert(actions.drop_first() =~= rest);
        }
    }
}

/// An exchange whose clock runs while it waits asks for no more than
/// twenty waits of one delta each, whatever else happens: in all it waits
/// no longer than the window, and so is over before the window plus one
/// delta has passed.
pub proof fn lemma_exchange_waits_within_window(events: Seq<ChannelEvent>)
    requires
        clock_runs(events, 0),
    ensures
        ({
            let actions = (Exchange { stage: ChannelStage::Opening }).spec_run(events).1;
            &&& count_waits(actions) <= 20
            &&& count_waits(actions) * POLL_DELTA_MS <= TIMEOUT_MS
            &&& forall|i: int|
                0 <= i < actions.len() && #[trigger] actions[i] is Sleep ==> actions[i]
                    == ChannelAction::Sleep(POLL_DELTA_MS)
        }),
{
    lemma_waits_left(Exchange { stage: ChannelStage::Opening }, events, 0);
    lemma_run_from_opening(events);
}

/// Whether a read attempt that did not fail ends the response: it took
/// bytes, or the response holds bytes after it.
pub open spec fn spec_response_ended(outcome: ReadOutcome, buffered: usize) -> bool {
    (outcome matches ReadOutcome::Taken(taken) && taken > 0) || buffered > 0
}

/// Whether a read attempt that did not fail ends the response.
pub fn response_ended(outcome: ReadOutcome, buffered: usize) -> (ended: bool)
    ensures
        ended == spec_response_ended(outcome, buffered),
{
    match outcome {
        ReadOutcome::Taken(taken) => taken > 0 || buffered > 0,
        _ => buffered > 0,
    }
}

/// `String::from_utf8`: the text that the bytes encode, if they are valid
/// UTF-8, and nothing if they are not.
#[verifier::external_body]
fn text_from_utf8(bytes: Vec<u8>) -> (text: Option<String>)
    ensures
        text is Some <==> valid_utf8(bytes@),
        text matches Some(s) ==> s@ == decode_utf8(bytes@),
{
    match String::from_utf8(bytes) {
        Ok(s) => Some(s),
        Err(_) => None,
    }
}

/// The response that was gathered, as text.
pub open spec fn spec_decode_response(bytes: Seq<u8>) -> Result<Seq<char>, ChannelError> {
    if valid_utf8(bytes) {
        Ok(decode_utf8(bytes))
    } else {
        Err(ChannelError::Decode)
    }
}

/// The response that was gathered, as text: `Decode` if the bytes are not
/// valid UTF-8.
pub fn decode_response(bytes: Vec<u8>) -> (response: Result<String, ChannelError>)
    ensures
        match spec_decode_response(bytes@) {
            Ok(text) => response matches Ok(s) && s@ == text,
            Err(e) => response == Err::<String, ChannelError>(e),
        },
{
    match text_from_utf8(bytes) {
        Some(text) => Ok(text),
        None => Err(ChannelError::Decode),
    }
}

} // verus!
