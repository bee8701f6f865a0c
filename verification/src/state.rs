//! The lifecycle of one test run.

use vstd::prelude::*;

verus! {

/// Where a test run stands.
#[derive(Clone, Copy, Debug, PartialEq, Eq, Structural)]
pub enum State {
    /// Firmware started, exchanges in progress or just completed.
    Awake,
    /// Exchanges ongoing.
    InProgress,
    /// The run is over.
    Done,
    /// The run is over and the device passed.
    Pass,
    /// The run is over and the device failed.
    Fail,
    /// Before any submission.
    Idle,
    /// The firmware could not be loaded.
    ENoFirmware,
    /// Reading from the channel failed.
    ENoRead,
    /// Writing to the channel failed.
    ENoWrite,
    /// The channel could not be opened.
    EOpen,
}

impl State {
    /// The number that stands for this state on the wire: from zero upwards
    /// for the states of a healthy run, below zero for the errors.
    pub open spec fn spec_code(self) -> int {
        match self {
            State::Idle => 0,
            State::Awake => 1,
            State::InProgress => 2,
            State::Done => 3,
            State::Pass => 4,
            State::Fail => 5,
            State::ENoFirmware => -1,
            State::ENoRead => -2,
            State::ENoWrite => -3,
            State::EOpen => -4,
        }
    }

    /// An error state: the run was given up.
    pub open spec fn spec_is_error(self) -> bool {
        self is ENoFirmware || self is ENoRead || self is ENoWrite || self is EOpen
    }

    /// A state that a run does not leave again: an outcome or an error.
    pub open spec fn spec_is_terminal(self) -> bool {
        self is Done || self is Pass || self is Fail || self.spec_is_error()
    }

    /// The number that stands for this state on the wire.
    pub fn code(&self) -> (c: i32)
        ensures
            c == self.spec_code(),
    {
        match self {
            State::Idle => 0,
            State::Awake => 1,
            State::InProgress => 2,
            State::Done => 3,
            State::Pass => 4,
            State::Fail => 5,
            State::ENoFirmware => -1,
            State::ENoRead => -2,
            State::ENoWrite => -3,
            State::EOpen => -4,
        }
    }

    /// Whether the run was given up.
    pub fn is_error(&self) -> (b: bool)
        ensures
            b == self.spec_is_error(),
    {
        match self {
            State::ENoFirmware | State::ENoRead | State::ENoWrite | State::EOpen => true,
            _ => false,
        }
    }

    /// Whether a run in this state is over.
    pub fn is_terminal(&self) -> (b: bool)
        ensures
            b == self.spec_is_terminal(),
    {
        match self {
            State::Done | State::Pass | State::Fail => true,
            _ => self.is_error(),
        }
    }

    /// No two states share a code, and the errors are the states whose code
    /// is negative.
    pub proof fn lemma_code_tells_states_apart(a: State, b: State)
        ensures
            a.spec_code() == b.spec_code() ==> a == b,
            a.spec_is_error() <==> a.spec_code() < 0,
            -4 <= a.spec_code() <= 5,
    {
    }
}

} // verus!
