//! Orchestration of hardware-in-the-loop tests of sensor devices whose
//! firmware runs on a remote core.
//!
//! A test run loads the firmware of the device under test onto the remote
//! core, exchanges two requests with it over a byte channel, and reports
//! the state it ends in. Later the result is fetched: the run is waited
//! for, its trace exported, the firmware stopped.
//!
//! Nothing here touches the board. Each of the four procedures (a firmware
//! call, an exchange, a run, a retrieval) is a machine: a value that is
//! told what happened last and answers with the next state and with the
//! one thing to do next. The caller does that thing and reports back. What
//! a machine asks for, in which order, and how it ends is stated for every
//! series of reports, in turn or out of turn.
//!
//! - [`device`]: device names, their short codes, a submitted test
//! - [`state`]: the states of a run
//! - [`firmware`]: starting and stopping the firmware
//! - [`channel`]: one exchange over the channel
//! - [`orchestrator`]: one test run
//! - [`registry`]: the submitted tests
//! - [`retrieval`]: fetching a result
//! - [`export`]: where a trace is read and its CSV file kept
//! - [`text`]: comparing and joining text

pub mod channel;
pub mod device;
pub mod export;
pub mod firmware;
pub mod orchestrator;
pub mod registry;
pub mod retrieval;
pub mod state;
pub mod text;
