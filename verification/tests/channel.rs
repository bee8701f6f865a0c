use hil_orchestrator::channel::{
    decode_response, response_ended, ChannelAction, ChannelError, ChannelEvent, ChannelStage,
    Exchange, ReadOutcome, POLL_DELTA_MS, TIMEOUT_MS,
};

fn read(outcome: ReadOutcome, buffered: usize) -> ChannelEvent {
    ChannelEvent::Read { outcome, buffered }
}

/// An exchange whose request is written and whose clock is to be read.
fn written() -> Exchange {
    let (ex, _) = Exchange::begin();
    let (ex, _) = ex.step(ChannelEvent::Opened(true));
    let (ex, action) = ex.step(ChannelEvent::Written(true));
    assert_eq!(action, Some(ChannelAction::ReadClock));
    ex
}

#[test]
fn window_and_delta() {
    assert_eq!(TIMEOUT_MS, 1000);
    assert_eq!(POLL_DELTA_MS, 50);
}

#[test]
fn an_exchange_begins_by_opening_the_endpoint() {
    let (ex, action) = Exchange::begin();
    assert_eq!(action, ChannelAction::Open);
    assert_eq!(ex.stage, ChannelStage::Opening);
}

#[test]
fn a_failed_open_ends_the_exchange() {
    let (ex, _) = Exchange::begin();
    let (ex, action) = ex.step(ChannelEvent::Opened(false));
    assert_eq!(action, Some(ChannelAction::Fail(ChannelError::Open)));
    assert_eq!(ex.stage, ChannelStage::Finished);
}

#[test]
fn a_failed_write_ends_the_exchange_before_any_read() {
    let (ex, _) = Exchange::begin();
    let (ex, action) = ex.step(ChannelEvent::Opened(true));
    assert_eq!(action, Some(ChannelAction::Write));
    let (ex, action) = ex.step(ChannelEvent::Written(false));
    assert_eq!(action, Some(ChannelAction::Fail(ChannelError::Write)));
    assert_eq!(ex.stage, ChannelStage::Finished);
    let later = [
        ChannelEvent::Clock(0),
        read(ReadOutcome::Taken(3), 3),
        ChannelEvent::Slept,
        ChannelEvent::Written(true),
        ChannelEvent::Opened(true),
    ];
    for event in later {
        assert_eq!(ex.step(event), (ex, None));
    }
}

#[test]
fn a_response_that_is_there_at_once() {
    let ex = written();
    let (ex, action) = ex.step(ChannelEvent::Clock(0));
    assert_eq!(action, Some(ChannelAction::Read));
    assert_eq!(ex.stage, ChannelStage::Reading(0));
    let (ex, action) = ex.step(read(ReadOutcome::Taken(6), 6));
    assert_eq!(action, Some(ChannelAction::Complete));
    assert_eq!(ex.stage, ChannelStage::Finished);
}

#[test]
fn nothing_ready_means_wait_one_delta_and_try_again() {
    let ex = written();
    let (ex, _) = ex.step(ChannelEvent::Clock(0));
    let (ex, action) = ex.step(read(ReadOutcome::WouldBlock, 0));
    assert_eq!(action, Some(ChannelAction::Sleep(50)));
    assert_eq!(ex.stage, ChannelStage::Sleeping);
    let (ex, action) = ex.step(ChannelEvent::Slept);
    assert_eq!(action, Some(ChannelAction::ReadClock));
    let (ex, action) = ex.step(ChannelEvent::Clock(51));
    assert_eq!(action, Some(ChannelAction::Read));
    let (ex, action) = ex.step(read(ReadOutcome::Taken(0), 0));
    assert_eq!(action, Some(ChannelAction::Sleep(50)));
    let (ex, _) = ex.step(ChannelEvent::Slept);
    let (ex, _) = ex.step(ChannelEvent::Clock(102));
    let (ex, action) = ex.step(read(ReadOutcome::Taken(4), 4));
    assert_eq!(action, Some(ChannelAction::Complete));
    assert_eq!(ex.stage, ChannelStage::Finished);
}

#[test]
fn bytes_that_came_in_before_the_read_blocked_end_the_response() {
    let ex = written();
    let (ex, _) = ex.step(ChannelEvent::Clock(10));
    let (ex, action) = ex.step(read(ReadOutcome::WouldBlock, 5));
    assert_eq!(action, Some(ChannelAction::Complete));
    assert_eq!(ex.stage, ChannelStage::Finished);
}

#[test]
fn an_empty_read_after_data_ends_the_response() {
    let ex = written();
    let (ex, _) = ex.step(ChannelEvent::Clock(10));
    let (ex, action) = ex.step(read(ReadOutcome::Taken(0), 2));
    assert_eq!(action, Some(ChannelAction::Complete));
    assert_eq!(ex.stage, ChannelStage::Finished);
}

#[test]
fn a_read_error_ends_the_exchange() {
    let ex = written();
    let (ex, _) = ex.step(ChannelEvent::Clock(10));
    let (ex, action) = ex.step(read(ReadOutcome::Failed, 0));
    assert_eq!(action, Some(ChannelAction::Fail(ChannelError::Read)));
    assert_eq!(ex.stage, ChannelStage::Finished);
    let ex = written();
    let (ex, _) = ex.step(ChannelEvent::Clock(10));
    let (_, action) = ex.step(read(ReadOutcome::Failed, 9));
    assert_eq!(action, Some(ChannelAction::Fail(ChannelError::Read)));
}

#[test]
fn the_window_closes_at_the_timeout() {
    let (ex, action) = written().step(ChannelEvent::Clock(999));
    assert_eq!(action, Some(ChannelAction::Read));
    assert_eq!(ex.stage, ChannelStage::Reading(999));
    let (ex, action) = written().step(ChannelEvent::Clock(1000));
    assert_eq!(action, Some(ChannelAction::Complete));
    assert_eq!(ex.stage, ChannelStage::Finished);
    let (_, action) = written().step(ChannelEvent::Clock(u64::MAX));
    assert_eq!(action, Some(ChannelAction::Complete));
}

#[test]
fn a_silent_device_is_given_up_after_twenty_polls() {
    let mut ex = written();
    let mut clock = 0;
    let mut reads = 0;
    let mut slept = 0;
    loop {
        let (next, action) = ex.step(ChannelEvent::Clock(clock));
        if action == Some(ChannelAction::Complete) {
            break;
        }
        assert_eq!(action, Some(ChannelAction::Read));
        reads += 1;
        let (next, action) = next.step(read(ReadOutcome::WouldBlock, 0));
        assert_eq!(action, Some(ChannelAction::Sleep(POLL_DELTA_MS)));
        slept += POLL_DELTA_MS;
        clock += POLL_DELTA_MS;
        let (next, action) = next.step(ChannelEvent::Slept);
        assert_eq!(action, Some(ChannelAction::ReadClock));
        ex = next;
    }
    assert_eq!(reads, 20);
    assert_eq!(slept, 1000);
    assert!(slept < TIMEOUT_MS + POLL_DELTA_MS);
}

#[test]
fn channel_events_out_of_turn_change_nothing() {
    let (opening, _) = Exchange::begin();
    assert_eq!(opening.step(ChannelEvent::Written(true)), (opening, None));
    assert_eq!(opening.step(ChannelEvent::Clock(0)), (opening, None));
    assert_eq!(opening.step(read(ReadOutcome::Taken(1), 1)), (opening, None));
    assert_eq!(opening.step(ChannelEvent::Slept), (opening, None));
    let (writing, _) = opening.step(ChannelEvent::Opened(true));
    assert_eq!(writing.step(ChannelEvent::Opened(true)), (writing, None));
    assert_eq!(writing.step(read(ReadOutcome::Taken(1), 1)), (writing, None));
    let timing = written();
    assert_eq!(timing.step(read(ReadOutcome::Taken(1), 1)), (timing, None));
    assert_eq!(timing.step(ChannelEvent::Slept), (timing, None));
    let (reading, _) = timing.step(ChannelEvent::Clock(5));
    assert_eq!(reading.step(ChannelEvent::Clock(6)), (reading, None));
    assert_eq!(reading.step(ChannelEvent::Slept), (reading, None));
    let (sleeping, _) = reading.step(read(ReadOutcome::WouldBlock, 0));
    assert_eq!(sleeping.step(ChannelEvent::Clock(6)), (sleeping, None));
    assert_eq!(sleeping.step(read(ReadOutcome::Taken(1), 1)), (sleeping, None));
}

#[test]
fn response_ended_on_bytes_taken_or_held() {
    assert!(response_ended(ReadOutcome::Taken(1), 1));
    assert!(response_ended(ReadOutcome::Taken(1), 0));
    assert!(response_ended(ReadOutcome::Taken(0), 1));
    assert!(!response_ended(ReadOutcome::Taken(0), 0));
    assert!(response_ended(ReadOutcome::WouldBlock, 1));
    assert!(!response_ended(ReadOutcome::WouldBlock, 0));
}

#[test]
fn decode_response_gives_the_text() {
    assert_eq!(decode_response(b"hello\n".to_vec()), Ok("hello\n".to_string()));
    assert_eq!(decode_response("Prüfstand ✓".as_bytes().to_vec()), Ok("Prüfstand ✓".to_string()));
}

#[test]
fn decode_response_of_nothing_is_the_empty_text() {
    assert_eq!(decode_response(Vec::new()), Ok(String::new()));
}

#[test]
fn decode_response_refuses_bytes_that_are_not_text() {
    assert_eq!(decode_response(vec![0xff]), Err(ChannelError::Decode));
    assert_eq!(decode_response(vec![b'o', b'k', 0xc3]), Err(ChannelError::Decode));
    assert_eq!(decode_response(vec![0xc0, 0x80]), Err(ChannelError::Decode));
    assert_eq!(decode_response(vec![0xed, 0xa0, 0x80]), Err(ChannelError::Decode));
}
