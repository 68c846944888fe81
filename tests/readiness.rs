use readiness_harness::{
    assert_would_block, echo_step, find_match, BlockCheckError, EchoAction, EventWait, Expectation,
    IoFault, ReadyEvent, WaitStep, DEFAULT_ATTEMPTS, POLL_TIMEOUT_MS,
};

fn ev(token: usize, readable: bool, writable: bool) -> ReadyEvent {
    ReadyEvent { token, readable, writable }
}

#[test]
fn expectation_matches_token_and_condition() {
    let w = Expectation::writable(0);
    let r = Expectation::readable(0);
    assert!(w.matches(&ev(0, false, true)));
    assert!(!w.matches(&ev(0, true, false)));
    assert!(!w.matches(&ev(1, false, true)));
    assert!(r.matches(&ev(0, true, true)));
    assert!(!r.matches(&ev(0, false, true)));
}

#[test]
fn find_match_returns_first_matching_position() {
    let events = vec![ev(1, true, true), ev(0, false, true), ev(0, true, false), ev(0, true, true)];
    assert_eq!(find_match(&events, &Expectation::readable(0)), Some(2));
    assert_eq!(find_match(&events, &Expectation::writable(0)), Some(1));
    assert_eq!(find_match(&events, &Expectation::readable(7)), None);
    assert_eq!(find_match(&Vec::new(), &Expectation::readable(0)), None);
}

#[test]
fn wait_defaults_are_three_polls_of_half_a_second() {
    let w = EventWait::new(Expectation::writable(0));
    assert_eq!(w.max_attempts, 3);
    assert_eq!(DEFAULT_ATTEMPTS, 3);
    assert_eq!(POLL_TIMEOUT_MS, 500);
    assert_eq!(w.attempts, 0);
    assert_eq!(w.next_step(), WaitStep::Poll { timeout_ms: 500 });
}

#[test]
fn writable_on_first_poll_matches_at_once() {
    let mut w = EventWait::new(Expectation::writable(0));
    let step = w.on_events(&vec![ev(0, false, true)]);
    assert_eq!(step, WaitStep::Matched { index: 0 });
    assert_eq!(w.attempts, 1);
}

#[test]
fn unrelated_events_first_then_match_on_a_later_poll() {
    let mut w = EventWait::new(Expectation::readable(0));
    assert_eq!(w.on_events(&vec![ev(0, false, true)]), WaitStep::Poll { timeout_ms: 500 });
    assert_eq!(w.on_events(&vec![]), WaitStep::Poll { timeout_ms: 500 });
    assert_eq!(
        w.on_events(&vec![ev(3, true, false), ev(0, true, true)]),
        WaitStep::Matched { index: 1 }
    );
    assert_eq!(w.attempts, 3);
}

#[test]
fn wait_times_out_after_three_empty_polls() {
    let mut w = EventWait::new(Expectation::readable(0));
    assert_eq!(w.on_events(&vec![]), WaitStep::Poll { timeout_ms: 500 });
    assert_eq!(w.on_events(&vec![]), WaitStep::Poll { timeout_ms: 500 });
    assert_eq!(w.on_events(&vec![]), WaitStep::TimedOut);
    assert_eq!(w.next_step(), WaitStep::TimedOut);
    // A batch after the last allowed poll is not examined.
    assert_eq!(w.on_events(&vec![ev(0, true, false)]), WaitStep::TimedOut);
    assert_eq!(w.attempts, 3);
}

#[test]
fn wait_with_custom_bounds() {
    let mut w = EventWait::with_bounds(Expectation::readable(2), 1, 20);
    assert_eq!(w.next_step(), WaitStep::Poll { timeout_ms: 20 });
    assert_eq!(w.on_events(&vec![ev(2, false, true)]), WaitStep::TimedOut);
    let none = EventWait::with_bounds(Expectation::readable(2), 0, 20);
    assert_eq!(none.next_step(), WaitStep::TimedOut);
}

#[test]
fn echo_replies_with_the_bytes_read() {
    let buf = b"Hello world!\0\0\0\0".to_vec();
    assert_eq!(echo_step(&buf, &Ok(5)), EchoAction::Reply(b"Hello".to_vec()));
    assert_eq!(echo_step(&buf, &Ok(12)), EchoAction::Reply(b"Hello world!".to_vec()));
}

#[test]
fn echo_stops_on_end_of_stream_and_reset() {
    let buf = vec![0u8; 128];
    assert_eq!(echo_step(&buf, &Ok(0)), EchoAction::Stop);
    assert_eq!(echo_step(&buf, &Err(IoFault::ConnectionReset)), EchoAction::Stop);
}

#[test]
fn echo_fails_on_other_errors() {
    let buf = vec![0u8; 128];
    assert_eq!(echo_step(&buf, &Err(IoFault::Other)), EchoAction::Fail(IoFault::Other));
    assert_eq!(echo_step(&buf, &Err(IoFault::WouldBlock)), EchoAction::Fail(IoFault::WouldBlock));
}

#[test]
fn echoed_bytes_read_back_are_a_prefix_of_what_was_written() {
    // The client writes the payload twice; the responder reads it in uneven
    // chunks, and the client reads back at most sixteen bytes at a time.
    let written: Vec<u8> = b"Hello world!Hello world!".to_vec();
    let mut echoed: Vec<u8> = Vec::new();
    let mut pos = 0;
    for chunk in [7usize, 9, 8] {
        let mut buf = vec![0u8; 128];
        buf[..chunk].copy_from_slice(&written[pos..pos + chunk]);
        pos += chunk;
        match echo_step(&buf, &Ok(chunk)) {
            EchoAction::Reply(bytes) => echoed.extend_from_slice(&bytes),
            other => panic!("unexpected action {:?}", other),
        }
    }
    assert_eq!(echoed, written);
    let read_back: Vec<u8> = echoed[..16].to_vec();
    assert!(written.starts_with(&read_back));
}

#[test]
fn would_block_check_accepts_only_would_block() {
    assert_eq!(assert_would_block::<usize>(&Err(IoFault::WouldBlock)), Ok(()));
    assert_eq!(assert_would_block(&Ok(4usize)), Err(BlockCheckError::UnexpectedOk));
    assert_eq!(
        assert_would_block::<usize>(&Err(IoFault::ConnectionReset)),
        Err(BlockCheckError::UnexpectedError(IoFault::ConnectionReset))
    );
    assert_eq!(
        assert_would_block::<()>(&Err(IoFault::Other)),
        Err(BlockCheckError::UnexpectedError(IoFault::Other))
    );
}
