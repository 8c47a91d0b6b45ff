use logview::framer::{FramerError, LineFramer};
use logview::mailbox::{mailbox_new, mailbox_poll, RecvPoll};
use logview::pump::{pump_step, PumpStep, ReadEvent, StopReason};

#[test]
fn emits_each_terminated_line_in_order() {
    let mut framer = LineFramer::new();
    let lines = framer.take_lines(b"one\ntwo\nthree\n");
    assert_eq!(lines, vec!["one".to_string(), "two".to_string(), "three".to_string()]);
}

#[test]
fn chunk_boundaries_are_irrelevant() {
    // "AB", "C\nDE", "F\n" concatenate to "ABC\nDEF\n": exactly two
    // events, "ABC" then "DEF".
    let mut framer = LineFramer::new();
    let mut got: Vec<String> = Vec::new();
    got.extend(framer.take_lines(b"AB"));
    got.extend(framer.take_lines(b"C\nDE"));
    got.extend(framer.take_lines(b"F\n"));
    assert_eq!(got, vec!["ABC".to_string(), "DEF".to_string()]);
}

#[test]
fn trailing_carriage_return_is_stripped() {
    let mut framer = LineFramer::new();
    let lines = framer.take_lines(b"windows line\r\nplain line\n");
    assert_eq!(lines, vec!["windows line".to_string(), "plain line".to_string()]);
}

#[test]
fn partial_line_is_retained_until_newline() {
    let mut framer = LineFramer::new();
    assert!(framer.take_lines(b"no newline yet").is_empty());
    let lines = framer.take_lines(b", now\n");
    assert_eq!(lines, vec!["no newline yet, now".to_string()]);
}

#[test]
fn invalid_utf8_segment_is_dropped_silently() {
    let mut framer = LineFramer::new();
    let lines = framer.take_lines(b"good\n\xff\xfe\xfd\nalso good\n");
    assert_eq!(lines, vec!["good".to_string(), "also good".to_string()]);
}

#[test]
fn only_carriage_return_line_becomes_empty() {
    let mut framer = LineFramer::new();
    let lines = framer.take_lines(b"\r\n");
    assert_eq!(lines, vec![String::new()]);
}

#[test]
fn accept_delivers_lines_to_mailbox() {
    let (tx, rx) = mailbox_new();
    let mut framer = LineFramer::new();
    let delivered = framer.accept(b"alpha\nbeta\ngam", &tx).expect("consumer alive");
    assert_eq!(delivered, 2);
    match mailbox_poll(&rx) {
        RecvPoll::Line(l) => assert_eq!(l, "alpha"),
        _ => panic!("expected a queued line"),
    }
    match mailbox_poll(&rx) {
        RecvPoll::Line(l) => assert_eq!(l, "beta"),
        _ => panic!("expected a queued line"),
    }
    assert!(matches!(mailbox_poll(&rx), RecvPoll::Empty));
    let delivered = framer.accept(b"ma\n", &tx).expect("consumer alive");
    assert_eq!(delivered, 1);
    match mailbox_poll(&rx) {
        RecvPoll::Line(l) => assert_eq!(l, "gamma"),
        _ => panic!("expected a queued line"),
    }
}

#[test]
fn dropped_consumer_turns_accept_into_connection_closed() {
    let (tx, rx) = mailbox_new();
    drop(rx);
    let mut framer = LineFramer::new();
    let err = framer.accept(b"hello\n", &tx).expect_err("consumer is gone");
    assert_eq!(err, FramerError::ConsumerGone);
}

#[test]
fn accept_owing_no_line_succeeds() {
    // Even with the consumer gone, a chunk that completes no line has
    // nothing to deliver, so accept succeeds with zero lines.
    let (tx, rx) = mailbox_new();
    drop(rx);
    let mut framer = LineFramer::new();
    assert_eq!(framer.accept(b"still partial", &tx), Ok(0));
    // The buffered partial line is owed as soon as a newline completes it.
    let err = framer.accept(b"\n", &tx).expect_err("a line was owed");
    assert_eq!(err, FramerError::ConsumerGone);
}

#[test]
fn pump_continues_on_data_and_stops_on_eof() {
    let (tx, rx) = mailbox_new();
    let mut framer = LineFramer::new();
    let step = pump_step(&mut framer, ReadEvent::Data(b"a\nb\nc".to_vec()), &tx);
    assert_eq!(step, PumpStep::Continue(2));
    match mailbox_poll(&rx) {
        RecvPoll::Line(l) => assert_eq!(l, "a"),
        _ => panic!("expected a queued line"),
    }
    let step = pump_step(&mut framer, ReadEvent::Eof, &tx);
    assert_eq!(step, PumpStep::Stop(StopReason::SourceDisconnected));
    let step = pump_step(&mut framer, ReadEvent::Failed, &tx);
    assert_eq!(step, PumpStep::Stop(StopReason::TransportFailed));
}

#[test]
fn pump_stops_when_consumer_goes_away_mid_read() {
    let (tx, rx) = mailbox_new();
    let mut framer = LineFramer::new();
    assert_eq!(pump_step(&mut framer, ReadEvent::Data(b"one\n".to_vec()), &tx), PumpStep::Continue(1));
    drop(rx);
    let step = pump_step(&mut framer, ReadEvent::Data(b"two\n".to_vec()), &tx);
    assert_eq!(step, PumpStep::Stop(StopReason::ConsumerGone));
}

#[test]
fn flush_is_a_no_op() {
    let framer = LineFramer::new();
    assert!(framer.flush().is_ok());
}
