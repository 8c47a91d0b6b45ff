//! The log stream pump's decisions: what one read from the device
//! connection does to the session. The blocking read itself, and the
//! worker that loops over it, live outside the library; they hand each
//! read's outcome in as a plain value and perform what is decided.

use vstd::prelude::*;

use crate::framer::{lines_from, rest_from, FramerError, LineFramer};

verus! {

/// One read's outcome on the device connection.
#[derive(Debug)]
pub enum ReadEvent {
    /// The connection delivered a chunk of raw bytes.
    Data(Vec<u8>),
    /// The source disconnected cleanly.
    Eof,
    /// The transport failed.
    Failed,
}

/// Why the pump stops. A stopped pump is never restarted: resuming takes
/// a fresh pump and a fresh mailbox.
#[derive(Clone, Copy, Debug, PartialEq, Eq, Structural)]
pub enum StopReason {
    SourceDisconnected,
    TransportFailed,
    ConsumerGone,
}

/// What the pump does after one read: keep reading (with how many lines
/// this read delivered), or stop for the given reason.
#[derive(Clone, Copy, Debug, PartialEq, Eq, Structural)]
pub enum PumpStep {
    Continue(usize),
    Stop(StopReason),
}

/// The pump's decision for one read: data is framed and its lines are
/// forwarded to the mailbox, stopping when the mailbox reports the
/// consumer gone; end-of-stream and a transport failure stop the pump. A
/// trailing partial line stays buffered and is never emitted once the
/// stream ends.
pub fn pump_step(
    framer: &mut LineFramer,
    event: ReadEvent,
    tx: &std::sync::mpsc::Sender<String>,
) -> (r: PumpStep)
    ensures
        match event {
            ReadEvent::Data(chunk) => {
                &&& final(framer)@ == rest_from(old(framer)@, chunk@)
                &&& match r {
                    PumpStep::Continue(n) => n == lines_from(old(framer)@, chunk@).len(),
                    PumpStep::Stop(reason) => reason == StopReason::ConsumerGone,
                }
                &&& (lines_from(old(framer)@, chunk@).len() == 0 ==> r == PumpStep::Continue(0))
            },
            ReadEvent::Eof => {
                &&& r == PumpStep::Stop(StopReason::SourceDisconnected)
                &&& final(framer)@ == old(framer)@
            },
            ReadEvent::Failed => {
                &&& r == PumpStep::Stop(StopReason::TransportFailed)
                &&& final(framer)@ == old(framer)@
            },
        },
{
    match event {
        ReadEvent::Data(chunk) => match framer.accept(chunk.as_slice(), tx) {
            Ok(delivered) => PumpStep::Continue(delivered),
            Err(FramerError::ConsumerGone) => PumpStep::Stop(StopReason::ConsumerGone),
        },
        ReadEvent::Eof => PumpStep::Stop(StopReason::SourceDisconnected),
        ReadEvent::Failed => PumpStep::Stop(StopReason::TransportFailed),
    }
}

} // verus!
