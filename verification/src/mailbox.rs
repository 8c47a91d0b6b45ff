//! The mailbox: the single-producer/single-consumer channel that carries
//! decoded log lines from the pump context to the UI context.
//!
//! The channel itself is `std::sync::mpsc`; the other half lives in a
//! different execution context, so nothing can be promised about what a
//! send or a poll observes, only what each outcome means.

use vstd::prelude::*;

verus! {

/// Relies on `std::sync::mpsc::Sender`: the producer half of the
/// channel, opaque here; only the wrappers below touch it.
#[verifier::external_type_specification]
#[verifier::external_body]
#[verifier::reject_recursive_types(T)]
pub struct ExSender<T>(std::sync::mpsc::Sender<T>);

/// Relies on `std::sync::mpsc::Receiver`: the consumer half of the
/// channel, opaque here; only the wrappers below touch it.
#[verifier::external_type_specification]
#[verifier::external_body]
#[verifier::reject_recursive_types(T)]
pub struct ExReceiver<T>(std::sync::mpsc::Receiver<T>);

/// Outcome of one non-blocking poll of the mailbox.
pub enum RecvPoll {
    /// A line was queued; this is the oldest one.
    Line(String),
    /// Nothing is queued right now; the producer may still be alive.
    Empty,
    /// The producer half was dropped and every queued line was taken.
    Closed,
}

/// Relies on `std::sync::mpsc::channel`: returns the producer and
/// consumer halves of a fresh unbounded channel.
#[verifier::external_body]
pub fn mailbox_new() -> (std::sync::mpsc::Sender<String>, std::sync::mpsc::Receiver<String>) {
    std::sync::mpsc::channel()
}

/// Relies on `std::sync::mpsc::Sender::send`: it queues the value and
/// fails exactly when the receiving half has been dropped. The receiver
/// lives in another execution context, so no outcome is promised.
#[verifier::external_body]
pub fn mailbox_send(tx: &std::sync::mpsc::Sender<String>, line: String) -> bool {
    tx.send(line).is_ok()
}

/// Relies on `std::sync::mpsc::Receiver::try_recv`: it never blocks and
/// returns a queued value, or reports the queue momentarily empty, or
/// reports the sending half dropped with the queue drained. The sender
/// lives in another execution context, so no outcome is promised.
#[verifier::external_body]
pub fn mailbox_poll(rx: &std::sync::mpsc::Receiver<String>) -> RecvPoll {
    match rx.try_recv() {
        Ok(line) => RecvPoll::Line(line),
        Err(std::sync::mpsc::TryRecvError::Empty) => RecvPoll::Empty,
        Err(std::sync::mpsc::TryRecvError::Disconnected) => RecvPoll::Closed,
    }
}

} // verus!
