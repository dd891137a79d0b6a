//! The transport queue between producers and the exporter: an unbounded
//! multi-producer single-consumer channel of formatted samples.
use vstd::prelude::*;

verus! {

#[verifier::external_type_specification]
#[verifier::external_body]
#[verifier::reject_recursive_types(T)]
pub struct ExSender<T>(crossbeam_channel::Sender<T>);

#[verifier::external_type_specification]
#[verifier::external_body]
#[verifier::reject_recursive_types(T)]
pub struct ExReceiver<T>(crossbeam_channel::Receiver<T>);

/// Relies on crossbeam_channel::unbounded: a fresh channel of unbounded
/// capacity, so sends on it never block the caller.
#[verifier::external_body]
pub(crate) fn new_channel() -> (crossbeam_channel::Sender<String>, crossbeam_channel::Receiver<String>) {
    crossbeam_channel::unbounded()
}

/// Relies on crossbeam_channel::Sender::send: on an unbounded channel it
/// never blocks; it fails only once every receiver is gone, and then
/// hands the message back unchanged.
#[verifier::external_body]
pub(crate) fn send_string(tx: &crossbeam_channel::Sender<String>, m: String) -> (r: Result<
    (),
    String,
>)
    ensures
        (r matches Err(back) ==> back@ == m@),
{
    match tx.send(m) {
        Ok(()) => Ok(()),
        Err(crossbeam_channel::SendError(back)) => Err(back),
    }
}

/// Relies on crossbeam_channel::Receiver::try_recv: pops one queued
/// message without blocking, or returns nothing when the queue is empty
/// or every sender is gone. Which message arrives depends on concurrent
/// producers, so nothing is promised of the value.
#[verifier::external_body]
pub(crate) fn try_recv_string(rx: &crossbeam_channel::Receiver<String>) -> Option<String> {
    match rx.try_recv() {
        Ok(m) => Some(m),
        Err(crossbeam_channel::TryRecvError::Empty) => None,
        Err(crossbeam_channel::TryRecvError::Disconnected) => None,
    }
}

} // verus!
