//! The bounded channel that carries sample buffers between the real-time
//! callback and the rest of the engine. The channel itself is
//! `crossbeam_channel`; the engine sees its endpoints as opaque handles and
//! relies only on what is stated here. A buffer is a sequence of raw 32-bit
//! sample words.

use vstd::prelude::*;

verus! {

#[verifier::external_type_specification]
#[verifier::external_body]
#[verifier::reject_recursive_types(T)]
pub struct ExSender<T>(crossbeam_channel::Sender<T>);

#[verifier::external_type_specification]
#[verifier::external_body]
#[verifier::reject_recursive_types(T)]
pub struct ExReceiver<T>(crossbeam_channel::Receiver<T>);

/// Relies on crossbeam_channel::bounded: creates a channel that holds at most
/// `cap` messages. The capacity bound is small enough that the call cannot
/// panic on internal index arithmetic.
#[verifier::external_body]
pub(crate) fn new_bounded_channel(cap: usize) -> (endpoints: (
    crossbeam_channel::Sender<Vec<u32>>,
    crossbeam_channel::Receiver<Vec<u32>>,
))
    requires
        cap <= 0x0100_0000,
{
    crossbeam_channel::bounded(cap)
}

/// Relies on crossbeam_channel::Sender::try_send: delivers the message
/// immediately or fails without blocking when the channel is full or
/// disconnected. Returns whether the message was accepted; which outcome
/// occurs depends on concurrent senders and receivers, so nothing more is
/// stated.
#[verifier::external_body]
pub(crate) fn try_send_buffer(
    tx: &crossbeam_channel::Sender<Vec<u32>>,
    buffer: Vec<u32>,
) -> (accepted: bool) {
    tx.try_send(buffer).is_ok()
}

/// Relies on crossbeam_channel::Receiver::try_recv: takes a pending message
/// or fails without blocking when the channel is empty or disconnected.
/// Which outcome occurs depends on concurrent senders, so nothing more is
/// stated.
#[verifier::external_body]
pub(crate) fn try_recv_buffer(
    rx: &crossbeam_channel::Receiver<Vec<u32>>,
) -> (received: Option<Vec<u32>>) {
    rx.try_recv().ok()
}

/// Relies on crossbeam_channel::Sender::clone: yields another sending handle
/// to the same channel.
#[verifier::external_body]
pub(crate) fn clone_sender(
    tx: &crossbeam_channel::Sender<Vec<u32>>,
) -> (cloned: crossbeam_channel::Sender<Vec<u32>>) {
    tx.clone()
}

} // verus!
