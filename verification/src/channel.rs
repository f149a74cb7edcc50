//! The channel between the supervisor and an encode worker: the outside
//! crate's types, and the three calls that the pipeline makes on them.

use crate::worker::Mp4TaskPayload;
use crossbeam_channel::{Receiver, Sender};
use vstd::prelude::*;

verus! {

/// The sending half of a channel of an outside crate.
#[verifier::external_type_specification]
#[verifier::external_body]
#[verifier::reject_recursive_types(T)]
pub struct ExSender<T>(crossbeam_channel::Sender<T>);

/// The receiving half of a channel of an outside crate.
#[verifier::external_type_specification]
#[verifier::external_body]
#[verifier::reject_recursive_types(T)]
pub struct ExReceiver<T>(crossbeam_channel::Receiver<T>);

/// Opens a channel with `crossbeam_channel::unbounded`. Nothing is claimed of
/// the two halves.
#[verifier::external_body]
pub(crate) fn open_channel() -> (ends: (Sender<Mp4TaskPayload>, Receiver<Mp4TaskPayload>)) {
    crossbeam_channel::unbounded()
}

/// Offers a message with `crossbeam_channel::Sender::try_send`, which never
/// waits, and reports whether the channel took it. Nothing is claimed of the
/// answer: it depends on the other half of the channel.
#[verifier::external_body]
pub(crate) fn offer(input: &Sender<Mp4TaskPayload>, payload: Mp4TaskPayload) -> (delivered: bool) {
    input.try_send(payload).is_ok()
}

/// Waits for the next message with `crossbeam_channel::Receiver::recv`, which
/// returns once a message has arrived or every sender is gone. `None` stands
/// for a channel that is empty and closed. Nothing is claimed of the answer:
/// it depends on what the senders did.
#[verifier::external_body]
pub(crate) fn receive(input: &Receiver<Mp4TaskPayload>) -> (msg: Option<Mp4TaskPayload>) {
    input.recv().ok()
}

} // verus!
