//! The bounded handoff queue between the capture callback and its consumer,
//! kept in a crossbeam channel. What a channel holds is shared with every
//! other handle of it, on other threads, so the wrappers below promise
//! nothing about which chunk comes back or whether a send finds room.
use vstd::prelude::*;
use std::time::Duration;
use crossbeam_channel::{Receiver, Sender};

verus! {

#[verifier::external_type_specification]
#[verifier::external_body]
#[verifier::reject_recursive_types(T)]
pub struct ExSender<T>(crossbeam_channel::Sender<T>);

#[verifier::external_type_specification]
#[verifier::external_body]
#[verifier::reject_recursive_types(T)]
pub struct ExReceiver<T>(crossbeam_channel::Receiver<T>);

/// Relies on crossbeam_channel::bounded: a channel that holds at most `cap`
/// chunks. It panics where the next power of two above `cap`, or twice that
/// power, does not fit in `usize`; a capacity up to a quarter of `usize::MAX`
/// stays clear of both.
#[verifier::external_body]
pub(crate) fn chunk_channel(cap: usize) -> (Sender<Vec<i16>>, Receiver<Vec<i16>>)
    requires
        1 <= cap <= usize::MAX / 4,
{
    crossbeam_channel::bounded(cap)
}

/// Relies on Sender::clone: another handle on the same channel.
#[verifier::external_body]
pub(crate) fn clone_sender(tx: &Sender<Vec<i16>>) -> Sender<Vec<i16>> {
    tx.clone()
}

/// Relies on Sender::try_send: puts the chunk in the channel without blocking,
/// and reports whether it went in; a full channel drops it.
#[verifier::external_body]
pub(crate) fn offer(tx: &Sender<Vec<i16>>, chunk: Vec<i16>) -> bool {
    tx.try_send(chunk).is_ok()
}

/// Relies on Receiver::try_recv: the oldest chunk, or none if the channel is
/// empty at this moment.
#[verifier::external_body]
pub(crate) fn take_now(rx: &Receiver<Vec<i16>>) -> Option<Vec<i16>> {
    rx.try_recv().ok()
}

/// Relies on Receiver::recv_timeout: waits up to `dur` for the oldest chunk.
#[verifier::external_body]
pub(crate) fn take_within(rx: &Receiver<Vec<i16>>, dur: Duration) -> Option<Vec<i16>> {
    rx.recv_timeout(dur).ok()
}

} // verus!
