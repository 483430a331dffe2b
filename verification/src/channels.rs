//! Trusted declarations of the tokio synchronization primitives the control
//! plane stores and calls: single-writer/multi-reader broadcast cells
//! (`tokio::sync::watch`) and the bounded multi-producer channel
//! (`tokio::sync::mpsc`) that serializes configuration changes.
//!
//! Values inside these cells and channels are shared with other tasks, so
//! no contract here claims what a read returns; the verified callers state
//! what holds of every outcome.

use vstd::prelude::*;

verus! {

#[verifier::external_type_specification]
#[verifier::external_body]
#[verifier::reject_recursive_types(T)]
pub struct ExWatchSender<T>(tokio::sync::watch::Sender<T>);

#[verifier::external_type_specification]
#[verifier::external_body]
#[verifier::reject_recursive_types(T)]
pub struct ExWatchReceiver<T>(tokio::sync::watch::Receiver<T>);

#[verifier::external_type_specification]
#[verifier::external_body]
#[verifier::reject_recursive_types(T)]
pub struct ExMpscSender<T>(tokio::sync::mpsc::Sender<T>);

#[verifier::external_type_specification]
#[verifier::external_body]
#[verifier::reject_recursive_types(T)]
pub struct ExMpscReceiver<T>(tokio::sync::mpsc::Receiver<T>);

/// What became of a message offered to the change channel without waiting
/// for capacity: accepted, refused for want of room, or refused because the
/// consumer is gone. The refused message comes back to the caller.
pub enum SendOutcome<T> {
    Sent,
    Full(T),
    Closed(T),
}

/// What a poll of the change channel produced.
pub enum RecvOutcome<T> {
    Msg(T),
    Empty,
    Disconnected,
}

/// Relies on tokio::sync::watch::Sender::new: creates a broadcast cell
/// holding `init`, with no receivers yet.
#[verifier::external_body]
pub(crate) fn watch_sender_new<T>(init: T) -> tokio::sync::watch::Sender<T> {
    tokio::sync::watch::Sender::new(init)
}

/// Relies on tokio::sync::watch::Sender::send_replace: publishes `value`
/// into the cell whether or not receivers exist; every later snapshot read
/// sees it until the next publish.
#[verifier::external_body]
pub(crate) fn watch_send_replace<T>(tx: &tokio::sync::watch::Sender<T>, value: T) {
    let _ = tx.send_replace(value);
}

/// Relies on tokio::sync::watch::Sender::subscribe: a new receiver of the
/// same cell, observing the value as of subscription and every publish
/// after it.
#[verifier::external_body]
pub(crate) fn watch_subscribe<T>(tx: &tokio::sync::watch::Sender<T>) -> tokio::sync::watch::Receiver<
    T,
> {
    tx.subscribe()
}

/// Relies on Clone for tokio::sync::watch::Receiver: another receiver of
/// the same cell.
#[verifier::external_body]
pub(crate) fn watch_receiver_clone<T>(rx: &tokio::sync::watch::Receiver<T>) -> tokio::sync::watch::Receiver<
    T,
> {
    rx.clone()
}

/// Relies on tokio::sync::watch::Receiver::borrow: a non-blocking snapshot
/// of the most recently published value, never a torn or intermediate one.
#[verifier::external_body]
pub(crate) fn watch_receiver_snapshot<T: Copy>(rx: &tokio::sync::watch::Receiver<T>) -> T {
    *rx.borrow()
}

/// Relies on tokio::sync::mpsc::channel: a bounded channel; panics on a
/// zero capacity, so that capacity is excluded here.
#[verifier::external_body]
pub(crate) fn mpsc_channel<T>(buffer: usize) -> (tokio::sync::mpsc::Sender<T>, tokio::sync::mpsc::Receiver<
    T,
>)
    requires
        buffer >= 1,
{
    tokio::sync::mpsc::channel(buffer)
}

/// Relies on Clone for tokio::sync::mpsc::Sender: another sender into the
/// same channel.
#[verifier::external_body]
pub(crate) fn mpsc_sender_clone<T>(tx: &tokio::sync::mpsc::Sender<T>) -> tokio::sync::mpsc::Sender<
    T,
> {
    tx.clone()
}

/// Relies on tokio::sync::mpsc::Sender::try_send: enqueues the message
/// without waiting, or hands it back when the channel is full or closed.
#[verifier::external_body]
pub(crate) fn mpsc_try_send<T>(tx: &tokio::sync::mpsc::Sender<T>, value: T) -> SendOutcome<T> {
    match tx.try_send(value) {
        Ok(()) => SendOutcome::Sent,
        Err(tokio::sync::mpsc::error::TrySendError::Full(v)) => SendOutcome::Full(v),
        Err(tokio::sync::mpsc::error::TrySendError::Closed(v)) => SendOutcome::Closed(v),
    }
}

/// Relies on tokio::sync::mpsc::Receiver::try_recv: the next queued
/// message, in send order, without waiting.
#[verifier::external_body]
pub(crate) fn mpsc_try_recv<T>(rx: &mut tokio::sync::mpsc::Receiver<T>) -> RecvOutcome<T> {
    match rx.try_recv() {
        Ok(v) => RecvOutcome::Msg(v),
        Err(tokio::sync::mpsc::error::TryRecvError::Empty) => RecvOutcome::Empty,
        Err(tokio::sync::mpsc::error::TryRecvError::Disconnected) => RecvOutcome::Disconnected,
    }
}

} // verus!
