//! Trusted declarations of the tokio channel primitives the registry is built
//! on, together with the ghost channel identities that the registry's
//! contracts speak of.
//!
//! A channel identity is an abstract label shared by a sender and every
//! receiver attached to the same underlying channel. Nothing is assumed about
//! the label beyond what the wrappers below state: a receiver derived from a
//! sender carries the sender's identity. A broadcast channel additionally has
//! a capacity, the bound it was constructed with: a function of the channel
//! identity, stated only by the two constructors.

use vstd::prelude::*;

use axum::extract::ws::Message;
use tokio::sync::broadcast;
use tokio::sync::watch;

verus! {

#[verifier::external_type_specification]
#[verifier::external_body]
#[verifier::reject_recursive_types(T)]
pub struct ExWatchSender<T>(watch::Sender<T>);

#[verifier::external_type_specification]
#[verifier::external_body]
#[verifier::reject_recursive_types(T)]
pub struct ExWatchReceiver<T>(watch::Receiver<T>);

#[verifier::external_type_specification]
#[verifier::external_body]
#[verifier::reject_recursive_types(T)]
pub struct ExBroadcastSender<T>(broadcast::Sender<T>);

#[verifier::external_type_specification]
#[verifier::external_body]
#[verifier::reject_recursive_types(T)]
pub struct ExBroadcastReceiver<T>(broadcast::Receiver<T>);

#[verifier::external_type_specification]
#[verifier::external_body]
pub struct ExWsMessage(Message);

pub uninterp spec fn watch_sender_channel(s: watch::Sender<()>) -> int;

pub uninterp spec fn watch_receiver_channel(r: watch::Receiver<()>) -> int;

pub uninterp spec fn broadcast_sender_channel(s: broadcast::Sender<Message>) -> int;

pub uninterp spec fn broadcast_receiver_channel(r: broadcast::Receiver<Message>) -> int;

pub uninterp spec fn broadcast_channel_capacity(chan: int) -> int;

/// Relies on `tokio::sync::watch::channel`: the returned receiver is attached
/// to the channel of the returned sender.
#[verifier::external_body]
pub fn watch_channel_unit() -> (p: (watch::Sender<()>, watch::Receiver<()>))
    ensures
        watch_receiver_channel(p.1) == watch_sender_channel(p.0),
{
    watch::channel(())
}

/// Relies on `tokio::sync::watch::Sender::subscribe`: the returned receiver is
/// attached to this sender's channel, and is not marked as having seen any
/// value sent after this call.
#[verifier::external_body]
pub fn watch_subscribe(s: &watch::Sender<()>) -> (r: watch::Receiver<()>)
    ensures
        watch_receiver_channel(r) == watch_sender_channel(*s),
{
    s.subscribe()
}

/// Relies on `tokio::sync::watch::Sender::send`: replaces the single slot of
/// the channel, coalescing with any unseen previous signal; it reports a
/// closed channel through its result, which is deliberately discarded, and
/// never blocks or panics.
#[verifier::external_body]
pub fn watch_notify(s: &watch::Sender<()>) {
    let _ = s.send(());
}

/// Relies on `tokio::sync::broadcast::Sender::new`: constructs a standalone
/// sender whose channel has the given capacity; it panics when the capacity
/// is zero or above `usize::MAX / 2`, which the precondition rules out.
#[verifier::external_body]
pub fn broadcast_sender_new(capacity: usize) -> (s: broadcast::Sender<Message>)
    requires
        1 <= capacity <= usize::MAX / 2,
    ensures
        broadcast_channel_capacity(broadcast_sender_channel(s)) == capacity,
{
    broadcast::Sender::new(capacity)
}

/// Relies on `tokio::sync::broadcast::channel`: the returned receiver is
/// attached to the channel of the returned sender, and the channel has the
/// given capacity; it panics when the capacity is zero or above
/// `usize::MAX / 2`, which the precondition rules out.
#[verifier::external_body]
pub fn broadcast_channel(capacity: usize) -> (p: (
    broadcast::Sender<Message>,
    broadcast::Receiver<Message>,
))
    requires
        1 <= capacity <= usize::MAX / 2,
    ensures
        broadcast_receiver_channel(p.1) == broadcast_sender_channel(p.0),
        broadcast_channel_capacity(broadcast_sender_channel(p.0)) == capacity,
{
    broadcast::channel(capacity)
}

/// Relies on `tokio::sync::broadcast::Sender::subscribe`: the returned
/// receiver is attached to this sender's channel and observes only values
/// sent after this call.
#[verifier::external_body]
pub fn broadcast_subscribe(s: &broadcast::Sender<Message>) -> (r: broadcast::Receiver<Message>)
    ensures
        broadcast_receiver_channel(r) == broadcast_sender_channel(*s),
{
    s.subscribe()
}

/// Relies on `tokio::sync::broadcast::Sender::send`: queues the value for
/// every receiver that currently exists; it reports the absence of receivers
/// through its result, which is deliberately discarded, and never blocks or
/// panics.
#[verifier::external_body]
pub fn broadcast_send(s: &broadcast::Sender<Message>, data: Message) {
    let _ = s.send(data);
}

} // verus!
