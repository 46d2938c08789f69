//! The in-process publish/subscribe bus.
//!
//! One independent broadcast channel per broadcaster key, created lazily and
//! atomically on first touch by either a publisher or a subscriber: the map
//! entry is taken and filled in one operation, so two racing callers always
//! converge on the same channel for a key. Entries are never removed; a
//! channel lives for the rest of the process.
//!
//! Delivery is best-effort and at-most-once: publishing with no current
//! subscriber simply drops the event and is not an error, and a subscriber
//! that falls behind the channel's bounded buffer loses the oldest buffered
//! events for itself (the publisher is never blocked on a slow consumer).
//!
//! The map and the channels are concurrent structures of outside crates with
//! interior mutability; what the verifier can hold this module to is
//! therefore thin, and the guarantees above rest on the cited behaviour of
//! `dashmap` and tokio's broadcast channel, stated at each trusted item.

use crate::wire::ChannelEvent;
use vstd::prelude::*;

verus! {

/// tokio's broadcast sender, opaque to the verifier.
#[verifier::external_type_specification]
#[verifier::external_body]
#[verifier::reject_recursive_types(T)]
pub struct ExBroadcastSender<T>(tokio::sync::broadcast::Sender<T>);

/// tokio's broadcast receiver, opaque to the verifier.
#[verifier::external_type_specification]
#[verifier::external_body]
#[verifier::reject_recursive_types(T)]
pub struct ExBroadcastReceiver<T>(tokio::sync::broadcast::Receiver<T>);

/// dashmap's concurrent map, opaque to the verifier.
#[verifier::external_type_specification]
#[verifier::external_body]
#[verifier::reject_recursive_types(K)]
#[verifier::reject_recursive_types(V)]
#[verifier::reject_recursive_types(S)]
pub struct ExDashMap<K, V, S>(dashmap::DashMap<K, V, S>);

/// How many events a channel buffers at least for a lagging subscriber
/// before the oldest is dropped for that subscriber; tokio rounds the
/// capacity up to the next power of two.
pub const CHAT_CHANNEL_CAPACITY: usize = 69;

/// Relies on `dashmap::DashMap::new`: an empty map.
#[verifier::external_body]
fn new_channel_map() -> dashmap::DashMap<
    String,
    tokio::sync::broadcast::Sender<ChannelEvent>,
> {
    dashmap::DashMap::new()
}

/// Relies on `tokio::sync::broadcast::channel`: a fresh channel buffering up
/// to `capacity` events per subscriber. It panics outside the required
/// capacity range, so that range is excluded here.
#[verifier::external_body]
fn new_chat_sender(capacity: usize) -> tokio::sync::broadcast::Sender<ChannelEvent>
    requires
        0 < capacity <= usize::MAX / 2,
{
    tokio::sync::broadcast::channel(capacity).0
}

/// Relies on `dashmap::DashMap::entry` and `Entry::or_insert`: the channel
/// registered for `key`, with `fallback` becoming registered if there was
/// none. Lookup and insertion are a single atomic operation on the map, so
/// concurrent callers of either bus operation obtain the same channel for
/// the same key.
#[verifier::external_body]
fn channel_for(
    map: &dashmap::DashMap<String, tokio::sync::broadcast::Sender<ChannelEvent>>,
    key: String,
    fallback: tokio::sync::broadcast::Sender<ChannelEvent>,
) -> tokio::sync::broadcast::Sender<ChannelEvent> {
    map.entry(key).or_insert(fallback).value().clone()
}

/// Relies on `tokio::sync::broadcast::Sender::subscribe`: a fresh receiver
/// that observes exactly the events sent after this call — events published
/// earlier are never replayed to it.
#[verifier::external_body]
fn sender_subscribe(
    tx: &tokio::sync::broadcast::Sender<ChannelEvent>,
) -> tokio::sync::broadcast::Receiver<ChannelEvent> {
    tx.subscribe()
}

/// Relies on `tokio::sync::broadcast::Sender::send`: the event is handed to
/// every current subscriber's buffer and `true` returned; with no current
/// subscriber the event is dropped and `false` returned. The call never
/// waits on a slow subscriber.
#[verifier::external_body]
fn sender_send(tx: &tokio::sync::broadcast::Sender<ChannelEvent>, event: ChannelEvent) -> bool {
    tx.send(event).is_ok()
}

/// The bus: one broadcast channel per broadcaster key.
pub struct Events {
    on_chat_message: dashmap::DashMap<String, tokio::sync::broadcast::Sender<ChannelEvent>>,
}

impl Events {
    /// An empty bus; channels appear on first touch of their key.
    pub fn new() -> Events {
        Events { on_chat_message: new_channel_map() }
    }

    /// A fresh, independent stream of the chat events of one broadcaster,
    /// starting from now: events published before this call are not
    /// replayed. Any number of receivers may exist per key.
    pub fn get_receiver_chat_message(&self, broadcaster_id: String) -> tokio::sync::broadcast::Receiver<
        ChannelEvent,
    > {
        let fallback = new_chat_sender(CHAT_CHANNEL_CAPACITY);
        let tx = channel_for(&self.on_chat_message, broadcaster_id, fallback);
        sender_subscribe(&tx)
    }

    /// Publish one decoded event to every current subscriber of its
    /// broadcaster key. This never fails: with no current subscriber the
    /// event is dropped and `false` returned. Only the session task is meant
    /// to call this, so subscribers can trust every event's provenance.
    pub fn publish_chat_message(&self, event: ChannelEvent) -> bool {
        let fallback = new_chat_sender(CHAT_CHANNEL_CAPACITY);
        let key = event.broadcaster_id.clone();
        let tx = channel_for(&self.on_chat_message, key, fallback);
        sender_send(&tx, event)
    }
}

} // verus!
