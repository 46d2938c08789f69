//! Decoded wire messages.
//!
//! The socket delivers JSON envelopes; by the time a message reaches the
//! session state machine it has been decoded into one of the plain shapes
//! below. Unknown envelope variants and unknown notification topics survive
//! decoding as `Unknown` and `Notification { event: None }` respectively, so
//! that forward-compatible additions on the wire are ignored instead of
//! treated as errors.

use vstd::prelude::*;

verus! {

/// The session payload carried by welcome and reconnect envelopes.
#[derive(Debug, Clone, PartialEq, Eq)]
pub struct SessionHandshake {
    /// The logical identity of the socket session.
    pub session_id: String,
    /// How long the server may stay silent before the connection is dead.
    pub keepalive_timeout_s: Option<u64>,
    /// A replacement connect URL, to be used on the next connect attempt.
    pub reconnect_url: Option<String>,
}

/// The payload of a decoded notification, by topic.
#[derive(Debug, Clone, PartialEq, Eq)]
pub enum EventPayload {
    ChatMessage { chatter_id: String, message_text: String },
    Ban { moderator_id: String, target_id: String },
    Unban { moderator_id: String, target_id: String },
}

/// A decoded domain event tagged with the channel identity it originated
/// from. Immutable once constructed; every subscriber receives its own copy.
#[derive(Debug, Clone, PartialEq, Eq)]
pub struct ChannelEvent {
    pub broadcaster_id: String,
    pub payload: EventPayload,
}

/// A decoded wire envelope.
#[derive(Debug, Clone, PartialEq, Eq)]
pub enum WireMessage {
    Welcome { session: SessionHandshake },
    Reconnect { session: SessionHandshake },
    /// A notification; `None` when its topic lies outside the known set, in
    /// which case it is ignored rather than treated as an error.
    Notification { event: Option<ChannelEvent> },
    /// The platform unilaterally cancelled a subscription.
    Revocation,
    Keepalive,
    /// An envelope variant outside the known set; a no-op.
    Unknown,
}

/// Whether `url::Url::parse` accepts the string.
pub uninterp spec fn is_parsable_url(s: Seq<char>) -> bool;

/// Relies on `url::Url::parse`: whether the string is accepted as a URL
/// depends on the string alone.
#[verifier::external_body]
pub(crate) fn url_is_parsable(s: &str) -> (r: bool)
    ensures
        r == is_parsable_url(s@),
{
    url::Url::parse(s).is_ok()
}

} // verus!
