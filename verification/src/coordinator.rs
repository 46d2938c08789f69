//! Conduit and shard bookkeeping.
//!
//! The platform keeps subscriptions attached to a durable container (a
//! conduit) whose transport slots (shards) can be re-pointed at a new socket
//! session without recreating the subscriptions. The REST exchanges
//! themselves happen outside this crate; this module makes the decisions:
//! which conduit to adopt, what a shard update must carry, and how to read
//! the platform's answer to a subscription creation — in particular that a
//! conflict answer means "already subscribed" and is success, not an error.

use vstd::prelude::*;

verus! {

/// A durable, platform-managed subscription container.
#[derive(Debug, Clone, PartialEq, Eq)]
pub struct Conduit {
    pub id: String,
    pub shard_count: u64,
}

/// The transport a shard or subscription points at.
#[derive(Debug, Clone, PartialEq, Eq)]
pub enum Transport {
    /// Bound to one live socket session.
    Websocket { session_id: String },
    /// Attached to a conduit as a whole.
    Conduit { conduit_id: String },
}

/// One addressable transport slot within a conduit.
#[derive(Debug, Clone, PartialEq, Eq)]
pub struct Shard {
    pub index: u64,
    pub transport: Transport,
}

/// The subscription topics this service understands.
#[derive(Debug, Clone, Copy, PartialEq, Eq, Structural)]
pub enum SubscriptionTopic {
    ChannelChatMessage,
    ChannelBan,
    ChannelUnban,
}

/// What a subscription is conditioned on.
#[derive(Debug, Clone, PartialEq, Eq)]
pub struct Condition {
    pub broadcaster_id: String,
    /// The reading user, for topics that require one.
    pub bot_id: Option<String>,
}

/// One subscription to be created against a conduit.
#[derive(Debug, Clone, PartialEq, Eq)]
pub struct SubscriptionRequest {
    pub topic: SubscriptionTopic,
    pub condition: Condition,
    pub conduit_id: String,
}

/// How to obtain the conduit this service will manage.
#[derive(Debug, Clone, PartialEq, Eq)]
pub enum ConduitPlan {
    /// Reuse an existing conduit.
    Adopt { conduit: Conduit },
    /// No conduit exists yet; create one sized for the expected shards.
    CreateNew { shard_count: u64 },
}

/// A failed coordinator exchange, carrying the platform's status code.
#[derive(Debug, Clone, Copy, PartialEq, Eq, Structural)]
pub enum CoordinatorError {
    SubscriptionFailed { status: u16 },
}

/// Whether a subscription creation attempt counts as success: any success
/// status does, and so does a conflict, which means the subscription already
/// exists.
pub open spec fn spec_status_acceptable(status: u16) -> bool {
    (200 <= status < 300) || status == 409
}

impl ConduitPlan {
    /// Decide which conduit to manage, given the platform's listing: the
    /// first existing conduit is adopted deterministically; only when none
    /// exists is a new one created.
    pub fn from_listing(existing: Vec<Conduit>, desired_shard_count: u64) -> (p: ConduitPlan)
        ensures
            existing@.len() > 0 ==> p == (ConduitPlan::Adopt { conduit: existing@[0] }),
            existing@.len() == 0 ==> p == (ConduitPlan::CreateNew {
                shard_count: desired_shard_count,
            }),
    {
        let mut existing = existing;
        if existing.len() > 0 {
            let conduit = existing.remove(0);
            ConduitPlan::Adopt { conduit }
        } else {
            ConduitPlan::CreateNew { shard_count: desired_shard_count }
        }
    }
}

/// The shard update that re-points slot `index` of the conduit at a new
/// socket session. It must be issued for every new session identity, because
/// the previous binding dies with the old socket.
pub fn repoint_update(index: u64, session_id: String) -> (s: Shard)
    ensures
        s == (Shard { index, transport: Transport::Websocket { session_id } }),
{
    Shard { index, transport: Transport::Websocket { session_id } }
}

/// The subscription set this service requires: chat messages of the
/// configured streamer, read as the configured bot user.
pub fn required_subscriptions(conduit_id: String, streamer_id: String, bot_id: String) -> (v: Vec<
    SubscriptionRequest,
>)
    ensures
        v@.len() == 1,
        v@[0] == (SubscriptionRequest {
            topic: SubscriptionTopic::ChannelChatMessage,
            condition: Condition { broadcaster_id: streamer_id, bot_id: Some(bot_id) },
            conduit_id,
        }),
{
    let mut v: Vec<SubscriptionRequest> = Vec::new();
    v.push(
        SubscriptionRequest {
            topic: SubscriptionTopic::ChannelChatMessage,
            condition: Condition { broadcaster_id: streamer_id, bot_id: Some(bot_id) },
            conduit_id,
        },
    );
    v
}

/// Read the platform's answer to one subscription creation. Success statuses
/// create the subscription; a conflict means it already exists, which is a
/// successful no-op; anything else is fatal, because running with partial
/// subscription coverage would be a silent functional gap.
pub fn subscription_create_outcome(status: u16) -> (r: Result<(), CoordinatorError>)
    ensures
        r is Ok <==> spec_status_acceptable(status),
        r is Err ==> r == Err::<(), _>(CoordinatorError::SubscriptionFailed { status }),
{
    if (200 <= status && status < 300) || status == 409 {
        Ok(())
    } else {
        Err(CoordinatorError::SubscriptionFailed { status })
    }
}

/// Aggregate the answers to a batch of subscription creations: success
/// exactly when every single one was acceptable, and otherwise the first
/// unacceptable status.
pub fn subscriptions_result(statuses: &Vec<u16>) -> (r: Result<(), CoordinatorError>)
    ensures
        r is Ok <==> (forall|i: int|
            0 <= i < statuses@.len() ==> spec_status_acceptable(statuses@[i])),
        r matches Err(e) ==> exists|i: int|
            {
                &&& 0 <= i < statuses@.len()
                &&& !spec_status_acceptable(statuses@[i])
                &&& e == (CoordinatorError::SubscriptionFailed { status: statuses@[i] })
                &&& forall|j: int| 0 <= j < i ==> spec_status_acceptable(statuses@[j])
            },
{
    let mut i: usize = 0;
    while i < statuses.len()
        invariant
            i <= statuses@.len(),
            forall|j: int| 0 <= j < i ==> spec_status_acceptable(statuses@[j]),
        decreases statuses@.len() - i,
    {
        let status = statuses[i];
        match subscription_create_outcome(status) {
            Ok(_) => {},
            Err(e) => {
                return Err(e);
            },
        }
        i += 1;
    }
    Ok(())
}

} // verus!
