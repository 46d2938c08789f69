use eventsub_core::coordinator::Condition;
use eventsub_core::coordinator::Conduit;
use eventsub_core::coordinator::ConduitPlan;
use eventsub_core::coordinator::CoordinatorError;
use eventsub_core::coordinator::Shard;
use eventsub_core::coordinator::SubscriptionRequest;
use eventsub_core::coordinator::SubscriptionTopic;
use eventsub_core::coordinator::Transport;
use eventsub_core::coordinator::repoint_update;
use eventsub_core::coordinator::required_subscriptions;
use eventsub_core::coordinator::subscription_create_outcome;
use eventsub_core::coordinator::subscriptions_result;

#[test]
fn create_then_conflict_both_count_as_success() {
    // The platform answers 201 on the first attempt for a (topic, condition)
    // pair and 409 on the identical second attempt: both are overall success.
    assert!(subscription_create_outcome(201).is_ok());
    assert!(subscription_create_outcome(409).is_ok());
}

#[test]
fn non_conflict_errors_are_fatal() {
    assert_eq!(
        subscription_create_outcome(404),
        Err(CoordinatorError::SubscriptionFailed { status: 404 })
    );
    assert_eq!(
        subscription_create_outcome(500),
        Err(CoordinatorError::SubscriptionFailed { status: 500 })
    );
    assert_eq!(
        subscription_create_outcome(401),
        Err(CoordinatorError::SubscriptionFailed { status: 401 })
    );
    assert!(subscription_create_outcome(200).is_ok());
    assert!(subscription_create_outcome(299).is_ok());
    assert!(subscription_create_outcome(300).is_err());
}

#[test]
fn batch_result_reports_first_failure() {
    assert!(subscriptions_result(&vec![201, 409, 204]).is_ok());
    assert!(subscriptions_result(&vec![]).is_ok());
    assert_eq!(
        subscriptions_result(&vec![201, 403, 500]),
        Err(CoordinatorError::SubscriptionFailed { status: 403 })
    );
}

#[test]
fn first_existing_conduit_is_adopted() {
    let listing = vec![
        Conduit {
            id: String::from("conduit-a"),
            shard_count: 1,
        },
        Conduit {
            id: String::from("conduit-b"),
            shard_count: 5,
        },
    ];
    assert_eq!(
        ConduitPlan::from_listing(listing, 1),
        ConduitPlan::Adopt {
            conduit: Conduit {
                id: String::from("conduit-a"),
                shard_count: 1,
            }
        }
    );
}

#[test]
fn empty_listing_creates_a_conduit() {
    assert_eq!(
        ConduitPlan::from_listing(Vec::new(), 2),
        ConduitPlan::CreateNew { shard_count: 2 }
    );
}

#[test]
fn repoint_update_binds_shard_to_session() {
    assert_eq!(
        repoint_update(1, String::from("sid-42")),
        Shard {
            index: 1,
            transport: Transport::Websocket {
                session_id: String::from("sid-42")
            },
        }
    );
}

#[test]
fn required_subscriptions_cover_streamer_chat_read_as_bot() {
    let subs = required_subscriptions(
        String::from("conduit-a"),
        String::from("11148817"),
        String::from("bot-1"),
    );
    assert_eq!(
        subs,
        vec![SubscriptionRequest {
            topic: SubscriptionTopic::ChannelChatMessage,
            condition: Condition {
                broadcaster_id: String::from("11148817"),
                bot_id: Some(String::from("bot-1")),
            },
            conduit_id: String::from("conduit-a"),
        }]
    );
}
