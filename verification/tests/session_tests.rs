use eventsub_core::session::Phase;
use eventsub_core::session::PendingCall;
use eventsub_core::session::SessionAction;
use eventsub_core::session::SessionError;
use eventsub_core::session::SessionEvent;
use eventsub_core::session::SessionState;
use eventsub_core::token::AppToken;
use eventsub_core::wire::ChannelEvent;
use eventsub_core::wire::EventPayload;
use eventsub_core::wire::SessionHandshake;
use eventsub_core::wire::WireMessage;

fn fresh_token(expires_at_s: u64) -> AppToken {
    AppToken {
        access_token: String::from("app-token"),
        expires_at_s,
    }
}

fn started_session(expires_at_s: u64) -> SessionState {
    let mut s = SessionState::new(String::from("wss://eventsub.example/ws"), fresh_token(expires_at_s));
    let act = s.step(SessionEvent::Started, 100);
    assert_eq!(
        act,
        Some(SessionAction::Connect {
            url: String::from("wss://eventsub.example/ws")
        })
    );
    let act = s.step(SessionEvent::Connected, 100);
    assert_eq!(act, None);
    assert_eq!(s.phase, Phase::AwaitingWelcome);
    s
}

fn welcome(session_id: &str) -> SessionEvent {
    SessionEvent::Message {
        message: WireMessage::Welcome {
            session: SessionHandshake {
                session_id: String::from(session_id),
                keepalive_timeout_s: Some(10),
                reconnect_url: None,
            },
        },
    }
}

#[test]
fn two_welcomes_repoint_twice_with_newer_id() {
    let mut s = started_session(1_000);
    let act = s.step(welcome("sid-1"), 100);
    assert_eq!(
        act,
        Some(SessionAction::RepointShard {
            session_id: String::from("sid-1"),
            access_token: String::from("app-token"),
        })
    );
    assert_eq!(s.phase, Phase::Live);
    let act = s.step(welcome("sid-2"), 100);
    assert_eq!(
        act,
        Some(SessionAction::RepointShard {
            session_id: String::from("sid-2"),
            access_token: String::from("app-token"),
        })
    );
    assert_eq!(s.session_id, Some(String::from("sid-2")));
}

#[test]
fn reset_then_reconnect_repoints_but_does_not_resubscribe() {
    let mut s = started_session(1_000);
    // Reach Live and complete the first handshake: repoint, then subscribe.
    let act = s.step(welcome("sid-1"), 100);
    assert!(matches!(act, Some(SessionAction::RepointShard { .. })));
    let act = s.step(SessionEvent::RestCompleted, 100);
    assert_eq!(
        act,
        Some(SessionAction::EnsureSubscriptions {
            access_token: String::from("app-token")
        })
    );
    let act = s.step(SessionEvent::RestCompleted, 100);
    assert_eq!(act, None);
    assert!(s.subscriptions_ensured);

    // The peer resets the connection without a close handshake: recoverable.
    let act = s.step(SessionEvent::TransportReset, 100);
    assert_eq!(s.phase, Phase::Reconnecting);
    assert_eq!(
        act,
        Some(SessionAction::Connect {
            url: String::from("wss://eventsub.example/ws")
        })
    );
    let act = s.step(SessionEvent::Connected, 100);
    assert_eq!(act, None);
    let act = s.step(welcome("sid-2"), 100);
    assert_eq!(
        act,
        Some(SessionAction::RepointShard {
            session_id: String::from("sid-2"),
            access_token: String::from("app-token"),
        })
    );
    assert_eq!(s.phase, Phase::Live);
    // The re-point succeeded; the subscription set is not issued again.
    let act = s.step(SessionEvent::RestCompleted, 100);
    assert_eq!(act, None);
    assert!(s.subscriptions_ensured);
}

#[test]
fn revocation_is_fatal_and_closed_never_reconnects() {
    let mut s = started_session(1_000);
    let _ = s.step(welcome("sid-1"), 100);
    let act = s.step(
        SessionEvent::Message {
            message: WireMessage::Revocation,
        },
        100,
    );
    assert_eq!(
        act,
        Some(SessionAction::Fail {
            error: SessionError::Revoked
        })
    );
    assert_eq!(s.phase, Phase::Closed);
    // Whatever happens next, the machine stays closed and silent.
    for ev in [
        SessionEvent::Started,
        SessionEvent::TransportReset,
        SessionEvent::Connected,
        welcome("sid-3"),
        SessionEvent::RestCompleted,
        SessionEvent::Cancelled,
    ] {
        let act = s.step(ev, 100);
        assert_eq!(act, None);
        assert_eq!(s.phase, Phase::Closed);
    }
}

#[test]
fn stale_token_is_refreshed_once_before_repoint_with_fresh_secret() {
    // The held token expired at 50; the welcome arrives at 100.
    let mut s = started_session(50);
    let act = s.step(welcome("sid-1"), 100);
    assert_eq!(act, Some(SessionAction::RefreshToken));
    assert_eq!(s.pending, PendingCall::Refresh);
    let act = s.step(
        SessionEvent::TokenRefreshed {
            access_token: String::from("fresh-token"),
            expires_in_s: 3600,
        },
        100,
    );
    assert_eq!(
        act,
        Some(SessionAction::RepointShard {
            session_id: String::from("sid-1"),
            access_token: String::from("fresh-token"),
        })
    );
    assert_eq!(s.token.access_token, String::from("fresh-token"));
    assert_eq!(s.token.expires_at_s, 3700);
}

#[test]
fn failed_refresh_is_fatal() {
    let mut s = started_session(50);
    let act = s.step(welcome("sid-1"), 100);
    assert_eq!(act, Some(SessionAction::RefreshToken));
    let act = s.step(SessionEvent::TokenRefreshFailed, 100);
    assert_eq!(
        act,
        Some(SessionAction::Fail {
            error: SessionError::TokenRefreshFailed
        })
    );
    assert_eq!(s.phase, Phase::Closed);
}

#[test]
fn reconnect_message_updates_connect_url_for_next_attempt() {
    let mut s = started_session(1_000);
    let act = s.step(
        SessionEvent::Message {
            message: WireMessage::Reconnect {
                session: SessionHandshake {
                    session_id: String::from("sid-9"),
                    keepalive_timeout_s: Some(10),
                    reconnect_url: Some(String::from("wss://eventsub.example/other")),
                },
            },
        },
        100,
    );
    assert!(matches!(act, Some(SessionAction::RepointShard { .. })));
    assert_eq!(s.connect_url, String::from("wss://eventsub.example/other"));
    // The old socket dies shortly after; the next connect uses the new URL.
    let act = s.step(SessionEvent::TransportReset, 100);
    assert_eq!(
        act,
        Some(SessionAction::Connect {
            url: String::from("wss://eventsub.example/other")
        })
    );
}

#[test]
fn unusable_reconnect_url_is_fatal() {
    let mut s = started_session(1_000);
    let act = s.step(
        SessionEvent::Message {
            message: WireMessage::Reconnect {
                session: SessionHandshake {
                    session_id: String::from("sid-9"),
                    keepalive_timeout_s: None,
                    reconnect_url: Some(String::from("not a url at all")),
                },
            },
        },
        100,
    );
    assert_eq!(
        act,
        Some(SessionAction::Fail {
            error: SessionError::Malformed
        })
    );
    assert_eq!(s.phase, Phase::Closed);
}

#[test]
fn keepalive_and_unknown_messages_are_no_ops() {
    let mut s = started_session(1_000);
    let _ = s.step(welcome("sid-1"), 100);
    let before_id = s.session_id.clone();
    let act = s.step(
        SessionEvent::Message {
            message: WireMessage::Keepalive,
        },
        100,
    );
    assert_eq!(act, None);
    let act = s.step(
        SessionEvent::Message {
            message: WireMessage::Unknown,
        },
        100,
    );
    assert_eq!(act, None);
    let act = s.step(
        SessionEvent::Message {
            message: WireMessage::Notification { event: None },
        },
        100,
    );
    assert_eq!(act, None);
    assert_eq!(s.phase, Phase::Live);
    assert_eq!(s.session_id, before_id);
}

#[test]
fn notifications_are_published() {
    let mut s = started_session(1_000);
    let _ = s.step(welcome("sid-1"), 100);
    let event = ChannelEvent {
        broadcaster_id: String::from("11148817"),
        payload: EventPayload::ChatMessage {
            chatter_id: String::from("44444444"),
            message_text: String::from("hello"),
        },
    };
    let act = s.step(
        SessionEvent::Message {
            message: WireMessage::Notification {
                event: Some(event.clone()),
            },
        },
        100,
    );
    assert_eq!(act, Some(SessionAction::Publish { event }));
}

#[test]
fn malformed_message_and_close_frame_are_fatal() {
    let mut s = started_session(1_000);
    let act = s.step(SessionEvent::MalformedMessage, 100);
    assert_eq!(
        act,
        Some(SessionAction::Fail {
            error: SessionError::Malformed
        })
    );
    assert_eq!(s.phase, Phase::Closed);

    let mut s = started_session(1_000);
    let act = s.step(SessionEvent::CloseFrame, 100);
    assert_eq!(
        act,
        Some(SessionAction::Fail {
            error: SessionError::Transport
        })
    );
    assert_eq!(s.phase, Phase::Closed);
}

#[test]
fn failed_rest_call_is_fatal() {
    let mut s = started_session(1_000);
    let _ = s.step(welcome("sid-1"), 100);
    let act = s.step(SessionEvent::RestFailed, 100);
    assert_eq!(
        act,
        Some(SessionAction::Fail {
            error: SessionError::RestFailed
        })
    );
    assert_eq!(s.phase, Phase::Closed);
}

#[test]
fn cancellation_stops_cleanly_and_finally() {
    let mut s = started_session(1_000);
    let act = s.step(SessionEvent::Cancelled, 100);
    assert_eq!(act, None);
    assert_eq!(s.phase, Phase::Stopped);
    let act = s.step(SessionEvent::Started, 100);
    assert_eq!(act, None);
    assert_eq!(s.phase, Phase::Stopped);
}
