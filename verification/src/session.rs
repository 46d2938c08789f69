//! The socket session state machine.
//!
//! A session owns exactly one logical connection. Everything that happens to
//! it — socket lifecycle, decoded wire messages, results of the outbound REST
//! calls it asked for, cancellation — arrives as a [`SessionEvent`], and
//! [`SessionState::step`] answers with at most one [`SessionAction`] for the
//! surrounding task to perform. The whole transition relation is pinned down
//! by the spec function [`spec_step`].
//!
//! On every welcome or reconnect message the machine stores the new session
//! identity, refreshes the application token first if it is stale, and only
//! then asks for the conduit shard to be re-pointed at the new identity; the
//! subscription set is ensured once per session lifetime, after the first
//! successful re-point.

use crate::token::AppToken;
use crate::wire::is_parsable_url;
use crate::wire::ChannelEvent;
use crate::wire::SessionHandshake;
use crate::wire::WireMessage;
use vstd::prelude::*;

verus! {

/// The lifecycle of the one logical connection a session owns.
#[derive(Debug, Clone, Copy, PartialEq, Eq, Structural)]
pub enum Phase {
    Disconnected,
    Connecting,
    AwaitingWelcome,
    Live,
    /// The peer reset the connection without a close handshake; a new
    /// connect attempt is under way. Recoverable, unlike `Closed`.
    Reconnecting,
    /// Terminated with a fatal error; absorbing.
    Closed,
    /// Terminated cleanly after cancellation; absorbing.
    Stopped,
}

/// The outbound call the session is waiting on while settling into `Live`.
#[derive(Debug, Clone, Copy, PartialEq, Eq, Structural)]
pub enum PendingCall {
    Idle,
    /// A token refresh was requested.
    Refresh,
    /// A shard re-point was requested.
    Repoint,
    /// Creation of the subscription set was requested.
    Subscribe,
}

/// Why a session terminated fatally.
#[derive(Debug, Clone, Copy, PartialEq, Eq, Structural)]
pub enum SessionError {
    ConnectFailed,
    /// The platform revoked a subscription; silent loss of coverage would be
    /// a correctness issue, so the session surfaces it and stops.
    Revoked,
    /// A wire message did not match any known envelope shape, or carried an
    /// unusable reconnect URL.
    Malformed,
    /// An unrecoverable transport error.
    Transport,
    TokenRefreshFailed,
    /// A REST call (shard re-point or subscription creation) failed.
    RestFailed,
}

/// What happened to the session task; the input of one transition.
#[derive(Debug, Clone, PartialEq, Eq)]
pub enum SessionEvent {
    /// The session is asked to start connecting.
    Started,
    /// The socket handshake completed.
    Connected,
    /// The socket could not be established.
    ConnectFailed,
    /// A frame arrived and was decoded.
    Message { message: WireMessage },
    /// A frame arrived that matched no known envelope shape.
    MalformedMessage,
    /// The peer closed the connection with a proper close handshake.
    CloseFrame,
    /// The peer reset the connection without a close handshake.
    TransportReset,
    /// Any other transport-level error.
    TransportFailed,
    /// The requested token refresh succeeded.
    TokenRefreshed { access_token: String, expires_in_s: u64 },
    /// The requested token refresh failed.
    TokenRefreshFailed,
    /// The requested REST call (re-point or subscription creation) succeeded.
    RestCompleted,
    /// The requested REST call failed.
    RestFailed,
    /// The external shutdown signal fired.
    Cancelled,
}

/// What the surrounding task must perform after a transition.
#[derive(Debug, Clone, PartialEq, Eq)]
pub enum SessionAction {
    /// Establish a socket to the given URL.
    Connect { url: String },
    /// Refresh the application token, then report back.
    RefreshToken,
    /// Re-point the conduit shard at the given session identity, using the
    /// given token secret.
    RepointShard { session_id: String, access_token: String },
    /// Register the required subscription set, using the given token secret.
    EnsureSubscriptions { access_token: String },
    /// Hand the decoded event to the bus.
    Publish { event: ChannelEvent },
    /// Terminate with the given fatal error.
    Fail { error: SessionError },
}

/// The session's logical identity and progress.
pub struct SessionState {
    pub phase: Phase,
    pub pending: PendingCall,
    /// The session id of the current connection, once welcomed.
    pub session_id: Option<String>,
    /// The URL to use on the next connect attempt; replaced by reconnect
    /// messages.
    pub connect_url: String,
    /// The keepalive timeout declared by the latest welcome or reconnect.
    pub keepalive_timeout_s: Option<u64>,
    /// Whether the subscription set has been ensured already; this survives
    /// reconnects, so the set is issued once per session lifetime.
    pub subscriptions_ensured: bool,
    /// The application token; owned and replaced only by this machine.
    pub token: AppToken,
}

/// The state a freshly constructed session starts in.
pub open spec fn spec_init(connect_url: String, token: AppToken) -> SessionState {
    SessionState {
        phase: Phase::Disconnected,
        pending: PendingCall::Idle,
        session_id: None,
        connect_url: connect_url,
        keepalive_timeout_s: None,
        subscriptions_ensured: false,
        token: token,
    }
}

/// One welcome or reconnect message: validate a supplied reconnect URL,
/// store the new identity, and either refresh a stale token or re-point the
/// shard right away.
pub open spec fn spec_handle_session(
    s: SessionState,
    session: SessionHandshake,
    now_s: u64,
) -> (SessionState, Option<SessionAction>) {
    let url_ok = match session.reconnect_url {
        Some(u) => is_parsable_url(u@),
        None => true,
    };
    if !url_ok {
        (
            SessionState { phase: Phase::Closed, ..s },
            Some(SessionAction::Fail { error: SessionError::Malformed }),
        )
    } else {
        let url = match session.reconnect_url {
            Some(u) => u,
            None => s.connect_url,
        };
        let base = SessionState {
            phase: Phase::Live,
            session_id: Some(session.session_id),
            connect_url: url,
            keepalive_timeout_s: session.keepalive_timeout_s,
            ..s
        };
        if s.token.spec_is_expired(now_s) {
            (
                SessionState { pending: PendingCall::Refresh, ..base },
                Some(SessionAction::RefreshToken),
            )
        } else {
            (
                SessionState { pending: PendingCall::Repoint, ..base },
                Some(SessionAction::RepointShard {
                    session_id: session.session_id,
                    access_token: s.token.access_token,
                }),
            )
        }
    }
}

/// The complete transition relation of the session machine.
pub open spec fn spec_step(
    s: SessionState,
    event: SessionEvent,
    now_s: u64,
) -> (SessionState, Option<SessionAction>) {
    if s.phase is Closed || s.phase is Stopped {
        (s, None)
    } else {
        match event {
            SessionEvent::Started => {
                if s.phase is Disconnected {
                    (
                        SessionState { phase: Phase::Connecting, ..s },
                        Some(SessionAction::Connect { url: s.connect_url }),
                    )
                } else {
                    (s, None)
                }
            },
            SessionEvent::Connected => {
                if s.phase is Connecting || s.phase is Reconnecting {
                    (SessionState { phase: Phase::AwaitingWelcome, ..s }, None)
                } else {
                    (s, None)
                }
            },
            SessionEvent::ConnectFailed => {
                if s.phase is Connecting || s.phase is Reconnecting {
                    (
                        SessionState { phase: Phase::Closed, ..s },
                        Some(SessionAction::Fail { error: SessionError::ConnectFailed }),
                    )
                } else {
                    (s, None)
                }
            },
            SessionEvent::Message { message } => {
                if s.phase is AwaitingWelcome || s.phase is Live {
                    match message {
                        WireMessage::Welcome { session } => spec_handle_session(s, session, now_s),
                        WireMessage::Reconnect { session } => spec_handle_session(
                            s,
                            session,
                            now_s,
                        ),
                        WireMessage::Notification { event } => match event {
                            Some(e) => (s, Some(SessionAction::Publish { event: e })),
                            None => (s, None),
                        },
                        WireMessage::Revocation => (
                            SessionState { phase: Phase::Closed, ..s },
                            Some(SessionAction::Fail { error: SessionError::Revoked }),
                        ),
                        WireMessage::Keepalive => (s, None),
                        WireMessage::Unknown => (s, None),
                    }
                } else {
                    (s, None)
                }
            },
            SessionEvent::MalformedMessage => {
                if s.phase is AwaitingWelcome || s.phase is Live {
                    (
                        SessionState { phase: Phase::Closed, ..s },
                        Some(SessionAction::Fail { error: SessionError::Malformed }),
                    )
                } else {
                    (s, None)
                }
            },
            SessionEvent::CloseFrame => {
                if s.phase is AwaitingWelcome || s.phase is Live {
                    (
                        SessionState { phase: Phase::Closed, ..s },
                        Some(SessionAction::Fail { error: SessionError::Transport }),
                    )
                } else {
                    (s, None)
                }
            },
            SessionEvent::TransportReset => {
                if s.phase is AwaitingWelcome || s.phase is Live {
                    (
                        SessionState { phase: Phase::Reconnecting, pending: PendingCall::Idle, ..s },
                        Some(SessionAction::Connect { url: s.connect_url }),
                    )
                } else {
                    (s, None)
                }
            },
            SessionEvent::TransportFailed => {
                if s.phase is AwaitingWelcome || s.phase is Live {
                    (
                        SessionState { phase: Phase::Closed, ..s },
                        Some(SessionAction::Fail { error: SessionError::Transport }),
                    )
                } else {
                    (s, None)
                }
            },
            SessionEvent::TokenRefreshed { access_token, expires_in_s } => {
                if s.phase is Live && s.pending is Refresh {
                    match s.session_id {
                        Some(sid) => {
                            let expires_at_s = if now_s + expires_in_s <= u64::MAX {
                                (now_s + expires_in_s) as u64
                            } else {
                                u64::MAX
                            };
                            (
                                SessionState {
                                    pending: PendingCall::Repoint,
                                    token: AppToken { access_token: access_token, expires_at_s },
                                    ..s
                                },
                                Some(SessionAction::RepointShard {
                                    session_id: sid,
                                    access_token: access_token,
                                }),
                            )
                        },
                        None => (s, None),
                    }
                } else {
                    (s, None)
                }
            },
            SessionEvent::TokenRefreshFailed => {
                if s.phase is Live && s.pending is Refresh {
                    (
                        SessionState { phase: Phase::Closed, ..s },
                        Some(SessionAction::Fail { error: SessionError::TokenRefreshFailed }),
                    )
                } else {
                    (s, None)
                }
            },
            SessionEvent::RestCompleted => {
                if s.phase is Live && s.pending is Repoint {
                    if !s.subscriptions_ensured {
                        (
                            SessionState { pending: PendingCall::Subscribe, ..s },
                            Some(SessionAction::EnsureSubscriptions {
                                access_token: s.token.access_token,
                            }),
                        )
                    } else {
                        (SessionState { pending: PendingCall::Idle, ..s }, None)
                    }
                } else if s.phase is Live && s.pending is Subscribe {
                    (
                        SessionState {
                            pending: PendingCall::Idle,
                            subscriptions_ensured: true,
                            ..s
                        },
                        None,
                    )
                } else {
                    (s, None)
                }
            },
            SessionEvent::RestFailed => {
                if s.phase is Live && (s.pending is Repoint || s.pending is Subscribe) {
                    (
                        SessionState { phase: Phase::Closed, ..s },
                        Some(SessionAction::Fail { error: SessionError::RestFailed }),
                    )
                } else {
                    (s, None)
                }
            },
            SessionEvent::Cancelled => (SessionState { phase: Phase::Stopped, ..s }, None),
        }
    }
}

/// The machine's invariant: a live session, and one with an outstanding
/// outbound call, always has a session identity to work with.
pub open spec fn wf(s: SessionState) -> bool {
    &&& s.phase is Live ==> s.session_id is Some
    &&& (s.pending is Refresh || s.pending is Repoint || s.pending is Subscribe)
        ==> s.session_id is Some
}

/// Law: a fresh session satisfies the machine invariant.
pub proof fn lemma_init_wf(connect_url: String, token: AppToken)
    ensures
        wf(spec_init(connect_url, token)),
{
}

/// Law: every transition preserves the machine invariant.
pub proof fn lemma_step_preserves_wf(s: SessionState, event: SessionEvent, now_s: u64)
    requires
        wf(s),
    ensures
        wf(spec_step(s, event, now_s).0),
{
}

/// Law: a welcome followed immediately by a second welcome with a different
/// session id yields exactly one shard re-point per welcome, the second one
/// carrying the newer session id — last-write-wins on the session identity.
pub proof fn lemma_welcome_repoint_last_write_wins(
    s: SessionState,
    first: SessionHandshake,
    second: SessionHandshake,
    now_s: u64,
)
    requires
        s.phase is AwaitingWelcome || s.phase is Live,
        !s.token.spec_is_expired(now_s),
        first.reconnect_url is None,
        second.reconnect_url is None,
    ensures
        ({
            let (s1, a1) = spec_step(
                s,
                SessionEvent::Message { message: WireMessage::Welcome { session: first } },
                now_s,
            );
            let (s2, a2) = spec_step(
                s1,
                SessionEvent::Message { message: WireMessage::Welcome { session: second } },
                now_s,
            );
            &&& a1 == Some(
                SessionAction::RepointShard {
                    session_id: first.session_id,
                    access_token: s.token.access_token,
                },
            )
            &&& a2 == Some(
                SessionAction::RepointShard {
                    session_id: second.session_id,
                    access_token: s.token.access_token,
                },
            )
            &&& s2.session_id == Some(second.session_id)
            &&& s2.connect_url == s.connect_url
        }),
{
}

/// Law: a transport reset followed by a successful reconnect brings the
/// session back to `Live` with a fresh shard re-point, but — the required
/// subscription set having been ensured before — without re-issuing the
/// subscription creation.
pub proof fn lemma_reset_recovery_skips_resubscribe(
    s: SessionState,
    session: SessionHandshake,
    now_s: u64,
)
    requires
        s.phase is Live,
        s.subscriptions_ensured,
        !s.token.spec_is_expired(now_s),
        session.reconnect_url is None,
    ensures
        ({
            let (s1, a1) = spec_step(s, SessionEvent::TransportReset, now_s);
            let (s2, a2) = spec_step(s1, SessionEvent::Connected, now_s);
            let (s3, a3) = spec_step(
                s2,
                SessionEvent::Message { message: WireMessage::Welcome { session: session } },
                now_s,
            );
            let (s4, a4) = spec_step(s3, SessionEvent::RestCompleted, now_s);
            &&& s1.phase is Reconnecting
            &&& a1 == Some(SessionAction::Connect { url: s.connect_url })
            &&& s2.phase is AwaitingWelcome
            &&& s3.phase is Live
            &&& a3 == Some(
                SessionAction::RepointShard {
                    session_id: session.session_id,
                    access_token: s.token.access_token,
                },
            )
            &&& a4 == None::<SessionAction>
            &&& s4.subscriptions_ensured
            &&& s4.pending is Idle
        }),
{
}

/// Law: once the subscription set has been ensured, it stays ensured, and no
/// later transition ever asks for it to be created again — the set is issued
/// once per session lifetime, however many reconnects follow.
pub proof fn lemma_subscriptions_ensured_once(s: SessionState, event: SessionEvent, now_s: u64)
    requires
        s.subscriptions_ensured,
    ensures
        spec_step(s, event, now_s).0.subscriptions_ensured,
        !(spec_step(s, event, now_s).1 matches Some(
            SessionAction::EnsureSubscriptions { .. },
        )),
{
}

/// Law: of two reconnect messages in a row, each carrying a usable connect
/// URL, the later URL is the one kept for the next connect attempt.
pub proof fn lemma_reconnect_url_last_write_wins(
    s: SessionState,
    first: SessionHandshake,
    second: SessionHandshake,
    u1: String,
    u2: String,
    now_s: u64,
)
    requires
        s.phase is AwaitingWelcome || s.phase is Live,
        !s.token.spec_is_expired(now_s),
        first.reconnect_url == Some(u1),
        second.reconnect_url == Some(u2),
    ensures
        (is_parsable_url(u1@) && is_parsable_url(u2@)) ==> ({
            let (s1, a1) = spec_step(
                s,
                SessionEvent::Message { message: WireMessage::Reconnect { session: first } },
                now_s,
            );
            let (s2, a2) = spec_step(
                s1,
                SessionEvent::Message { message: WireMessage::Reconnect { session: second } },
                now_s,
            );
            s1.connect_url == u1 && s2.connect_url == u2
        }),
{
}

/// Law: a shard re-point always names the session identity the machine holds
/// afterwards, and always carries the secret of the token it holds
/// afterwards — never a stale one.
pub proof fn lemma_repoint_uses_current_identity_and_token(
    s: SessionState,
    event: SessionEvent,
    now_s: u64,
)
    ensures
        ({
            let (s2, a) = spec_step(s, event, now_s);
            a matches Some(SessionAction::RepointShard { session_id, access_token }) ==> {
                &&& s2.session_id == Some(session_id)
                &&& access_token == s2.token.access_token
            }
        }),
{
}

/// Law: a revocation message closes the session with a fatal error.
pub proof fn lemma_revocation_is_fatal(s: SessionState, now_s: u64)
    requires
        s.phase is AwaitingWelcome || s.phase is Live,
    ensures
        ({
            let (s1, a1) = spec_step(
                s,
                SessionEvent::Message { message: WireMessage::Revocation },
                now_s,
            );
            &&& s1.phase is Closed
            &&& a1 == Some(SessionAction::Fail { error: SessionError::Revoked })
        }),
{
}

/// Law: a closed session never changes state and never takes another
/// action — in particular it never attempts a reconnect.
pub proof fn lemma_closed_is_absorbing(s: SessionState, event: SessionEvent, now_s: u64)
    requires
        s.phase is Closed,
    ensures
        spec_step(s, event, now_s) == (s, None::<SessionAction>),
{
}

/// Law: a session stopped by cancellation stays stopped and silent — in
/// particular it never attempts a reconnect after the shutdown signal.
pub proof fn lemma_stopped_is_absorbing(s: SessionState, event: SessionEvent, now_s: u64)
    requires
        s.phase is Stopped,
    ensures
        spec_step(s, event, now_s) == (s, None::<SessionAction>),
{
}

/// Law: when a welcome arrives while the held token is stale, the machine
/// asks for exactly one token refresh and no re-point; the re-point that
/// follows a successful refresh carries the refreshed secret, not the stale
/// one.
pub proof fn lemma_stale_token_refreshed_before_repoint(
    s: SessionState,
    session: SessionHandshake,
    fresh_secret: String,
    expires_in_s: u64,
    now_s: u64,
)
    requires
        s.phase is AwaitingWelcome || s.phase is Live,
        s.token.spec_is_expired(now_s),
        session.reconnect_url is None,
    ensures
        ({
            let (s1, a1) = spec_step(
                s,
                SessionEvent::Message { message: WireMessage::Welcome { session: session } },
                now_s,
            );
            let (s2, a2) = spec_step(
                s1,
                SessionEvent::TokenRefreshed { access_token: fresh_secret, expires_in_s },
                now_s,
            );
            &&& a1 == Some(SessionAction::RefreshToken)
            &&& s1.pending is Refresh
            &&& a2 == Some(
                SessionAction::RepointShard {
                    session_id: session.session_id,
                    access_token: fresh_secret,
                },
            )
            &&& s2.token.access_token == fresh_secret
            &&& (now_s + expires_in_s <= u64::MAX ==> s2.token.expires_at_s == now_s
                + expires_in_s)
        }),
{
}

impl SessionState {
    /// A fresh session that will connect to `connect_url` and authorize with
    /// `token`.
    pub fn new(connect_url: String, token: AppToken) -> (s: SessionState)
        ensures
            s == spec_init(connect_url, token),
    {
        SessionState {
            phase: Phase::Disconnected,
            pending: PendingCall::Idle,
            session_id: None,
            connect_url,
            keepalive_timeout_s: None,
            subscriptions_ensured: false,
            token,
        }
    }

    /// Process one welcome or reconnect payload.
    fn handle_session(&mut self, session: SessionHandshake, now_s: u64) -> (act: Option<
        SessionAction,
    >)
        ensures
            (*final(self), act) == spec_handle_session(*old(self), session, now_s),
    {
        let SessionHandshake { session_id, keepalive_timeout_s, reconnect_url } = session;
        match reconnect_url {
            Some(u) => {
                if !crate::wire::url_is_parsable(u.as_str()) {
                    self.phase = Phase::Closed;
                    return Some(SessionAction::Fail { error: SessionError::Malformed });
                }
                self.connect_url = u;
            },
            None => {},
        }
        self.phase = Phase::Live;
        self.keepalive_timeout_s = keepalive_timeout_s;
        if self.token.is_expired(now_s) {
            self.session_id = Some(session_id);
            self.pending = PendingCall::Refresh;
            Some(SessionAction::RefreshToken)
        } else {
            let access_token = self.token.access_token.clone();
            self.session_id = Some(session_id.clone());
            self.pending = PendingCall::Repoint;
            Some(SessionAction::RepointShard { session_id, access_token })
        }
    }

    /// Feed one event into the machine; `now_s` is the current epoch second.
    /// The returned action, if any, is what the surrounding task must
    /// perform next.
    pub fn step(&mut self, event: SessionEvent, now_s: u64) -> (act: Option<SessionAction>)
        ensures
            (*final(self), act) == spec_step(*old(self), event, now_s),
    {
        if matches!(self.phase, Phase::Closed) || matches!(self.phase, Phase::Stopped) {
            return None;
        }
        match event {
            SessionEvent::Started => {
                if matches!(self.phase, Phase::Disconnected) {
                    self.phase = Phase::Connecting;
                    Some(SessionAction::Connect { url: self.connect_url.clone() })
                } else {
                    None
                }
            },
            SessionEvent::Connected => {
                if matches!(self.phase, Phase::Connecting) || matches!(
                    self.phase,
                    Phase::Reconnecting,
                ) {
                    self.phase = Phase::AwaitingWelcome;
                }
                None
            },
            SessionEvent::ConnectFailed => {
                if matches!(self.phase, Phase::Connecting) || matches!(
                    self.phase,
                    Phase::Reconnecting,
                ) {
                    self.phase = Phase::Closed;
                    Some(SessionAction::Fail { error: SessionError::ConnectFailed })
                } else {
                    None
                }
            },
            SessionEvent::Message { message } => {
                if matches!(self.phase, Phase::AwaitingWelcome) || matches!(
                    self.phase,
                    Phase::Live,
                ) {
                    match message {
                        WireMessage::Welcome { session } => self.handle_session(session, now_s),
                        WireMessage::Reconnect { session } => self.handle_session(session, now_s),
                        WireMessage::Notification { event } => match event {
                            Some(e) => Some(SessionAction::Publish { event: e }),
                            None => None,
                        },
                        WireMessage::Revocation => {
                            self.phase = Phase::Closed;
                            Some(SessionAction::Fail { error: SessionError::Revoked })
                        },
                        WireMessage::Keepalive => None,
                        WireMessage::Unknown => None,
                    }
                } else {
                    None
                }
            },
            SessionEvent::MalformedMessage => {
                if matches!(self.phase, Phase::AwaitingWelcome) || matches!(
                    self.phase,
                    Phase::Live,
                ) {
                    self.phase = Phase::Closed;
                    Some(SessionAction::Fail { error: SessionError::Malformed })
                } else {
                    None
                }
            },
            SessionEvent::CloseFrame => {
                if matches!(self.phase, Phase::AwaitingWelcome) || matches!(
                    self.phase,
                    Phase::Live,
                ) {
                    self.phase = Phase::Closed;
                    Some(SessionAction::Fail { error: SessionError::Transport })
                } else {
                    None
                }
            },
            SessionEvent::TransportReset => {
                if matches!(self.phase, Phase::AwaitingWelcome) || matches!(
                    self.phase,
                    Phase::Live,
                ) {
                    self.phase = Phase::Reconnecting;
                    self.pending = PendingCall::Idle;
                    Some(SessionAction::Connect { url: self.connect_url.clone() })
                } else {
                    None
                }
            },
            SessionEvent::TransportFailed => {
                if matches!(self.phase, Phase::AwaitingWelcome) || matches!(
                    self.phase,
                    Phase::Live,
                ) {
                    self.phase = Phase::Closed;
                    Some(SessionAction::Fail { error: SessionError::Transport })
                } else {
                    None
                }
            },
            SessionEvent::TokenRefreshed { access_token, expires_in_s } => {
                if matches!(self.phase, Phase::Live) && matches!(self.pending, PendingCall::Refresh)
                {
                    match &self.session_id {
                        Some(sid) => {
                            let session_id = sid.clone();
                            let expires_at_s = if expires_in_s <= u64::MAX - now_s {
                                now_s + expires_in_s
                            } else {
                                u64::MAX
                            };
                            self.pending = PendingCall::Repoint;
                            self.token = AppToken {
                                access_token: access_token.clone(),
                                expires_at_s,
                            };
                            Some(SessionAction::RepointShard { session_id, access_token })
                        },
                        None => None,
                    }
                } else {
                    None
                }
            },
            SessionEvent::TokenRefreshFailed => {
                if matches!(self.phase, Phase::Live) && matches!(self.pending, PendingCall::Refresh)
                {
                    self.phase = Phase::Closed;
                    Some(SessionAction::Fail { error: SessionError::TokenRefreshFailed })
                } else {
                    None
                }
            },
            SessionEvent::RestCompleted => {
                if matches!(self.phase, Phase::Live) && matches!(self.pending, PendingCall::Repoint)
                {
                    if !self.subscriptions_ensured {
                        self.pending = PendingCall::Subscribe;
                        Some(SessionAction::EnsureSubscriptions {
                            access_token: self.token.access_token.clone(),
                        })
                    } else {
                        self.pending = PendingCall::Idle;
                        None
                    }
                } else if matches!(self.phase, Phase::Live) && matches!(
                    self.pending,
                    PendingCall::Subscribe,
                ) {
                    self.pending = PendingCall::Idle;
                    self.subscriptions_ensured = true;
                    None
                } else {
                    None
                }
            },
            SessionEvent::RestFailed => {
                if matches!(self.phase, Phase::Live) && (matches!(self.pending, PendingCall::Repoint)
                    || matches!(self.pending, PendingCall::Subscribe)) {
                    self.phase = Phase::Closed;
                    Some(SessionAction::Fail { error: SessionError::RestFailed })
                } else {
                    None
                }
            },
            SessionEvent::Cancelled => {
                self.phase = Phase::Stopped;
                None
            },
        }
    }
}

} // verus!
