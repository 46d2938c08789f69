//! Supervision decisions.
//!
//! The supervisor owns the single shutdown signal and watches the long-lived
//! tasks. The waiting itself happens outside this crate; what stands here is
//! the judgement: what an observed exit of the HTTP surface means, and whether
//! it must pull the shutdown signal for everything else.

use vstd::prelude::*;

verus! {

/// How the HTTP surface's task was observed to end.
#[derive(Debug, Clone, Copy, PartialEq, Eq, Structural)]
pub enum WebserverExit {
    /// It returned without an error.
    CleanExit,
    /// It returned an error.
    ServerError,
    /// Its task ended abnormally without returning.
    TaskPanic,
}

/// The supervisor's judgement of such an exit.
#[derive(Debug, Clone, Copy, PartialEq, Eq, Structural)]
pub enum SupervisionError {
    /// The surface ended cleanly although no shutdown was requested.
    UnexpectedWebserverExit,
    WebserverFailed,
    WebserverTaskFailed,
}

/// What the supervisor must do about an observed exit.
#[derive(Debug, Clone, Copy, PartialEq, Eq)]
pub struct SupervisionStep {
    /// Whether the shutdown signal must be pulled now.
    pub cancel: bool,
    pub outcome: Result<(), SupervisionError>,
}

/// Judge an exit of the HTTP surface: a clean exit is expected exactly
/// after a shutdown request; every other exit is an error and pulls the
/// shutdown signal so the remaining tasks wind down.
pub fn supervise_webserver_exit(exit: WebserverExit, shutdown_requested: bool) -> (r:
    SupervisionStep)
    ensures
        r == (match exit {
            WebserverExit::CleanExit => {
                if shutdown_requested {
                    SupervisionStep { cancel: false, outcome: Ok(()) }
                } else {
                    SupervisionStep {
                        cancel: true,
                        outcome: Err(SupervisionError::UnexpectedWebserverExit),
                    }
                }
            },
            WebserverExit::ServerError => SupervisionStep {
                cancel: true,
                outcome: Err(SupervisionError::WebserverFailed),
            },
            WebserverExit::TaskPanic => SupervisionStep {
                cancel: true,
                outcome: Err(SupervisionError::WebserverTaskFailed),
            },
        }),
{
    match exit {
        WebserverExit::CleanExit => {
            if shutdown_requested {
                SupervisionStep { cancel: false, outcome: Ok(()) }
            } else {
                SupervisionStep {
                    cancel: true,
                    outcome: Err(SupervisionError::UnexpectedWebserverExit),
                }
            }
        },
        WebserverExit::ServerError => SupervisionStep {
            cancel: true,
            outcome: Err(SupervisionError::WebserverFailed),
        },
        WebserverExit::TaskPanic => SupervisionStep {
            cancel: true,
            outcome: Err(SupervisionError::WebserverTaskFailed),
        },
    }
}

/// The socket configuration the session connects with: sizes that bound
/// memory use against a misbehaving peer, and unmasked server frames
/// rejected as the protocol requires.
#[derive(Debug, Clone, Copy, PartialEq, Eq, Structural)]
pub struct SocketLimits {
    pub max_message_bytes: u64,
    pub max_frame_bytes: u64,
    pub accept_unmasked_frames: bool,
}

/// The limits every connection is configured with: 64 MiB per message,
/// 16 MiB per frame, unmasked frames rejected.
pub fn socket_limits() -> (l: SocketLimits)
    ensures
        l.max_message_bytes == 67108864,
        l.max_frame_bytes == 16777216,
        !l.accept_unmasked_frames,
{
    SocketLimits {
        max_message_bytes: 67108864,  // 64 MiB
        max_frame_bytes: 16777216,  // 16 MiB
        accept_unmasked_frames: false,
    }
}

} // verus!
