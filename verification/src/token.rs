//! The application access token and its staleness rule.
//!
//! The token is owned by the session task; it is checked for staleness on
//! every welcome or reconnect message and replaced through a synchronous
//! refresh before it is used again.

use vstd::prelude::*;

verus! {

/// An application access token together with the epoch second at which it
/// stops being usable.
pub struct AppToken {
    pub access_token: String,
    pub expires_at_s: u64,
}

impl AppToken {
    /// A token is stale once its expiry epoch second has been reached.
    pub open spec fn spec_is_expired(&self, now_s: u64) -> bool {
        self.expires_at_s <= now_s
    }

    pub fn is_expired(&self, now_s: u64) -> (r: bool)
        ensures
            r == self.spec_is_expired(now_s),
    {
        self.expires_at_s <= now_s
    }

    /// The token produced by a successful refresh: the fresh secret and the
    /// expiry computed from the server-declared lifetime.
    pub fn from_refresh(access_token: String, now_s: u64, expires_in_s: u64) -> (t: AppToken)
        requires
            now_s + expires_in_s <= u64::MAX,
        ensures
            t.access_token == access_token,
            t.expires_at_s == now_s + expires_in_s,
            expires_in_s > 0 ==> !t.spec_is_expired(now_s),
    {
        AppToken { access_token, expires_at_s: now_s + expires_in_s }
    }
}

} // verus!
