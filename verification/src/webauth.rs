//! Decisions of the user-authorization HTTP surface.
//!
//! The HTTP exchanges, the relational store and the platform calls live
//! outside this crate; what stands here is every decision those handlers
//! make: how a fresh service access token is minted, how long an
//! authorization stays valid, which platform scopes qualify an authorization
//! as a bot or broadcaster grant, and which error answer each failure maps
//! to.

use vstd::prelude::*;

verus! {

/// Relies on `alloc::string::String::push`: appends the character.
pub assume_specification[ String::push ](s: &mut String, ch: char)
    ensures
        final(s)@ == old(s)@.push(ch),
;

/// Relies on `rand::random`: a value drawn from the thread-local generator.
/// Nothing can be promised of a random value.
pub assume_specification<T>[ rand::random::<T> ]() -> (r: T)
    where
        rand::distributions::Standard: rand::distributions::Distribution<T>,
;

/// The identity this service is registered under with the platform.
#[derive(Debug, Clone, PartialEq, Eq)]
pub struct ApiClientCredentials {
    pub client_id: String,
    pub client_secret: String,
    pub redirect_uri: String,
}

/// A user access token obtained from the platform, with the epoch second it
/// stays valid until and the scopes it grants.
#[derive(Debug, Clone, PartialEq, Eq)]
pub struct TwitchUserAccessToken {
    pub access_token: String,
    pub refresh_token: String,
    pub valid_until_s: u64,
    pub scope: Vec<String>,
}

/// The views of the scope strings the platform declared; an absent list
/// means no scopes.
pub open spec fn spec_scope_views(scope: Option<Vec<String>>) -> Seq<Seq<char>> {
    match scope {
        Some(v) => v.deep_view(),
        None => Seq::<Seq<char>>::empty(),
    }
}

/// Assemble the stored token from the fields of the platform's answer: the
/// validity is the server-declared lifetime from now, and the scopes are
/// stored as a set — same members as declared, a repeated scope kept once.
pub fn user_token_from_response(
    access_token: String,
    refresh_token: String,
    expires_in_s: u64,
    scope: Option<Vec<String>>,
    now_s: u64,
) -> (t: TwitchUserAccessToken)
    requires
        now_s + expires_in_s <= u64::MAX,
    ensures
        t.access_token == access_token,
        t.refresh_token == refresh_token,
        t.valid_until_s == now_s + expires_in_s,
        ({
            let given = spec_scope_views(scope);
            let kept = t.scope.deep_view();
            &&& forall|i: int| 0 <= i < kept.len() ==> spec_scope_granted(given, #[trigger] kept[i])
            &&& forall|j: int|
                0 <= j < given.len() ==> spec_scope_granted(kept, #[trigger] given[j])
            &&& forall|i: int, k: int| 0 <= i < k < kept.len() ==> kept[i] != kept[k]
        }),
{
    let given = match scope {
        Some(v) => v,
        None => Vec::new(),
    };
    let mut kept: Vec<String> = Vec::new();
    let mut j: usize = 0;
    while j < given.len()
        invariant
            j <= given@.len(),
            forall|i: int|
                0 <= i < kept.deep_view().len() ==> spec_scope_granted(
                    given.deep_view(),
                    #[trigger] kept.deep_view()[i],
                ),
            forall|q: int|
                0 <= q < j ==> spec_scope_granted(
                    kept.deep_view(),
                    #[trigger] given.deep_view()[q],
                ),
            forall|i: int, k: int|
                0 <= i < k < kept.deep_view().len() ==> kept.deep_view()[i]
                    != kept.deep_view()[k],
        decreases given@.len() - j,
    {
        let ghost pre = kept.deep_view();
        proof {
            assert(given.deep_view()[j as int] == given@[j as int]@);
        }
        if !scope_granted(&kept, &given[j]) {
            kept.push(given[j].clone());
            proof {
                assert forall|i: int|
                    0 <= i < pre.len() implies #[trigger] kept.deep_view()[i] == pre[i] by {}
                assert(kept.deep_view()[pre.len() as int] == given@[j as int]@);
                assert forall|q: int|
                    0 <= q <= j implies spec_scope_granted(
                        kept.deep_view(),
                        #[trigger] given.deep_view()[q],
                    ) by {
                    if q < j {
                        let i = choose|i: int|
                            0 <= i < pre.len() && pre[i] == given.deep_view()[q];
                        assert(kept.deep_view()[i] == given.deep_view()[q]);
                    } else {
                        assert(kept.deep_view()[pre.len() as int] == given.deep_view()[q]);
                    }
                }
            }
        }
        j += 1;
    }
    TwitchUserAccessToken {
        access_token,
        refresh_token,
        valid_until_s: now_s + expires_in_s,
        scope: kept,
    }
}

/// A consistent error answer of the HTTP surface.
#[derive(Debug, Clone, PartialEq, Eq)]
pub struct ApiErrorDetails {
    pub error_code: String,
    pub user_message: String,
}

/// A consistent error answer of the HTTP surface: a status, optionally with
/// machine- and human-readable detail.
#[derive(Debug, Clone, PartialEq, Eq)]
pub struct ApiError {
    pub status_code: u16,
    pub details: Option<ApiErrorDetails>,
}

impl ApiError {
    pub fn new_detailed(status_code: u16, error_code: String, user_message: String) -> (e:
        ApiError)
        ensures
            e == (ApiError {
                status_code,
                details: Some(ApiErrorDetails { error_code, user_message }),
            }),
    {
        ApiError { status_code, details: Some(ApiErrorDetails { error_code, user_message }) }
    }

    pub fn new_basic(status_code: u16) -> (e: ApiError)
        ensures
            e == (ApiError { status_code, details: None }),
    {
        ApiError { status_code, details: None }
    }

    /// The answer to a request whose query parameters are missing or
    /// unusable.
    pub fn bad_query_parameters() -> (e: ApiError)
        ensures
            e.status_code == 400,
            e.details matches Some(d) && d.error_code@ == "bad_query_parameters"@
                && d.user_message@ == "Invalid or missing query parameters"@,
    {
        ApiError::new_detailed(
            400,
            String::from_str("bad_query_parameters"),
            String::from_str("Invalid or missing query parameters"),
        )
    }

    pub fn method_not_allowed() -> (e: ApiError)
        ensures
            e == (ApiError { status_code: 405, details: None }),
    {
        ApiError::new_basic(405)
    }
}

/// How the code-for-token exchange with the platform failed.
#[derive(Debug, Clone, Copy, PartialEq, Eq, Structural)]
pub enum GetTokenError {
    /// The platform rejected the authorization code.
    InvalidAuthorizationCode,
    /// Any other exchange failure.
    Other,
}

/// Classify a failed code-for-token exchange by the platform's status: a
/// bad-request answer means the authorization code itself was rejected.
pub fn classify_get_token_error(status: u16) -> (e: GetTokenError)
    ensures
        e == (if status == 400 {
            GetTokenError::InvalidAuthorizationCode
        } else {
            GetTokenError::Other
        }),
{
    if status == 400 {
        GetTokenError::InvalidAuthorizationCode
    } else {
        GetTokenError::Other
    }
}

/// The error answer for a failed code-for-token exchange: a rejected code is
/// the caller's fault, everything else an internal error.
pub fn exchange_failure_response(failure: GetTokenError) -> (e: ApiError)
    ensures
        failure is InvalidAuthorizationCode ==> e.status_code == 400 && (e.details matches Some(d)
            && d.error_code@ == "invalid_authorization_code"@),
        failure is Other ==> e == (ApiError { status_code: 500, details: None }),
{
    match failure {
        GetTokenError::InvalidAuthorizationCode => ApiError::new_detailed(
            400,
            String::from_str("invalid_authorization_code"),
            String::from_str("Provided code could not be exchanged for a token, it is not valid"),
        ),
        GetTokenError::Other => ApiError::new_basic(500),
    }
}

/// How a token refresh against the platform failed.
#[derive(Debug, Clone, Copy, PartialEq, Eq, Structural)]
pub enum RefreshTokenError {
    /// The platform rejected the stored refresh token.
    InvalidRefreshToken,
    /// Any other refresh failure.
    Other,
}

/// Classify a failed token refresh by the platform's status: a bad-request
/// answer means the refresh token itself was rejected.
pub fn classify_refresh_token_error(status: u16) -> (e: RefreshTokenError)
    ensures
        e == (if status == 400 {
            RefreshTokenError::InvalidRefreshToken
        } else {
            RefreshTokenError::Other
        }),
{
    if status == 400 {
        RefreshTokenError::InvalidRefreshToken
    } else {
        RefreshTokenError::Other
    }
}

/// The error answer for a failed token refresh: a rejected refresh token
/// means the platform authorization behind this one is gone.
pub fn refresh_failure_response(failure: RefreshTokenError) -> (e: ApiError)
    ensures
        failure is InvalidRefreshToken ==> e.status_code == 401 && (e.details matches Some(d)
            && d.error_code@ == "invalid_auth"@),
        failure is Other ==> e == (ApiError { status_code: 500, details: None }),
{
    match failure {
        RefreshTokenError::InvalidRefreshToken => ApiError::new_detailed(
            401,
            String::from_str("invalid_auth"),
            String::from_str(
                "The Twitch authorization associated with this authorization has been invalidated",
            ),
        ),
        RefreshTokenError::Other => ApiError::new_basic(500),
    }
}

/// How a token revocation against the platform failed.
#[derive(Debug, Clone, Copy, PartialEq, Eq, Structural)]
pub enum RevokeTokenError {
    /// The platform rejected the access token to revoke.
    InvalidAccessToken,
    /// Any other revocation failure.
    Other,
}

/// Classify a failed token revocation by the platform's status: a
/// bad-request answer means the access token itself was rejected.
pub fn classify_revoke_token_error(status: u16) -> (e: RevokeTokenError)
    ensures
        e == (if status == 400 {
            RevokeTokenError::InvalidAccessToken
        } else {
            RevokeTokenError::Other
        }),
{
    if status == 400 {
        RevokeTokenError::InvalidAccessToken
    } else {
        RevokeTokenError::Other
    }
}

/// Why the `Authorization` header of a request could not be used.
#[derive(Debug, Clone, Copy, PartialEq, Eq, Structural)]
pub enum AuthHeaderRejection {
    MissingHeader,
    MalformedHeader,
    /// A rejection outside the documented reasons.
    UnknownReason,
}

/// The error answer for an unusable `Authorization` header.
pub fn auth_header_response(rejection: AuthHeaderRejection) -> (e: ApiError)
    ensures
        rejection is MissingHeader ==> e.status_code == 400 && (e.details matches Some(d)
            && d.error_code@ == "missing_header"@),
        rejection is MalformedHeader ==> e.status_code == 400 && (e.details matches Some(d)
            && d.error_code@ == "malformed_header"@),
        rejection is UnknownReason ==> e == (ApiError { status_code: 500, details: None }),
{
    match rejection {
        AuthHeaderRejection::MissingHeader => ApiError::new_detailed(
            400,
            String::from_str("missing_header"),
            String::from_str("Missing header `Authorization`"),
        ),
        AuthHeaderRejection::MalformedHeader => ApiError::new_detailed(
            400,
            String::from_str("malformed_header"),
            String::from_str("Malformed `Authorization` header"),
        ),
        AuthHeaderRejection::UnknownReason => ApiError::new_basic(500),
    }
}

/// The error answer when the presented access token matches no stored
/// authorization.
pub fn unknown_access_token_response() -> (e: ApiError)
    ensures
        e.status_code == 401,
        e.details matches Some(d) && d.error_code@ == "access_token_invalid"@,
{
    ApiError::new_detailed(
        401,
        String::from_str("access_token_invalid"),
        String::from_str("Unauthorized (access token invalid)"),
    )
}

/// Whether a stored authorization may still be used at `now_s`: it may,
/// exactly while its validity has not passed; afterwards the caller gets the
/// expired-token answer.
pub fn check_authorization_freshness(now_s: u64, valid_until_s: u64) -> (r: Result<(), ApiError>)
    ensures
        r is Ok <==> now_s <= valid_until_s,
        r matches Err(e) ==> e.status_code == 401 && (e.details matches Some(d) && d.error_code@
            == "access_token_expired"@),
{
    if now_s <= valid_until_s {
        Ok(())
    } else {
        Err(
            ApiError::new_detailed(
                401,
                String::from_str("access_token_expired"),
                String::from_str("Unauthorized (access token has expired)"),
            ),
        )
    }
}

/// How long a freshly issued or refreshed authorization stays valid: one
/// hour from now, but never past the validity of the platform token behind
/// it.
pub fn clamp_valid_until(now_s: u64, twitch_valid_until_s: u64) -> (r: u64)
    requires
        now_s + 3600 <= u64::MAX,
    ensures
        r == (if twitch_valid_until_s < now_s + 3600 {
            twitch_valid_until_s
        } else {
            (now_s + 3600) as u64
        }),
{
    let cap = now_s + 3600;
    if twitch_valid_until_s < cap {
        twitch_valid_until_s
    } else {
        cap
    }
}

/// The sixteen lowercase hexadecimal digits, in value order.
pub open spec fn hex_digits() -> Seq<char> {
    seq!['0', '1', '2', '3', '4', '5', '6', '7', '8', '9', 'a', 'b', 'c', 'd', 'e', 'f']
}

/// The digit for one value below sixteen.
pub open spec fn hex_digit(n: u8) -> char
    recommends
        n < 16,
{
    hex_digits()[n as int]
}

/// The lowercase hexadecimal rendering of a byte string: two digits per
/// byte, high nibble first, no separators.
pub open spec fn hex_of(bytes: Seq<u8>) -> Seq<char>
    decreases bytes.len(),
{
    if bytes.len() == 0 {
        Seq::<char>::empty()
    } else {
        hex_of(bytes.drop_last()).push(hex_digit(bytes.last() / 16)).push(
            hex_digit(bytes.last() % 16),
        )
    }
}

pub proof fn lemma_hex_of_len(bytes: Seq<u8>)
    ensures
        hex_of(bytes).len() == 2 * bytes.len(),
    decreases bytes.len(),
{
    if bytes.len() > 0 {
        lemma_hex_of_len(bytes.drop_last());
    }
}

/// Law: the rendering consists of hexadecimal digits and nothing else.
pub proof fn lemma_hex_of_is_hex(bytes: Seq<u8>)
    ensures
        forall|i: int|
            0 <= i < hex_of(bytes).len() ==> hex_digits().contains(#[trigger] hex_of(bytes)[i]),
    decreases bytes.len(),
{
    if bytes.len() > 0 {
        lemma_hex_of_is_hex(bytes.drop_last());
        let b = bytes.last();
        assert(hex_digits()[(b / 16) as int] == hex_digit(b / 16));
        assert(hex_digits()[(b % 16) as int] == hex_digit(b % 16));
        assert(hex_digits().contains(hex_digit(b / 16)));
        assert(hex_digits().contains(hex_digit(b % 16)));
        let prev = hex_of(bytes.drop_last());
        assert(forall|i: int|
            0 <= i < prev.len() ==> #[trigger] hex_of(bytes)[i] == prev[i]);
    }
}

fn hex_digit_char(n: u8) -> (c: char)
    requires
        n < 16,
    ensures
        c == hex_digit(n),
{
    match n {
        0 => '0',
        1 => '1',
        2 => '2',
        3 => '3',
        4 => '4',
        5 => '5',
        6 => '6',
        7 => '7',
        8 => '8',
        9 => '9',
        10 => 'a',
        11 => 'b',
        12 => 'c',
        13 => 'd',
        14 => 'e',
        _ => 'f',
    }
}

/// Render a byte string as lowercase hexadecimal, a leading-zero-padded
/// pair of digits per byte.
pub fn access_token_hex(bytes: &Vec<u8>) -> (s: String)
    ensures
        s@ == hex_of(bytes@),
{
    let mut s = String::new();
    let mut i: usize = 0;
    while i < bytes.len()
        invariant
            i <= bytes@.len(),
            s@ == hex_of(bytes@.take(i as int)),
        decreases bytes@.len() - i,
    {
        let b = bytes[i];
        s.push(hex_digit_char(b / 16));
        s.push(hex_digit_char(b % 16));
        proof {
            assert(bytes@.take(i as int + 1).drop_last() =~= bytes@.take(i as int));
            assert(bytes@.take(i as int + 1).last() == bytes@[i as int]);
        }
        i += 1;
    }
    proof {
        assert(bytes@.take(bytes@.len() as int) =~= bytes@);
    }
    s
}

/// 64 bytes from the thread-local generator, which the platform documents
/// as cryptographically safe.
fn random_token_bytes() -> (v: Vec<u8>)
    ensures
        v@.len() == 64,
{
    let mut v: Vec<u8> = Vec::new();
    let mut i: usize = 0;
    while i < 64
        invariant
            v@.len() == i,
            i <= 64,
        decreases 64 - i,
    {
        v.push(rand::random::<u8>());
        i += 1;
    }
    v
}

/// Mint the service's own access token for a fresh authorization: a 512-bit
/// random value rendered as 128 lowercase hexadecimal digits.
pub fn fresh_access_token() -> (s: String)
    ensures
        s@.len() == 128,
        forall|i: int| 0 <= i < s@.len() ==> hex_digits().contains(#[trigger] s@[i]),
{
    let bytes = random_token_bytes();
    let s = access_token_hex(&bytes);
    proof {
        lemma_hex_of_len(bytes@);
        lemma_hex_of_is_hex(bytes@);
    }
    s
}

/// Whether the scope string `s` was granted.
pub open spec fn spec_scope_granted(granted: Seq<Seq<char>>, s: Seq<char>) -> bool {
    exists|j: int| 0 <= j < granted.len() && granted[j] == s
}

/// Whether every required scope was granted.
pub open spec fn spec_has_all_scopes(granted: Seq<Seq<char>>, required: Seq<Seq<char>>) -> bool {
    forall|i: int| 0 <= i < required.len() ==> spec_scope_granted(granted, required[i])
}

/// The scopes an authorization must grant to serve as the bot account.
pub open spec fn spec_bot_scope() -> Seq<Seq<char>> {
    seq![
        "moderator:manage:announcements"@,
        "moderator:manage:banned_users"@,
        "moderator:manage:chat_messages"@,
        "user:manage:whispers"@,
        "channel:moderate"@,
        "chat:edit"@,
        "chat:read"@,
        "whispers:read"@,
        "whispers:edit"@,
    ]
}

/// The scopes an authorization must grant to serve as the broadcaster.
pub open spec fn spec_broadcaster_scope() -> Seq<Seq<char>> {
    seq![
        "channel:read:subscriptions"@,
        "channel:manage:broadcast"@,
        "channel:read:vips"@,
        "moderation:read"@,
    ]
}

fn scope_granted(granted: &Vec<String>, s: &String) -> (r: bool)
    ensures
        r == spec_scope_granted(granted.deep_view(), s@),
{
    let mut j: usize = 0;
    while j < granted.len()
        invariant
            j <= granted@.len(),
            forall|k: int| 0 <= k < j ==> granted.deep_view()[k] != s@,
        decreases granted@.len() - j,
    {
        proof {
            assert(granted.deep_view()[j as int] == granted@[j as int]@);
        }
        if granted[j].eq(s) {
            return true;
        }
        j += 1;
    }
    false
}

/// Whether every scope in `required` occurs in `granted`.
pub fn has_all_scopes(granted: &Vec<String>, required: &Vec<String>) -> (r: bool)
    ensures
        r == spec_has_all_scopes(granted.deep_view(), required.deep_view()),
{
    let mut i: usize = 0;
    while i < required.len()
        invariant
            i <= required@.len(),
            forall|k: int|
                0 <= k < i ==> spec_scope_granted(granted.deep_view(), required.deep_view()[k]),
        decreases required@.len() - i,
    {
        proof {
            assert(required.deep_view()[i as int] == required@[i as int]@);
        }
        if !scope_granted(granted, &required[i]) {
            return false;
        }
        i += 1;
    }
    true
}

/// The bot scope set as executable data.
pub fn bot_scope() -> (v: Vec<String>)
    ensures
        v.deep_view() == spec_bot_scope(),
{
    let mut v: Vec<String> = Vec::new();
    v.push(String::from_str("moderator:manage:announcements"));
    v.push(String::from_str("moderator:manage:banned_users"));
    v.push(String::from_str("moderator:manage:chat_messages"));
    v.push(String::from_str("user:manage:whispers"));
    v.push(String::from_str("channel:moderate"));
    v.push(String::from_str("chat:edit"));
    v.push(String::from_str("chat:read"));
    v.push(String::from_str("whispers:read"));
    v.push(String::from_str("whispers:edit"));
    proof {
        assert(v.deep_view() =~~= spec_bot_scope());
    }
    v
}

/// The broadcaster scope set as executable data.
pub fn broadcaster_scope() -> (v: Vec<String>)
    ensures
        v.deep_view() == spec_broadcaster_scope(),
{
    let mut v: Vec<String> = Vec::new();
    v.push(String::from_str("channel:read:subscriptions"));
    v.push(String::from_str("channel:manage:broadcast"));
    v.push(String::from_str("channel:read:vips"));
    v.push(String::from_str("moderation:read"));
    proof {
        assert(v.deep_view() =~~= spec_broadcaster_scope());
    }
    v
}

/// Bump these whenever a scope is added to the corresponding set; removals
/// need no bump.
pub const BOT_SCOPE_VERSION: i16 = 1;

pub const BROADCASTER_SCOPE_VERSION: i16 = 1;

/// What a special platform authorization is good for, by scope-set version.
#[derive(Debug, Clone, Copy, PartialEq, Eq, Structural)]
pub struct SpecialAuthGrant {
    pub bot_scope_version: Option<i16>,
    pub broadcaster_scope_version: Option<i16>,
}

/// Classify a special authorization by the scopes it grants: it must cover
/// the bot scope set or the broadcaster scope set (or both), and is stamped
/// with the version of each set it covers; anything weaker is rejected.
pub fn special_auth_decision(granted: &Vec<String>) -> (r: Result<SpecialAuthGrant, ApiError>)
    ensures
        ({
            let is_bot = spec_has_all_scopes(granted.deep_view(), spec_bot_scope());
            let is_broadcaster = spec_has_all_scopes(
                granted.deep_view(),
                spec_broadcaster_scope(),
            );
            &&& (r is Ok <==> (is_bot || is_broadcaster))
            &&& (r matches Ok(g) ==> g == (SpecialAuthGrant {
                bot_scope_version: if is_bot {
                    Some(BOT_SCOPE_VERSION)
                } else {
                    None
                },
                broadcaster_scope_version: if is_broadcaster {
                    Some(BROADCASTER_SCOPE_VERSION)
                } else {
                    None
                },
            }))
            &&& (r matches Err(e) ==> e.status_code == 400 && (e.details matches Some(d)
                && d.error_code@ == "auth_insufficient_scope"@))
        }),
{
    let is_bot = has_all_scopes(granted, &bot_scope());
    let is_broadcaster = has_all_scopes(granted, &broadcaster_scope());
    if !(is_bot || is_broadcaster) {
        return Err(
            ApiError::new_detailed(
                400,
                String::from_str("auth_insufficient_scope"),
                String::from_str(
                    "Authorization does not provide sufficient scope to be either a valid Bot or Broadcaster authorization",
                ),
            ),
        );
    }
    Ok(
        SpecialAuthGrant {
            bot_scope_version: if is_bot {
                Some(BOT_SCOPE_VERSION)
            } else {
                None
            },
            broadcaster_scope_version: if is_broadcaster {
                Some(BROADCASTER_SCOPE_VERSION)
            } else {
                None
            },
        },
    )
}

/// The query parameters of the create-authorization endpoint.
#[derive(Debug, Clone, PartialEq, Eq)]
pub struct CreateAuthTokenQueryOptions {
    pub code: String,
}

/// The query parameters of the create-special-authorization endpoint.
#[derive(Debug, Clone, PartialEq, Eq)]
pub struct CreateSpecialAuthQueryOptions {
    pub code: String,
}

} // verus!
