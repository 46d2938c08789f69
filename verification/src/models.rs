//! Plain data models: users, stored authorizations, and the service
//! configuration with its validation rules.
//!
//! Timestamps are carried as epoch seconds and durations as whole seconds;
//! the storage and transport layers around this crate convert at their edge.

use vstd::prelude::*;

verus! {

/// The identity of a platform user, as stored.
#[derive(Debug, Clone, PartialEq, Eq)]
pub struct UserBasics {
    pub id: String,
    pub login: String,
    pub display_name: String,
}

/// The full user record the platform reports.
#[derive(Debug, Clone, PartialEq, Eq)]
pub struct UserDetails {
    pub basics: UserBasics,
    pub user_type: String,
    pub broadcaster_type: String,
    pub description: String,
    pub profile_image_url: String,
    pub offline_image_url: String,
    pub view_count: u64,
    pub created_at_s: u64,
}

/// A stored user authorization, keyed by the service's own access token.
#[derive(Debug, Clone, PartialEq, Eq)]
pub struct UserAuthorization {
    pub access_token: String,
    pub twitch_access_token: String,
    pub twitch_refresh_token: String,
    pub valid_until_s: u64,
    pub user: UserBasics,
}

/// A user authorization that might be expired, kept apart through the type
/// system so the two are not accidentally mixed.
#[derive(Debug, Clone, PartialEq, Eq)]
pub struct PossiblyExpired(pub UserAuthorization);

/// The answer handed to a user whose authorization was created or
/// refreshed.
#[derive(Debug, Clone, PartialEq, Eq)]
pub struct UserAuthorizationResponse {
    pub access_token: String,
    pub valid_until_s: u64,
    pub user_details: UserDetails,
}

/// What a special platform authorization is stored for.
#[derive(Debug, Clone, Copy, PartialEq, Eq, Structural)]
pub enum AuthorizationPurpose {
    Bot,
    Broadcaster,
}

impl AuthorizationPurpose {
    /// The purpose named by its storage key, if any.
    pub fn from_str(key: &str) -> (r: Option<AuthorizationPurpose>)
        ensures
            r == (if key@ == "bot"@ {
                Some(AuthorizationPurpose::Bot)
            } else if key@ == "broadcaster"@ {
                Some(AuthorizationPurpose::Broadcaster)
            } else {
                None::<AuthorizationPurpose>
            }),
    {
        let key = String::from_str(key);
        if key.eq(&String::from_str("bot")) {
            Some(AuthorizationPurpose::Bot)
        } else if key.eq(&String::from_str("broadcaster")) {
            Some(AuthorizationPurpose::Broadcaster)
        } else {
            None
        }
    }
}

/// The verbosity the storage layer's statement logging is capped at.
#[derive(Debug, Clone, Copy, PartialEq, Eq, Structural)]
pub enum LogLevelFilter {
    Off,
    Error,
    Warn,
    Info,
    Debug,
    Trace,
}

impl LogLevelFilter {
    /// Whether this level enables statement logging at all.
    pub fn enables_logging(&self) -> (r: bool)
        ensures
            r == !(*self is Off),
    {
        !matches!(self, LogLevelFilter::Off)
    }
}

/// How to reach and drive the relational store.
#[derive(Debug, Clone, PartialEq, Eq)]
pub struct DatabaseConfig {
    pub url: String,
    pub max_connections: Option<u32>,
    pub min_connections: Option<u32>,
    pub connect_timeout_s: Option<u64>,
    pub idle_timeout_s: Option<u64>,
    pub acquire_timeout_s: Option<u64>,
    pub max_lifetime_s: Option<u64>,
    pub sqlx_logging_level: Option<LogLevelFilter>,
    pub schema_search_path: Option<String>,
}

/// Where the HTTP surface listens.
#[derive(Debug, Clone, PartialEq, Eq)]
pub enum ListenAddr {
    Tcp { address: String },
    Unix { path: String },
}

/// Configuration of the HTTP surface.
#[derive(Debug, Clone, PartialEq, Eq)]
pub struct WebConfig {
    pub listen_address: ListenAddr,
}

impl Default for WebConfig {
    /// By default the HTTP surface listens on the local loopback.
    fn default() -> (d: WebConfig)
        ensures
            d.listen_address matches ListenAddr::Tcp { address } && address@
                == "127.0.0.1:2791"@,
    {
        WebConfig {
            listen_address: ListenAddr::Tcp { address: String::from_str("127.0.0.1:2791") },
        }
    }
}

/// What one bot deployment needs to know.
#[derive(Debug, Clone, PartialEq, Eq)]
pub struct BotConfig {
    pub client_id: String,
    pub client_secret: String,
    pub bot_user_id: String,
    pub streamer_user_id: String,
}

/// The first field of a bot section that is empty but must not be.
#[derive(Debug, Clone, Copy, PartialEq, Eq, Structural)]
pub enum BotConfigError {
    EmptyClientId,
    EmptyClientSecret,
    EmptyBotUserId,
    EmptyStreamerUserId,
}

/// The validation rule of one bot section: every field must be non-empty,
/// and the first empty one is reported.
pub open spec fn spec_validate_bot(b: BotConfig) -> Result<(), BotConfigError> {
    if b.client_id@.len() == 0 {
        Err(BotConfigError::EmptyClientId)
    } else if b.client_secret@.len() == 0 {
        Err(BotConfigError::EmptyClientSecret)
    } else if b.bot_user_id@.len() == 0 {
        Err(BotConfigError::EmptyBotUserId)
    } else if b.streamer_user_id@.len() == 0 {
        Err(BotConfigError::EmptyStreamerUserId)
    } else {
        Ok(())
    }
}

impl BotConfig {
    pub fn validate(&self) -> (r: Result<(), BotConfigError>)
        ensures
            r == spec_validate_bot(*self),
    {
        if self.client_id.as_str().is_empty() {
            Err(BotConfigError::EmptyClientId)
        } else if self.client_secret.as_str().is_empty() {
            Err(BotConfigError::EmptyClientSecret)
        } else if self.bot_user_id.as_str().is_empty() {
            Err(BotConfigError::EmptyBotUserId)
        } else if self.streamer_user_id.as_str().is_empty() {
            Err(BotConfigError::EmptyStreamerUserId)
        } else {
            Ok(())
        }
    }
}

/// Why a configuration was rejected as a whole.
#[derive(Debug, Clone, Copy, PartialEq, Eq, Structural)]
pub enum ConfigError {
    /// At least one bot section must be present.
    NoBotConfigured,
    /// The bot section at `index` failed its validation.
    Bot { index: usize, error: BotConfigError },
}

/// The paths to what this crate does not load itself.
#[derive(Debug, Clone, PartialEq, Eq)]
pub struct Args {
    pub config_path: String,
}

/// The whole service configuration. Bot sections are keyed by their
/// configuration name.
#[derive(Debug, Clone, PartialEq, Eq)]
pub struct Config {
    pub database: DatabaseConfig,
    pub web: WebConfig,
    pub twitch_api: crate::webauth::ApiClientCredentials,
    pub twitch_bot: Vec<(String, BotConfig)>,
}

impl Config {
    /// A configuration is usable when it names at least one bot section and
    /// every section validates; the first failing section is reported.
    pub fn validate(&self) -> (r: Result<(), ConfigError>)
        ensures
            self.twitch_bot@.len() == 0 ==> r == Err::<(), _>(ConfigError::NoBotConfigured),
            r is Ok <==> (self.twitch_bot@.len() > 0 && forall|i: int|
                0 <= i < self.twitch_bot@.len() ==> spec_validate_bot(self.twitch_bot@[i].1)
                    is Ok),
            r matches Err(ConfigError::Bot { index, error }) ==> {
                &&& 0 <= index < self.twitch_bot@.len()
                &&& spec_validate_bot(self.twitch_bot@[index as int].1) == Err::<(), _>(error)
                &&& forall|j: int|
                    0 <= j < index ==> spec_validate_bot(self.twitch_bot@[j].1) is Ok
            },
    {
        if self.twitch_bot.len() == 0 {
            return Err(ConfigError::NoBotConfigured);
        }
        let mut i: usize = 0;
        while i < self.twitch_bot.len()
            invariant
                i <= self.twitch_bot@.len(),
                forall|j: int| 0 <= j < i ==> spec_validate_bot(self.twitch_bot@[j].1) is Ok,
            decreases self.twitch_bot@.len() - i,
        {
            match self.twitch_bot[i].1.validate() {
                Ok(_) => {},
                Err(error) => {
                    return Err(ConfigError::Bot { index: i, error });
                },
            }
            i += 1;
        }
        Ok(())
    }
}

} // verus!
