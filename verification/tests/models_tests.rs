use eventsub_core::models::Args;
use eventsub_core::models::AuthorizationPurpose;
use eventsub_core::models::BotConfig;
use eventsub_core::models::BotConfigError;
use eventsub_core::models::Config;
use eventsub_core::models::ConfigError;
use eventsub_core::models::DatabaseConfig;
use eventsub_core::models::ListenAddr;
use eventsub_core::models::LogLevelFilter;
use eventsub_core::models::WebConfig;
use eventsub_core::token::AppToken;
use eventsub_core::webauth::ApiClientCredentials;

fn bot(client_id: &str, client_secret: &str, bot_user_id: &str, streamer_user_id: &str) -> BotConfig {
    BotConfig {
        client_id: String::from(client_id),
        client_secret: String::from(client_secret),
        bot_user_id: String::from(bot_user_id),
        streamer_user_id: String::from(streamer_user_id),
    }
}

fn config_with(bots: Vec<(String, BotConfig)>) -> Config {
    Config {
        database: DatabaseConfig {
            url: String::from("postgres://localhost/db"),
            max_connections: None,
            min_connections: None,
            connect_timeout_s: None,
            idle_timeout_s: None,
            acquire_timeout_s: None,
            max_lifetime_s: None,
            sqlx_logging_level: Some(LogLevelFilter::Info),
            schema_search_path: None,
        },
        web: WebConfig::default(),
        twitch_api: ApiClientCredentials {
            client_id: String::from("cid"),
            client_secret: String::from("SECRET-REDACTED"),
            redirect_uri: String::from("https://example/redirect"),
        },
        twitch_bot: bots,
    }
}

#[test]
fn authorization_purpose_from_str() {
    assert_eq!(AuthorizationPurpose::from_str("bot"), Some(AuthorizationPurpose::Bot));
    assert_eq!(
        AuthorizationPurpose::from_str("broadcaster"),
        Some(AuthorizationPurpose::Broadcaster)
    );
    assert_eq!(AuthorizationPurpose::from_str("viewer"), None);
    assert_eq!(AuthorizationPurpose::from_str(""), None);
    assert_eq!(AuthorizationPurpose::from_str("Bot"), None);
}

#[test]
fn bot_config_validation_reports_first_empty_field() {
    assert!(bot("c", "s", "b", "st").validate().is_ok());
    assert_eq!(
        bot("", "s", "b", "st").validate(),
        Err(BotConfigError::EmptyClientId)
    );
    assert_eq!(
        bot("c", "", "b", "st").validate(),
        Err(BotConfigError::EmptyClientSecret)
    );
    assert_eq!(
        bot("c", "s", "", "st").validate(),
        Err(BotConfigError::EmptyBotUserId)
    );
    assert_eq!(
        bot("c", "s", "b", "").validate(),
        Err(BotConfigError::EmptyStreamerUserId)
    );
    // The first empty field wins.
    assert_eq!(
        bot("", "", "", "").validate(),
        Err(BotConfigError::EmptyClientId)
    );
}

#[test]
fn config_needs_at_least_one_bot_section() {
    assert_eq!(
        config_with(Vec::new()).validate(),
        Err(ConfigError::NoBotConfigured)
    );
    let ok = config_with(vec![(String::from("main"), bot("c", "s", "b", "st"))]);
    assert!(ok.validate().is_ok());
    let broken = config_with(vec![
        (String::from("main"), bot("c", "s", "b", "st")),
        (String::from("other"), bot("c2", "", "b2", "st2")),
    ]);
    assert_eq!(
        broken.validate(),
        Err(ConfigError::Bot {
            index: 1,
            error: BotConfigError::EmptyClientSecret
        })
    );
}

#[test]
fn web_config_defaults_to_loopback() {
    let d = WebConfig::default();
    assert_eq!(
        d.listen_address,
        ListenAddr::Tcp {
            address: String::from("127.0.0.1:2791")
        }
    );
}

#[test]
fn log_level_off_disables_logging() {
    assert!(!LogLevelFilter::Off.enables_logging());
    assert!(LogLevelFilter::Error.enables_logging());
    assert!(LogLevelFilter::Trace.enables_logging());
}

#[test]
fn app_token_expiry_boundary() {
    let t = AppToken {
        access_token: String::from("tok"),
        expires_at_s: 100,
    };
    assert!(!t.is_expired(99));
    assert!(t.is_expired(100));
    assert!(t.is_expired(101));
}

#[test]
fn refreshed_app_token_lives_from_now() {
    let t = AppToken::from_refresh(String::from("tok"), 1_000, 3_600);
    assert_eq!(t.access_token, "tok");
    assert_eq!(t.expires_at_s, 4_600);
    assert!(!t.is_expired(4_599));
    assert!(t.is_expired(4_600));
}

#[test]
fn args_hold_the_config_path() {
    let args = Args {
        config_path: String::from("/etc/service/config.toml"),
    };
    assert_eq!(args.config_path, "/etc/service/config.toml");
}
