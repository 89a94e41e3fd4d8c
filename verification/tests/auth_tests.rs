use settlement::auth::{AuthError, Claims, TOKEN_LIFETIME_SECS};
use settlement::config::{
    Args, DEFAULT_EXPIRY_WINDOW_SECS, DEFAULT_MAX_ATTEMPTS, DEFAULT_POLLING_INTERVAL_SECS,
    DEFAULT_UNIT_SCALING, EngineConfig,
};

#[test]
fn claims_carry_subject_and_lifetime() {
    let c = Claims::issue(String::from("user:1"), 1_000);
    assert_eq!(c.sub, "user:1");
    assert_eq!(c.exp, 1_000 + TOKEN_LIFETIME_SECS);
    assert!(c.valid_at(1_000 + TOKEN_LIFETIME_SECS - 1));
    assert!(!c.valid_at(1_000 + TOKEN_LIFETIME_SECS));
}

#[test]
fn auth_errors_are_distinct() {
    assert_ne!(AuthError::WrongCredentials, AuthError::InvalidToken);
    assert_eq!(AuthError::TokenCreation, AuthError::TokenCreation);
}

#[test]
fn engine_config_from_process_arguments() {
    let args = Args {
        surrealdb_address: String::from("0.0.0.0:8000"),
        surrealdb_username: String::from("root"),
        surrealdb_password: String::from("SECRET-REDACTED"),
        surrealdb_namespace: String::from("prod"),
        surrealdb_database: String::from("prod"),
        jwt_secret: String::from("SECRET-REDACTED"),
        alchemy_rpc_url: String::from("https://example.invalid/rpc"),
        confirming_blocks: 6,
        wallet_address: String::from("0xwallet"),
        private_key: String::from("SECRET-REDACTED"),
        token_address: String::from("0xtoken"),
    };
    let cfg = EngineConfig::new(
        args.confirming_blocks,
        DEFAULT_POLLING_INTERVAL_SECS,
        DEFAULT_MAX_ATTEMPTS,
        DEFAULT_UNIT_SCALING,
        DEFAULT_EXPIRY_WINDOW_SECS,
    )
    .unwrap();
    assert_eq!(cfg.confirmation_threshold(), 6);
    assert_eq!(cfg.polling_interval_secs(), 20);
    assert_eq!(cfg.max_attempts(), 15);
    assert_eq!(cfg.unit_scaling(), 1_000_000_000_000);
    assert_eq!(cfg.expiry_window_secs(), 300);
}
