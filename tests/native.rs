use tturn_native::auth::SecretAuthHandler;
use tturn_native::credential::{
    build_username, issue_credential_at, resolve_disable_credential_expiry, NativeServiceOptions,
    ServiceError,
};
use tturn_native::crypto::{hmac_password, hmac_password_for_turn};
use tturn_native::decimal::{decimal_string, parse_u32};
use tturn_native::freshness::{seconds_to_u32, timestamp_field, username_is_fresh_at};
use tturn_native::service::{
    build_ice_urls, validate_port_range, NativeTurnService, RelayStrategy, StartAction,
};

fn options() -> NativeServiceOptions {
    NativeServiceOptions {
        realm: "example.org".to_string(),
        auth_secret: "secret".to_string(),
        listen_port: 3478,
        min_port: None,
        max_port: None,
        public_ip: "1.2.3.4".to_string(),
        listening_ip: "0.0.0.0".to_string(),
        username: None,
        password: None,
        disable_credential_expiry: Some(false),
    }
}

#[test]
fn rejects_partial_port_range() {
    assert!(validate_port_range(Some(50000), None).is_err());
    assert!(validate_port_range(None, Some(51000)).is_err());
}

#[test]
fn accepts_empty_or_complete_valid_port_range() {
    assert!(validate_port_range(None, None).is_ok());
    assert!(validate_port_range(Some(50000), Some(51000)).is_ok());
}

#[test]
fn generates_udp_only_ice_url() {
    let urls = build_ice_urls("1.2.3.4", 3478);
    assert_eq!(urls, vec!["turn:1.2.3.4:3478?transport=udp".to_string()]);
}

#[test]
fn default_credential_expiry_is_disabled() {
    assert!(resolve_disable_credential_expiry(None, false));
}

#[test]
fn explicit_false_keeps_static_password_non_expiring() {
    assert!(resolve_disable_credential_expiry(Some(false), true));
}

#[test]
fn expiry_flag_follows_explicit_value_without_static_password() {
    assert!(!resolve_disable_credential_expiry(Some(false), false));
    assert!(resolve_disable_credential_expiry(Some(true), false));
}

#[test]
fn port_range_errors_name_the_fault() {
    assert_eq!(
        validate_port_range(Some(50000), None),
        Err("minPort and maxPort must be provided together".to_string())
    );
    assert_eq!(
        validate_port_range(Some(0), Some(51000)),
        Err("invalid relay port range (minPort/maxPort)".to_string())
    );
    assert_eq!(
        validate_port_range(Some(51000), Some(50000)),
        Err("invalid relay port range (minPort/maxPort)".to_string())
    );
    assert!(validate_port_range(Some(50000), Some(50000)).is_ok());
    assert!(validate_port_range(Some(65535), Some(65535)).is_ok());
}

#[test]
fn decimal_renders_and_parses() {
    assert_eq!(decimal_string(0), "0");
    assert_eq!(decimal_string(4294967295), "4294967295");
    assert_eq!(parse_u32("4294967295"), Some(4294967295));
    assert_eq!(parse_u32("4294967296"), None);
    assert_eq!(parse_u32("+12"), Some(12));
    assert_eq!(parse_u32("007"), Some(7));
    assert_eq!(parse_u32(""), None);
    assert_eq!(parse_u32("+"), None);
    assert_eq!(parse_u32("-1"), None);
    assert_eq!(parse_u32("12a"), None);
}

#[test]
fn timestamp_field_is_after_last_colon() {
    assert_eq!(timestamp_field("a:b:123"), "123");
    assert_eq!(timestamp_field("123"), "123");
    assert_eq!(timestamp_field("alice:"), "");
}

#[test]
fn freshness_is_strictly_later() {
    assert!(username_is_fresh_at("alice:100", 99));
    assert!(!username_is_fresh_at("alice:100", 100));
    assert!(!username_is_fresh_at("alice", 0));
    assert!(username_is_fresh_at("100", 5));
}

#[test]
fn username_without_expiry_prefers_hints() {
    assert_eq!(build_username(Some("bob".to_string()), Some("id".to_string()), 0, true, 0), "bob");
    assert_eq!(build_username(Some(String::new()), Some("id".to_string()), 0, true, 0), "id");
    assert_eq!(build_username(None, None, 0, true, 0), "tturn-user");
}

#[test]
fn username_with_expiry_is_stamped() {
    assert_eq!(build_username(Some("bob".to_string()), None, 1000, false, 10), "bob:1000");
    assert_eq!(build_username(None, Some("id".to_string()), 1000, false, 10), "id:1000");
    assert_eq!(build_username(None, None, 1000, false, 10), "1000");
    assert_eq!(build_username(Some("bob:5".to_string()), None, 1000, false, 10), "bob:5:1000");
}

#[test]
fn fresh_username_hint_is_not_restamped() {
    let c = issue_credential_at(&options(), Some(60), None, Some("bob:500".to_string()), 10).ok().unwrap();
    assert_eq!(c.username, "bob:500");
    assert_eq!(c.expires_at, 70);
}

#[test]
fn hmac_password_matches_known_vector() {
    assert_eq!(
        hmac_password("key", "The quick brown fox jumps over the lazy dog").ok().unwrap(),
        "3nybhbi3iqa8ino29wqQcBydtNk="
    );
    assert_eq!(hmac_password_for_turn("secret", "alice:1000"), "Ad4hMqaB79acG5fFLXaOQTMsw68=");
}

#[test]
fn issued_credential_with_expiry() {
    let c = issue_credential_at(&options(), Some(940), Some("alice".to_string()), None, 60).ok().unwrap();
    assert_eq!(c.username, "alice:1000");
    assert_eq!(c.password, "Ad4hMqaB79acG5fFLXaOQTMsw68=");
    assert_eq!(c.ttl_sec, 940);
    assert_eq!(c.expires_at, 1000);
}

#[test]
fn ttl_has_a_floor_and_a_default() {
    let c = issue_credential_at(&options(), Some(5), None, None, 100).ok().unwrap();
    assert_eq!(c.ttl_sec, 60);
    assert_eq!(c.expires_at, 160);
    let d = issue_credential_at(&options(), None, None, None, 100).ok().unwrap();
    assert_eq!(d.ttl_sec, 3600);
    assert_eq!(d.username, "3700");
    let e = issue_credential_at(&options(), Some(4294967295), None, None, 100).ok().unwrap();
    assert_eq!(e.expires_at, 4294967295);
}

#[test]
fn static_password_disables_expiry() {
    let mut o = options();
    o.username = Some("alice".to_string());
    o.password = Some("pw".to_string());
    let c = issue_credential_at(&o, Some(100), Some("id".to_string()), Some("bob".to_string()), 10).ok().unwrap();
    assert_eq!(c.username, "alice");
    assert_eq!(c.password, "pw");
    assert_eq!(c.ttl_sec, 0);
    assert_eq!(c.expires_at, 0);
}

#[test]
fn static_identity_is_exact_and_ignores_time() {
    let mut o = options();
    o.username = Some("alice".to_string());
    o.password = Some("pw".to_string());
    let h = SecretAuthHandler::from_options(&o);
    assert!(h.auth_handle_at("bob", "example.org", 0).is_err());
    assert!(h.auth_handle_at("alice:5", "example.org", 0).is_err());
    let key = h.auth_handle_at("alice", "example.org", 4294967295).ok().unwrap();
    assert_eq!(key, vec![219, 37, 234, 97, 12, 42, 149, 91, 119, 178, 114, 39, 60, 190, 136, 107]);
    assert_eq!(key, turn::auth::generate_auth_key("alice", "example.org", "pw"));
}

#[test]
fn issued_credential_round_trip() {
    let o = options();
    let c = issue_credential_at(&o, Some(940), Some("alice".to_string()), None, 60).ok().unwrap();
    let h = SecretAuthHandler::from_options(&o);
    let key = h.auth_handle_at(&c.username, "example.org", 999).ok().unwrap();
    assert_eq!(key, vec![221, 10, 143, 96, 21, 67, 229, 252, 116, 157, 106, 14, 250, 243, 176, 87]);
    assert!(h.auth_handle_at(&c.username, "example.org", 1000).is_err());
    assert!(h.auth_handle_at(&c.username, "example.org", 1001).is_err());
    assert!(h.auth_handle_at("alice", "example.org", 0).is_err());
}

#[test]
fn expiry_disabled_accepts_any_username() {
    let mut o = options();
    o.disable_credential_expiry = None;
    let h = SecretAuthHandler::from_options(&o);
    assert!(h.auth_handle_at("alice", "example.org", 4294967295).is_ok());
}

#[test]
fn service_requires_realm_and_secret() {
    let mut o = options();
    o.realm = String::new();
    assert!(matches!(NativeTurnService::new(o), Err(ServiceError::RealmRequired)));
    let mut o = options();
    o.auth_secret = String::new();
    assert!(matches!(NativeTurnService::new(o), Err(ServiceError::SecretRequired)));
    let mut o = options();
    o.auth_secret = String::new();
    o.password = Some("pw".to_string());
    assert!(NativeTurnService::new(o).is_ok());
}

#[test]
fn start_and_stop_are_idempotent() {
    let mut s = NativeTurnService::new(options()).ok().unwrap();
    assert!(!s.health().running);
    match s.start() {
        Ok(StartAction::Launch(plan)) => {
            assert_eq!(plan.bind_address, "0.0.0.0:3478");
            assert!(matches!(plan.strategy, RelayStrategy::Static));
        }
        _ => panic!("expected a launch plan"),
    }
    s.started();
    assert!(s.health().running);
    assert!(matches!(s.start(), Ok(StartAction::AlreadyRunning)));
    assert!(s.stop());
    assert!(!s.stop());
    assert!(!s.health().running);
}

#[test]
fn ranged_strategy_and_bad_range() {
    let mut o = options();
    o.min_port = Some(50000);
    o.max_port = Some(51000);
    let s = NativeTurnService::new(o).ok().unwrap();
    match s.start() {
        Ok(StartAction::Launch(plan)) => {
            assert!(matches!(plan.strategy, RelayStrategy::Ranged { min_port: 50000, max_port: 51000 }));
        }
        _ => panic!("expected a launch plan"),
    }
    let mut o = options();
    o.min_port = Some(50000);
    let s = NativeTurnService::new(o).ok().unwrap();
    assert!(matches!(s.start(), Err(ServiceError::PortRange(_))));
    assert_eq!(s.get_ice_urls(), vec!["turn:1.2.3.4:3478?transport=udp".to_string()]);
}

#[test]
fn service_issues_non_expiring_credential_by_default() {
    let mut o = options();
    o.disable_credential_expiry = None;
    let s = NativeTurnService::new(o).ok().unwrap();
    let c = s.issue_credential(Some(600), None, None).ok().unwrap();
    assert_eq!(c.username, "tturn-user");
    assert_eq!(c.password, hmac_password_for_turn("secret", "tturn-user"));
    assert_ne!(c.password, "tturn-user");
    assert_eq!(c.ttl_sec, 0);
    assert_eq!(c.expires_at, 0);
}

#[test]
fn handler_at_current_time_accepts_fresh_credential() {
    let s = NativeTurnService::new(options()).ok().unwrap();
    let c = s.issue_credential(Some(3600), Some("alice".to_string()), None).ok().unwrap();
    assert!(c.username.starts_with("alice:"));
    assert_eq!(c.ttl_sec, 3600);
    let h = SecretAuthHandler::from_options(s.options());
    let key = h.auth_handle(&c.username, "example.org").ok().unwrap();
    assert_eq!(key, turn::auth::generate_auth_key(&c.username, "example.org", &c.password));
    assert!(h.auth_handle("alice:1", "example.org").is_err());
}

#[test]
fn clock_reading_truncates_to_32_bits() {
    assert_eq!(seconds_to_u32(None), 0);
    assert_eq!(seconds_to_u32(Some(1_700_000_000)), 1_700_000_000);
    assert_eq!(seconds_to_u32(Some(4294967296 + 5)), 5);
    assert_eq!(seconds_to_u32(Some(4294967295)), 4294967295);
}

#[test]
fn derived_password_is_padded_base64_of_twenty_bytes() {
    let p = hmac_password_for_turn("secret", "anyone");
    assert_eq!(p.len(), 28);
    assert!(p.ends_with('='));
}

#[test]
fn static_mode_launch_carries_static_credentials() {
    let mut o = options();
    o.username = Some("alice".to_string());
    o.password = Some("pw".to_string());
    let s = NativeTurnService::new(o).ok().unwrap();
    let c = s.issue_credential(None, None, None).ok().unwrap();
    match s.start() {
        Ok(StartAction::Launch(plan)) => {
            assert_eq!(plan.auth.static_username, Some("alice".to_string()));
            assert_eq!(plan.auth.static_password, Some("pw".to_string()));
            let key = plan.auth.auth_handle_at(&c.username, "example.org", 4294967295).ok().unwrap();
            assert_eq!(key, turn::auth::generate_auth_key("alice", "example.org", "pw"));
        }
        _ => panic!("expected a launch plan"),
    }
}
