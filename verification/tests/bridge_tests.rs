use passkey_bridge::AdapterKind;
use passkey_bridge::BuildMode;
use passkey_bridge::PasskeyBridge;
use passkey_bridge::SiteAuthConfig;
use passkey_bridge::get_editing_domain;

fn sample_config() -> SiteAuthConfig {
    SiteAuthConfig {
        public_key: "pk".to_string(),
        credential_id: "cred-1".to_string(),
        requires_auth: true,
        user_display_name: Some("Alice".to_string()),
        registered_at: "1700000000".to_string(),
    }
}

#[test]
fn editing_domain_is_loopback_in_development() {
    assert_eq!(get_editing_domain(BuildMode::Development), "localhost");
}

#[test]
fn editing_domain_is_fixed_in_production() {
    assert_eq!(get_editing_domain(BuildMode::Production), "app.sparktype.org");
}

#[test]
fn availability_matches_the_adapter_variant() {
    let unsupported = PasskeyBridge::new(AdapterKind::Unsupported, BuildMode::Production);
    assert!(!unsupported.is_webauthn_available());
    let simulated = PasskeyBridge::new(AdapterKind::SimulatedDevelopment, BuildMode::Development);
    assert!(simulated.is_webauthn_available());
    let available = PasskeyBridge::new(AdapterKind::Available, BuildMode::Production);
    assert!(available.is_webauthn_available());
}

#[test]
fn availability_is_deterministic_per_platform() {
    for _ in 0..8 {
        let b = PasskeyBridge::for_platform(true, BuildMode::Development);
        assert!(b.is_webauthn_available());
        let n = PasskeyBridge::for_platform(false, BuildMode::Development);
        assert!(!n.is_webauthn_available());
    }
}

#[test]
fn platform_selection_picks_the_expected_variant() {
    assert_eq!(
        PasskeyBridge::for_platform(false, BuildMode::Development).adapter,
        AdapterKind::Unsupported
    );
    assert_eq!(
        PasskeyBridge::for_platform(false, BuildMode::Production).adapter,
        AdapterKind::Unsupported
    );
    assert_eq!(
        PasskeyBridge::for_platform(true, BuildMode::Development).adapter,
        AdapterKind::SimulatedDevelopment
    );
    assert_eq!(
        PasskeyBridge::for_platform(true, BuildMode::Production).adapter,
        AdapterKind::Available
    );
}

#[test]
fn unsupported_authenticate_refuses_with_fixed_message() {
    let bridge = PasskeyBridge::new(AdapterKind::Unsupported, BuildMode::Production);
    let r = bridge.authenticate_passkey("site1", &sample_config());
    assert!(!r.success);
    assert_eq!(r.error.as_deref(), Some("WebAuthn not supported on this platform"));
    assert!(r.credential_id.is_none());
}

#[test]
fn unsupported_register_refuses_with_fixed_message() {
    let bridge = PasskeyBridge::new(AdapterKind::Unsupported, BuildMode::Production);
    let r = bridge.register_passkey("site1", "MySite", Some("Alice".to_string()));
    assert!(!r.success);
    assert!(r.auth_config.is_none());
    assert_eq!(r.error.as_deref(), Some("WebAuthn not supported on this platform"));
}

#[test]
fn simulated_register_then_authenticate_round_trip() {
    let bridge = PasskeyBridge::new(AdapterKind::SimulatedDevelopment, BuildMode::Development);
    let r = bridge.register_passkey("site1", "MySite", Some("Alice".to_string()));
    assert!(r.success);
    assert!(r.error.is_none());
    let config = r.auth_config.expect("simulated registration returns a config");
    assert!(config.credential_id.contains("site1"));
    assert_eq!(config.credential_id, "dev_credential_id_site1");
    assert!(config.public_key.starts_with("dev_public_key_"));
    assert_eq!(config.public_key.len(), "dev_public_key_".len() + 43);
    assert!(config.requires_auth);
    assert_eq!(config.user_display_name.as_deref(), Some("Alice"));
    let stamp: Result<u64, _> = config.registered_at.parse();
    assert!(stamp.is_ok(), "registered_at must be a Unix-seconds string");

    let a = bridge.authenticate_passkey("site1", &config);
    assert!(a.success);
    assert!(a.error.is_none());
    assert_eq!(a.credential_id.as_deref(), Some(config.credential_id.as_str()));
}

#[test]
fn simulated_registrations_differ_per_call() {
    let bridge = PasskeyBridge::new(AdapterKind::SimulatedDevelopment, BuildMode::Development);
    let first = bridge
        .register_passkey("site1", "MySite", None)
        .auth_config
        .expect("config");
    let second = bridge
        .register_passkey("site1", "MySite", None)
        .auth_config
        .expect("config");
    // The public key embeds the fresh challenge, so it differs per call.
    assert_ne!(first.public_key, second.public_key);
    // The credential id is derived from the site alone.
    assert_eq!(first.credential_id, second.credential_id);
}

#[test]
fn available_authenticate_reports_pending_integration() {
    let bridge = PasskeyBridge::new(AdapterKind::Available, BuildMode::Production);
    let r = bridge.authenticate_passkey("site1", &sample_config());
    assert!(!r.success);
    assert_eq!(
        r.error.as_deref(),
        Some("Native WebAuthn authentication requires ASAuthorizationController integration")
    );
    assert_eq!(r.credential_id.as_deref(), Some("cred-1"));
}

#[test]
fn available_register_reports_pending_integration() {
    let bridge = PasskeyBridge::new(AdapterKind::Available, BuildMode::Production);
    let r = bridge.register_passkey("site2", "Other", None);
    assert!(!r.success);
    assert_eq!(
        r.error.as_deref(),
        Some("Native WebAuthn registration requires ASAuthorizationController integration")
    );
    let config = r.auth_config.expect("a placeholder config is still produced");
    assert_eq!(config.credential_id, "placeholder_credential_id_site2");
    assert!(config.public_key.starts_with("placeholder_public_key_"));
    assert!(config.user_display_name.is_none());
}

#[test]
fn results_are_never_partially_populated() {
    for adapter in [
        AdapterKind::Available,
        AdapterKind::SimulatedDevelopment,
        AdapterKind::Unsupported,
    ] {
        for mode in [BuildMode::Development, BuildMode::Production] {
            let bridge = PasskeyBridge::new(adapter, mode);
            let a = bridge.authenticate_passkey("s", &sample_config());
            assert_eq!(a.success, a.error.is_none());
            let r = bridge.register_passkey("s", "n", None);
            assert_eq!(r.success, r.error.is_none());
        }
    }
}
