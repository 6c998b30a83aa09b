use kmitlnetauth::config::EnvOverrides;
use kmitlnetauth::Config;

fn no_overrides() -> EnvOverrides {
    EnvOverrides {
        username: None,
        password: None,
        ip_address: None,
        interval: None,
        max_attempt: None,
        auto_login: None,
    }
}

#[test]
fn default_configuration() {
    let c = Config::default();
    assert_eq!(c.username, "");
    assert_eq!(c.password, None);
    assert_eq!(c.ip_address, None);
    assert_eq!(c.interval, 300);
    assert_eq!(c.max_attempt, 20);
    assert!(c.auto_login);
    assert_eq!(c.log_level, "info");
}

#[test]
fn plaintext_password_wins_over_unreachable_store() {
    let mut c = Config::default();
    c.username = "65010001".to_string();
    c.password = Some("hunter2".to_string());
    assert_eq!(c.resolve_password(None), "hunter2");
    assert_eq!(c.resolve_password(Some("stored".to_string())), "hunter2");
    assert_eq!(c.get_password(), "hunter2");
}

#[test]
fn stored_password_used_when_plaintext_empty() {
    let mut c = Config::default();
    c.username = "65010001".to_string();
    c.password = Some(String::new());
    assert_eq!(c.resolve_password(Some("from-store".to_string())), "from-store");
    c.password = None;
    assert_eq!(c.resolve_password(Some("from-store".to_string())), "from-store");
    assert_eq!(c.resolve_password(None), "");
}

#[test]
fn no_username_means_no_password() {
    let c = Config::default();
    assert_eq!(c.resolve_password(Some("from-store".to_string())), "");
    assert_eq!(c.get_password(), "");
}

#[test]
fn has_plaintext_password_needs_text() {
    let mut c = Config::default();
    assert!(!c.has_plaintext_password());
    c.password = Some(String::new());
    assert!(!c.has_plaintext_password());
    c.password = Some("x".to_string());
    assert!(c.has_plaintext_password());
}

#[test]
fn persisted_form_drops_migrated_password_only() {
    let mut c = Config::default();
    c.username = "user".to_string();
    c.password = Some("secret".to_string());
    c.ip_address = Some("10.0.0.2".to_string());
    let kept = c.persisted_form(false);
    assert_eq!(kept.password, Some("secret".to_string()));
    let dropped = c.persisted_form(true);
    assert_eq!(dropped.password, None);
    assert_eq!(dropped.username, "user");
    assert_eq!(dropped.ip_address, Some("10.0.0.2".to_string()));
    c.username = String::new();
    assert_eq!(c.persisted_form(true).password, Some("secret".to_string()));
}

#[test]
fn nothing_to_migrate_saves_unchanged() {
    let mut c = Config::default();
    c.username = "user".to_string();
    assert_eq!(c.migrate_password(), Ok(false));
    c.password = Some(String::new());
    assert_eq!(c.migrate_password(), Ok(false));
    let saved = c.persisted_form(false);
    assert_eq!(saved.username, "user");
    assert_eq!(saved.password, Some(String::new()));
}

#[test]
fn overrides_replace_fields() {
    let mut c = Config::default();
    let mut o = no_overrides();
    o.username = Some("65019999".to_string());
    o.password = Some("pw".to_string());
    o.ip_address = Some("10.1.2.3".to_string());
    o.interval = Some("42".to_string());
    o.max_attempt = Some("+7".to_string());
    o.auto_login = Some("false".to_string());
    c.apply_overrides(o);
    assert_eq!(c.username, "65019999");
    assert_eq!(c.password, Some("pw".to_string()));
    assert_eq!(c.ip_address, Some("10.1.2.3".to_string()));
    assert_eq!(c.interval, 42);
    assert_eq!(c.max_attempt, 7);
    assert!(!c.auto_login);
}

#[test]
fn unreadable_overrides_are_ignored() {
    let mut c = Config::default();
    let mut o = no_overrides();
    o.interval = Some("ten".to_string());
    o.max_attempt = Some("4294967296".to_string());
    o.auto_login = Some("False".to_string());
    c.apply_overrides(o);
    assert_eq!(c.interval, 300);
    assert_eq!(c.max_attempt, 20);
    assert!(c.auto_login);
    let mut o = no_overrides();
    o.interval = Some(" 5".to_string());
    o.max_attempt = Some("".to_string());
    c.apply_overrides(o);
    assert_eq!(c.interval, 300);
    assert_eq!(c.max_attempt, 20);
}

#[test]
fn largest_values_are_accepted() {
    let mut c = Config::default();
    let mut o = no_overrides();
    o.interval = Some("18446744073709551615".to_string());
    o.max_attempt = Some("4294967295".to_string());
    c.apply_overrides(o);
    assert_eq!(c.interval, u64::MAX);
    assert_eq!(c.max_attempt, u32::MAX);
    let mut o = no_overrides();
    o.interval = Some("18446744073709551616".to_string());
    c.apply_overrides(o);
    assert_eq!(c.interval, u64::MAX);
}

#[test]
fn update_credentials_needs_both() {
    let mut c = Config::default();
    assert!(!c.update_credentials("user".to_string(), String::new()));
    assert_eq!(c.username, "");
    assert!(!c.update_credentials(String::new(), "pw".to_string()));
    assert_eq!(c.password, None);
    assert!(c.update_credentials("user".to_string(), "pw".to_string()));
    assert_eq!(c.username, "user");
    assert_eq!(c.password, Some("pw".to_string()));
}
