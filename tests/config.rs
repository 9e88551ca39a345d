use wifi_connect::config::{
    activity_timer_armed, portal_passphrase, portal_ssid, resolve_setting, ConfigError, DEFAULT_DHCP_RANGE,
    DEFAULT_GATEWAY, DEFAULT_LISTENING,
};

#[test]
fn derived_ssid_and_padded_passphrase() {
    let dhcp = resolve_setting(None, None, DEFAULT_DHCP_RANGE);
    let gateway = resolve_setting(None, None, DEFAULT_GATEWAY);
    assert_eq!(dhcp, "192.168.42.2,192.168.42.254");
    assert_eq!(gateway, "192.168.42.1");
    let id = Some("a1b2c3d4e5f6a7b8c9d0".to_string());
    assert_eq!(portal_ssid(&None, &id, &None), Ok("HalleyHub-a1b2c3d4e5f6".to_string()));
    assert_eq!(portal_passphrase(&None, &Some("1234".to_string())), Ok("1234____".to_string()));
}

#[test]
fn passphrase_of_eight_or_more_is_kept() {
    assert_eq!(portal_passphrase(&None, &Some("12345678".to_string())), Ok("12345678".to_string()));
    assert_eq!(portal_passphrase(&None, &Some("123456789".to_string())), Ok("123456789".to_string()));
    assert_eq!(portal_passphrase(&None, &Some(String::new())), Ok("________".to_string()));
}

#[test]
fn missing_pairing_code_is_an_error() {
    assert_eq!(portal_passphrase(&None, &None), Err(ConfigError::MissingPairingCode));
}

#[test]
fn ssid_falls_back_to_second_identity() {
    let fallback = Some("ffffffffffff0000".to_string());
    assert_eq!(portal_ssid(&None, &None, &fallback), Ok("HalleyHub-ffffffffffff".to_string()));
    let first = Some("000000000000".to_string());
    assert_eq!(portal_ssid(&None, &first, &fallback), Ok("HalleyHub-000000000000".to_string()));
}

#[test]
fn ssid_errors() {
    assert_eq!(portal_ssid(&None, &None, &None), Err(ConfigError::MissingDeviceIdentity));
    assert_eq!(portal_ssid(&None, &Some("short".to_string()), &None), Err(ConfigError::ShortDeviceIdentity));
}

#[test]
fn settings_resolve_flag_then_environment_then_default() {
    assert_eq!(resolve_setting(Some("f".to_string()), Some("e".to_string()), DEFAULT_LISTENING), "f");
    assert_eq!(resolve_setting(None, Some("e".to_string()), DEFAULT_LISTENING), "e");
    assert_eq!(resolve_setting(None, None, DEFAULT_LISTENING), "0.0.0.0:80");
}

#[test]
fn passphrase_is_code_then_underscores() {
    let p = portal_passphrase(&None, &Some("ab".to_string())).unwrap();
    assert!(p.starts_with("ab"));
    assert_eq!(p.len(), 8);
    assert!(p[2..].chars().all(|c| c == '_'));
}

#[test]
fn flags_take_precedence_over_derived_values() {
    let flag = Some("MyPortal".to_string());
    let id = Some("0123456789abcdef0123".to_string());
    assert_eq!(portal_ssid(&flag, &id, &None), Ok("MyPortal".to_string()));
    let pass = Some("abc".to_string());
    assert_eq!(portal_passphrase(&pass, &Some("1234".to_string())), Ok("abc".to_string()));
    assert_eq!(portal_passphrase(&pass, &None), Ok("abc".to_string()));
}

#[test]
fn derived_from_identity_and_pairing_code() {
    let id = Some("0123456789abcdef0123".to_string());
    assert_eq!(portal_ssid(&None, &id, &None), Ok("HalleyHub-0123456789ab".to_string()));
    assert_eq!(portal_passphrase(&None, &Some("1234".to_string())), Ok("1234____".to_string()));
}

#[test]
fn idle_timer_only_for_nonzero_timeout() {
    assert!(!activity_timer_armed(0));
    assert!(activity_timer_armed(30));
}
