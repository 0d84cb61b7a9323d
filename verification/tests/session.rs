use unifly::json::{get, member_str, redact_sensitive_value, should_redact_field, JsonNumber, JsonValue};
use unifly::session::{
    admin_from_raw, check_vpn_setting_key, get_site_setting, get_sysinfo, get_vpn_setting,
    is_dpi_enabled, list_admins, list_vpn_settings, system_info_from_integration,
    system_info_from_sysinfo, vpn_setting_from_raw, CoreError,
};

fn s(text: &str) -> JsonValue {
    JsonValue::Str(text.to_string())
}

fn obj(entries: Vec<(&str, JsonValue)>) -> JsonValue {
    JsonValue::Object(entries.into_iter().map(|(k, v)| (k.to_string(), v)).collect())
}

fn text_of(v: Option<&JsonValue>) -> Option<&str> {
    match v {
        Some(JsonValue::Str(t)) => Some(t.as_str()),
        _ => None,
    }
}

fn bool_of(v: Option<&JsonValue>) -> Option<bool> {
    match v {
        Some(JsonValue::Bool(b)) => Some(*b),
        _ => None,
    }
}

fn teleport_raw() -> JsonValue {
    obj(vec![
        ("key", s("teleport")),
        ("enabled", JsonValue::Bool(true)),
        ("_id", s("abc123")),
        ("site_id", s("default")),
    ])
}

fn has_field(fields: &[(String, JsonValue)], name: &str) -> bool {
    fields.iter().any(|(k, _)| k == name)
}

#[test]
fn session_queries_vpn_setting_from_raw_filters_to_known_keys() {
    let setting = vpn_setting_from_raw(&teleport_raw()).expect("teleport should be recognized");

    assert_eq!(setting.key, "teleport");
    assert_eq!(setting.enabled, Some(true));
    assert!(!has_field(&setting.fields, "_id"));
    assert!(!has_field(&setting.fields, "site_id"));
}

#[test]
fn settings_vpn_setting_from_raw_filters_to_known_keys() {
    let setting = vpn_setting_from_raw(&teleport_raw()).expect("teleport should be recognized");

    assert_eq!(setting.key, "teleport");
    assert_eq!(setting.enabled, Some(true));
    assert!(!has_field(&setting.fields, "_id"));
    assert!(!has_field(&setting.fields, "site_id"));
}

#[test]
fn redact_sensitive_value_masks_nested_vpn_secrets() {
    let redacted = redact_sensitive_value(&obj(vec![
        ("enabled", JsonValue::Bool(true)),
        ("public_key", s("keep-me")),
        ("x_private_key", s("secret")),
        ("nested", obj(vec![("psk", s("hide-me")), ("certificatePem", s("hide-me-too"))])),
    ]));

    assert_eq!(bool_of(get(&redacted, "enabled")), Some(true));
    assert_eq!(text_of(get(&redacted, "public_key")), Some("keep-me"));
    assert_eq!(text_of(get(&redacted, "x_private_key")), Some("***REDACTED***"));
    let nested = get(&redacted, "nested").expect("nested object kept");
    assert_eq!(text_of(get(nested, "psk")), Some("***REDACTED***"));
    assert_eq!(text_of(get(nested, "certificatePem")), Some("***REDACTED***"));
}

#[test]
fn redaction_reaches_into_arrays_and_is_idempotent() {
    let value = JsonValue::Array(vec![obj(vec![("Token", s("t")), ("n", JsonValue::Number(JsonNumber::PosInt(3)))])]);
    let once = redact_sensitive_value(&value);
    let JsonValue::Array(items) = &once else { panic!("array kept") };
    assert_eq!(text_of(get(&items[0], "Token")), Some("***REDACTED***"));
    assert!(matches!(get(&items[0], "n"), Some(JsonValue::Number(JsonNumber::PosInt(3)))));
    let twice = redact_sensitive_value(&once);
    let JsonValue::Array(again) = &twice else { panic!("array kept") };
    assert_eq!(text_of(get(&again[0], "Token")), Some("***REDACTED***"));
}

#[test]
fn secret_field_names_are_matched_without_case() {
    assert!(should_redact_field("PASSWORD"));
    assert!(should_redact_field("x_shared_key_2"));
    assert!(should_redact_field("dh_key"));
    assert!(!should_redact_field("public_key"));
    assert!(!should_redact_field("enabled"));
}

#[test]
fn unknown_or_malformed_settings_are_not_vpn_settings() {
    assert!(vpn_setting_from_raw(&obj(vec![("key", s("dpi"))])).is_none());
    assert!(vpn_setting_from_raw(&obj(vec![("key", JsonValue::Bool(true))])).is_none());
    assert!(vpn_setting_from_raw(&s("teleport")).is_none());
}

#[test]
fn vpn_setting_fields_hide_secrets() {
    let raw = obj(vec![
        ("key", s("openvpn")),
        ("x_private_key", s("hide")),
        ("port", JsonValue::Number(JsonNumber::PosInt(1194))),
    ]);
    let setting = vpn_setting_from_raw(&raw).expect("openvpn");
    assert_eq!(setting.enabled, None);
    assert_eq!(setting.fields.len(), 2);
    assert_eq!(setting.fields[0].0, "x_private_key");
    assert!(matches!(&setting.fields[0].1, JsonValue::Str(t) if t == "***REDACTED***"));
}

#[test]
fn vpn_settings_are_listed_in_key_order() {
    let raws = vec![
        obj(vec![("key", s("teleport"))]),
        obj(vec![("key", s("dpi"))]),
        obj(vec![("key", s("openvpn"))]),
        obj(vec![("key", s("magic_site_to_site_vpn"))]),
        obj(vec![("key", s("peer_to_peer"))]),
    ];
    let settings = list_vpn_settings(&raws);
    let keys: Vec<&str> = settings.iter().map(|s| s.key.as_str()).collect();
    assert_eq!(keys, vec!["magic_site_to_site_vpn", "openvpn", "peer_to_peer", "teleport"]);
}

#[test]
fn vpn_setting_lookup_reports_missing_keys() {
    let settings = list_vpn_settings(&vec![obj(vec![("key", s("openvpn"))])]);
    let found = get_vpn_setting(settings, "openvpn").expect("present");
    assert_eq!(found.key, "openvpn");
    let settings = list_vpn_settings(&vec![obj(vec![("key", s("openvpn"))])]);
    match get_vpn_setting(settings, "teleport") {
        Err(CoreError::NotFound { entity_type, identifier }) => {
            assert_eq!(entity_type, "vpn setting");
            assert_eq!(identifier, "teleport");
        }
        Ok(_) => panic!("teleport is absent"),
    }
    assert!(check_vpn_setting_key("peer_to_peer").is_ok());
    assert!(matches!(check_vpn_setting_key("dpi"), Err(CoreError::NotFound { .. })));
}

#[test]
fn site_setting_lookup_and_dpi_flag() {
    let settings = vec![
        obj(vec![("key", s("mgmt"))]),
        obj(vec![("key", s("dpi")), ("enabled", JsonValue::Bool(true))]),
    ];
    assert!(is_dpi_enabled(&settings));
    assert!(!is_dpi_enabled(&vec![obj(vec![("key", s("dpi"))])]));
    assert!(!is_dpi_enabled(&Vec::new()));
    let found = get_site_setting(settings, "dpi").expect("dpi setting");
    assert_eq!(text_of(get(&found, "key")), Some("dpi"));
    match get_site_setting(Vec::new(), "dpi") {
        Err(CoreError::NotFound { entity_type, .. }) => assert_eq!(entity_type, "setting"),
        Ok(_) => panic!("no settings"),
    }
}

#[test]
fn admins_fill_in_defaults() {
    let raw = vec![
        obj(vec![("_id", s("a1")), ("name", s("Ann")), ("email", s("a@x")), ("role", s("admin")), ("is_super", JsonValue::Bool(true))]),
        obj(vec![]),
    ];
    let admins = list_admins(&raw);
    assert_eq!(admins.len(), 2);
    assert_eq!(admins[0].id.value, "a1");
    assert_eq!(admins[0].email.as_deref(), Some("a@x"));
    assert!(admins[0].is_super);
    let blank = admin_from_raw(&raw[1]);
    assert_eq!(blank.id.value, "unknown");
    assert_eq!(blank.name, "");
    assert_eq!(blank.role, "unknown");
    assert!(!blank.is_super);
    assert!(blank.last_login.is_none());
}

#[test]
fn system_info_prefers_application_fields() {
    let fields = obj(vec![
        ("name", s("plain")),
        ("applicationName", s("Network")),
        ("version", s("1.0")),
        ("uptime", JsonValue::Number(JsonNumber::PosInt(60))),
        ("update_available", JsonValue::Bool(false)),
    ]);
    let info = system_info_from_integration(&fields);
    assert_eq!(info.controller_name.as_deref(), Some("Network"));
    assert_eq!(info.version, "1.0");
    assert_eq!(info.uptime_secs, Some(60));
    assert_eq!(info.update_available, Some(false));
    assert!(info.ip_text.is_none());
    let bare = system_info_from_integration(&obj(vec![]));
    assert_eq!(bare.version, "unknown");
}

#[test]
fn sysinfo_keeps_the_record_and_its_addresses() {
    let raw = obj(vec![
        ("name", s("udm")),
        ("ip_addrs", JsonValue::Array(vec![s("10.0.0.1"), JsonValue::Null, s("fe80::1")])),
        ("data_retention_days", JsonValue::Number(JsonNumber::PosInt(90))),
        ("timezone", s("UTC")),
    ]);
    let info = system_info_from_sysinfo(&raw);
    assert_eq!(info.controller_name.as_deref(), Some("udm"));
    assert_eq!(info.ip_text.as_deref(), Some("10.0.0.1"));
    let sys = get_sysinfo(raw);
    assert_eq!(sys.ip_addrs, vec!["10.0.0.1".to_string(), "fe80::1".to_string()]);
    assert_eq!(sys.data_retention_days, Some(90));
    assert_eq!(sys.timezone.as_deref(), Some("UTC"));
    assert_eq!(member_str(&sys.extra, "name").map(|t| t.as_str()), Some("udm"));
}

#[test]
fn data_retention_wraps_like_a_u32_cast() {
    let raw = obj(vec![("data_retention_days", JsonValue::Number(JsonNumber::PosInt(4_294_967_296 + 7)))]);
    assert_eq!(get_sysinfo(raw).data_retention_days, Some(7));
}

#[test]
fn sysinfo_address_text_is_passed_on_unvalidated() {
    let raw = obj(vec![("ip_addrs", JsonValue::Array(vec![s("not-an-ip")]))]);
    let info = system_info_from_sysinfo(&raw);
    assert_eq!(info.ip_text.as_deref(), Some("not-an-ip"));
    let first_not_text = obj(vec![("ip_addrs", JsonValue::Array(vec![JsonValue::Null, s("10.0.0.1")]))]);
    assert!(system_info_from_sysinfo(&first_not_text).ip_text.is_none());
}
