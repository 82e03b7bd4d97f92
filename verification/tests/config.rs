use nostr_rs_relay::utils::TimeSpan;
use nostr_rs_relay::config::{
    kind_filters_path, parse_size_string, parse_upper_size, AccessRule, ExpirationConfig, KindFilterConfig, KindFilters, Processor,
    RateLimitConfig, Settings, SettingsError, TagRequirement, VerifiedUsersMode, WriteReadConfig,
};
use nostr_rs_relay::json::{JsonNumber, JsonValue};

fn s(v: &str) -> JsonValue {
    JsonValue::String(v.to_string())
}

fn obj(members: Vec<(&str, JsonValue)>) -> JsonValue {
    JsonValue::Object(members.into_iter().map(|(k, v)| (k.to_string(), v)).collect())
}

#[test]
fn access_rule_from_json() {
    assert_eq!(AccessRule::from_json_value(&s("*")), AccessRule::All);
    assert_eq!(AccessRule::from_json_value(&s("all")), AccessRule::All);
    assert_eq!(AccessRule::from_json_value(&s("none")), AccessRule::Nobody);
    assert_eq!(
        AccessRule::from_json_value(&s("private_server_hex")),
        AccessRule::List(vec!["private_server_hex".to_string()])
    );
    let arr = JsonValue::Array(vec![s("a"), JsonValue::Bool(true), s("b"), JsonValue::Null]);
    assert_eq!(
        AccessRule::from_json_value(&arr),
        AccessRule::List(vec!["a".to_string(), "b".to_string()])
    );
    assert_eq!(AccessRule::from_json_value(&JsonValue::Bool(true)), AccessRule::Nobody);
}

#[test]
fn tag_requirement_and_rate_limit() {
    assert_eq!(TagRequirement::from_str("none"), TagRequirement::NotRequired);
    assert_eq!(TagRequirement::from_str("hex"), TagRequirement::RequiredHex);
    assert_eq!(TagRequirement::from_str("required"), TagRequirement::Required);
    assert_eq!(TagRequirement::from_str("anything"), TagRequirement::Required);

    assert!(RateLimitConfig::from_str("none").is_none());
    assert_eq!(RateLimitConfig::from_str("10/min").unwrap().events_per_minute, 10);
    assert_eq!(RateLimitConfig::from_str(" 5 /minute").unwrap().events_per_minute, 5);
    assert!(RateLimitConfig::from_str("10").is_none());
    assert!(RateLimitConfig::from_str("x/min").is_none());
    assert!(RateLimitConfig::from_str("4294967296/min").is_none());
    assert_eq!(RateLimitConfig::from_str("4294967295/h").unwrap().events_per_minute, u32::MAX);
}

#[test]
fn sizes() {
    assert_eq!(parse_size_string("10MB"), Some(10 * 1024 * 1024));
    assert_eq!(parse_size_string("512KB"), Some(512 * 1024));
    assert_eq!(parse_size_string(" 1gb "), Some(1024 * 1024 * 1024));
    assert_eq!(parse_size_string("1024"), Some(1024));
    assert_eq!(parse_size_string("7b"), Some(7));
    assert_eq!(parse_size_string("kb"), None);
    assert_eq!(parse_size_string("1.5MB"), None);
    assert_eq!(parse_size_string("-1"), None);
    assert_eq!(parse_size_string("+3KB"), Some(3 * 1024));
}

#[test]
fn expirations() {
    assert!(ExpirationConfig::from_str("never").duration.is_none());
    assert_eq!(
        ExpirationConfig::from_str("1h").duration,
        Some(TimeSpan::from_secs(3600))
    );
    assert_eq!(ExpirationConfig::from_str("24h").duration, Some(TimeSpan::from_secs(86400)));
    assert_eq!(ExpirationConfig::from_str("7d").duration, Some(TimeSpan::from_secs(604800)));
    assert_eq!(ExpirationConfig::from_str("30 days").duration, Some(TimeSpan::from_secs(2592000)));
    assert_eq!(ExpirationConfig::from_str("75h").duration, Some(TimeSpan::from_secs(270000)));
    assert!(ExpirationConfig::from_str("not a duration").duration.is_none());
}

#[test]
fn write_read_section() {
    let v = obj(vec![
        ("script", s(".config/filter.sh")),
        ("allow", JsonValue::Array(vec![s("pk")])),
        ("privileged", JsonValue::Bool(true)),
    ]);
    let c = WriteReadConfig::from_json_value(&v).unwrap();
    assert_eq!(c.script.as_deref(), Some(".config/filter.sh"));
    assert_eq!(c.allow, AccessRule::List(vec!["pk".to_string()]));
    assert_eq!(c.deny, AccessRule::Nobody);
    assert!(c.privileged);
    let defaults = WriteReadConfig::from_json_value(&obj(vec![])).unwrap();
    assert_eq!(defaults.allow, AccessRule::All);
    assert!(!defaults.privileged);
    assert_eq!(
        WriteReadConfig::from_json_value(&s("x")).unwrap_err(),
        "Write/read config must be an object"
    );
}

#[test]
fn kind_section() {
    let v = obj(vec![
        ("description", s("Text notes")),
        ("read", obj(vec![("allow", s("*"))])),
        ("max_size", s("10MB")),
        ("rate_limit", s("5/min")),
        ("d_tag", s("hex")),
        ("required_tags", JsonValue::Array(vec![s("e"), s("title")])),
    ]);
    let c = KindFilterConfig::from_json_value(&v).unwrap();
    assert_eq!(c.description.as_deref(), Some("Text notes"));
    assert!(c.write.is_none());
    assert_eq!(c.read.unwrap().allow, AccessRule::All);
    assert_eq!(c.max_size, Some(10 * 1024 * 1024));
    assert_eq!(c.rate_limit.unwrap().events_per_minute, 5);
    assert!(c.expiration.duration.is_none());
    assert_eq!(c.d_tag, TagRequirement::RequiredHex);
    assert_eq!(c.p_tag, TagRequirement::NotRequired);
    assert_eq!(c.required_tags, vec!["e".to_string(), "title".to_string()]);

    let bad_tags = obj(vec![("required_tags", JsonValue::Array(vec![s("e"), JsonValue::Null]))]);
    assert_eq!(
        KindFilterConfig::from_json_value(&bad_tags).unwrap_err(),
        "required_tags must be an array of strings"
    );
    let bad_write = obj(vec![("write", s("*")), ("required_tags", s("e"))]);
    assert_eq!(
        KindFilterConfig::from_json_value(&bad_write).unwrap_err(),
        "Write/read config must be an object"
    );
    assert_eq!(
        KindFilterConfig::from_json_value(&JsonValue::Null).unwrap_err(),
        "Kind filter config must be an object"
    );
}

#[test]
fn kind_filter_file() {
    let doc = obj(vec![
        ("1", obj(vec![("description", s("Text notes"))])),
        ("4", obj(vec![("read", obj(vec![("privileged", JsonValue::Bool(true))]))])),
        (
            "kinds",
            obj(vec![
                (
                    "blacklist",
                    JsonValue::Array(vec![JsonValue::Number(JsonNumber::PosInt(70202))]),
                ),
                (
                    "whitelist",
                    JsonValue::Array(vec![
                        JsonValue::Number(JsonNumber::PosInt(1)),
                        s("4"),
                        s("x"),
                        JsonValue::Number(JsonNumber::NegInt(-1)),
                        JsonValue::Number(JsonNumber::Float),
                    ]),
                ),
            ]),
        ),
        ("note", s("ignored")),
    ]);
    let kf = KindFilters::from_json(&doc, "kinds.json").unwrap();
    assert_eq!(kf.config_file.as_deref(), Some("kinds.json"));
    assert_eq!(kf.whitelist, Some(vec![1, 4]));
    assert_eq!(kf.blacklist, Some(vec![70202]));
    assert_eq!(kf.filters.len(), 2);
    assert_eq!(kf.filters[&1].description.as_deref(), Some("Text notes"));
    assert!(kf.filters[&4].read.as_ref().unwrap().privileged);

    let bad_kinds = obj(vec![("kinds", JsonValue::Array(vec![]))]);
    assert_eq!(
        KindFilters::from_json(&bad_kinds, "k").unwrap_err(),
        "kinds must be an object with whitelist and/or blacklist"
    );
    let bad_kind = obj(vec![("1", obj(vec![])), ("2", s("x"))]);
    assert_eq!(
        KindFilters::from_json(&bad_kind, "k").unwrap_err(),
        "Kind filter config must be an object"
    );
    let empty = KindFilters::from_json(&JsonValue::Null, "k").unwrap();
    assert!(empty.whitelist.is_none() && empty.blacklist.is_none() && empty.filters.is_empty());
}

#[test]
fn settings_defaults_and_checks() {
    let mut settings = Settings::default();
    assert_eq!(settings.info.name.as_deref(), Some("Unnamed nostr-rs-relay"));
    assert_eq!(settings.limits.max_event_bytes, Some(262144));
    assert_eq!(settings.verified_users.mode, VerifiedUsersMode::Disabled);
    assert_eq!(settings.pay_to_relay.processor, Processor::LNBits);
    assert_eq!(settings.check(), Ok(()));
    assert!(settings.verified_users.is_valid());
    assert!(!settings.verified_users.is_active());

    settings.pay_to_relay.enabled = true;
    assert_eq!(settings.check(), Err(SettingsError::ApiSecretMissing));
    settings.pay_to_relay.api_secret = "secret".to_string();
    assert_eq!(settings.check(), Err(SettingsError::NodeUrlMissing));
    settings.pay_to_relay.node_url = "http://node".to_string();
    assert_eq!(settings.check(), Err(SettingsError::TermsMessageMissing));
    settings.pay_to_relay.terms_message = "terms".to_string();
    settings.pay_to_relay.direct_message = true;
    settings.pay_to_relay.secret_key = Some("<nostr nsec>".to_string());
    assert_eq!(settings.check(), Err(SettingsError::SecretKeyMissing));
    settings.pay_to_relay.secret_key = Some("nsec1".to_string());
    assert_eq!(settings.check(), Ok(()));
    settings.pay_to_relay.processor = Processor::ClnRest;
    assert_eq!(settings.check(), Err(SettingsError::RunePathMissing));

    settings.database.min_conn = 9;
    assert_eq!(settings.check(), Err(SettingsError::ConnectionPoolInverted));
    settings.database.min_conn = 1;
    settings.pay_to_relay.enabled = false;
    assert_eq!(settings.finalize(), Ok(()));
    assert_eq!(
        settings.verified_users.verify_update_frequency_duration,
        Some(TimeSpan::from_secs(86400))
    );
    assert_eq!(
        settings.verified_users.verify_expiration_duration,
        settings.verified_users.verify_expiration_duration()
    );
    settings.verified_users.verify_expiration = Some("soon".to_string());
    assert_eq!(settings.check(), Err(SettingsError::VerifiedUsersDurations));

    settings.use_kind_filters(None);
    assert!(settings.kind_filters.filters.is_empty());
}

#[test]
fn upper_size_strings() {
    assert_eq!(parse_upper_size("4KB"), Some(4096));
    assert_eq!(parse_upper_size("4kb"), None);
    assert_eq!(parse_upper_size("2B"), Some(2));
    assert_eq!(parse_size_string(" 4kb "), Some(4096));
    assert_eq!(parse_upper_size("18446744073709551615KB"), None);
    assert_eq!(parse_size_string("18446744073709551615"), Some(usize::MAX));
}

#[test]
fn kind_filters_text_and_read_errors() {
    let err = KindFilters::from_json_text("{ not json", "kinds.json").unwrap_err();
    assert!(err.starts_with("Failed to parse JSON: "));
    let err = KindFilters::from_read_result("/x/kinds.json", Err("No such file".to_string()))
        .unwrap_err();
    assert_eq!(err, "Failed to read kind filters file /x/kinds.json: No such file");
    let err = KindFilters::from_json_text("{\"kinds\": 3}", "kinds.json").unwrap_err();
    assert_eq!(err, "kinds must be an object with whitelist and/or blacklist");
}

#[test]
fn kind_filters_from_file_text() {
    let text = r#"{"kinds":{"whitelist":[4]},"4":{"require_auth":true,"read":{"allow":"*","privileged":true},"max_size":"4KB","max_expiration":"75h","p_tag":"hex","required_tags":["expiration","client"]}}"#;
    let k = KindFilters::from_read_result("kinds.json", Ok(text.to_string())).unwrap();
    assert_eq!(k.config_file.as_deref(), Some("kinds.json"));
    assert_eq!(k.whitelist, Some(vec![4]));
    assert!(k.blacklist.is_none());
    assert_eq!(k.filters.len(), 1);
    let f = &k.filters[&4];
    assert_eq!(f.max_size, Some(4096));
    assert_eq!(f.max_expiration.duration, Some(TimeSpan::from_secs(270000)));
    assert_eq!(f.p_tag, TagRequirement::RequiredHex);
    assert_eq!(f.required_tags, vec!["expiration".to_string(), "client".to_string()]);
    assert!(f.rate_limit.is_none());
    let read = f.read.as_ref().unwrap();
    assert_eq!(read.allow, AccessRule::All);
    assert_eq!(read.deny, AccessRule::Nobody);
    assert!(read.privileged);
    assert!(read.script.is_none());
}

#[test]
fn kind_filter_file_location() {
    assert_eq!(kind_filters_path("/etc/kinds.json", "/srv/config.toml"), "/etc/kinds.json");
    assert_eq!(kind_filters_path("kinds.json", "/srv/config.toml"), "/srv/kinds.json");
    assert_eq!(kind_filters_path("kinds.json", "config.toml"), "kinds.json");
    assert_eq!(kind_filters_path("kinds.json", ""), "./kinds.json");
}

#[test]
fn finalize_keeps_kind_filters() {
    let mut settings = Settings::default();
    settings.verified_users.verify_update_frequency = Some("24h".to_string());
    settings.use_kind_filters(None);
    assert_eq!(settings.finalize(), Ok(()));
    assert!(settings.kind_filters.filters.is_empty());
    assert!(settings.kind_filters.whitelist.is_none());
    assert_eq!(
        settings.verified_users.verify_expiration_duration,
        Some(TimeSpan::from_secs(7 * 86400))
    );
}
