use nostr_rs_relay::config::{AccessRule, KindFilters, TagRequirement, WriteReadConfig};
use nostr_rs_relay::event::Event;
use nostr_rs_relay::kind_filters::{
    check_access_rule, check_kind_allowed, check_privileged_read, check_write_read_config,
    evaluate_access_identifier, is_kind_allowed, resolve_error_message, substitute_placeholders,
    validate_d_tag, validate_expiration_window, validate_expiration_window_at, validate_p_tag,
    validate_required_tags, ErrorPlaceholders, KindDenyReason,
};
use nostr_rs_relay::utils::{unix_time, TimeSpan};

fn test_event(author: &str, p_tags: &[&str]) -> Event {
    Event {
        id: "0".repeat(64),
        pubkey: author.to_string(),
        delegated_by: None,
        created_at: 0,
        kind: 4,
        tags: p_tags
            .iter()
            .map(|p| vec!["p".to_string(), p.to_string()])
            .collect(),
        content: String::new(),
        sig: String::new(),
        tagidx: None,
    }
}

fn privileged_read_config() -> WriteReadConfig {
    WriteReadConfig {
        script: None,
        allow: AccessRule::All, // does not short-circuit privileged
        deny: AccessRule::Nobody,
        privileged: true,
        error: None,
    }
}

#[test]
fn privileged_requires_auth() {
    let author = "a".repeat(64);
    let recipient = "b".repeat(64);
    let event = test_event(&author, &[&recipient]);
    let config = privileged_read_config();

    assert!(!check_write_read_config(&config, &event, None, None, true, true));
}

#[test]
fn privileged_allows_authenticated_author() {
    let author = "a".repeat(64);
    let recipient = "b".repeat(64);
    let event = test_event(&author, &[&recipient]);
    let config = privileged_read_config();

    assert!(check_write_read_config(&config, &event, Some(&author), None, true, true));
}

#[test]
fn privileged_allows_authenticated_p_tag() {
    let author = "a".repeat(64);
    let recipient = "b".repeat(64);
    let event = test_event(&author, &[&recipient]);
    let config = privileged_read_config();

    assert!(check_write_read_config(&config, &event, Some(&recipient), None, true, true));
}

#[test]
fn privileged_denies_unrelated_authenticated_user() {
    let author = "a".repeat(64);
    let recipient = "b".repeat(64);
    let stranger = "c".repeat(64);
    let event = test_event(&author, &[&recipient]);
    let config = privileged_read_config();

    assert!(!check_write_read_config(&config, &event, Some(&stranger), None, true, true));
}

#[test]
fn allow_takes_precedence_over_privileged() {
    let author = "a".repeat(64);
    let recipient = "b".repeat(64);
    let allowed_extra = "d".repeat(64);
    let event = test_event(&author, &[&recipient]);
    let config = WriteReadConfig {
        script: None,
        allow: AccessRule::List(vec![allowed_extra.clone()]),
        deny: AccessRule::Nobody,
        privileged: true,
        error: None,
    };

    // Allowlisted pubkey (neither author nor p-tagged) can read
    assert!(check_write_read_config(&config, &event, Some(&allowed_extra), None, true, true));
    // Author still via privileged
    assert!(check_write_read_config(&config, &event, Some(&author), None, true, true));
    // Unrelated still denied
    let stranger = "c".repeat(64);
    assert!(!check_write_read_config(&config, &event, Some(&stranger), None, true, true));
}

#[test]
fn privileged_ignored_on_write() {
    let author = "a".repeat(64);
    let event = test_event(&author, &[]);
    let config = privileged_read_config();

    // On write, privileged is ignored and allow:* permits everyone
    assert!(check_write_read_config(&config, &event, None, None, false, true));
}

#[test]
fn expiration_window_rejects_unparseable_tag() {
    let author = "a".repeat(64);
    let mut event = test_event(&author, &[]);
    event.tags = vec![vec!["expiration".to_string(), "garbage".to_string()]];
    let err = validate_expiration_window(&event, TimeSpan::from_secs(75 * 3600));
    assert!(err.is_err());
}

#[test]
fn expiration_window_ok_within_limit() {
    let author = "a".repeat(64);
    let now = unix_time();
    let mut event = test_event(&author, &[]);
    event.tags = vec![vec!["expiration".to_string(), (now + 3600).to_string()]];
    assert_eq!(validate_expiration_window(&event, TimeSpan::from_secs(75 * 3600)), Ok(()));
}

#[test]
fn expiration_window_rejects_far_future() {
    let author = "a".repeat(64);
    let now = unix_time();
    let mut event = test_event(&author, &[]);
    event.tags = vec![vec!["expiration".to_string(), (now + 100 * 3600).to_string()]];
    assert!(validate_expiration_window(&event, TimeSpan::from_secs(75 * 3600)).is_err());
}

#[test]
fn privileged_deny_still_applies() {
    let author = "a".repeat(64);
    let recipient = "b".repeat(64);
    let event = test_event(&author, &[&recipient]);
    let config = WriteReadConfig {
        script: None,
        allow: AccessRule::All,
        deny: AccessRule::List(vec![recipient.clone()]),
        privileged: true,
        error: None,
    };

    assert!(!check_write_read_config(&config, &event, Some(&recipient), None, true, true));
}

#[test]
fn substitute_placeholders_replaces_known_keys() {
    let placeholders = ErrorPlaceholders {
        kind: Some(4),
        tag: Some("client".into()),
        size: Some(5000),
        limit: Some(4096),
        detail: Some("too many tags".into()),
    };
    let msg = substitute_placeholders(
        "kind {kind} tag {tag} size {size}/{limit}: {detail}",
        &placeholders,
    );
    assert_eq!(msg, "kind 4 tag client size 5000/4096: too many tags");
}

#[test]
fn resolve_error_prefers_kind_override() {
    let placeholders = ErrorPlaceholders {
        kind: Some(4),
        ..Default::default()
    };
    let msg = resolve_error_message(
        "blocked: kind {kind} is not in the kind whitelist",
        Some("restricted: custom kind {kind}"),
        Some("blocked: global {kind}"),
        &placeholders,
    );
    assert_eq!(msg, "restricted: custom kind 4");
}

// ---------------------------------------------------------------------
// Further cases
// ---------------------------------------------------------------------

#[test]
fn script_denial_overrides_allow_all() {
    let author = "a".repeat(64);
    let event = test_event(&author, &[]);
    let config = WriteReadConfig {
        script: Some(".config/filter.sh".to_string()),
        allow: AccessRule::All,
        deny: AccessRule::Nobody,
        privileged: false,
        error: None,
    };
    assert!(!check_write_read_config(&config, &event, None, None, false, false));
    assert!(check_write_read_config(&config, &event, None, None, false, true));
}

#[test]
fn resolve_error_falls_back_to_global_then_default() {
    let placeholders = ErrorPlaceholders { kind: Some(7), ..Default::default() };
    let global = resolve_error_message("d {kind}", None, Some("g {kind}"), &placeholders);
    assert_eq!(global, "g 7");
    let default = resolve_error_message("d {kind}", None, None, &placeholders);
    assert_eq!(default, "d 7");
}

#[test]
fn substitute_leaves_unset_and_unknown_placeholders() {
    let placeholders = ErrorPlaceholders { size: Some(0), ..Default::default() };
    let msg = substitute_placeholders("{kind} {size}{size} {other}", &placeholders);
    assert_eq!(msg, "{kind} 00 {other}");
    let none = substitute_placeholders("plain {tag}", &ErrorPlaceholders::default());
    assert_eq!(none, "plain {tag}");
}

#[test]
fn substitute_large_numbers() {
    let placeholders = ErrorPlaceholders {
        kind: Some(u64::MAX),
        limit: Some(1234567890),
        ..Default::default()
    };
    let msg = substitute_placeholders("{kind}/{limit}", &placeholders);
    assert_eq!(msg, "18446744073709551615/1234567890");
}

#[test]
fn access_identifier_cases() {
    let author = "a".repeat(64);
    let other = "F".repeat(64);
    let event = test_event(&author, &[]);
    assert!(evaluate_access_identifier(&author, &event, None, None));
    assert!(evaluate_access_identifier(&other, &event, Some(&other), None));
    assert!(!evaluate_access_identifier(&other, &event, None, None));
    // not 64 characters: not a pubkey
    assert!(!evaluate_access_identifier("aaaa", &event, Some("aaaa"), None));
    // not hex
    let not_hex = "g".repeat(64);
    assert!(!evaluate_access_identifier(&not_hex, &event, Some(&not_hex), None));
    assert!(evaluate_access_identifier("private_server_hex", &event, Some("srv"), Some("srv")));
    assert!(!evaluate_access_identifier("private_server_hex", &event, Some("srv"), Some("x")));
    assert!(!evaluate_access_identifier("private_server_hex", &event, None, Some("srv")));
}

#[test]
fn access_rule_cases() {
    let author = "a".repeat(64);
    let event = test_event(&author, &[]);
    assert!(check_access_rule(&AccessRule::All, &event, None, None));
    assert!(!check_access_rule(&AccessRule::Nobody, &event, Some(&author), None));
    let list = AccessRule::List(vec!["x".to_string(), author.clone()]);
    assert!(check_access_rule(&list, &event, None, None));
    assert!(!check_access_rule(&AccessRule::List(vec![]), &event, None, None));
}

#[test]
fn privileged_read_direct() {
    let author = "a".repeat(64);
    let recipient = "b".repeat(64);
    let event = test_event(&author, &[&recipient]);
    assert!(!check_privileged_read(&event, None));
    assert!(check_privileged_read(&event, Some(&author)));
    assert!(check_privileged_read(&event, Some(&recipient)));
    assert!(!check_privileged_read(&event, Some("c")));
}

#[test]
fn d_and_p_tag_requirements() {
    let author = "a".repeat(64);
    let hex = "0123456789abcdefABCDEF".repeat(3)[..64].to_string();
    let mut event = test_event(&author, &["not-hex"]);
    event.tags.push(vec!["d".to_string(), "slug".to_string()]);
    event.tags.push(vec!["d".to_string()]);
    assert!(validate_d_tag(&event, &TagRequirement::NotRequired));
    assert!(validate_d_tag(&event, &TagRequirement::Required));
    assert!(!validate_d_tag(&event, &TagRequirement::RequiredHex));
    assert!(validate_p_tag(&event, &TagRequirement::Required));
    assert!(!validate_p_tag(&event, &TagRequirement::RequiredHex));
    event.tags.push(vec!["p".to_string(), hex]);
    assert!(validate_p_tag(&event, &TagRequirement::RequiredHex));
    let bare = test_event(&author, &[]);
    assert!(!validate_d_tag(&bare, &TagRequirement::Required));
    assert!(!validate_p_tag(&bare, &TagRequirement::Required));
}

#[test]
fn required_tags_reports_first_missing() {
    let author = "a".repeat(64);
    let mut event = test_event(&author, &["x"]);
    event.tags.push(vec!["client".to_string(), "test".to_string()]);
    let ok = vec!["p".to_string(), "client".to_string()];
    assert_eq!(validate_required_tags(&event, &ok), Ok(()));
    let missing = vec!["client".to_string(), "title".to_string(), "e".to_string()];
    assert_eq!(
        validate_required_tags(&event, &missing),
        Err("missing required tag: title".to_string())
    );
}

#[test]
fn expiration_window_at_exact_bounds() {
    let author = "a".repeat(64);
    let mut event = test_event(&author, &[]);
    assert_eq!(validate_expiration_window_at(&event, 10, 100), Ok(()));
    event.tags = vec![vec!["expiration".to_string(), "110".to_string()]];
    assert_eq!(validate_expiration_window_at(&event, 10, 100), Ok(()));
    assert_eq!(
        validate_expiration_window_at(&event, 9, 100),
        Err("expiration exceeds max_expiry_duration".to_string())
    );
    event.tags = vec![vec!["expiration".to_string()]];
    assert_eq!(
        validate_expiration_window_at(&event, 10, 100),
        Err("expiration tag is not a valid timestamp".to_string())
    );
    event.tags = vec![vec!["expiration".to_string(), "+5".to_string()]];
    assert_eq!(validate_expiration_window_at(&event, 0, 5), Ok(()));
    // the window never overflows
    event.tags = vec![vec!["expiration".to_string(), u64::MAX.to_string()]];
    assert_eq!(validate_expiration_window_at(&event, u64::MAX, 1), Ok(()));
}

#[test]
fn expiration_uses_first_expiration_tag() {
    let author = "a".repeat(64);
    let mut event = test_event(&author, &[]);
    event.tags = vec![
        vec!["expiration".to_string(), "12".to_string()],
        vec!["expiration".to_string(), "junk".to_string()],
    ];
    assert_eq!(event.expiration(), Some(12));
    assert_eq!(event.tag_values_by_name("expiration"), vec!["12".to_string(), "junk".to_string()]);
}

#[test]
fn kind_lists() {
    let mut filters = KindFilters::new();
    assert_eq!(check_kind_allowed(1, &filters), Ok(()));
    filters.blacklist = Some(vec![70202]);
    assert_eq!(check_kind_allowed(70202, &filters), Err(KindDenyReason::Blacklisted));
    assert!(is_kind_allowed(1, &filters));
    filters.whitelist = Some(vec![1, 4, 30000]);
    assert_eq!(check_kind_allowed(70202, &filters), Err(KindDenyReason::NotInWhitelist));
    assert_eq!(check_kind_allowed(5, &filters), Err(KindDenyReason::NotInWhitelist));
    assert!(is_kind_allowed(30000, &filters));
    assert!(!is_kind_allowed(2, &filters));
}
