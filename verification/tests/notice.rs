use nostr_rs_relay::notice::{ensure_reason, parse_reason, EventResultStatus, Notice};

#[test]
fn parse_known_prefix() {
    let (p, d, found) = parse_reason("invalid: missing required tag: e");
    assert!(found);
    assert_eq!(p, Some("invalid"));
    assert_eq!(d, "missing required tag: e");
}

#[test]
fn parse_unknown_prefix() {
    let (p, d, found) = parse_reason("nope: something");
    assert!(!found);
    assert_eq!(p, None);
    assert_eq!(d, "nope: something");
}

#[test]
fn ensure_does_not_double_prefix() {
    let msg = ensure_reason("invalid: missing required tag: e", EventResultStatus::Blocked);
    assert_eq!(msg, "invalid: missing required tag: e");
}

#[test]
fn ensure_prepends_fallback() {
    let msg = ensure_reason("event has expired", EventResultStatus::Blocked);
    assert_eq!(msg, "blocked: event has expired");
}

#[test]
fn ensure_empty() {
    let msg = ensure_reason("", EventResultStatus::Blocked);
    assert_eq!(msg, "blocked: rejected");
}

#[test]
fn from_reason_uses_existing_prefix() {
    let n = Notice::from_reason("abc".into(), "auth-required: login first");
    match n {
        Notice::EventResult(r) => {
            assert_eq!(r.msg, "auth-required: login first");
            assert!(matches!(r.status, EventResultStatus::AuthRequired));
            assert!(!r.status.to_bool());
        }
        _ => panic!("expected EventResult"),
    }
}

#[test]
fn blocked_does_not_double_prefix() {
    let n = Notice::blocked("abc".into(), "invalid: missing required tag: e");
    match n {
        Notice::EventResult(r) => {
            assert_eq!(r.msg, "invalid: missing required tag: e");
            assert!(matches!(r.status, EventResultStatus::Invalid));
        }
        _ => panic!("expected EventResult"),
    }
}

// ---------------------------------------------------------------------
// Further cases
// ---------------------------------------------------------------------

const ALL: [EventResultStatus; 8] = [
    EventResultStatus::Saved,
    EventResultStatus::Duplicate,
    EventResultStatus::Invalid,
    EventResultStatus::Blocked,
    EventResultStatus::RateLimited,
    EventResultStatus::Error,
    EventResultStatus::Restricted,
    EventResultStatus::AuthRequired,
];

#[test]
fn prefix_round_trips() {
    for s in ALL {
        assert_eq!(EventResultStatus::from_prefix(s.prefix()), Some(s));
    }
    assert_eq!(EventResultStatus::from_prefix("pow"), Some(EventResultStatus::Invalid));
    assert_eq!(EventResultStatus::from_prefix("unsupported"), Some(EventResultStatus::Error));
    assert_eq!(EventResultStatus::from_prefix("Blocked"), None);
    assert_eq!(EventResultStatus::RateLimited.prefix(), "rate-limited");
}

#[test]
fn to_bool_accepts_only_saved_and_duplicate() {
    for s in ALL {
        let expected = matches!(s, EventResultStatus::Saved | EventResultStatus::Duplicate);
        assert_eq!(s.to_bool(), expected);
    }
}

#[test]
fn parse_reason_edge_cases() {
    assert_eq!(parse_reason(": x"), (None, ": x", false));
    assert_eq!(parse_reason("blocked:x"), (None, "blocked:x", false));
    assert_eq!(parse_reason("pow: 20 bits"), (Some("pow"), "20 bits", true));
    assert_eq!(parse_reason("blocked: "), (Some("blocked"), "", true));
    // only the first ": " counts
    assert_eq!(parse_reason("a: blocked: b"), (None, "a: blocked: b", false));
}

#[test]
fn ensure_reason_is_idempotent() {
    for s in ALL {
        if s == EventResultStatus::Saved {
            continue;
        }
        for m in ["", "x", "blocked: y", "nope: z"] {
            let once = ensure_reason(m, s);
            assert_eq!(ensure_reason(&once, EventResultStatus::Error), once);
        }
    }
    // "saved" is not a known prefix, so it is added again
    let once = ensure_reason("x", EventResultStatus::Saved);
    assert_eq!(once, "saved: x");
    assert_eq!(ensure_reason(&once, EventResultStatus::Saved), "saved: saved: x");
}

#[test]
fn constructors_build_results() {
    let cases = [
        (Notice::invalid("i".into(), "bad"), "invalid: bad", EventResultStatus::Invalid),
        (Notice::rate_limited("i".into(), "slow"), "rate-limited: slow", EventResultStatus::RateLimited),
        (Notice::auth_required("i".into(), ""), "auth-required: rejected", EventResultStatus::AuthRequired),
        (Notice::duplicate("i".into()), "duplicate: rejected", EventResultStatus::Duplicate),
        (Notice::error("i".into(), "pow: weak"), "pow: weak", EventResultStatus::Invalid),
        (Notice::restricted("i".into(), "members"), "restricted: members", EventResultStatus::Restricted),
        (Notice::from_reason("i".into(), "too old"), "blocked: too old", EventResultStatus::Blocked),
        (Notice::saved("i".into()), "", EventResultStatus::Saved),
    ];
    for (n, msg, status) in cases {
        match n {
            Notice::EventResult(r) => {
                assert_eq!(r.id, "i");
                assert_eq!(r.msg, msg);
                assert_eq!(r.status, status);
            }
            _ => panic!("expected EventResult"),
        }
    }
    match Notice::message("hello".to_string()) {
        Notice::Message(m) => assert_eq!(m, "hello"),
        _ => panic!("expected Message"),
    }
}
