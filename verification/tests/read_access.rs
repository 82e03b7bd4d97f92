use nostr_rs_relay::event::Event;
use nostr_rs_relay::read_access::{allowed_to_send, is_receiver};

fn event(kind: u64, author: &str, p_tags: &[&str]) -> Event {
    Event {
        id: "0".repeat(64),
        pubkey: author.to_string(),
        delegated_by: None,
        created_at: 0,
        kind,
        tags: p_tags
            .iter()
            .map(|p| vec!["p".to_string(), p.to_string()])
            .collect(),
        content: String::new(),
        sig: String::new(),
        tagidx: None,
    }
}

#[test]
fn receivers_are_p_tagged() {
    for kind in [1, 4, 6, 44, 1059, 30000] {
        let e = event(kind, "author", &["alice", "bob"]);
        assert!(is_receiver(&e, "bob"));
        assert!(!is_receiver(&e, "carol"));
        assert!(!is_receiver(&e, "author"));
    }
}

#[test]
fn restricted_kinds_need_participants() {
    let restricted = vec![4, 30000];
    let e = event(30000, "author", &["alice"]);
    assert!(allowed_to_send(Some(&e), Some("author"), Some(&restricted), false));
    assert!(allowed_to_send(Some(&e), Some("alice"), Some(&restricted), false));
    assert!(!allowed_to_send(Some(&e), Some("bob"), Some(&restricted), false));
    assert!(!allowed_to_send(Some(&e), None, Some(&restricted), true));
    let open = event(1, "author", &[]);
    assert!(allowed_to_send(Some(&open), None, Some(&restricted), false));
    assert!(!allowed_to_send(None, Some("author"), None, false));
}

#[test]
fn nip42_dms_go_to_first_recipient_or_author() {
    let dm = event(4, "author", &["alice", "bob"]);
    assert!(allowed_to_send(Some(&dm), Some("alice"), None, true));
    assert!(allowed_to_send(Some(&dm), Some("author"), None, true));
    assert!(!allowed_to_send(Some(&dm), Some("bob"), None, true));
    assert!(!allowed_to_send(Some(&dm), None, None, true));
    assert!(allowed_to_send(Some(&dm), None, None, false));
    let untagged = event(1059, "author", &[]);
    assert!(!allowed_to_send(Some(&untagged), Some("author"), None, true));
    let note = event(1, "author", &[]);
    assert!(allowed_to_send(Some(&note), None, None, true));
}
