//! NIP-01 OK / NOTICE envelopes.
//!
//! Rejection messages use the machine-readable prefix form `"<prefix>: <detail>"`.
//! The helpers here parse existing prefixes (so they are not doubled) and
//! add a fallback prefix when none is present.

use vstd::prelude::*;
use vstd::string::*;
use crate::text::{concat_str, find_sep, find_sep_from, find_sep_str, str_eq};

verus! {

#[derive(Debug, Clone, Copy, PartialEq, Eq, Structural)]
pub enum EventResultStatus {
    Saved,
    Duplicate,
    Invalid,
    Blocked,
    RateLimited,
    Error,
    Restricted,
    AuthRequired,
}

pub struct EventResult {
    pub id: String,
    pub msg: String,
    pub status: EventResultStatus,
}

pub enum Notice {
    Message(String),
    EventResult(EventResult),
    AuthChallenge(String),
}

/// The machine-readable prefix of each status.
pub open spec fn prefix_of(s: EventResultStatus) -> Seq<char> {
    match s {
        EventResultStatus::Saved => "saved"@,
        EventResultStatus::Duplicate => "duplicate"@,
        EventResultStatus::Invalid => "invalid"@,
        EventResultStatus::Blocked => "blocked"@,
        EventResultStatus::RateLimited => "rate-limited"@,
        EventResultStatus::Error => "error"@,
        EventResultStatus::Restricted => "restricted"@,
        EventResultStatus::AuthRequired => "auth-required"@,
    }
}

/// The status a NIP-01 prefix stands for ("pow" is invalid, "unsupported" an error).
pub open spec fn status_of_prefix(p: Seq<char>) -> Option<EventResultStatus> {
    if p == "saved"@ {
        Some(EventResultStatus::Saved)
    } else if p == "duplicate"@ {
        Some(EventResultStatus::Duplicate)
    } else if p == "invalid"@ {
        Some(EventResultStatus::Invalid)
    } else if p == "blocked"@ {
        Some(EventResultStatus::Blocked)
    } else if p == "rate-limited"@ {
        Some(EventResultStatus::RateLimited)
    } else if p == "error"@ {
        Some(EventResultStatus::Error)
    } else if p == "restricted"@ {
        Some(EventResultStatus::Restricted)
    } else if p == "auth-required"@ {
        Some(EventResultStatus::AuthRequired)
    } else if p == "pow"@ {
        Some(EventResultStatus::Invalid)
    } else if p == "unsupported"@ {
        Some(EventResultStatus::Error)
    } else {
        None
    }
}

/// The known NIP-01 OK/CLOSED prefixes.
pub open spec fn is_known_prefix(p: Seq<char>) -> bool {
    ||| p == "auth-required"@
    ||| p == "pow"@
    ||| p == "duplicate"@
    ||| p == "blocked"@
    ||| p == "rate-limited"@
    ||| p == "invalid"@
    ||| p == "error"@
    ||| p == "unsupported"@
    ||| p == "restricted"@
}

impl EventResultStatus {
    /// Whether the event was accepted (saved or already held).
    pub fn to_bool(&self) -> (r: bool)
        ensures
            r == (*self == EventResultStatus::Saved || *self == EventResultStatus::Duplicate),
    {
        match self {
            Self::Duplicate | Self::Saved => true,
            Self::Invalid
            | Self::Blocked
            | Self::RateLimited
            | Self::Error
            | Self::Restricted
            | Self::AuthRequired => false,
        }
    }

    pub fn prefix(&self) -> (r: &'static str)
        ensures
            r@ == prefix_of(*self),
    {
        match self {
            Self::Saved => "saved",
            Self::Duplicate => "duplicate",
            Self::Invalid => "invalid",
            Self::Blocked => "blocked",
            Self::RateLimited => "rate-limited",
            Self::Error => "error",
            Self::Restricted => "restricted",
            Self::AuthRequired => "auth-required",
        }
    }

    /// Maps a NIP-01 machine-readable prefix string to a status.
    pub fn from_prefix(prefix: &str) -> (r: Option<Self>)
        ensures
            r == status_of_prefix(prefix@),
    {
        if str_eq(prefix, "saved") {
            Some(Self::Saved)
        } else if str_eq(prefix, "duplicate") {
            Some(Self::Duplicate)
        } else if str_eq(prefix, "invalid") {
            Some(Self::Invalid)
        } else if str_eq(prefix, "blocked") {
            Some(Self::Blocked)
        } else if str_eq(prefix, "rate-limited") {
            Some(Self::RateLimited)
        } else if str_eq(prefix, "error") {
            Some(Self::Error)
        } else if str_eq(prefix, "restricted") {
            Some(Self::Restricted)
        } else if str_eq(prefix, "auth-required") {
            Some(Self::AuthRequired)
        } else if str_eq(prefix, "pow") {
            Some(Self::Invalid)
        } else if str_eq(prefix, "unsupported") {
            Some(Self::Error)
        } else {
            None
        }
    }
}

/// The known prefix equal to `p`, as a static string.
fn known_prefix(p: &str) -> (r: Option<&'static str>)
    ensures
        match r {
            Some(k) => is_known_prefix(p@) && k@ == p@,
            None => !is_known_prefix(p@),
        },
{
    if str_eq(p, "auth-required") {
        Some("auth-required")
    } else if str_eq(p, "pow") {
        Some("pow")
    } else if str_eq(p, "duplicate") {
        Some("duplicate")
    } else if str_eq(p, "blocked") {
        Some("blocked")
    } else if str_eq(p, "rate-limited") {
        Some("rate-limited")
    } else if str_eq(p, "invalid") {
        Some("invalid")
    } else if str_eq(p, "error") {
        Some("error")
    } else if str_eq(p, "unsupported") {
        Some("unsupported")
    } else if str_eq(p, "restricted") {
        Some("restricted")
    } else {
        None
    }
}

/// The prefix and detail of a reason that starts with a known prefix
/// followed by ": " (at its first ": ").
pub open spec fn reason_split(msg: Seq<char>) -> Option<(Seq<char>, Seq<char>)> {
    match find_sep(msg) {
        None => None,
        Some(i) => if i > 0 && is_known_prefix(msg.take(i)) {
            Some((msg.take(i), msg.skip(i + 2)))
        } else {
            None
        },
    }
}

/// Splits a NIP-01 reason into prefix and detail; `found` is true only when
/// `msg` starts with a known prefix followed by ": ".
pub fn parse_reason(msg: &str) -> (r: (Option<&'static str>, &str, bool))
    ensures
        match reason_split(msg@) {
            Some((p, d)) => r.0 matches Some(k) && k@ == p && r.1@ == d && r.2,
            None => r.0 is None && r.1@ == msg@ && !r.2,
        },
{
    let i = match find_sep_str(msg) {
        Some(i) => i,
        None => {
            return (None, msg, false);
        },
    };
    if i == 0 {
        return (None, msg, false);
    }
    proof {
        lemma_find_sep_in_range(msg@, 0);
    }
    let n = msg.unicode_len();
    let prefix = msg.substring_char(0, i);
    assert(prefix@ =~= msg@.take(i as int));
    match known_prefix(prefix) {
        Some(k) => {
            let detail = msg.substring_char(i + 2, n);
            assert(detail@ =~= msg@.skip(i + 2));
            (Some(k), detail, true)
        },
        None => (None, msg, false),
    }
}

/// A separator found at or after `i` lies inside the string.
proof fn lemma_find_sep_in_range(s: Seq<char>, i: int)
    ensures
        find_sep_from(s, i) matches Some(j) ==> i <= j && j + 1 < s.len(),
    decreases s.len() - i,
{
    if !(i < 0 || i + 1 >= s.len()) && !(s[i] == ':' && s[i + 1] == ' ') {
        lemma_find_sep_in_range(s, i + 1);
    }
}

/// A reason with a NIP-01 prefix: `msg` itself when it already has a known
/// prefix; "<fallback>: rejected" when it is empty; otherwise
/// "<fallback>: <msg>".
pub open spec fn ensured(msg: Seq<char>, fallback: EventResultStatus) -> Seq<char> {
    if msg.len() == 0 {
        prefix_of(fallback) + ": rejected"@
    } else if reason_split(msg) is Some {
        msg
    } else {
        prefix_of(fallback) + ": "@ + msg
    }
}

/// Returns `msg` unchanged if it already has a known NIP-01 prefix; an empty
/// `msg` becomes "<fallback>: rejected"; otherwise `fallback` is prepended.
pub fn ensure_reason(msg: &str, fallback: EventResultStatus) -> (r: String)
    ensures
        r@ == ensured(msg@, fallback),
{
    let fallback_prefix = fallback.prefix();
    if msg.unicode_len() == 0 {
        return concat_str(fallback_prefix, ": rejected");
    }
    let (_, _, found) = parse_reason(msg);
    if found {
        return msg.to_owned();
    }
    let head = concat_str(fallback_prefix, ": ");
    concat_str(head.as_str(), msg)
}

/// The status of a notice whose message is `msg`: the one its known prefix
/// stands for, else `fallback`.
pub open spec fn status_for(msg: Seq<char>, fallback: EventResultStatus) -> EventResultStatus {
    match reason_split(msg) {
        Some((p, _)) => match status_of_prefix(p) {
            Some(s) => s,
            None => fallback,
        },
        None => fallback,
    }
}

/// `n` is an OK result for `id` with message `msg` and status `status`.
pub open spec fn is_event_result(
    n: Notice,
    id: Seq<char>,
    msg: Seq<char>,
    status: EventResultStatus,
) -> bool {
    n matches Notice::EventResult(r) && r.id@ == id && r.msg@ == msg && r.status == status
}

/// The OK result the rejection constructors build from `msg` with the
/// default status `fallback`.
pub open spec fn rejection(n: Notice, id: Seq<char>, msg: Seq<char>, fallback: EventResultStatus) -> bool {
    is_event_result(n, id, ensured(msg, fallback), status_for(ensured(msg, fallback), fallback))
}

impl Notice {
    pub fn message(msg: String) -> (r: Notice)
        ensures
            r == Notice::Message(msg),
    {
        Notice::Message(msg)
    }

    /// Builds an OK result whose message carries `status`'s prefix unless it
    /// already has a known one, whose status then wins.
    fn prefixed(id: String, msg: &str, status: EventResultStatus) -> (r: Notice)
        ensures
            rejection(r, id@, msg@, status),
    {
        let msg = ensure_reason(msg, status);
        let status = match parse_reason(msg.as_str()) {
            (Some(prefix), _, true) => match EventResultStatus::from_prefix(prefix) {
                Some(s) => s,
                None => status,
            },
            _ => status,
        };
        Notice::EventResult(EventResult { id, msg, status })
    }

    /// An OK rejection that keeps a known prefix of `msg`, defaulting to
    /// `blocked` when there is none.
    pub fn from_reason(id: String, msg: &str) -> (r: Notice)
        ensures
            rejection(r, id@, msg@, EventResultStatus::Blocked),
    {
        let msg = ensure_reason(msg, EventResultStatus::Blocked);
        let status = match parse_reason(msg.as_str()) {
            (Some(prefix), _, true) => match EventResultStatus::from_prefix(prefix) {
                Some(s) => s,
                None => EventResultStatus::Blocked,
            },
            _ => EventResultStatus::Blocked,
        };
        Notice::EventResult(EventResult { id, msg, status })
    }

    pub fn invalid(id: String, msg: &str) -> (r: Notice)
        ensures
            rejection(r, id@, msg@, EventResultStatus::Invalid),
    {
        Notice::prefixed(id, msg, EventResultStatus::Invalid)
    }

    pub fn blocked(id: String, msg: &str) -> (r: Notice)
        ensures
            rejection(r, id@, msg@, EventResultStatus::Blocked),
    {
        Notice::prefixed(id, msg, EventResultStatus::Blocked)
    }

    pub fn rate_limited(id: String, msg: &str) -> (r: Notice)
        ensures
            rejection(r, id@, msg@, EventResultStatus::RateLimited),
    {
        Notice::prefixed(id, msg, EventResultStatus::RateLimited)
    }

    pub fn auth_required(id: String, msg: &str) -> (r: Notice)
        ensures
            rejection(r, id@, msg@, EventResultStatus::AuthRequired),
    {
        Notice::prefixed(id, msg, EventResultStatus::AuthRequired)
    }

    pub fn duplicate(id: String) -> (r: Notice)
        ensures
            rejection(r, id@, Seq::empty(), EventResultStatus::Duplicate),
    {
        proof {
            reveal_strlit("");
        }
        Notice::prefixed(id, "", EventResultStatus::Duplicate)
    }

    pub fn error(id: String, msg: &str) -> (r: Notice)
        ensures
            rejection(r, id@, msg@, EventResultStatus::Error),
    {
        Notice::prefixed(id, msg, EventResultStatus::Error)
    }

    pub fn restricted(id: String, msg: &str) -> (r: Notice)
        ensures
            rejection(r, id@, msg@, EventResultStatus::Restricted),
    {
        Notice::prefixed(id, msg, EventResultStatus::Restricted)
    }

    pub fn saved(id: String) -> (r: Notice)
        ensures
            is_event_result(r, id@, Seq::empty(), EventResultStatus::Saved),
    {
        let msg = String::new();
        Notice::EventResult(EventResult { id, msg, status: EventResultStatus::Saved })
    }
}

// ---------------------------------------------------------------------
// Laws
// ---------------------------------------------------------------------

/// Every status's prefix maps back to that status.
pub proof fn lemma_prefix_round_trip(s: EventResultStatus)
    ensures
        status_of_prefix(prefix_of(s)) == Some(s),
{
    reveal_strlit("saved");
    reveal_strlit("duplicate");
    reveal_strlit("invalid");
    reveal_strlit("blocked");
    reveal_strlit("rate-limited");
    reveal_strlit("error");
    reveal_strlit("restricted");
    reveal_strlit("auth-required");
    assert("saved"@.len() == 5 && "saved"@[0] == 's');
    assert("duplicate"@.len() == 9);
    assert("invalid"@.len() == 7 && "invalid"@[0] == 'i');
    assert("blocked"@.len() == 7 && "blocked"@[0] == 'b');
    assert("rate-limited"@.len() == 12);
    assert("error"@.len() == 5 && "error"@[0] == 'e');
    assert("restricted"@.len() == 10);
    assert("auth-required"@.len() == 13);
}

/// The prefixes of all statuses but `saved` are known NIP-01 prefixes.
pub proof fn lemma_status_prefix_known(s: EventResultStatus)
    requires
        s != EventResultStatus::Saved,
    ensures
        is_known_prefix(prefix_of(s)),
{
}

/// No status prefix contains a colon.
proof fn lemma_prefix_has_no_colon(s: EventResultStatus)
    ensures
        forall|i: int| 0 <= i < prefix_of(s).len() ==> prefix_of(s)[i] != ':',
        prefix_of(s).len() > 0,
{
    reveal_strlit("saved");
    reveal_strlit("duplicate");
    reveal_strlit("invalid");
    reveal_strlit("blocked");
    reveal_strlit("rate-limited");
    reveal_strlit("error");
    reveal_strlit("restricted");
    reveal_strlit("auth-required");
}

/// In `p + ": " + m`, with no colon in `p`, the first ": " follows `p`.
proof fn lemma_find_sep_after_prefix(p: Seq<char>, m: Seq<char>, i: int)
    requires
        0 <= i <= p.len(),
        forall|j: int| 0 <= j < p.len() ==> p[j] != ':',
    ensures
        find_sep_from(p + ": "@ + m, i) == Some(p.len() as int),
    decreases p.len() - i,
{
    reveal_strlit(": ");
    let s = p + ": "@ + m;
    assert(s[p.len() as int] == ':');
    assert(s[p.len() as int + 1] == ' ');
    if i < p.len() {
        assert(s[i] == p[i]);
        lemma_find_sep_after_prefix(p, m, i + 1);
    }
}

/// "<prefix>: <detail>" splits into that prefix and detail when the prefix
/// is known.
proof fn lemma_split_prefixed(s: EventResultStatus, m: Seq<char>)
    requires
        s != EventResultStatus::Saved,
    ensures
        reason_split(prefix_of(s) + ": "@ + m) == Some((prefix_of(s), m)),
{
    reveal_strlit(": ");
    lemma_prefix_has_no_colon(s);
    lemma_find_sep_after_prefix(prefix_of(s), m, 0);
    let t = prefix_of(s) + ": "@ + m;
    let n = prefix_of(s).len() as int;
    assert(t.take(n) =~= prefix_of(s));
    assert(t.skip(n + 2) =~= m);
}

/// With any fallback but `saved`, the ensured reason carries a known prefix:
/// the message's own when it has one, otherwise the fallback's, with the
/// message (or "rejected") as detail.
pub proof fn lemma_ensured_has_known_prefix(msg: Seq<char>, fallback: EventResultStatus)
    requires
        fallback != EventResultStatus::Saved,
    ensures
        reason_split(ensured(msg, fallback)) is Some,
        msg.len() == 0 ==> reason_split(ensured(msg, fallback)) == Some(
            (prefix_of(fallback), "rejected"@),
        ),
        msg.len() > 0 && reason_split(msg) is None ==> reason_split(ensured(msg, fallback))
            == Some((prefix_of(fallback), msg)),
{
    reveal_strlit(": rejected");
    reveal_strlit(": ");
    reveal_strlit("rejected");
    if msg.len() == 0 {
        assert(prefix_of(fallback) + ": rejected"@ =~= prefix_of(fallback) + ": "@ + "rejected"@);
        lemma_split_prefixed(fallback, "rejected"@);
    } else if reason_split(msg) is None {
        lemma_split_prefixed(fallback, msg);
    }
}

/// Ensuring a prefix twice changes nothing (for fallbacks other than
/// `saved`, whose prefix is not a known one).
pub proof fn lemma_ensure_reason_idempotent(
    msg: Seq<char>,
    fallback: EventResultStatus,
    other: EventResultStatus,
)
    requires
        fallback != EventResultStatus::Saved,
    ensures
        ensured(ensured(msg, fallback), other) == ensured(msg, fallback),
{
    lemma_ensured_has_known_prefix(msg, fallback);
    lemma_prefix_has_no_colon(fallback);
    reveal_strlit(": rejected");
    reveal_strlit(": ");
}

/// A message that already has a known prefix is never prefixed again.
pub proof fn lemma_known_prefix_not_doubled(msg: Seq<char>, fallback: EventResultStatus)
    requires
        reason_split(msg) is Some,
    ensures
        ensured(msg, fallback) == msg,
{
    if msg.len() == 0 {
        assert(find_sep_from(msg, 0) is None);
    }
}

/// The status of a rejection is the one its message's prefix stands for.
pub proof fn lemma_rejection_status_follows_prefix(msg: Seq<char>, fallback: EventResultStatus)
    requires
        fallback != EventResultStatus::Saved,
    ensures
        reason_split(ensured(msg, fallback)) matches Some((p, _)) && status_of_prefix(p) == Some(
            status_for(ensured(msg, fallback), fallback),
        ),
{
    lemma_ensured_has_known_prefix(msg, fallback);
    let (p, _) = reason_split(ensured(msg, fallback)).unwrap();
    reveal_strlit("saved");
    reveal_strlit("duplicate");
    reveal_strlit("invalid");
    reveal_strlit("blocked");
    reveal_strlit("rate-limited");
    reveal_strlit("error");
    reveal_strlit("restricted");
    reveal_strlit("auth-required");
    reveal_strlit("pow");
    reveal_strlit("unsupported");
    assert(is_known_prefix(p));
}

/// A rejection built with any status but `saved` is an OK result whose
/// status is always the one its message's prefix stands for, and is the
/// given status whenever the message had no known prefix of its own.
pub proof fn lemma_rejection_status_matches_message(
    n: Notice,
    id: Seq<char>,
    msg: Seq<char>,
    status: EventResultStatus,
)
    requires
        status != EventResultStatus::Saved,
        rejection(n, id, msg, status),
    ensures
        n matches Notice::EventResult(r) && r.msg@ == ensured(msg, status) && (reason_split(r.msg@)
            matches Some((p, _)) && status_of_prefix(p) == Some(r.status)),
        reason_split(msg) is None ==> (n matches Notice::EventResult(r) && r.status == status),
{
    lemma_rejection_status_follows_prefix(msg, status);
    lemma_ensured_has_known_prefix(msg, status);
    lemma_prefix_round_trip(status);
    if reason_split(msg) is None && msg.len() > 0 {
        assert(reason_split(ensured(msg, status)) == Some((prefix_of(status), msg)));
    }
}

/// Every prefix that stands for a status, other than "saved", is a known
/// NIP-01 prefix ("pow" and "unsupported" among them): a reason that starts
/// with it followed by ": " splits there, is never prefixed again, and a
/// rejection built from it takes the status the prefix stands for.
pub proof fn lemma_status_prefixes_are_known(
    p: Seq<char>,
    m: Seq<char>,
    fallback: EventResultStatus,
)
    requires
        status_of_prefix(p) is Some,
        p != "saved"@,
    ensures
        is_known_prefix(p),
        reason_split(p + ": "@ + m) == Some((p, m)),
        ensured(p + ": "@ + m, fallback) == p + ": "@ + m,
        Some(status_for(p + ": "@ + m, fallback)) == status_of_prefix(p),
{
    reveal_strlit("saved");
    reveal_strlit("duplicate");
    reveal_strlit("invalid");
    reveal_strlit("blocked");
    reveal_strlit("rate-limited");
    reveal_strlit("error");
    reveal_strlit("restricted");
    reveal_strlit("auth-required");
    reveal_strlit("pow");
    reveal_strlit("unsupported");
    reveal_strlit(": ");
    assert(p.len() > 0);
    assert(forall|j: int| 0 <= j < p.len() ==> p[j] != ':');
    lemma_find_sep_after_prefix(p, m, 0);
    let t = p + ": "@ + m;
    assert(t.take(p.len() as int) =~= p);
    assert(t.skip(p.len() as int + 2) =~= m);
    lemma_known_prefix_not_doubled(t, fallback);
}

} // verus!
