//! Read access restricted to the participants of an event: its author and
//! the pubkeys it addresses.

use vstd::prelude::*;
use crate::event::{tag_values, tags_of, Event};
use crate::kind_filters::opt_view;
use crate::text::str_eq;

verus! {

/// `pubkey` is addressed by the event (a `p` tag value).
pub open spec fn receives(tags: Seq<Seq<Seq<char>>>, pubkey: Seq<char>) -> bool {
    tag_values(tags, "p"@).contains(pubkey)
}

fn p_tags_contain(event: &Event, pubkey: &str) -> (r: bool)
    ensures
        r == receives(tags_of(event), pubkey@),
{
    let ps = event.tag_values_by_name("p");
    let n = ps.len();
    let mut i: usize = 0;
    while i < n
        invariant
            n == ps@.len(),
            i <= n,
            ps.deep_view() == tag_values(tags_of(event), "p"@),
            forall|j: int| 0 <= j < i ==> ps.deep_view()[j] != pubkey@,
        decreases n - i,
    {
        if str_eq(ps[i].as_str(), pubkey) {
            assert(ps.deep_view()[i as int] == pubkey@);
            return true;
        }
        i = i + 1;
    }
    assert(!ps.deep_view().contains(pubkey@));
    false
}

/// Whether `pubkey` is a receiver of the event. Direct messages (kinds 4,
/// 44 and 1059), text notes (1), reposts (6) and every other kind name their
/// receivers in `p` tags.
pub fn is_receiver(event: &Event, pubkey: &str) -> (r: bool)
    ensures
        r == receives(tags_of(event), pubkey@),
{
    match event.kind {
        4 | 44 | 1059 => p_tags_contain(event, pubkey),
        1 => p_tags_contain(event, pubkey),
        6 => p_tags_contain(event, pubkey),
        _ => p_tags_contain(event, pubkey),
    }
}

/// A direct-message kind.
pub open spec fn is_dm_kind(kind: u64) -> bool {
    kind == 4 || kind == 44 || kind == 1059
}

/// Whether an event may be sent to a client: an event that could not be
/// read is never sent; a restricted kind only to its authenticated author
/// or receivers; with NIP-42 DMs, a direct message only when the
/// authenticated pubkey is its first `p` value or its author; everything
/// else is sent.
pub open spec fn may_send(
    event: Option<(u64, Seq<char>, Seq<Seq<Seq<char>>>)>,
    auth: Option<Seq<char>>,
    restricted_read_kinds: Option<Seq<u64>>,
    nip42_dms: bool,
) -> bool {
    match event {
        None => false,
        Some((kind, pubkey, tags)) => {
            if restricted_read_kinds matches Some(rk) && rk.contains(kind) {
                match auth {
                    Some(a) => a == pubkey || receives(tags, a),
                    None => false,
                }
            } else if nip42_dms {
                if is_dm_kind(kind) {
                    let ps = tag_values(tags, "p"@);
                    match auth {
                        Some(a) => ps.len() > 0 && (ps[0] == a || pubkey == a),
                        None => false,
                    }
                } else {
                    true
                }
            } else {
                true
            }
        },
    }
}

/// The parts of an event that read access looks at.
pub open spec fn event_parts(event: Option<&Event>) -> Option<(u64, Seq<char>, Seq<Seq<Seq<char>>>)> {
    match event {
        Some(e) => Some((e.kind, e.pubkey@, tags_of(e))),
        None => None,
    }
}

fn kinds_contain(kinds: &Vec<u64>, kind: u64) -> (r: bool)
    ensures
        r == kinds@.contains(kind),
{
    let n = kinds.len();
    let mut i: usize = 0;
    while i < n
        invariant
            n == kinds@.len(),
            i <= n,
            forall|j: int| 0 <= j < i ==> kinds@[j] != kind,
        decreases n - i,
    {
        if kinds[i] == kind {
            assert(kinds@[i as int] == kind);
            return true;
        }
        i = i + 1;
    }
    false
}

/// Whether an event (`None` when it could not be read) may be sent to a
/// client authenticated as `auth_pubkey`.
pub fn allowed_to_send(
    event: Option<&Event>,
    auth_pubkey: Option<&str>,
    restricted_read_kinds: Option<&Vec<u64>>,
    nip42_dms: bool,
) -> (r: bool)
    ensures
        r == may_send(
            event_parts(event),
            opt_view(auth_pubkey),
            match restricted_read_kinds {
                Some(k) => Some(k@),
                None => None,
            },
            nip42_dms,
        ),
{
    let event = match event {
        Some(e) => e,
        None => {
            return false;
        },
    };
    if let Some(restricted_kinds) = restricted_read_kinds {
        if kinds_contain(restricted_kinds, event.kind) {
            match auth_pubkey {
                Some(auth_pk) => {
                    if str_eq(auth_pk, event.pubkey.as_str()) {
                        return true;
                    }
                    if is_receiver(event, auth_pk) {
                        return true;
                    }
                    return false;
                },
                None => {
                    return false;
                },
            }
        }
    }
    if nip42_dms {
        if event.kind == 4 || event.kind == 44 || event.kind == 1059 {
            let ps = event.tag_values_by_name("p");
            match auth_pubkey {
                Some(auth_pk) => {
                    if ps.len() > 0 {
                        let recipient = ps[0].as_str();
                        return str_eq(recipient, auth_pk) || str_eq(event.pubkey.as_str(), auth_pk);
                    }
                    return false;
                },
                None => {
                    return false;
                },
            }
        } else {
            return true;
        }
    }
    true
}

/// The authenticated author of an event of a restricted kind may read it.
pub proof fn lemma_author_reads_restricted_kind(
    kind: u64,
    pubkey: Seq<char>,
    tags: Seq<Seq<Seq<char>>>,
    restricted: Seq<u64>,
    nip42_dms: bool,
)
    requires
        restricted.contains(kind),
    ensures
        may_send(Some((kind, pubkey, tags)), Some(pubkey), Some(restricted), nip42_dms),
{
}

/// An unauthenticated client never receives an event of a restricted kind.
pub proof fn lemma_restricted_kind_needs_auth(
    kind: u64,
    pubkey: Seq<char>,
    tags: Seq<Seq<Seq<char>>>,
    restricted: Seq<u64>,
    nip42_dms: bool,
)
    requires
        restricted.contains(kind),
    ensures
        !may_send(Some((kind, pubkey, tags)), None, Some(restricted), nip42_dms),
{
}

} // verus!
