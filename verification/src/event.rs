//! The nostr event as the policy code sees it, with the tag queries it uses.

use vstd::prelude::*;
use vstd::string::*;
use std::collections::HashMap;
use std::collections::HashSet;
use crate::text::{parse_unsigned, parse_unsigned_str, str_eq};

verus! {

/// A nostr event (NIP-01).
pub struct Event {
    pub id: String,
    pub pubkey: String,
    pub delegated_by: Option<String>,
    pub created_at: u64,
    pub kind: u64,
    pub tags: Vec<Vec<String>>,
    pub content: String,
    pub sig: String,
    pub tagidx: Option<HashMap<char, HashSet<String>>>,
}

/// The tags of an event as character sequences.
pub open spec fn tags_of(e: &Event) -> Seq<Seq<Seq<char>>> {
    e.tags.deep_view()
}

/// Second elements of the tags whose name (first element) is `name`,
/// in tag order; tags with fewer than two elements are skipped.
pub open spec fn tag_values(tags: Seq<Seq<Seq<char>>>, name: Seq<char>) -> Seq<Seq<char>>
    decreases tags.len(),
{
    if tags.len() == 0 {
        Seq::empty()
    } else {
        let rest = tag_values(tags.drop_last(), name);
        let t = tags.last();
        if t.len() > 1 && t[0] == name {
            rest.push(t[1])
        } else {
            rest
        }
    }
}

/// The value of the first tag named `expiration` (empty when that tag has
/// no value), if there is such a tag.
pub open spec fn expiration_value(tags: Seq<Seq<Seq<char>>>) -> Option<Seq<char>>
    decreases tags.len(),
{
    if tags.len() == 0 {
        None
    } else if tags[0].len() > 0 && tags[0][0] == "expiration"@ {
        Some(
            if tags[0].len() > 1 {
                tags[0][1]
            } else {
                Seq::empty()
            },
        )
    } else {
        expiration_value(tags.skip(1))
    }
}

/// The NIP-40 expiration timestamp: the value of the first `expiration`
/// tag read as a `u64`, if it parses.
pub open spec fn expiration_of(tags: Seq<Seq<Seq<char>>>) -> Option<int> {
    match expiration_value(tags) {
        Some(v) => parse_unsigned(v, u64::MAX as int),
        None => None,
    }
}

impl Event {
    /// Values of all tags named `tag_name` (their second element).
    pub fn tag_values_by_name(&self, tag_name: &str) -> (r: Vec<String>)
        ensures
            r.deep_view() == tag_values(tags_of(self), tag_name@),
    {
        let n = self.tags.len();
        let mut r: Vec<String> = Vec::new();
        let mut i: usize = 0;
        while i < n
            invariant
                n == self.tags@.len(),
                i <= n,
                r.deep_view() == tag_values(tags_of(self).take(i as int), tag_name@),
            decreases n - i,
        {
            let ghost tv = tags_of(self).take(i + 1);
            assert(tv.drop_last() =~= tags_of(self).take(i as int));
            let tag = &self.tags[i];
            assert(tv.last() == tag.deep_view());
            if tag.len() > 1 && str_eq(tag[0].as_str(), tag_name) {
                let v = tag[1].clone();
                r.push(v);
                assert(r.deep_view() =~= tag_values(tags_of(self).take(i as int), tag_name@).push(
                    tag.deep_view()[1],
                ));
            }
            i = i + 1;
        }
        assert(tags_of(self).take(n as int) =~= tags_of(self));
        r
    }

    /// The NIP-40 expiration timestamp of the event, if it has one that parses.
    pub fn expiration(&self) -> (r: Option<u64>)
        ensures
            match r {
                Some(x) => expiration_of(tags_of(self)) == Some(x as int),
                None => expiration_of(tags_of(self)) is None,
            },
    {
        match self.expiration_tag_value() {
            Some(v) => parse_unsigned_str(v, u64::MAX),
            None => None,
        }
    }

    /// The value of the first `expiration` tag ("" when it has none).
    pub(crate) fn expiration_tag_value(&self) -> (r: Option<&str>)
        ensures
            match r {
                Some(v) => expiration_value(tags_of(self)) == Some(v@),
                None => expiration_value(tags_of(self)) is None,
            },
    {
        let n = self.tags.len();
        let mut i: usize = 0;
        assert(tags_of(self).skip(0) =~= tags_of(self));
        while i < n
            invariant
                n == self.tags@.len(),
                i <= n,
                expiration_value(tags_of(self)) == expiration_value(tags_of(self).skip(i as int)),
            decreases n - i,
        {
            let tag = &self.tags[i];
            let ghost ts = tags_of(self).skip(i as int);
            assert(ts[0] == tag.deep_view());
            if tag.len() > 0 && str_eq(tag[0].as_str(), "expiration") {
                if tag.len() > 1 {
                    return Some(tag[1].as_str());
                } else {
                    proof {
                        reveal_strlit("");
                    }
                    assert(""@ =~= Seq::<char>::empty());
                    return Some("");
                }
            }
            assert(ts.skip(1) =~= tags_of(self).skip(i + 1));
            i = i + 1;
        }
        None
    }
}

} // verus!
