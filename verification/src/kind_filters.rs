//! Kind filter evaluation: access rules, tag requirements, expiration
//! windows, the global kind lists and rejection message templates.

use vstd::prelude::*;
use vstd::string::*;
use crate::config::{
    AccessRule, AccessRuleView, KindFilters, TagRequirement, WriteReadConfig,
};
use crate::event::{expiration_of, expiration_value, tag_values, tags_of, Event};
use crate::text::{decimal, decimal_string, is_hex64, is_hex64_str, replace_all, replace_str, str_eq};
use crate::utils::{unix_time, TimeSpan};

verus! {

/// An optional string slice as an optional character sequence.
pub open spec fn opt_view(o: Option<&str>) -> Option<Seq<char>> {
    match o {
        Some(s) => Some(s@),
        None => None,
    }
}

// ---------------------------------------------------------------------
// Identifiers and access rules
// ---------------------------------------------------------------------

/// Whether the identifier `id` of an access rule matches: a 64-character
/// hex pubkey matches the event author or the authenticated pubkey;
/// "private_server_hex" matches when the authenticated pubkey is the
/// server's; nothing else matches.
pub open spec fn identifier_matches(
    id: Seq<char>,
    pubkey: Seq<char>,
    auth: Option<Seq<char>>,
    server: Option<Seq<char>>,
) -> bool {
    if is_hex64(id) {
        pubkey == id || auth == Some(id)
    } else if id == "private_server_hex"@ {
        auth is Some && server is Some && auth == server
    } else {
        false
    }
}

/// Evaluates one identifier of an access rule.
pub fn evaluate_access_identifier(
    identifier: &str,
    event: &Event,
    auth_pubkey: Option<&str>,
    server_pubkey: Option<&str>,
) -> (r: bool)
    ensures
        r == identifier_matches(identifier@, event.pubkey@, opt_view(auth_pubkey), opt_view(server_pubkey)),
{
    if is_hex64_str(identifier) {
        if str_eq(event.pubkey.as_str(), identifier) {
            return true;
        }
        if let Some(auth_pk) = auth_pubkey {
            if str_eq(auth_pk, identifier) {
                return true;
            }
        }
        return false;
    }
    if str_eq(identifier, "private_server_hex") {
        if let (Some(auth_pk), Some(server_pk)) = (auth_pubkey, server_pubkey) {
            return str_eq(auth_pk, server_pk);
        }
        return false;
    }
    false
}

/// Whether a rule admits: everyone, nobody, or a listed identifier that matches.
pub open spec fn rule_allows(
    rule: AccessRuleView,
    pubkey: Seq<char>,
    auth: Option<Seq<char>>,
    server: Option<Seq<char>>,
) -> bool {
    match rule {
        AccessRuleView::All => true,
        AccessRuleView::Nobody => false,
        AccessRuleView::List(ids) => list_allows(ids, pubkey, auth, server),
    }
}

/// Some listed identifier matches.
pub open spec fn list_allows(
    ids: Seq<Seq<char>>,
    pubkey: Seq<char>,
    auth: Option<Seq<char>>,
    server: Option<Seq<char>>,
) -> bool {
    exists|i: int| 0 <= i < ids.len() && #[trigger] identifier_matches(ids[i], pubkey, auth, server)
}

/// Checks whether an access rule allows the event.
pub fn check_access_rule(
    rule: &AccessRule,
    event: &Event,
    auth_pubkey: Option<&str>,
    server_pubkey: Option<&str>,
) -> (r: bool)
    ensures
        r == rule_allows(rule@, event.pubkey@, opt_view(auth_pubkey), opt_view(server_pubkey)),
{
    match rule {
        AccessRule::All => true,
        AccessRule::Nobody => false,
        AccessRule::List(identifiers) => {
            let n = identifiers.len();
            let mut i: usize = 0;
            while i < n
                invariant
                    n == identifiers@.len(),
                    i <= n,
                    rule@ == AccessRuleView::List(identifiers.deep_view()),
                    forall|j: int|
                        0 <= j < i ==> !#[trigger] identifier_matches(
                            identifiers.deep_view()[j],
                            event.pubkey@,
                            opt_view(auth_pubkey),
                            opt_view(server_pubkey),
                        ),
                decreases n - i,
            {
                if evaluate_access_identifier(
                    identifiers[i].as_str(),
                    event,
                    auth_pubkey,
                    server_pubkey,
                ) {
                    assert(identifier_matches(
                        identifiers.deep_view()[i as int],
                        event.pubkey@,
                        opt_view(auth_pubkey),
                        opt_view(server_pubkey),
                    ));
                    return true;
                }
                i = i + 1;
            }
            false
        },
    }
}

/// Privileged read: the authenticated pubkey is the author or a `p` tag value.
pub open spec fn privileged_read_allows(
    pubkey: Seq<char>,
    tags: Seq<Seq<Seq<char>>>,
    auth: Option<Seq<char>>,
) -> bool {
    match auth {
        None => false,
        Some(a) => pubkey == a || tag_values(tags, "p"@).contains(a),
    }
}

/// NIP-42 AUTH required; the authenticated pubkey must be the event author
/// or listed in a "p" tag.
pub fn check_privileged_read(event: &Event, auth_pubkey: Option<&str>) -> (r: bool)
    ensures
        r == privileged_read_allows(event.pubkey@, tags_of(event), opt_view(auth_pubkey)),
{
    let auth_pk = match auth_pubkey {
        Some(a) => a,
        None => {
            return false;
        },
    };
    if str_eq(event.pubkey.as_str(), auth_pk) {
        return true;
    }
    let ps = event.tag_values_by_name("p");
    let n = ps.len();
    let mut i: usize = 0;
    while i < n
        invariant
            n == ps@.len(),
            i <= n,
            opt_view(auth_pubkey) == Some(auth_pk@),
            ps.deep_view() == tag_values(tags_of(event), "p"@),
            forall|j: int| 0 <= j < i ==> ps.deep_view()[j] != auth_pk@,
        decreases n - i,
    {
        if str_eq(ps[i].as_str(), auth_pk) {
            assert(ps.deep_view()[i as int] == auth_pk@);
            return true;
        }
        i = i + 1;
    }
    assert(!ps.deep_view().contains(auth_pk@));
    false
}

/// What a write/read section decides, in this order: a configured script
/// that did not allow denies; a matching deny rule denies; on a privileged
/// read an explicit allow list match or privileged read access decides;
/// otherwise the allow rule decides.
pub open spec fn write_read_allows(
    config: WriteReadConfig,
    pubkey: Seq<char>,
    tags: Seq<Seq<Seq<char>>>,
    auth: Option<Seq<char>>,
    server: Option<Seq<char>>,
    is_read: bool,
    script_allows: bool,
) -> bool {
    if config.script is Some && !script_allows {
        false
    } else if rule_allows(config.deny@, pubkey, auth, server) {
        false
    } else if is_read && config.privileged {
        (!(config.allow@ is All) && rule_allows(config.allow@, pubkey, auth, server))
            || privileged_read_allows(pubkey, tags, auth)
    } else {
        rule_allows(config.allow@, pubkey, auth, server)
    }
}

/// Checks whether a write/read section allows the event. `script_allows`
/// tells whether the section's script, when it has one, ran and exited
/// with status 0 (running it is the caller's part).
pub fn check_write_read_config(
    config: &WriteReadConfig,
    event: &Event,
    auth_pubkey: Option<&str>,
    server_pubkey: Option<&str>,
    is_read: bool,
    script_allows: bool,
) -> (r: bool)
    ensures
        r == write_read_allows(
            *config,
            event.pubkey@,
            tags_of(event),
            opt_view(auth_pubkey),
            opt_view(server_pubkey),
            is_read,
            script_allows,
        ),
{
    if config.script.is_some() && !script_allows {
        return false;
    }
    let denied = check_access_rule(&config.deny, event, auth_pubkey, server_pubkey);
    if denied {
        return false;
    }
    let allowed = check_access_rule(&config.allow, event, auth_pubkey, server_pubkey);
    if is_read && config.privileged {
        let allow_is_all = match config.allow {
            AccessRule::All => true,
            _ => false,
        };
        if !allow_is_all && allowed {
            return true;
        }
        return check_privileged_read(event, auth_pubkey);
    }
    allowed
}

// ---------------------------------------------------------------------
// Tag requirements
// ---------------------------------------------------------------------

/// Some value is a 64-character hex string.
pub open spec fn any_hex64(vals: Seq<Seq<char>>) -> bool {
    exists|j: int| 0 <= j < vals.len() && #[trigger] is_hex64(vals[j])
}

/// Whether the values of tag `name` meet a requirement.
pub open spec fn tag_requirement_met(
    tags: Seq<Seq<Seq<char>>>,
    name: Seq<char>,
    requirement: TagRequirement,
) -> bool {
    match requirement {
        TagRequirement::NotRequired => true,
        TagRequirement::Required => tag_values(tags, name).len() > 0,
        TagRequirement::RequiredHex => any_hex64(tag_values(tags, name)),
    }
}

fn has_hex64(vals: &Vec<String>) -> (r: bool)
    ensures
        r == any_hex64(vals.deep_view()),
{
    let n = vals.len();
    let mut i: usize = 0;
    while i < n
        invariant
            n == vals@.len(),
            i <= n,
            forall|j: int| 0 <= j < i ==> !#[trigger] is_hex64(vals.deep_view()[j]),
        decreases n - i,
    {
        if is_hex64_str(vals[i].as_str()) {
            assert(is_hex64(vals.deep_view()[i as int]));
            return true;
        }
        i = i + 1;
    }
    false
}

fn validate_tag(event: &Event, name: &str, requirement: &TagRequirement) -> (r: bool)
    ensures
        r == tag_requirement_met(tags_of(event), name@, *requirement),
{
    match requirement {
        TagRequirement::NotRequired => true,
        TagRequirement::Required => event.tag_values_by_name(name).len() > 0,
        TagRequirement::RequiredHex => {
            let vals = event.tag_values_by_name(name);
            vals.len() > 0 && has_hex64(&vals)
        },
    }
}

/// Validates the `d` tag requirement.
pub fn validate_d_tag(event: &Event, requirement: &TagRequirement) -> (r: bool)
    ensures
        r == tag_requirement_met(tags_of(event), "d"@, *requirement),
{
    validate_tag(event, "d", requirement)
}

/// Validates the `p` tag requirement.
pub fn validate_p_tag(event: &Event, requirement: &TagRequirement) -> (r: bool)
    ensures
        r == tag_requirement_met(tags_of(event), "p"@, *requirement),
{
    validate_tag(event, "p", requirement)
}

/// The first required tag name that the event lacks.
pub open spec fn first_missing_tag(tags: Seq<Seq<Seq<char>>>, names: Seq<Seq<char>>) -> Option<
    Seq<char>,
>
    decreases names.len(),
{
    if names.len() == 0 {
        None
    } else if tag_values(tags, names[0]).len() == 0 {
        Some(names[0])
    } else {
        first_missing_tag(tags, names.skip(1))
    }
}

/// Checks that every required tag name is present (with any value).
pub fn validate_required_tags(event: &Event, required_tags: &[String]) -> (r: Result<(), String>)
    ensures
        match r {
            Ok(()) => first_missing_tag(tags_of(event), required_tags.deep_view()) is None,
            Err(e) => first_missing_tag(tags_of(event), required_tags.deep_view()) matches Some(
                name,
            ) && e@ == "missing required tag: "@ + name,
        },
{
    let n = required_tags.len();
    let mut i: usize = 0;
    assert(required_tags.deep_view().skip(0) =~= required_tags.deep_view());
    while i < n
        invariant
            n == required_tags@.len(),
            i <= n,
            first_missing_tag(tags_of(event), required_tags.deep_view()) == first_missing_tag(
                tags_of(event),
                required_tags.deep_view().skip(i as int),
            ),
        decreases n - i,
    {
        let ghost rest = required_tags.deep_view().skip(i as int);
        assert(rest[0] == required_tags[i as int]@);
        let name = required_tags[i].as_str();
        if event.tag_values_by_name(name).len() == 0 {
            let mut msg = "missing required tag: ".to_owned();
            msg.append(name);
            return Err(msg);
        }
        assert(rest.skip(1) =~= required_tags.deep_view().skip(i + 1));
        i = i + 1;
    }
    Ok(())
}

// ---------------------------------------------------------------------
// Expiration window (NIP-40)
// ---------------------------------------------------------------------

/// The verdict on an event's `expiration` tag, `max_secs` after `now`: no
/// tag passes; a value that is not a `u64` fails; a value later than
/// `now + max_secs` fails.
pub open spec fn expiration_window_result(
    tags: Seq<Seq<Seq<char>>>,
    max_secs: int,
    now: int,
) -> Result<(), Seq<char>> {
    if expiration_value(tags) is None {
        Ok(())
    } else {
        match expiration_of(tags) {
            None => Err("expiration tag is not a valid timestamp"@),
            Some(exp) => if exp > now + max_secs {
                Err("expiration exceeds max_expiry_duration"@)
            } else {
                Ok(())
            },
        }
    }
}

/// The spec verdict with its message as a `String` view.
pub open spec fn window_result_matches(r: Result<(), String>, expected: Result<(), Seq<char>>) -> bool {
    match r {
        Ok(()) => expected is Ok,
        Err(e) => expected == Err::<(), Seq<char>>(e@),
    }
}

/// Validates the `expiration` tag against a window of `max_secs` seconds
/// after the time `now` (seconds since the Unix epoch).
pub fn validate_expiration_window_at(event: &Event, max_secs: u64, now: u64) -> (r: Result<(), String>)
    ensures
        window_result_matches(r, expiration_window_result(tags_of(event), max_secs as int, now as int)),
{
    if event.expiration_tag_value().is_none() {
        return Ok(());
    }
    let event_exp = match event.expiration() {
        Some(x) => x,
        None => {
            return Err("expiration tag is not a valid timestamp".to_owned());
        },
    };
    let max_allowed = now.saturating_add(max_secs);
    if event_exp > max_allowed {
        return Err("expiration exceeds max_expiry_duration".to_owned());
    }
    Ok(())
}

/// Validates the NIP-40 `expiration` tag against `max_duration` from now.
/// The current time comes from the clock, so the verdict is the one of
/// `validate_expiration_window_at` for the window's whole seconds and some
/// current time.
pub fn validate_expiration_window(event: &Event, max_duration: TimeSpan) -> (r: Result<(), String>)
    ensures
        exists|now: u64|
            window_result_matches(
                r,
                expiration_window_result(tags_of(event), max_duration.secs as int, now as int),
            ),
        expiration_value(tags_of(event)) is None ==> r is Ok,
        expiration_value(tags_of(event)) is Some && expiration_of(tags_of(event)) is None ==> (r
            matches Err(e) && e@ == "expiration tag is not a valid timestamp"@),
{
    let now = unix_time();
    validate_expiration_window_at(event, max_duration.as_secs(), now)
}

// ---------------------------------------------------------------------
// Global kind whitelist / blacklist
// ---------------------------------------------------------------------

/// Why a kind was rejected by the global whitelist/blacklist.
#[derive(Debug, Clone, Copy, PartialEq, Eq, Structural)]
pub enum KindDenyReason {
    NotInWhitelist,
    Blacklisted,
}

/// The verdict of the global lists: a whitelist, when present, admits
/// exactly its kinds; otherwise a blacklist rejects its kinds; with
/// neither every kind passes.
pub open spec fn kind_verdict(
    kind: u64,
    whitelist: Option<Seq<u64>>,
    blacklist: Option<Seq<u64>>,
) -> Result<(), KindDenyReason> {
    match whitelist {
        Some(w) => if w.contains(kind) {
            Ok(())
        } else {
            Err(KindDenyReason::NotInWhitelist)
        },
        None => match blacklist {
            Some(b) => if b.contains(kind) {
                Err(KindDenyReason::Blacklisted)
            } else {
                Ok(())
            },
            None => Ok(()),
        },
    }
}

fn list_contains(list: &Vec<u64>, kind: u64) -> (r: bool)
    ensures
        r == list@.contains(kind),
{
    let n = list.len();
    let mut i: usize = 0;
    while i < n
        invariant
            n == list@.len(),
            i <= n,
            forall|j: int| 0 <= j < i ==> list@[j] != kind,
        decreases n - i,
    {
        if list[i] == kind {
            assert(list@[i as int] == kind);
            return true;
        }
        i = i + 1;
    }
    false
}

/// Checks a kind against the global whitelist/blacklist.
pub fn check_kind_allowed(kind: u64, filters: &KindFilters) -> (r: Result<(), KindDenyReason>)
    ensures
        r == kind_verdict(kind, filters.whitelist.deep_view(), filters.blacklist.deep_view()),
{
    if let Some(whitelist) = &filters.whitelist {
        assert(whitelist.deep_view() =~= whitelist@);
        if list_contains(whitelist, kind) {
            return Ok(());
        }
        return Err(KindDenyReason::NotInWhitelist);
    }
    if let Some(blacklist) = &filters.blacklist {
        assert(blacklist.deep_view() =~= blacklist@);
        if list_contains(blacklist, kind) {
            return Err(KindDenyReason::Blacklisted);
        }
        return Ok(());
    }
    Ok(())
}

/// Whether a kind passes the global whitelist/blacklist.
pub fn is_kind_allowed(kind: u64, filters: &KindFilters) -> (r: bool)
    ensures
        r == kind_verdict(kind, filters.whitelist.deep_view(), filters.blacklist.deep_view()) is Ok,
{
    check_kind_allowed(kind, filters).is_ok()
}

// ---------------------------------------------------------------------
// Rejection message templates
// ---------------------------------------------------------------------

/// Placeholders available in kinds.json error overrides.
#[derive(Debug, Clone)]
pub struct ErrorPlaceholders {
    pub kind: Option<u64>,
    pub tag: Option<String>,
    pub size: Option<usize>,
    pub limit: Option<usize>,
    pub detail: Option<String>,
}

impl Default for ErrorPlaceholders {
    fn default() -> (r: Self)
        ensures
            r.kind is None,
            r.tag is None,
            r.size is None,
            r.limit is None,
            r.detail is None,
    {
        ErrorPlaceholders { kind: None, tag: None, size: None, limit: None, detail: None }
    }
}

/// `t` with `pat` replaced by `rep` when `rep` is given.
pub open spec fn replace_if(t: Seq<char>, pat: Seq<char>, rep: Option<Seq<char>>) -> Seq<char> {
    match rep {
        Some(r) => replace_all(t, pat, r),
        None => t,
    }
}

pub open spec fn decimal_opt(n: Option<int>) -> Option<Seq<char>> {
    match n {
        Some(v) => Some(decimal(v as nat)),
        None => None,
    }
}

/// The template with `{kind}`, `{tag}`, `{size}`, `{limit}` and `{detail}`
/// replaced, in this order, by the placeholders that are given.
pub open spec fn substituted(t: Seq<char>, p: ErrorPlaceholders) -> Seq<char> {
    let t1 = replace_if(
        t,
        "{kind}"@,
        decimal_opt(
            match p.kind {
                Some(k) => Some(k as int),
                None => None,
            },
        ),
    );
    let t2 = replace_if(t1, "{tag}"@, p.tag.deep_view());
    let t3 = replace_if(
        t2,
        "{size}"@,
        decimal_opt(
            match p.size {
                Some(k) => Some(k as int),
                None => None,
            },
        ),
    );
    let t4 = replace_if(
        t3,
        "{limit}"@,
        decimal_opt(
            match p.limit {
                Some(k) => Some(k as int),
                None => None,
            },
        ),
    );
    replace_if(t4, "{detail}"@, p.detail.deep_view())
}

/// Substitutes the known placeholders in an error template.
pub fn substitute_placeholders(template: &str, placeholders: &ErrorPlaceholders) -> (r: String)
    ensures
        r@ == substituted(template@, *placeholders),
{
    proof {
        reveal_strlit("{kind}");
        reveal_strlit("{tag}");
        reveal_strlit("{size}");
        reveal_strlit("{limit}");
        reveal_strlit("{detail}");
    }
    let mut out = template.to_owned();
    if let Some(kind) = placeholders.kind {
        let k = decimal_string(kind);
        out = replace_str(out.as_str(), "{kind}", k.as_str());
    }
    if let Some(tag) = &placeholders.tag {
        out = replace_str(out.as_str(), "{tag}", tag.as_str());
    }
    if let Some(size) = placeholders.size {
        let k = decimal_string(size as u64);
        out = replace_str(out.as_str(), "{size}", k.as_str());
    }
    if let Some(limit) = placeholders.limit {
        let k = decimal_string(limit as u64);
        out = replace_str(out.as_str(), "{limit}", k.as_str());
    }
    if let Some(detail) = &placeholders.detail {
        out = replace_str(out.as_str(), "{detail}", detail.as_str());
    }
    out
}

/// The template in effect: the kind override, else the global override,
/// else the default.
pub open spec fn template_of(
    default: Seq<char>,
    kind_override: Option<Seq<char>>,
    global_override: Option<Seq<char>>,
) -> Seq<char> {
    match kind_override {
        Some(t) => t,
        None => match global_override {
            Some(t) => t,
            None => default,
        },
    }
}

/// Resolves an error message: picks the template, then substitutes.
pub fn resolve_error_message(
    default: &str,
    kind_override: Option<&str>,
    global_override: Option<&str>,
    placeholders: &ErrorPlaceholders,
) -> (r: String)
    ensures
        r@ == substituted(
            template_of(default@, opt_view(kind_override), opt_view(global_override)),
            *placeholders,
        ),
{
    let template = match kind_override {
        Some(t) => t,
        None => match global_override {
            Some(t) => t,
            None => default,
        },
    };
    substitute_placeholders(template, placeholders)
}

// ---------------------------------------------------------------------
// Laws
// ---------------------------------------------------------------------

/// A configured script that does not allow the event denies it, whatever
/// the rules say.
pub proof fn lemma_script_denial_is_final(
    config: WriteReadConfig,
    pubkey: Seq<char>,
    tags: Seq<Seq<Seq<char>>>,
    auth: Option<Seq<char>>,
    server: Option<Seq<char>>,
    is_read: bool,
)
    requires
        config.script is Some,
    ensures
        !write_read_allows(config, pubkey, tags, auth, server, is_read, false),
{
}

/// A matching deny rule takes precedence over allow rules and privileged
/// read access.
pub proof fn lemma_deny_takes_precedence(
    config: WriteReadConfig,
    pubkey: Seq<char>,
    tags: Seq<Seq<Seq<char>>>,
    auth: Option<Seq<char>>,
    server: Option<Seq<char>>,
    is_read: bool,
    script_allows: bool,
)
    requires
        rule_allows(config.deny@, pubkey, auth, server),
    ensures
        !write_read_allows(config, pubkey, tags, auth, server, is_read, script_allows),
{
}

/// On a privileged read, an unauthenticated client is denied unless an
/// explicit allow list grants it.
pub proof fn lemma_privileged_read_needs_auth(
    config: WriteReadConfig,
    pubkey: Seq<char>,
    tags: Seq<Seq<Seq<char>>>,
    server: Option<Seq<char>>,
    script_allows: bool,
)
    requires
        config.privileged,
        !(config.allow@ is List && rule_allows(config.allow@, pubkey, None, server)),
    ensures
        !write_read_allows(config, pubkey, tags, None, server, true, script_allows),
{
}

/// `allow: "*"` does not bypass privileged read: with it, a privileged
/// read admits exactly the authenticated author and p-tagged pubkeys (when
/// no script or deny rule refuses first).
pub proof fn lemma_allow_all_keeps_privileged(
    config: WriteReadConfig,
    pubkey: Seq<char>,
    tags: Seq<Seq<Seq<char>>>,
    auth: Option<Seq<char>>,
    server: Option<Seq<char>>,
    script_allows: bool,
)
    requires
        config.privileged,
        config.allow@ is All,
        config.script is None || script_allows,
        !rule_allows(config.deny@, pubkey, auth, server),
    ensures
        write_read_allows(config, pubkey, tags, auth, server, true, script_allows)
            == privileged_read_allows(pubkey, tags, auth),
{
}

/// On a privileged read, an authenticated pubkey listed in the allow rule
/// may read though it is neither the author nor p-tagged.
pub proof fn lemma_allow_list_extends_privileged_read(
    config: WriteReadConfig,
    pubkey: Seq<char>,
    tags: Seq<Seq<Seq<char>>>,
    reader: Seq<char>,
    server: Option<Seq<char>>,
    script_allows: bool,
)
    requires
        config.privileged,
        config.allow@ matches AccessRuleView::List(ids) && ids.contains(reader),
        is_hex64(reader),
        config.script is None || script_allows,
        !rule_allows(config.deny@, pubkey, Some(reader), server),
    ensures
        write_read_allows(config, pubkey, tags, Some(reader), server, true, script_allows),
{
    let ids = config.allow@->List_0;
    let i = choose|i: int| 0 <= i < ids.len() && ids[i] == reader;
    assert(identifier_matches(ids[i], pubkey, Some(reader), server));
}

/// Privileged read access is ignored on writes: the allow rule decides.
pub proof fn lemma_privileged_ignored_on_write(
    config: WriteReadConfig,
    pubkey: Seq<char>,
    tags: Seq<Seq<Seq<char>>>,
    auth: Option<Seq<char>>,
    server: Option<Seq<char>>,
    script_allows: bool,
)
    requires
        config.script is None || script_allows,
    ensures
        write_read_allows(config, pubkey, tags, auth, server, false, script_allows) == (!rule_allows(
            config.deny@,
            pubkey,
            auth,
            server,
        ) && rule_allows(config.allow@, pubkey, auth, server)),
{
}

/// The authenticated author of an event always passes privileged read.
pub proof fn lemma_author_passes_privileged_read(pubkey: Seq<char>, tags: Seq<Seq<Seq<char>>>)
    ensures
        privileged_read_allows(pubkey, tags, Some(pubkey)),
{
}

/// When a whitelist is present it alone decides; the blacklist is ignored.
pub proof fn lemma_whitelist_takes_precedence(
    kind: u64,
    whitelist: Seq<u64>,
    blacklist: Option<Seq<u64>>,
    other_blacklist: Option<Seq<u64>>,
)
    ensures
        kind_verdict(kind, Some(whitelist), blacklist) == kind_verdict(
            kind,
            Some(whitelist),
            other_blacklist,
        ),
        kind_verdict(kind, Some(whitelist), blacklist) is Ok <==> whitelist.contains(kind),
{
}

/// With neither a whitelist nor a blacklist every kind is allowed.
pub proof fn lemma_no_lists_allow_every_kind(kind: u64)
    ensures
        kind_verdict(kind, None, None) is Ok,
{
}

/// A blacklist (without a whitelist) rejects exactly its kinds.
pub proof fn lemma_blacklist_rejects_its_kinds(kind: u64, blacklist: Seq<u64>)
    ensures
        kind_verdict(kind, None, Some(blacklist)) is Err <==> blacklist.contains(kind),
{
}

/// A template is left as it is when no placeholder value is given.
pub proof fn lemma_no_placeholders_keep_template(t: Seq<char>, p: ErrorPlaceholders)
    requires
        p.kind is None,
        p.tag is None,
        p.size is None,
        p.limit is None,
        p.detail is None,
    ensures
        substituted(t, p) == t,
{
}

/// Events without an `expiration` tag pass the expiration window, whatever
/// the window and the time.
pub proof fn lemma_no_expiration_tag_passes(tags: Seq<Seq<Seq<char>>>, max_secs: int, now: int)
    requires
        expiration_value(tags) is None,
    ensures
        expiration_window_result(tags, max_secs, now) is Ok,
{
}

/// A wider window never rejects what a narrower one accepts.
pub proof fn lemma_expiration_window_monotone(
    tags: Seq<Seq<Seq<char>>>,
    max_secs: int,
    wider: int,
    now: int,
)
    requires
        max_secs <= wider,
        expiration_window_result(tags, max_secs, now) is Ok,
    ensures
        expiration_window_result(tags, wider, now) is Ok,
{
}

/// On a write, or on a read of a section that is not privileged, where the
/// section has no script or its script accepted the event and the deny
/// list does not match, the event is admitted exactly when the allow list
/// admits it. Privileged reads apply only to sections marked privileged.
pub proof fn lemma_unprivileged_section_follows_allow(
    config: WriteReadConfig,
    pubkey: Seq<char>,
    tags: Seq<Seq<Seq<char>>>,
    auth: Option<Seq<char>>,
    server: Option<Seq<char>>,
    is_read: bool,
    script_allows: bool,
)
    requires
        !is_read || !config.privileged,
        config.script is None || script_allows,
        !rule_allows(config.deny@, pubkey, auth, server),
    ensures
        write_read_allows(config, pubkey, tags, auth, server, is_read, script_allows)
            == rule_allows(config.allow@, pubkey, auth, server),
{
}

/// A 64-character hex identifier matches the event it names as author,
/// whoever is authenticated, and matches the authenticated pubkey it names,
/// whoever wrote the event; a list naming either admits the event.
pub proof fn lemma_hex_identifier_matches_author_or_auth(
    id: Seq<char>,
    pubkey: Seq<char>,
    auth: Option<Seq<char>>,
    server: Option<Seq<char>>,
    ids: Seq<Seq<char>>,
)
    requires
        is_hex64(id),
    ensures
        identifier_matches(id, id, auth, server),
        identifier_matches(id, pubkey, Some(id), server),
        ids.contains(id) ==> rule_allows(AccessRuleView::List(ids), id, auth, server),
        ids.contains(id) ==> rule_allows(AccessRuleView::List(ids), pubkey, Some(id), server),
{
    if ids.contains(id) {
        let i = choose|i: int| 0 <= i < ids.len() && ids[i] == id;
        assert(identifier_matches(ids[i], id, auth, server));
        assert(identifier_matches(ids[i], pubkey, Some(id), server));
    }
}

/// Every listed tag name is checked: no tag is missing exactly when each
/// listed name has a value in the event, and a missing tag that is reported
/// is the first listed name without one.
pub proof fn lemma_required_tags_all_checked(tags: Seq<Seq<Seq<char>>>, names: Seq<Seq<char>>)
    ensures
        first_missing_tag(tags, names) is None <==> forall|i: int|
            0 <= i < names.len() ==> tag_values(tags, #[trigger] names[i]).len() > 0,
        first_missing_tag(tags, names) matches Some(n) ==> exists|i: int|
            0 <= i < names.len() && #[trigger] names[i] == n && tag_values(tags, n).len() == 0
                && forall|j: int| 0 <= j < i ==> tag_values(tags, #[trigger] names[j]).len() > 0,
    decreases names.len(),
{
    if names.len() > 0 {
        let rest = names.skip(1);
        lemma_required_tags_all_checked(tags, rest);
        assert forall|i: int| 0 < i < names.len() implies names[i] == rest[i - 1] by {}
        if tag_values(tags, names[0]).len() == 0 {
            assert(names[0] == names[0]);
        } else {
            if first_missing_tag(tags, rest) is None {
                assert forall|i: int| 0 <= i < names.len() implies tag_values(
                    tags,
                    #[trigger] names[i],
                ).len() > 0 by {
                    if i > 0 {
                        assert(rest[i - 1] == names[i]);
                    }
                }
            } else {
                let n = first_missing_tag(tags, rest).unwrap();
                let k = choose|k: int|
                    0 <= k < rest.len() && #[trigger] rest[k] == n && tag_values(tags, n).len() == 0
                        && forall|j: int| 0 <= j < k ==> tag_values(tags, #[trigger] rest[j]).len() > 0;
                assert(names[k + 1] == n);
                assert forall|j: int| 0 <= j < k + 1 implies tag_values(tags, #[trigger] names[j]).len()
                    > 0 by {
                    if j > 0 {
                        assert(names[j] == rest[j - 1]);
                    }
                }
                assert(!(tag_values(tags, names[k + 1]).len() > 0));
            }
        }
    }
}

} // verus!
