//! Relay settings and the kind filter configuration, with the parsers that
//! read the kind filter file.

use vstd::prelude::*;
use vstd::string::*;
use std::collections::HashMap;
use crate::utils::TimeSpan;
use crate::json::{json_as_str, json_as_u64, json_document, json_get, parse_json, str_member, JsonValue};
use crate::text::concat_str;
use crate::text::{
    all_digits, ascii_upper_char, digits_value, ends_with, ends_with_str, find_char, find_char_from,
    find_char_str, is_ascii_char, is_digit, is_white_space, parse_unsigned, parse_unsigned_str,
    str_eq, to_uppercase, trim, trim_str, uppercase_of,
};

verus! {

// ---------------------------------------------------------------------
// Settings sections
// ---------------------------------------------------------------------

#[derive(Debug, Clone)]
pub struct Info {
    pub relay_url: Option<String>,
    pub name: Option<String>,
    pub description: Option<String>,
    pub pubkey: Option<String>,
    pub contact: Option<String>,
    pub favicon: Option<String>,
    pub relay_icon: Option<String>,
    pub relay_page: Option<String>,
}

#[derive(Debug, Clone)]
pub struct Database {
    pub data_directory: String,
    pub engine: String,
    pub in_memory: bool,
    pub min_conn: u32,
    pub max_conn: u32,
    pub connection: String,
    pub connection_write: Option<String>,
}

#[derive(Debug, Clone)]
pub struct Grpc {
    pub event_admission_server: Option<String>,
    pub restricts_write: bool,
}

#[derive(Debug, Clone)]
pub struct Network {
    pub port: u16,
    pub address: String,
    /// Retrieve the client IP from this HTTP header if present.
    pub remote_ip_header: Option<String>,
    pub ping_interval_seconds: u32,
}

#[derive(Debug, Clone)]
pub struct Options {
    /// If defined, reject events with a timestamp more than this many seconds in the future.
    pub reject_future_seconds: Option<usize>,
}

#[derive(Debug, Clone)]
pub struct Retention {
    pub max_events: Option<usize>,
    pub max_bytes: Option<usize>,
    pub persist_days: Option<usize>,
    pub whitelist_addresses: Option<Vec<String>>,
}

#[derive(Debug, Clone)]
pub struct Limits {
    pub messages_per_sec: Option<u32>,
    pub subscriptions_per_min: Option<u32>,
    pub db_conns_per_client: Option<u32>,
    pub max_blocking_threads: usize,
    pub max_event_bytes: Option<usize>,
    pub max_ws_message_bytes: Option<usize>,
    pub max_ws_frame_bytes: Option<usize>,
    pub broadcast_buffer: usize,
    pub event_persist_buffer: usize,
    pub event_kind_blacklist: Option<Vec<u64>>,
    pub event_kind_allowlist: Option<Vec<u64>>,
    pub limit_scrapers: bool,
}

#[derive(Debug, Clone)]
pub struct Authorization {
    /// If present, only these pubkeys may publish events.
    pub pubkey_whitelist: Option<Vec<String>>,
    /// Enables NIP-42 authentication.
    pub nip42_auth: bool,
    /// Send DMs only to their authenticated recipients.
    pub nip42_dms: bool,
}

/// Lightning payment backend used by pay-to-relay.
#[derive(Debug, Clone, Copy, PartialEq, Eq, Structural)]
pub enum Processor {
    LNBits,
    ClnRest,
}

#[derive(Debug, Clone)]
pub struct PayToRelay {
    pub enabled: bool,
    pub admission_cost: u64,
    pub cost_per_event: u64,
    pub node_url: String,
    pub api_secret: String,
    pub terms_message: String,
    pub sign_ups: bool,
    pub direct_message: bool,
    pub secret_key: Option<String>,
    pub processor: Processor,
    pub rune_path: Option<String>,
}

#[derive(Debug, Clone)]
pub struct Diagnostics {
    pub tracing: bool,
}

#[derive(Debug, Clone, Copy, PartialEq, Eq, Structural)]
pub enum VerifiedUsersMode {
    Enabled,
    Passive,
    Disabled,
}

#[derive(Debug, Clone)]
pub struct VerifiedUsers {
    pub mode: VerifiedUsersMode,
    pub domain_whitelist: Option<Vec<String>>,
    pub domain_blacklist: Option<Vec<String>>,
    pub verify_expiration: Option<String>,
    pub verify_update_frequency: Option<String>,
    pub verify_expiration_duration: Option<TimeSpan>,
    pub verify_update_frequency_duration: Option<TimeSpan>,
    pub max_consecutive_failures: usize,
}

#[derive(Debug, Clone)]
pub struct Logging {
    pub folder_path: Option<String>,
    pub file_prefix: Option<String>,
}

#[derive(Debug, Clone)]
pub struct KindFiltersConfig {
    pub config_file: Option<String>,
}

impl Default for KindFiltersConfig {
    fn default() -> (r: Self)
        ensures
            r.config_file is None,
    {
        KindFiltersConfig { config_file: None }
    }
}

// ---------------------------------------------------------------------
// Durations (`parse_duration`)
// ---------------------------------------------------------------------

/// Name for what `parse_duration::parse` gives for a string: the whole
/// seconds and the nanoseconds of the duration, or `None` on an error.
pub uninterp spec fn parsed_duration(s: Seq<char>) -> Option<(u64, u32)>;

/// The span a parse result describes.
pub open spec fn span_of(p: Option<(u64, u32)>) -> Option<TimeSpan> {
    match p {
        Some((secs, nanos)) => Some(TimeSpan { secs, nanos }),
        None => None,
    }
}

/// The span `parse_duration::parse` gives for a string, if any.
pub open spec fn duration_of(s: Seq<char>) -> Option<TimeSpan> {
    span_of(parsed_duration(s))
}

/// Calls `parse_duration::parse` and keeps the duration when it succeeds,
/// as whole seconds and nanoseconds. The contract claims that the result is
/// a function of the string alone (named `parsed_duration`) and that the
/// nanoseconds stay below one billion, as for every `Duration`. The crate
/// raises ten to the power of an exponent written in the string, so a
/// string with a huge exponent can exhaust memory; such strings are not
/// excluded here.
#[verifier::external_body]
fn parse_duration_ok(s: &str) -> (r: Option<TimeSpan>)
    ensures
        r == span_of(parsed_duration(s@)),
        r matches Some(d) ==> d.nanos < 1_000_000_000,
{
    match parse_duration::parse(s) {
        Ok(d) => Some(TimeSpan { secs: d.as_secs(), nanos: d.subsec_nanos() }),
        Err(_) => None,
    }
}

/// The span an optional duration setting gives: none when absent or when
/// it does not parse.
pub open spec fn duration_setting(s: Option<Seq<char>>) -> Option<TimeSpan> {
    match s {
        Some(t) => duration_of(t),
        None => None,
    }
}

/// Whether an optional duration setting is present and parses.
pub open spec fn duration_setting_parses(s: Option<Seq<char>>) -> bool {
    duration_setting(s) is Some
}

fn parse_optional_duration(s: &Option<String>) -> (r: Option<TimeSpan>)
    ensures
        r == duration_setting(s.deep_view()),
{
    match s {
        Some(x) => parse_duration_ok(x.as_str()),
        None => None,
    }
}

impl VerifiedUsers {
    /// Stores the parsed verification durations.
    pub fn init(&mut self)
        ensures
            final(self).mode == old(self).mode,
            final(self).domain_whitelist == old(self).domain_whitelist,
            final(self).domain_blacklist == old(self).domain_blacklist,
            final(self).verify_expiration == old(self).verify_expiration,
            final(self).verify_update_frequency == old(self).verify_update_frequency,
            final(self).max_consecutive_failures == old(self).max_consecutive_failures,
            final(self).verify_expiration_duration == duration_setting(
                old(self).verify_expiration.deep_view(),
            ),
            final(self).verify_update_frequency_duration == duration_setting(
                old(self).verify_update_frequency.deep_view(),
            ),
    {
        self.verify_expiration_duration = self.verify_expiration_duration();
        self.verify_update_frequency_duration = self.verify_update_duration();
    }

    pub fn is_enabled(&self) -> (r: bool)
        ensures
            r == (self.mode == VerifiedUsersMode::Enabled),
    {
        self.mode == VerifiedUsersMode::Enabled
    }

    pub fn is_active(&self) -> (r: bool)
        ensures
            r == (self.mode == VerifiedUsersMode::Enabled || self.mode
                == VerifiedUsersMode::Passive),
    {
        self.mode == VerifiedUsersMode::Enabled || self.mode == VerifiedUsersMode::Passive
    }

    pub fn is_passive(&self) -> (r: bool)
        ensures
            r == (self.mode == VerifiedUsersMode::Passive),
    {
        self.mode == VerifiedUsersMode::Passive
    }

    /// How long a verification is cached, parsed from `verify_expiration`.
    pub fn verify_expiration_duration(&self) -> (r: Option<TimeSpan>)
        ensures
            r == duration_setting(self.verify_expiration.deep_view()),
    {
        parse_optional_duration(&self.verify_expiration)
    }

    /// How often verification is refreshed, parsed from `verify_update_frequency`.
    pub fn verify_update_duration(&self) -> (r: Option<TimeSpan>)
        ensures
            r == duration_setting(self.verify_update_frequency.deep_view()),
    {
        parse_optional_duration(&self.verify_update_frequency)
    }

    /// Both verification durations are present and parse.
    pub fn is_valid(&self) -> (r: bool)
        ensures
            r == (duration_setting_parses(self.verify_expiration.deep_view())
                && duration_setting_parses(self.verify_update_frequency.deep_view())),
    {
        self.verify_expiration_duration().is_some() && self.verify_update_duration().is_some()
    }
}

// ---------------------------------------------------------------------
// Access rules
// ---------------------------------------------------------------------

/// Access rule for write/read permissions.
#[derive(Debug, Clone, PartialEq, Eq)]
pub enum AccessRule {
    /// Allow all ("*").
    All,
    /// Deny all ("none").
    Nobody,
    /// Specific identifiers (pubkeys or special identifiers).
    List(Vec<String>),
}

/// What an access rule says, as plain values.
pub enum AccessRuleView {
    All,
    Nobody,
    List(Seq<Seq<char>>),
}

impl View for AccessRule {
    type V = AccessRuleView;

    open spec fn view(&self) -> AccessRuleView {
        match self {
            AccessRule::All => AccessRuleView::All,
            AccessRule::Nobody => AccessRuleView::Nobody,
            AccessRule::List(ids) => AccessRuleView::List(ids.deep_view()),
        }
    }
}

/// The strings among `items`, in order.
pub open spec fn json_strings(items: Seq<JsonValue>) -> Seq<Seq<char>>
    decreases items.len(),
{
    if items.len() == 0 {
        Seq::empty()
    } else {
        let rest = json_strings(items.drop_last());
        match json_as_str(items.last()) {
            Some(s) => rest.push(s),
            None => rest,
        }
    }
}

/// The rule a JSON value denotes: "*" or "all" allow everyone, "none"
/// nobody, another string or an array (its strings) a list; anything else
/// allows nobody.
pub open spec fn access_rule_of(v: JsonValue) -> AccessRuleView {
    match v {
        JsonValue::String(s) => if s@ == "*"@ || s@ == "all"@ {
            AccessRuleView::All
        } else if s@ == "none"@ {
            AccessRuleView::Nobody
        } else {
            AccessRuleView::List(seq![s@])
        },
        JsonValue::Array(a) => AccessRuleView::List(json_strings(a@)),
        _ => AccessRuleView::Nobody,
    }
}

/// The strings among `items`.
fn collect_strings(items: &Vec<JsonValue>) -> (r: Vec<String>)
    ensures
        r.deep_view() == json_strings(items@),
{
    let n = items.len();
    let mut r: Vec<String> = Vec::new();
    let mut i: usize = 0;
    while i < n
        invariant
            n == items@.len(),
            i <= n,
            r.deep_view() == json_strings(items@.take(i as int)),
        decreases n - i,
    {
        assert(items@.take(i + 1).drop_last() =~= items@.take(i as int));
        match items[i].as_str() {
            Some(s) => {
                r.push(s.to_owned());
                assert(r.deep_view() =~= json_strings(items@.take(i as int)).push(s@));
            },
            None => {},
        }
        i = i + 1;
    }
    assert(items@.take(n as int) =~= items@);
    r
}

impl AccessRule {
    /// Parses an access rule: "*" or "all", "none", or a list of identifiers.
    pub fn from_json_value(value: &JsonValue) -> (r: AccessRule)
        ensures
            r@ == access_rule_of(*value),
    {
        match value {
            JsonValue::String(s) => {
                if str_eq(s.as_str(), "*") || str_eq(s.as_str(), "all") {
                    AccessRule::All
                } else if str_eq(s.as_str(), "none") {
                    AccessRule::Nobody
                } else {
                    let mut v: Vec<String> = Vec::new();
                    v.push(s.clone());
                    assert(v.deep_view() =~= seq![s@]);
                    AccessRule::List(v)
                }
            },
            JsonValue::Array(arr) => AccessRule::List(collect_strings(arr)),
            _ => AccessRule::Nobody,
        }
    }
}

// ---------------------------------------------------------------------
// Tag requirements, rate limits, expiration
// ---------------------------------------------------------------------

/// Tag requirement specification.
#[derive(Debug, Clone, Copy, PartialEq, Eq, Structural)]
pub enum TagRequirement {
    /// Not required ("none").
    NotRequired,
    /// Required with any value.
    Required,
    /// Required with a 64-character hex value.
    RequiredHex,
}

/// "none" requires nothing, "hex" a hex value, any other word the tag.
pub open spec fn tag_requirement_of(s: Seq<char>) -> TagRequirement {
    if s == "none"@ {
        TagRequirement::NotRequired
    } else if s == "hex"@ {
        TagRequirement::RequiredHex
    } else {
        TagRequirement::Required
    }
}

impl TagRequirement {
    pub fn from_str(s: &str) -> (r: TagRequirement)
        ensures
            r == tag_requirement_of(s@),
    {
        if str_eq(s, "none") {
            TagRequirement::NotRequired
        } else if str_eq(s, "hex") {
            TagRequirement::RequiredHex
        } else {
            TagRequirement::Required
        }
    }
}

/// Rate limit configuration.
#[derive(Debug, Clone)]
pub struct RateLimitConfig {
    /// Events per minute.
    pub events_per_minute: u32,
}

/// The events-per-minute a rate limit string gives: "none" gives none;
/// otherwise the trimmed text before the first '/' read as a `u32`.
pub open spec fn rate_limit_of(s: Seq<char>) -> Option<int> {
    if s == "none"@ {
        None
    } else {
        match find_char(s, '/') {
            Some(p) => parse_unsigned(trim(s.take(p)), u32::MAX as int),
            None => None,
        }
    }
}

/// `s` is a decimal `u32` count, then '/', then anything ("10/min").
pub open spec fn count_per_unit(s: Seq<char>, count: Seq<char>) -> bool {
    &&& count.len() > 0
    &&& all_digits(count)
    &&& digits_value(count) <= u32::MAX as int
    &&& s.len() > count.len()
    &&& s.take(count.len() as int) == count
    &&& s[count.len() as int] == '/'
}

impl RateLimitConfig {
    /// Parses "none" or "N/min" ("N/minute", any unit after the slash).
    pub fn from_str(s: &str) -> (r: Option<RateLimitConfig>)
        ensures
            match r {
                Some(c) => rate_limit_of(s@) == Some(c.events_per_minute as int),
                None => rate_limit_of(s@) is None,
            },
            forall|count: Seq<char>|
                #[trigger] count_per_unit(s@, count) ==> (r matches Some(c) && c.events_per_minute
                    == digits_value(count)),
    {
        proof {
            assert forall|count: Seq<char>| #[trigger]
                count_per_unit(s@, count) implies rate_limit_of(s@) == Some(digits_value(count)) by {
                lemma_count_per_unit(s@, count);
            }
        }
        if str_eq(s, "none") {
            return None;
        }
        match find_char_str(s, '/') {
            Some(p) => {
                let head = s.substring_char(0, p);
                assert(head@ =~= s@.take(p as int));
                let num = trim_str(head);
                match parse_unsigned_str(num, 0xffff_ffffu64) {
                    Some(v) => Some(RateLimitConfig { events_per_minute: v as u32 }),
                    None => None,
                }
            },
            None => None,
        }
    }
}

/// "N/unit" gives the count N.
proof fn lemma_count_per_unit(s: Seq<char>, count: Seq<char>)
    requires
        count_per_unit(s, count),
    ensures
        rate_limit_of(s) == Some(digits_value(count)),
{
    reveal_strlit("none");
    let k = count.len() as int;
    assert(s[0] == count[0]);
    assert(is_digit(count[0]));
    assert(s != "none"@) by {
        if s == "none"@ {
            assert(s[0] == 'n');
        }
    }
    assert forall|i: int| 0 <= i < k implies #[trigger] s[i] != '/' by {
        assert(s[i] == count[i]);
        assert(is_digit(count[i]));
    }
    lemma_find_char_skips(s, '/', 0, k);
    assert(is_digit(count[k - 1]));
    assert(count.last() == count[k - 1]);
    assert(trim(count) == count);
}

/// Without `c` in `s[i..k]` and with `c` at `k`, the search from `i` finds `k`.
proof fn lemma_find_char_skips(s: Seq<char>, c: char, i: int, k: int)
    requires
        0 <= i <= k < s.len(),
        s[k] == c,
        forall|j: int| i <= j < k ==> #[trigger] s[j] != c,
    ensures
        find_char_from(s, c, i) == Some(k),
    decreases k - i,
{
    if i < k {
        lemma_find_char_skips(s, c, i + 1, k);
    }
}

/// Expiration configuration.
#[derive(Debug, Clone)]
pub struct ExpirationConfig {
    /// Duration after which events expire, or None for "never".
    pub duration: Option<TimeSpan>,
}

/// `c` is what an expiration string gives: no duration for "never",
/// otherwise the duration the string parses to, if any.
pub open spec fn expiration_parsed(s: Seq<char>, c: ExpirationConfig) -> bool {
    if s == "never"@ {
        c.duration is None
    } else {
        c.duration == duration_of(s)
    }
}

impl ExpirationConfig {
    /// Parses "never" or a duration such as "1h", "30m", "7 days".
    pub fn from_str(s: &str) -> (r: ExpirationConfig)
        ensures
            expiration_parsed(s@, r),
    {
        if str_eq(s, "never") {
            ExpirationConfig { duration: None }
        } else {
            ExpirationConfig { duration: parse_duration_ok(s) }
        }
    }
}

// ---------------------------------------------------------------------
// Sizes
// ---------------------------------------------------------------------

/// `n * factor`, or nothing where it does not fit in `usize`.
pub open spec fn scaled(n: Option<int>, factor: int) -> Option<int> {
    match n {
        Some(v) => if v * factor <= usize::MAX as int {
            Some(v * factor)
        } else {
            None
        },
        None => None,
    }
}

/// The byte count a size string gives: trimmed and upper-cased, then read
/// by `upper_size_of`.
pub open spec fn size_of(s: Seq<char>) -> Option<int> {
    upper_size_of(uppercase_of(trim(s)))
}

/// The byte count an upper-cased size string gives: a number followed by
/// "KB", "MB", "GB", "B" or nothing.
pub open spec fn upper_size_of(u: Seq<char>) -> Option<int> {
    let max = usize::MAX as int;
    if ends_with(u, "KB"@) {
        scaled(parse_unsigned(u.take(u.len() - 2), max), 1024)
    } else if ends_with(u, "MB"@) {
        scaled(parse_unsigned(u.take(u.len() - 2), max), 1048576)
    } else if ends_with(u, "GB"@) {
        scaled(parse_unsigned(u.take(u.len() - 2), max), 1073741824)
    } else if ends_with(u, "B"@) {
        parse_unsigned(u.take(u.len() - 1), max)
    } else {
        parse_unsigned(u, max)
    }
}

fn parse_usize_str(s: &str) -> (r: Option<usize>)
    ensures
        match r {
            Some(v) => parse_unsigned(s@, usize::MAX as int) == Some(v as int),
            None => parse_unsigned(s@, usize::MAX as int) is None,
        },
{
    match parse_unsigned_str(s, usize::MAX as u64) {
        Some(v) => Some(v as usize),
        None => None,
    }
}

/// `s` is a plain decimal number (no sign) that fits in `usize`.
pub open spec fn plain_size_number(s: Seq<char>) -> bool {
    s.len() > 0 && all_digits(s) && digits_value(s) <= usize::MAX as int
}

/// `s` is a plain decimal number followed by the unit `unit`.
pub open spec fn number_with_unit(s: Seq<char>, unit: Seq<char>) -> bool {
    s.len() > unit.len() && s.skip(s.len() - unit.len()) == unit && plain_size_number(
        s.take(s.len() - unit.len()),
    )
}

/// A string without leading or trailing whitespace is its own trim.
proof fn lemma_trim_unpadded(s: Seq<char>)
    requires
        s.len() > 0,
        !is_white_space(s[0]),
        !is_white_space(s.last()),
    ensures
        trim(s) == s,
{
}

/// Upper-casing a string without lower-case ASCII letters changes nothing.
proof fn lemma_ascii_upper_identity(s: Seq<char>)
    requires
        forall|i: int| 0 <= i < s.len() ==> !('a' <= #[trigger] s[i] && s[i] <= 'z'),
    ensures
        s.map_values(|c: char| ascii_upper_char(c)) == s,
{
    assert(s.map_values(|c: char| ascii_upper_char(c)) =~= s);
}

/// What the upper-casing of a plain number, possibly followed by one of the
/// units, is known to be (the character-wise ASCII mapping).
proof fn lemma_unit_string_facts(s: Seq<char>, k: int)
    requires
        0 < k <= s.len(),
        plain_size_number(s.take(k)),
        forall|i: int| k <= i < s.len() ==> 'A' <= #[trigger] s[i] && s[i] <= 'Z',
    ensures
        trim(s) == s,
        forall|i: int| 0 <= i < s.len() ==> #[trigger] is_ascii_char(s[i]),
        s.map_values(|c: char| ascii_upper_char(c)) == s,
{
    let d = s.take(k);
    assert(is_digit(d[0]));
    assert(s[0] == d[0]);
    if k < s.len() {
        assert('A' <= s[s.len() - 1] && s[s.len() - 1] <= 'Z');
    } else {
        assert(s[s.len() - 1] == d[k - 1]);
        assert(is_digit(d[k - 1]));
    }
    lemma_trim_unpadded(s);
    assert forall|i: int| 0 <= i < s.len() implies #[trigger] is_ascii_char(s[i]) by {
        if i < k {
            assert(s[i] == d[i]);
            assert(is_digit(d[i]));
        }
    }
    assert forall|i: int| 0 <= i < s.len() implies !('a' <= #[trigger] s[i] && s[i] <= 'z') by {
        if i < k {
            assert(s[i] == d[i]);
            assert(is_digit(d[i]));
        }
    }
    lemma_ascii_upper_identity(s);
}

/// Parses a size such as "1MB" or "512KB" into bytes.
pub fn parse_size_string(s: &str) -> (r: Option<usize>)
    ensures
        match r {
            Some(v) => size_of(s@) == Some(v as int),
            None => size_of(s@) is None,
        },
        plain_size_number(s@) ==> r == Some(digits_value(s@) as usize),
        number_with_unit(s@, "KB"@) ==> opt_usize(r) == scaled(
            Some(digits_value(s@.take(s@.len() - 2))),
            1024,
        ),
        number_with_unit(s@, "MB"@) ==> opt_usize(r) == scaled(
            Some(digits_value(s@.take(s@.len() - 2))),
            1048576,
        ),
        number_with_unit(s@, "GB"@) ==> opt_usize(r) == scaled(
            Some(digits_value(s@.take(s@.len() - 2))),
            1073741824,
        ),
{
    proof {
        reveal_strlit("KB");
        reveal_strlit("MB");
        reveal_strlit("GB");
        reveal_strlit("B");
        let t = s@;
        if plain_size_number(t) {
            assert(t.take(t.len() as int) =~= t);
            lemma_unit_string_facts(t, t.len() as int);
            assert(is_digit(t[t.len() - 1]));
            assert(is_digit(t[0]));
        }
        if number_with_unit(t, "KB"@) || number_with_unit(t, "MB"@) || number_with_unit(t, "GB"@) {
            let k = t.len() - 2;
            assert(t[k] == t.skip(k)[0]);
            assert(t[k + 1] == t.skip(k)[1]);
            lemma_unit_string_facts(t, k);
            assert(is_digit(t.take(k)[0]));
        }
    }
    let u = to_uppercase(trim_str(s));
    let us = u.as_str();
    let n = us.unicode_len();
    proof {
        if plain_size_number(s@) {
            assert(u@ == s@);
            assert(u@.skip(n - 1)[0] == u@[n - 1]);
            if n >= 2 {
                assert(u@.skip(n - 2)[1] == u@[n - 1]);
            }
            assert(is_digit(s@[n - 1]));
            assert(s@[0] != '+');
        }
    }
    parse_upper_size(us)
}

/// Reads an upper-cased size string: a number followed by "KB", "MB",
/// "GB", "B" or nothing, in bytes; nothing where it is not such a string or
/// the bytes do not fit in `usize`.
pub fn parse_upper_size(us: &str) -> (r: Option<usize>)
    ensures
        match r {
            Some(v) => upper_size_of(us@) == Some(v as int),
            None => upper_size_of(us@) is None,
        },
{
    let n = us.unicode_len();
    if ends_with_str(us, "KB") {
        proof {
            reveal_strlit("KB");
        }
        let head = us.substring_char(0, n - 2);
        match parse_usize_str(head) {
            Some(v) => v.checked_mul(1024),
            None => None,
        }
    } else if ends_with_str(us, "MB") {
        proof {
            reveal_strlit("MB");
        }
        let head = us.substring_char(0, n - 2);
        match parse_usize_str(head) {
            Some(v) => v.checked_mul(1024 * 1024),
            None => None,
        }
    } else if ends_with_str(us, "GB") {
        proof {
            reveal_strlit("GB");
        }
        let head = us.substring_char(0, n - 2);
        match parse_usize_str(head) {
            Some(v) => v.checked_mul(1024 * 1024 * 1024),
            None => None,
        }
    } else if ends_with_str(us, "B") {
        proof {
            reveal_strlit("B");
        }
        let head = us.substring_char(0, n - 1);
        parse_usize_str(head)
    } else {
        parse_usize_str(us)
    }
}

// ---------------------------------------------------------------------
// Write/read and per-kind sections
// ---------------------------------------------------------------------

/// Write/read configuration for a kind.
#[derive(Debug, Clone)]
pub struct WriteReadConfig {
    /// Path to an executable script consulted first.
    pub script: Option<String>,
    /// Allow rule (defaults to all).
    pub allow: AccessRule,
    /// Deny rule (defaults to nobody).
    pub deny: AccessRule,
    /// On read: the authenticated author and p-tagged users may read; the
    /// allow list takes precedence.
    pub privileged: bool,
    /// Custom rejection message for this section; the kind filter file
    /// does not set it, so parsing leaves it empty.
    pub error: Option<String>,
}

/// The error a write/read section gives: it must be an object.
pub open spec fn write_read_error(v: JsonValue) -> Option<Seq<char>> {
    if v is Object {
        None
    } else {
        Some("Write/read config must be an object"@)
    }
}

/// `c` holds what the write/read section `v` says, with its defaults.
pub open spec fn write_read_parsed_from(v: JsonValue, c: WriteReadConfig) -> bool {
    &&& c.script.deep_view() == str_member(v, "script"@)
    &&& c.allow@ == match json_get(v, "allow"@) {
        Some(x) => access_rule_of(x),
        None => AccessRuleView::All,
    }
    &&& c.deny@ == match json_get(v, "deny"@) {
        Some(x) => access_rule_of(x),
        None => AccessRuleView::Nobody,
    }
    &&& c.privileged == match json_get(v, "privileged"@) {
        Some(JsonValue::Bool(b)) => b,
        _ => false,
    }
    &&& c.error is None
}

fn string_member(v: &JsonValue, key: &str) -> (r: Option<String>)
    ensures
        r.deep_view() == str_member(*v, key@),
{
    match v.get(key) {
        Some(x) => match x.as_str() {
            Some(s) => Some(s.to_owned()),
            None => None,
        },
        None => None,
    }
}

fn rule_member(v: &JsonValue, key: &str, default_all: bool) -> (r: AccessRule)
    ensures
        r@ == match json_get(*v, key@) {
            Some(x) => access_rule_of(x),
            None => if default_all {
                AccessRuleView::All
            } else {
                AccessRuleView::Nobody
            },
        },
{
    match v.get(key) {
        Some(x) => AccessRule::from_json_value(x),
        None => if default_all {
            AccessRule::All
        } else {
            AccessRule::Nobody
        },
    }
}

impl WriteReadConfig {
    /// Parses a write/read section.
    pub fn from_json_value(value: &JsonValue) -> (r: Result<WriteReadConfig, String>)
        ensures
            match r {
                Ok(c) => write_read_error(*value) is None && write_read_parsed_from(*value, c),
                Err(e) => write_read_error(*value) == Some(e@),
            },
    {
        if !value.is_object() {
            return Err("Write/read config must be an object".to_owned());
        }
        let script = string_member(value, "script");
        let allow = rule_member(value, "allow", true);
        let deny = rule_member(value, "deny", false);
        let privileged = match value.get("privileged") {
            Some(x) => match x.as_bool() {
                Some(b) => b,
                None => false,
            },
            None => false,
        };
        Ok(WriteReadConfig { script, allow, deny, privileged, error: None })
    }
}

/// Per-kind filter configuration.
#[derive(Debug, Clone)]
pub struct KindFilterConfig {
    pub description: Option<String>,
    pub write: Option<WriteReadConfig>,
    pub read: Option<WriteReadConfig>,
    pub max_size: Option<usize>,
    pub rate_limit: Option<RateLimitConfig>,
    pub expiration: ExpirationConfig,
    pub max_expiration: ExpirationConfig,
    pub d_tag: TagRequirement,
    pub p_tag: TagRequirement,
    pub required_tags: Vec<String>,
}

/// `required_tags` is present but not an array of strings.
pub open spec fn required_tags_error(v: JsonValue) -> bool {
    match json_get(v, "required_tags"@) {
        None => false,
        Some(JsonValue::Array(a)) => exists|i: int|
            0 <= i < a@.len() && !(#[trigger] a@[i] is String),
        Some(_) => true,
    }
}

/// The error a per-kind section gives, checked in this order: it must be an
/// object, its write and read sections must parse, and `required_tags` must
/// be an array of strings.
pub open spec fn kind_config_error(v: JsonValue) -> Option<Seq<char>> {
    if !(v is Object) {
        Some("Kind filter config must be an object"@)
    } else {
        match json_get(v, "write"@) {
            Some(w) if write_read_error(w) is Some => write_read_error(w),
            _ => match json_get(v, "read"@) {
                Some(w) if write_read_error(w) is Some => write_read_error(w),
                _ => if required_tags_error(v) {
                    Some("required_tags must be an array of strings"@)
                } else {
                    None
                },
            },
        }
    }
}

/// An optional write/read section and what it parsed into.
pub open spec fn section_parsed_from(j: Option<JsonValue>, c: Option<WriteReadConfig>) -> bool {
    match j {
        None => c is None,
        Some(w) => c matches Some(wc) && write_read_parsed_from(w, wc),
    }
}

pub open spec fn opt_usize(o: Option<usize>) -> Option<int> {
    match o {
        Some(x) => Some(x as int),
        None => None,
    }
}

/// `c` holds what the per-kind section `v` says, with its defaults.
pub open spec fn kind_config_parsed_from(v: JsonValue, c: KindFilterConfig) -> bool {
    &&& c.description.deep_view() == str_member(v, "description"@)
    &&& section_parsed_from(json_get(v, "write"@), c.write)
    &&& section_parsed_from(json_get(v, "read"@), c.read)
    &&& opt_usize(c.max_size) == match str_member(v, "max_size"@) {
        Some(s) => size_of(s),
        None => None,
    }
    &&& (match c.rate_limit {
        Some(rl) => Some(rl.events_per_minute as int),
        None => None,
    }) == match str_member(v, "rate_limit"@) {
        Some(s) => rate_limit_of(s),
        None => None,
    }
    &&& expiration_parsed(
        match str_member(v, "expiration"@) {
            Some(s) => s,
            None => "never"@,
        },
        c.expiration,
    )
    &&& expiration_parsed(
        match str_member(v, "max_expiration"@) {
            Some(s) => s,
            None => "never"@,
        },
        c.max_expiration,
    )
    &&& c.d_tag == match str_member(v, "d_tag"@) {
        Some(s) => tag_requirement_of(s),
        None => TagRequirement::NotRequired,
    }
    &&& c.p_tag == match str_member(v, "p_tag"@) {
        Some(s) => tag_requirement_of(s),
        None => TagRequirement::NotRequired,
    }
    &&& c.required_tags.deep_view() == match json_get(v, "required_tags"@) {
        Some(JsonValue::Array(a)) => json_strings(a@),
        _ => Seq::empty(),
    }
}

fn section_member(v: &JsonValue, key: &str) -> (r: Result<Option<WriteReadConfig>, String>)
    ensures
        match r {
            Ok(c) => (match json_get(*v, key@) {
                Some(w) => write_read_error(w) is None,
                None => true,
            }) && section_parsed_from(json_get(*v, key@), c),
            Err(e) => json_get(*v, key@) matches Some(w) && write_read_error(w) == Some(e@),
        },
{
    match v.get(key) {
        Some(x) => match WriteReadConfig::from_json_value(x) {
            Ok(c) => Ok(Some(c)),
            Err(e) => Err(e),
        },
        None => Ok(None),
    }
}

fn expiration_member(v: &JsonValue, key: &str) -> (r: ExpirationConfig)
    ensures
        expiration_parsed(
            match str_member(*v, key@) {
                Some(s) => s,
                None => "never"@,
            },
            r,
        ),
{
    match v.get(key) {
        Some(x) => match x.as_str() {
            Some(s) => ExpirationConfig::from_str(s),
            None => ExpirationConfig::from_str("never"),
        },
        None => ExpirationConfig::from_str("never"),
    }
}

fn tag_requirement_member(v: &JsonValue, key: &str) -> (r: TagRequirement)
    ensures
        r == match str_member(*v, key@) {
            Some(s) => tag_requirement_of(s),
            None => TagRequirement::NotRequired,
        },
{
    match v.get(key) {
        Some(x) => match x.as_str() {
            Some(s) => TagRequirement::from_str(s),
            None => TagRequirement::NotRequired,
        },
        None => TagRequirement::NotRequired,
    }
}

/// The items of `arr`, which must all be strings.
fn all_strings(arr: &Vec<JsonValue>) -> (r: Option<Vec<String>>)
    ensures
        match r {
            Some(tags) => (forall|i: int| 0 <= i < arr@.len() ==> #[trigger] arr@[i] is String)
                && tags.deep_view() == json_strings(arr@),
            None => exists|i: int| 0 <= i < arr@.len() && !(#[trigger] arr@[i] is String),
        },
{
    let n = arr.len();
    let mut tags: Vec<String> = Vec::new();
    let mut i: usize = 0;
    while i < n
        invariant
            n == arr@.len(),
            i <= n,
            forall|j: int| 0 <= j < i ==> #[trigger] arr@[j] is String,
            tags.deep_view() == json_strings(arr@.take(i as int)),
        decreases n - i,
    {
        assert(arr@.take(i + 1).drop_last() =~= arr@.take(i as int));
        match arr[i].as_str() {
            Some(s) => {
                tags.push(s.to_owned());
                assert(tags.deep_view() =~= json_strings(arr@.take(i as int)).push(s@));
            },
            None => {
                assert(!(arr@[i as int] is String));
                return None;
            },
        }
        i = i + 1;
    }
    assert(arr@.take(n as int) =~= arr@);
    Some(tags)
}

impl KindFilterConfig {
    /// Parses a per-kind section.
    pub fn from_json_value(value: &JsonValue) -> (r: Result<KindFilterConfig, String>)
        ensures
            match r {
                Ok(c) => kind_config_error(*value) is None && kind_config_parsed_from(*value, c),
                Err(e) => kind_config_error(*value) == Some(e@),
            },
    {
        if !value.is_object() {
            return Err("Kind filter config must be an object".to_owned());
        }
        let description = string_member(value, "description");
        let write = match section_member(value, "write") {
            Ok(w) => w,
            Err(e) => return Err(e),
        };
        let read = match section_member(value, "read") {
            Ok(w) => w,
            Err(e) => return Err(e),
        };
        let max_size: Option<usize> = match value.get("max_size") {
            Some(x) => match x.as_str() {
                Some(s) => parse_size_string(s),
                None => None,
            },
            None => None,
        };
        let rate_limit: Option<RateLimitConfig> = match value.get("rate_limit") {
            Some(x) => match x.as_str() {
                Some(s) => RateLimitConfig::from_str(s),
                None => None,
            },
            None => None,
        };
        let expiration = expiration_member(value, "expiration");
        let max_expiration = expiration_member(value, "max_expiration");
        let d_tag = tag_requirement_member(value, "d_tag");
        let p_tag = tag_requirement_member(value, "p_tag");
        let required_tags: Vec<String> = match value.get("required_tags") {
            None => Vec::new(),
            Some(v) => match v.as_array() {
                None => return Err("required_tags must be an array of strings".to_owned()),
                Some(arr) => match all_strings(arr) {
                    Some(tags) => tags,
                    None => return Err("required_tags must be an array of strings".to_owned()),
                },
            },
        };
        let c = KindFilterConfig {
            description,
            write,
            read,
            max_size,
            rate_limit,
            expiration,
            max_expiration,
            d_tag,
            p_tag,
            required_tags,
        };
        assert(kind_config_error(*value) is None);
        assert(opt_usize(c.max_size) == match str_member(*value, "max_size"@) {
            Some(s) => size_of(s),
            None => None,
        });
        assert(c.required_tags.deep_view() == match json_get(*value, "required_tags"@) {
            Some(JsonValue::Array(a)) => json_strings(a@),
            _ => Seq::empty(),
        });
        Ok(c)
    }
}

// ---------------------------------------------------------------------
// The kind filter file
// ---------------------------------------------------------------------

/// Kind filters configuration container.
#[derive(Debug, Clone)]
pub struct KindFilters {
    pub config_file: Option<String>,
    pub whitelist: Option<Vec<u64>>,
    pub blacklist: Option<Vec<u64>>,
    pub filters: HashMap<u64, KindFilterConfig>,
}

/// The kinds an array lists: strings that parse as `u64` and non-negative
/// integers, in order; other items are skipped.
pub open spec fn kind_list_of(items: Seq<JsonValue>) -> Seq<u64>
    decreases items.len(),
{
    if items.len() == 0 {
        Seq::empty()
    } else {
        let rest = kind_list_of(items.drop_last());
        match items.last() {
            JsonValue::String(s) => match parse_unsigned(s@, u64::MAX as int) {
                Some(k) => rest.push(k as u64),
                None => rest,
            },
            x => match json_as_u64(x) {
                Some(k) => rest.push(k),
                None => rest,
            },
        }
    }
}

/// The list under `key` of the `kinds` section, when it is an array.
pub open spec fn kind_list_member(kinds: Option<JsonValue>, key: Seq<char>) -> Option<Seq<u64>> {
    match kinds {
        Some(k) => match json_get(k, key) {
            Some(JsonValue::Array(a)) => Some(kind_list_of(a@)),
            _ => None,
        },
        None => None,
    }
}

/// The `kinds` section is present but not an object.
pub open spec fn kinds_section_error(root: JsonValue) -> bool {
    json_get(root, "kinds"@) matches Some(k) && !(k is Object)
}

/// The members of the document (none when it is not an object).
pub open spec fn root_entries(root: JsonValue) -> Seq<(String, JsonValue)> {
    match root {
        JsonValue::Object(es) => es@,
        _ => Seq::empty(),
    }
}

/// A member name that configures a kind: not "kinds", and a `u64`.
pub open spec fn is_kind_key(key: Seq<char>) -> bool {
    key != "kinds"@ && parse_unsigned(key, u64::MAX as int) is Some
}

/// Reading the per-kind sections named by `entries` in order: the first
/// error, or for each kind the section that configures it (a later member
/// for the same kind replaces an earlier one).
pub open spec fn kind_sources(root: JsonValue, entries: Seq<(String, JsonValue)>) -> Result<
    Map<u64, JsonValue>,
    Seq<char>,
>
    decreases entries.len(),
{
    if entries.len() == 0 {
        Ok(Map::empty())
    } else {
        match kind_sources(root, entries.drop_last()) {
            Err(e) => Err(e),
            Ok(m) => {
                let key = entries.last().0@;
                if is_kind_key(key) {
                    let k = parse_unsigned(key, u64::MAX as int).unwrap() as u64;
                    match json_get(root, key) {
                        None => Err("Missing configuration for kind "@ + key),
                        Some(v) => match kind_config_error(v) {
                            Some(e) => Err(e),
                            None => Ok(m.insert(k, v)),
                        },
                    }
                } else {
                    Ok(m)
                }
            },
        }
    }
}

/// Once reading the sections fails, reading more of them fails the same way.
proof fn lemma_kind_sources_error_persists(
    root: JsonValue,
    entries: Seq<(String, JsonValue)>,
    j: int,
    e: Seq<char>,
)
    requires
        0 <= j <= entries.len(),
        kind_sources(root, entries.take(j)) == Err::<Map<u64, JsonValue>, Seq<char>>(e),
    ensures
        kind_sources(root, entries) == Err::<Map<u64, JsonValue>, Seq<char>>(e),
    decreases entries.len() - j,
{
    if j < entries.len() {
        assert(entries.take(j + 1).drop_last() =~= entries.take(j));
        lemma_kind_sources_error_persists(root, entries, j + 1, e);
    } else {
        assert(entries.take(j) =~= entries);
    }
}

/// `filters` holds, for exactly the kinds of `sources`, the configuration
/// parsed from each kind's section.
pub open spec fn filters_match(filters: Map<u64, KindFilterConfig>, sources: Map<u64, JsonValue>) -> bool {
    &&& filters.dom() == sources.dom()
    &&& forall|k: u64| #[trigger]
        sources.contains_key(k) ==> kind_config_parsed_from(sources[k], filters[k])
}

/// The kinds listed by one member of the `kinds` section.
fn kind_list(kinds: Option<&JsonValue>, key: &str) -> (r: Option<Vec<u64>>)
    ensures
        r.deep_view() == kind_list_member(
            match kinds {
                Some(k) => Some(*k),
                None => None,
            },
            key@,
        ),
{
    let k = match kinds {
        Some(k) => k,
        None => {
            return None;
        },
    };
    let arr = match k.get(key) {
        Some(x) => match x.as_array() {
            Some(a) => a,
            None => {
                return None;
            },
        },
        None => {
            return None;
        },
    };
    let n = arr.len();
    let mut out: Vec<u64> = Vec::new();
    let mut i: usize = 0;
    while i < n
        invariant
            n == arr@.len(),
            i <= n,
            out.deep_view() == kind_list_of(arr@.take(i as int)),
        decreases n - i,
    {
        assert(arr@.take(i + 1).drop_last() =~= arr@.take(i as int));
        assert(arr@.take(i + 1).last() == arr@[i as int]);
        let item = &arr[i];
        match item.as_str() {
            Some(s) => {
                match parse_unsigned_str(s, u64::MAX) {
                    Some(v) => {
                        out.push(v);
                        assert(out.deep_view() =~= kind_list_of(arr@.take(i as int)).push(v));
                    },
                    None => {},
                }
            },
            None => {
                match item.as_u64() {
                    Some(v) => {
                        out.push(v);
                        assert(out.deep_view() =~= kind_list_of(arr@.take(i as int)).push(v));
                    },
                    None => {},
                }
            },
        }
        i = i + 1;
    }
    assert(arr@.take(n as int) =~= arr@);
    Some(out)
}

/// `r` is what the kind filter document `json`, read from `file_path`,
/// gives: the whitelist and blacklist of its "kinds" section and a filter
/// for each kind key, or the first error.
pub open spec fn kind_filters_built(
    json: JsonValue,
    file_path: Seq<char>,
    r: Result<KindFilters, String>,
) -> bool {
    match r {
        Ok(kf) => {
            &&& !kinds_section_error(json)
            &&& kind_sources(json, root_entries(json)) matches Ok(m) && filters_match(kf.filters@, m)
            &&& kf.config_file.deep_view() == Some(file_path)
            &&& kf.whitelist.deep_view() == kind_list_member(json_get(json, "kinds"@), "whitelist"@)
            &&& kf.blacklist.deep_view() == kind_list_member(json_get(json, "kinds"@), "blacklist"@)
        },
        Err(e) => if kinds_section_error(json) {
            e@ == "kinds must be an object with whitelist and/or blacklist"@
        } else {
            kind_sources(json, root_entries(json)) == Err::<Map<u64, JsonValue>, Seq<char>>(e@)
        },
    }
}

/// `r` is what the text of a kind filter file gives: an error naming the
/// JSON parse failure, or what the parsed document gives.
pub open spec fn kind_filters_from_text(
    contents: Seq<char>,
    file_path: Seq<char>,
    r: Result<KindFilters, String>,
) -> bool {
    match json_document(contents) {
        Err(m) => r matches Err(e) && e@ == "Failed to parse JSON: "@ + m,
        Ok(j) => kind_filters_built(j, file_path, r),
    }
}

impl KindFilters {
    /// Empty kind filters: every kind allowed, nothing configured.
    pub fn new() -> (r: Self)
        ensures
            r.config_file is None,
            r.whitelist is None,
            r.blacklist is None,
            r.filters@ == Map::<u64, KindFilterConfig>::empty(),
    {
        KindFilters { config_file: None, whitelist: None, blacklist: None, filters: HashMap::new() }
    }

    /// Builds the kind filters from the parsed kind filter file `json`,
    /// read from `file_path`.
    pub fn from_json(json: &JsonValue, file_path: &str) -> (r: Result<Self, String>)
        ensures
            kind_filters_built(*json, file_path@, r),
    {
        broadcast use vstd::std_specs::hash::group_hash_axioms;

        let kinds = json.get("kinds");
        match kinds {
            Some(k) => {
                if !k.is_object() {
                    return Err("kinds must be an object with whitelist and/or blacklist".to_owned());
                }
            },
            None => {},
        }
        let whitelist = kind_list(kinds, "whitelist");
        let blacklist = kind_list(kinds, "blacklist");

        let mut filters: HashMap<u64, KindFilterConfig> = HashMap::new();
        let ghost mut sources: Map<u64, JsonValue> = Map::empty();
        match json {
            JsonValue::Object(es) => {
                let n = es.len();
                let mut i: usize = 0;
                while i < n
                    invariant
                        n == es@.len(),
                        i <= n,
                        root_entries(*json) == es@,
                        !kinds_section_error(*json),
                        kind_sources(*json, es@.take(i as int)) == Ok::<Map<u64, JsonValue>, Seq<char>>(sources),
                        filters_match(filters@, sources),
                    decreases n - i,
                {
                    let ghost pre = es@.take(i as int);
                    assert(es@.take(i + 1).drop_last() =~= pre);
                    assert(es@.take(i + 1).last() == es@[i as int]);
                    let key = es[i].0.as_str();
                    if !str_eq(key, "kinds") {
                        match parse_unsigned_str(key, u64::MAX) {
                            Some(kind) => {
                                let section = match json.get(key) {
                                    Some(v) => v,
                                    None => {
                                        let mut msg = "Missing configuration for kind ".to_owned();
                                        msg.append(key);
                                        proof {
                                            lemma_kind_sources_error_persists(*json, es@, i + 1, msg@);
                                        }
                                        return Err(msg);
                                    },
                                };
                                match KindFilterConfig::from_json_value(section) {
                                    Ok(config) => {
                                        filters.insert(kind, config);
                                        proof {
                                            sources = sources.insert(kind, *section);
                                        }
                                    },
                                    Err(e) => {
                                        proof {
                                            lemma_kind_sources_error_persists(*json, es@, i + 1, e@);
                                        }
                                        return Err(e);
                                    },
                                }
                            },
                            None => {},
                        }
                    }
                    i = i + 1;
                }
                assert(es@.take(n as int) =~= es@);
            },
            _ => {},
        }
        let mut path = String::new();
        path.append(file_path);
        Ok(KindFilters { config_file: Some(path), whitelist, blacklist, filters })
    }
}

impl Default for KindFilters {
    fn default() -> (r: Self)
        ensures
            r.config_file is None,
            r.whitelist is None,
            r.blacklist is None,
            r.filters@ == Map::<u64, KindFilterConfig>::empty(),
    {
        KindFilters::new()
    }
}

// ---------------------------------------------------------------------
// Settings
// ---------------------------------------------------------------------

#[derive(Debug, Clone)]
pub struct Settings {
    pub info: Info,
    pub diagnostics: Diagnostics,
    pub database: Database,
    pub grpc: Grpc,
    pub network: Network,
    pub limits: Limits,
    pub authorization: Authorization,
    pub pay_to_relay: PayToRelay,
    pub verified_users: VerifiedUsers,
    pub retention: Retention,
    pub options: Options,
    pub logging: Logging,
    pub kind_filters_config: KindFiltersConfig,
    pub kind_filters: KindFilters,
}

/// `r` is what reading a kind filter file gave, then building from its text:
/// a read failure is reported with the file's path.
pub open spec fn kind_filters_from_read(
    file_path: Seq<char>,
    read: Result<Seq<char>, Seq<char>>,
    r: Result<KindFilters, String>,
) -> bool {
    match read {
        Err(m) => r matches Err(e) && e@ == "Failed to read kind filters file "@ + file_path + ": "@
            + m,
        Ok(contents) => kind_filters_from_text(contents, file_path, r),
    }
}

impl KindFilters {
    /// Parses the text of a kind filter file read from `file_path`.
    pub fn from_json_text(contents: &str, file_path: &str) -> (r: Result<Self, String>)
        ensures
            kind_filters_from_text(contents@, file_path@, r),
    {
        match parse_json(contents) {
            Ok(json) => KindFilters::from_json(&json, file_path),
            Err(m) => Err(concat_str("Failed to parse JSON: ", m.as_str())),
        }
    }

    /// Builds the kind filters from the outcome of reading `file_path`: the
    /// file's text, or the message of the read error.
    pub fn from_read_result(file_path: &str, read: Result<String, String>) -> (r: Result<
        Self,
        String,
    >)
        ensures
            kind_filters_from_read(
                file_path@,
                match read {
                    Ok(c) => Ok::<Seq<char>, Seq<char>>(c@),
                    Err(m) => Err::<Seq<char>, Seq<char>>(m@),
                },
                r,
            ),
    {
        match read {
            Ok(contents) => KindFilters::from_json_text(contents.as_str(), file_path),
            Err(m) => {
                let a = concat_str("Failed to read kind filters file ", file_path);
                let b = concat_str(a.as_str(), ": ");
                let e = concat_str(b.as_str(), m.as_str());
                assert(e@ == "Failed to read kind filters file "@ + file_path@ + ": "@ + m@);
                Err(e)
            },
        }
    }
}

// ---------------------------------------------------------------------
// Where the kind filter file lies (`std::path`)
// ---------------------------------------------------------------------

/// Name for `Path::is_absolute` on a path, under the path rules of the
/// platform the crate is built for.
pub uninterp spec fn path_absolute(p: Seq<char>) -> bool;

/// Name for `Path::parent` on a path, as text.
pub uninterp spec fn path_parent_of(p: Seq<char>) -> Option<Seq<char>>;

/// Name for `Path::join` of two paths, as text.
pub uninterp spec fn path_joined(base: Seq<char>, file: Seq<char>) -> Seq<char>;

/// Calls `std::path::Path::is_absolute`. The contract claims that the
/// answer is a function of the path alone (named `path_absolute`).
#[verifier::external_body]
fn path_is_absolute(p: &str) -> (r: bool)
    ensures
        r == path_absolute(p@),
{
    std::path::Path::new(p).is_absolute()
}

/// Calls `std::path::Path::parent` and gives the parent as text. The
/// contract claims that it is a function of the path alone (named
/// `path_parent_of`) and, as std documents, that an empty path has none.
#[verifier::external_body]
fn path_parent(p: &str) -> (r: Option<String>)
    ensures
        r.deep_view() == path_parent_of(p@),
        p@.len() == 0 ==> r is None,
{
    std::path::Path::new(p).parent().map(|d| d.to_string_lossy().into_owned())
}

/// Calls `std::path::Path::join` and gives the joined path as text. The
/// contract claims that it is a function of the two paths alone (named
/// `path_joined`); std documents that an absolute `file` replaces `base`.
#[verifier::external_body]
fn path_join(base: &str, file: &str) -> (r: String)
    ensures
        r@ == path_joined(base@, file@),
{
    std::path::Path::new(base).join(file).to_string_lossy().into_owned()
}

/// Where a kind filter file named `config_file` lies, for the configuration
/// file at `config_path`: an absolute name as it is, a relative one in the
/// configuration file's directory (or ".").
pub open spec fn kind_filters_location(config_file: Seq<char>, config_path: Seq<char>) -> Seq<char> {
    if path_absolute(config_file) {
        config_file
    } else {
        let dir = match path_parent_of(config_path) {
            Some(d) => d,
            None => "."@,
        };
        path_joined(dir, config_file)
    }
}

/// The path of the kind filter file named in the settings: an absolute
/// path as it is, a relative one next to the configuration file.
pub fn kind_filters_path(config_file: &str, config_path: &str) -> (r: String)
    ensures
        r@ == kind_filters_location(config_file@, config_path@),
{
    if path_is_absolute(config_file) {
        config_file.to_owned()
    } else {
        let dir = match path_parent(config_path) {
            Some(d) => d,
            None => ".".to_owned(),
        };
        path_join(dir.as_str(), config_file)
    }
}

impl Default for Settings {
    fn default() -> (r: Self)
        ensures
            r.info.name.deep_view() == Some("Unnamed nostr-rs-relay"@),
            r.info.relay_url is None,
            r.info.pubkey is None,
            r.info.description is None,
            r.info.contact is None,
            r.info.favicon is None,
            r.info.relay_icon is None,
            r.info.relay_page is None,
            !r.diagnostics.tracing,
            r.database.data_directory@ == "."@,
            r.database.engine@ == "sqlite"@,
            !r.database.in_memory,
            r.database.min_conn == 4,
            r.database.max_conn == 8,
            r.database.connection@ == ""@,
            r.database.connection_write is None,
            r.grpc.event_admission_server is None,
            !r.grpc.restricts_write,
            r.network.port == 8080,
            r.network.ping_interval_seconds == 300,
            r.network.address@ == "0.0.0.0"@,
            r.network.remote_ip_header is None,
            r.limits.messages_per_sec is None,
            r.limits.subscriptions_per_min is None,
            r.limits.db_conns_per_client is None,
            r.limits.max_blocking_threads == 16,
            r.limits.max_event_bytes == Some(262144usize),
            r.limits.max_ws_message_bytes == Some(262144usize),
            r.limits.max_ws_frame_bytes == Some(262144usize),
            r.limits.broadcast_buffer == 16384,
            r.limits.event_persist_buffer == 4096,
            r.limits.event_kind_blacklist is None,
            r.limits.event_kind_allowlist is None,
            !r.limits.limit_scrapers,
            r.authorization.pubkey_whitelist is None,
            !r.authorization.nip42_auth,
            !r.authorization.nip42_dms,
            !r.pay_to_relay.enabled,
            r.pay_to_relay.admission_cost == 4200,
            r.pay_to_relay.cost_per_event == 0,
            r.pay_to_relay.terms_message@ == ""@,
            r.pay_to_relay.node_url@ == ""@,
            r.pay_to_relay.api_secret@ == ""@,
            r.pay_to_relay.rune_path is None,
            !r.pay_to_relay.sign_ups,
            !r.pay_to_relay.direct_message,
            r.pay_to_relay.secret_key is None,
            r.pay_to_relay.processor == Processor::LNBits,
            r.verified_users.mode == VerifiedUsersMode::Disabled,
            r.verified_users.domain_whitelist is None,
            r.verified_users.domain_blacklist is None,
            r.verified_users.verify_expiration.deep_view() == Some("1 week"@),
            r.verified_users.verify_update_frequency.deep_view() == Some("1 day"@),
            r.verified_users.verify_expiration_duration is None,
            r.verified_users.verify_update_frequency_duration is None,
            r.verified_users.max_consecutive_failures == 20,
            r.retention.max_events is None,
            r.retention.max_bytes is None,
            r.retention.persist_days is None,
            r.retention.whitelist_addresses is None,
            r.options.reject_future_seconds is None,
            r.logging.folder_path is None,
            r.logging.file_prefix is None,
            r.kind_filters.config_file is None,
            r.kind_filters.whitelist is None,
            r.kind_filters.blacklist is None,
            r.kind_filters.filters@ == Map::<u64, KindFilterConfig>::empty(),
            r.kind_filters_config.config_file is None,
    {
        let frame_bytes: usize = 2usize << 17usize;
        assert(2usize << 17usize == 262144usize) by (bit_vector);
        Settings {
            info: Info {
                relay_url: None,
                name: Some("Unnamed nostr-rs-relay".to_owned()),
                description: None,
                pubkey: None,
                contact: None,
                favicon: None,
                relay_icon: None,
                relay_page: None,
            },
            diagnostics: Diagnostics { tracing: false },
            database: Database {
                data_directory: ".".to_owned(),
                engine: "sqlite".to_owned(),
                in_memory: false,
                min_conn: 4,
                max_conn: 8,
                connection: "".to_owned(),
                connection_write: None,
            },
            grpc: Grpc { event_admission_server: None, restricts_write: false },
            network: Network {
                port: 8080,
                ping_interval_seconds: 300,
                address: "0.0.0.0".to_owned(),
                remote_ip_header: None,
            },
            limits: Limits {
                messages_per_sec: None,
                subscriptions_per_min: None,
                db_conns_per_client: None,
                max_blocking_threads: 16,
                max_event_bytes: Some(frame_bytes),
                max_ws_message_bytes: Some(frame_bytes),
                max_ws_frame_bytes: Some(frame_bytes),
                broadcast_buffer: 16384,
                event_persist_buffer: 4096,
                event_kind_blacklist: None,
                event_kind_allowlist: None,
                limit_scrapers: false,
            },
            authorization: Authorization {
                pubkey_whitelist: None,
                nip42_auth: false,
                nip42_dms: false,
            },
            pay_to_relay: PayToRelay {
                enabled: false,
                admission_cost: 4200,
                cost_per_event: 0,
                terms_message: "".to_owned(),
                node_url: "".to_owned(),
                api_secret: "".to_owned(),
                rune_path: None,
                sign_ups: false,
                direct_message: false,
                secret_key: None,
                processor: Processor::LNBits,
            },
            verified_users: VerifiedUsers {
                mode: VerifiedUsersMode::Disabled,
                domain_whitelist: None,
                domain_blacklist: None,
                verify_expiration: Some("1 week".to_owned()),
                verify_update_frequency: Some("1 day".to_owned()),
                verify_expiration_duration: None,
                verify_update_frequency_duration: None,
                max_consecutive_failures: 20,
            },
            retention: Retention {
                max_events: None,
                max_bytes: None,
                persist_days: None,
                whitelist_addresses: None,
            },
            options: Options { reject_future_seconds: None },
            logging: Logging { folder_path: None, file_prefix: None },
            kind_filters: KindFilters::new(),
            kind_filters_config: KindFiltersConfig { config_file: None },
        }
    }
}

/// A setting that the loaded configuration must not have.
#[derive(Debug, Clone, Copy, PartialEq, Eq, Structural)]
pub enum SettingsError {
    /// `database.min_conn` exceeds `database.max_conn`.
    ConnectionPoolInverted,
    /// A verified-users duration is missing or does not parse.
    VerifiedUsersDurations,
    /// Pay-to-relay with ClnRest lacks a real `rune_path`.
    RunePathMissing,
    /// Pay-to-relay with LNBits has an empty `api_secret`.
    ApiSecretMissing,
    /// Pay-to-relay has an empty `node_url`.
    NodeUrlMissing,
    /// Pay-to-relay has an empty `terms_message`.
    TermsMessageMissing,
    /// Pay-to-relay direct messages lack a real `secret_key`.
    SecretKeyMissing,
}

/// The first setting that is not acceptable, checked in this order.
pub open spec fn settings_error(s: Settings) -> Option<SettingsError> {
    let p = s.pay_to_relay;
    if s.database.min_conn > s.database.max_conn {
        Some(SettingsError::ConnectionPoolInverted)
    } else if !(duration_setting_parses(s.verified_users.verify_expiration.deep_view())
        && duration_setting_parses(s.verified_users.verify_update_frequency.deep_view())) {
        Some(SettingsError::VerifiedUsersDurations)
    } else if !p.enabled {
        None
    } else if p.processor == Processor::ClnRest && !(p.rune_path.deep_view() matches Some(r) && r
        != "<rune path>"@) {
        Some(SettingsError::RunePathMissing)
    } else if p.processor == Processor::LNBits && p.api_secret@ == ""@ {
        Some(SettingsError::ApiSecretMissing)
    } else if p.node_url@ == ""@ {
        Some(SettingsError::NodeUrlMissing)
    } else if p.terms_message@ == ""@ {
        Some(SettingsError::TermsMessageMissing)
    } else if p.direct_message && !(p.secret_key.deep_view() matches Some(k) && k
        != "<nostr nsec>"@) {
        Some(SettingsError::SecretKeyMissing)
    } else {
        None
    }
}

fn is_set_to_other_than(v: &Option<String>, placeholder: &str) -> (r: bool)
    ensures
        r == (v.deep_view() matches Some(x) && x != placeholder@),
{
    match v {
        Some(x) => !str_eq(x.as_str(), placeholder),
        None => false,
    }
}

impl Settings {
    /// Checks the loaded settings: the connection pool bounds, the
    /// verified-users durations and, when enabled, the pay-to-relay settings.
    pub fn check(&self) -> (r: Result<(), SettingsError>)
        ensures
            match r {
                Ok(()) => settings_error(*self) is None,
                Err(e) => settings_error(*self) == Some(e),
            },
    {
        if self.database.min_conn > self.database.max_conn {
            return Err(SettingsError::ConnectionPoolInverted);
        }
        if !self.verified_users.is_valid() {
            return Err(SettingsError::VerifiedUsersDurations);
        }
        let p = &self.pay_to_relay;
        if p.enabled {
            if p.processor == Processor::ClnRest {
                if !is_set_to_other_than(&p.rune_path, "<rune path>") {
                    return Err(SettingsError::RunePathMissing);
                }
            } else if p.processor == Processor::LNBits {
                if str_eq(p.api_secret.as_str(), "") {
                    return Err(SettingsError::ApiSecretMissing);
                }
            }
            if str_eq(p.node_url.as_str(), "") {
                return Err(SettingsError::NodeUrlMissing);
            }
            if str_eq(p.terms_message.as_str(), "") {
                return Err(SettingsError::TermsMessageMissing);
            }
            if p.direct_message {
                if !is_set_to_other_than(&p.secret_key, "<nostr nsec>") {
                    return Err(SettingsError::SecretKeyMissing);
                }
            }
        }
        Ok(())
    }

    /// Installs the kind filters that were loaded, or empty ones when there
    /// were none or loading failed.
    pub fn use_kind_filters(&mut self, loaded: Option<KindFilters>)
        ensures
            match loaded {
                Some(kf) => final(self).kind_filters == kf,
                None => {
                    &&& final(self).kind_filters.config_file is None
                    &&& final(self).kind_filters.whitelist is None
                    &&& final(self).kind_filters.blacklist is None
                    &&& final(self).kind_filters.filters@ == Map::<u64, KindFilterConfig>::empty()
                },
            },
            final(self).verified_users == old(self).verified_users,
            final(self).database == old(self).database,
            final(self).pay_to_relay == old(self).pay_to_relay,
            final(self).kind_filters_config == old(self).kind_filters_config,
            final(self).info == old(self).info,
            final(self).diagnostics == old(self).diagnostics,
            final(self).grpc == old(self).grpc,
            final(self).network == old(self).network,
            final(self).limits == old(self).limits,
            final(self).authorization == old(self).authorization,
            final(self).retention == old(self).retention,
            final(self).options == old(self).options,
            final(self).logging == old(self).logging,
    {
        match loaded {
            Some(kf) => {
                self.kind_filters = kf;
            },
            None => {
                self.kind_filters = KindFilters::new();
            },
        }
    }

    /// Checks the settings and, when they are acceptable, stores the parsed
    /// verified-users durations.
    pub fn finalize(&mut self) -> (r: Result<(), SettingsError>)
        ensures
            match r {
                Ok(()) => settings_error(*old(self)) is None,
                Err(e) => settings_error(*old(self)) == Some(e),
            },
            final(self).database == old(self).database,
            final(self).pay_to_relay == old(self).pay_to_relay,
            final(self).kind_filters_config == old(self).kind_filters_config,
            final(self).kind_filters == old(self).kind_filters,
            final(self).info == old(self).info,
            final(self).diagnostics == old(self).diagnostics,
            final(self).grpc == old(self).grpc,
            final(self).network == old(self).network,
            final(self).limits == old(self).limits,
            final(self).authorization == old(self).authorization,
            final(self).retention == old(self).retention,
            final(self).options == old(self).options,
            final(self).logging == old(self).logging,
            final(self).verified_users.mode == old(self).verified_users.mode,
            final(self).verified_users.domain_whitelist == old(self).verified_users.domain_whitelist,
            final(self).verified_users.domain_blacklist == old(self).verified_users.domain_blacklist,
            final(self).verified_users.verify_expiration == old(self).verified_users.verify_expiration,
            final(self).verified_users.verify_update_frequency == old(
                self,
            ).verified_users.verify_update_frequency,
            final(self).verified_users.max_consecutive_failures == old(
                self,
            ).verified_users.max_consecutive_failures,
            r is Ok ==> final(self).verified_users.verify_expiration_duration == duration_setting(
                old(self).verified_users.verify_expiration.deep_view(),
            ),
            r is Ok ==> final(self).verified_users.verify_update_frequency_duration
                == duration_setting(old(self).verified_users.verify_update_frequency.deep_view()),
            r is Ok ==> final(self).verified_users.verify_expiration_duration is Some
                && final(self).verified_users.verify_update_frequency_duration is Some,
            r is Err ==> final(self).verified_users == old(self).verified_users,
    {
        match self.check() {
            Ok(()) => {},
            Err(e) => {
                return Err(e);
            },
        }
        self.verified_users.init();
        Ok(())
    }
}

/// A per-kind section's expiration is read from its "expiration" member
/// and its maximum expiration from its "max_expiration" member, each on its
/// own: a duration string gives its parsed duration, "never", a missing
/// member or a non-string gives none.
pub proof fn lemma_expirations_read_from_their_keys(v: JsonValue, c: KindFilterConfig)
    requires
        kind_config_parsed_from(v, c),
    ensures
        match str_member(v, "expiration"@) {
            Some(s) => c.expiration.duration == if s == "never"@ {
                None
            } else {
                duration_of(s)
            },
            None => c.expiration.duration is None,
        },
        match str_member(v, "max_expiration"@) {
            Some(s) => c.max_expiration.duration == if s == "never"@ {
                None
            } else {
                duration_of(s)
            },
            None => c.max_expiration.duration is None,
        },
{
}

} // verus!
