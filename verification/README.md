# nostr_rs_relay policy core

The event-admission and read-access policy of a nostr relay, written in
Verus with its behaviour stated as contracts and proved.

- `src/text.rs` – character-level helpers (trimming, unsigned parsing,
  decimal rendering, replacement) specified over `Seq<char>`.
- `src/event.rs` – the event and the tag queries the policy uses.
- `src/json.rs` – JSON documents as plain values.
- `src/config.rs` – settings, the kind filter file parser and its sections.
- `src/kind_filters.rs` – access rules, tag requirements, expiration windows,
  the global kind lists and rejection message templates.
- `src/notice.rs` – NIP-01 OK/NOTICE messages and their prefixes.
- `src/read_access.rs` – read access limited to an event's participants.
- `src/utils.rs` – the wall clock.
- `app/` – file, process and configuration-file I/O around the library.
- `tests/` – executable tests of the library.
