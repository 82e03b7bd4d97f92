[package]
name = "nostr_rs_relay"
version = "0.1.0"
edition = "2021"
publish = false

[dependencies]
serde = { version = "1", features = ["derive"] }
serde_json = "1"
log = "0.4"
parse_duration = "2"
config = { version = "0.13", default-features = false, features = ["toml"] }
