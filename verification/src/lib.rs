//! Policy core of a nostr relay: kind filters, access rules, rejection
//! notices and configuration parsing, with their contracts.

pub mod text;
pub mod event;
pub mod json;
pub mod config;
pub mod utils;
pub mod kind_filters;
pub mod notice;
pub mod read_access;
