//! Core of a small reverse proxy.
//!
//! The proxy listens on one socket (optionally TLS-terminated), matches each
//! inbound request's path against an ordered table of configured path
//! prefixes, and forwards matching requests to the associated backend origin,
//! relaying the backend's response to the caller.
//!
//! This crate holds the routing-and-forwarding engine: the route table and
//! its matching rule, the per-request forwarding decisions, and the mapping
//! of backend outcomes to HTTP responses. Listening, TLS handshakes and the
//! actual HTTP calls are I/O and live outside; they consume the decisions
//! made here as plain values.

pub mod config;
pub mod errors;
pub mod forward;
pub mod routes;
