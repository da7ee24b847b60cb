//! Authentication for a desktop client that can log in against either of two
//! backend identity providers, or run a federated (OAuth) login through the
//! system browser using the Authorization Code + PKCE flow with a loopback
//! redirect.
//!
//! The password path lives in [`password`]: one entry point selects the
//! backend dialect by exact match against the configured SaaS base URL,
//! builds that dialect's request and normalizes both response shapes into
//! one result type. The federated path runs through [`pkce`] (the
//! verifier/challenge pair), [`listener`] (one ephemeral loopback port
//! waiting for the one decisive callback), [`callback`] (the parse of a
//! redirect URL into a typed outcome) and [`exchange`] (the code-for-token
//! call), composed by [`oauth`]. [`codec`], [`json`] and [`text`] hold the
//! verified text machinery; [`http`] is the trusted transport boundary;
//! [`connection`], [`files`], [`logging`] and [`provision`] carry the
//! application state and settings that surround a login.

pub mod callback;
pub mod codec;
pub mod connection;
pub mod exchange;
pub mod files;
pub mod http;
pub mod json;
pub mod listener;
pub mod logging;
pub mod oauth;
pub mod password;
pub mod pkce;
pub mod provision;
pub mod text;
