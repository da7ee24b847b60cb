//! Which of the two backend dialects a server speaks, and the connection
//! settings the application keeps for it.
//!
//! The state is a plain value owned by the caller and passed explicitly;
//! there is no process-wide registry.

use vstd::prelude::*;

verus! {

/// The two interchangeable backend authentication dialects.
#[derive(Clone, Copy, Debug, PartialEq, Eq, Structural)]
pub enum ConnectionMode {
    SaaS,
    SelfHosted,
}

/// Where a self-hosted server lives.
#[derive(Clone, Debug)]
pub struct ServerConfig {
    pub url: String,
}

/// The connection settings: the selected dialect and, for a self-hosted
/// server, its address.
#[derive(Clone, Debug)]
pub struct ConnectionState {
    pub mode: ConnectionMode,
    pub server_config: Option<ServerConfig>,
}

impl Default for ConnectionState {
    /// A fresh installation starts in SaaS mode with no server configured.
    fn default() -> (r: Self)
        ensures
            r.mode == ConnectionMode::SaaS,
            r.server_config is None,
    {
        ConnectionState { mode: ConnectionMode::SaaS, server_config: None }
    }
}

/// The connection state as the application owns it.
pub struct AppConnectionState(pub ConnectionState);

impl Default for AppConnectionState {
    fn default() -> (r: Self)
        ensures
            r.0.mode == ConnectionMode::SaaS,
            r.0.server_config is None,
    {
        AppConnectionState(ConnectionState::default())
    }
}

/// The connection settings as they are handed to the rest of the
/// application.
pub struct ConnectionConfig {
    pub mode: ConnectionMode,
    pub server_config: Option<ServerConfig>,
}

impl ConnectionState {
    /// The settings this state presents to the application.
    pub fn to_config(&self) -> (r: ConnectionConfig)
        ensures
            r.mode == self.mode,
            r.server_config is Some <==> self.server_config is Some,
            r.server_config matches Some(c) ==> c.url@ == self.server_config->0.url@,
    {
        ConnectionConfig {
            mode: self.mode,
            server_config: match &self.server_config {
                Some(c) => Some(ServerConfig { url: c.url.clone() }),
                None => None,
            },
        }
    }
}

} // verus!
