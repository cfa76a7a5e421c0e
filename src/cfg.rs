//! The parts of the proxy's configuration that the forwarding and status
//! logic reads.
use vstd::prelude::*;

verus! {

/// How the proxy vouches for a client's identity to a backend.
#[derive(Debug, Clone)]
pub enum ForwardingMethod {
    /// The unsigned legacy scheme; not offered by this proxy.
    BungeeLegacy,
    /// Identity signed with a secret shared with the backend.
    VelocityModern { secret_key: String },
}

/// How clients are authenticated when they connect to the proxy.
#[derive(Debug, Clone)]
pub enum IncomingAuthMethod {
    Mojang { override_sessionserver: Option<String> },
    BungeeLegacy,
    VelocityModern { secret_key: String },
}

/// A backend server that the proxy can send players to.
#[derive(Debug, Clone)]
pub struct ServerInfo {
    pub server_id: Option<String>,
    pub server_name: String,
    pub server_ip: String,
    pub server_port: u16,
    /// Overrides the proxy-wide forwarding method for this server.
    pub forwarding: Option<ForwardingMethod>,
}

/// Proxy-wide authentication settings.
#[derive(Debug, Clone)]
pub struct AuthConfig {
    pub force_key_authentication: bool,
    pub default_forwarding: ForwardingMethod,
    pub incoming_auth: IncomingAuthMethod,
}

/// How the player counts in a status response are chosen.
#[derive(Debug, Clone, Copy, PartialEq, Eq, Structural)]
pub enum Players {
    /// The online count, with room for one more.
    Incremental,
    /// Fixed numbers.
    Static { max_players: i32, online_players: i32 },
    /// The online count against a fixed maximum, which also caps admission.
    Capped { max_players: i32 },
}

/// The player-count policy used when the configuration names none.
pub fn incremental() -> (r: Players)
    ensures
        r == Players::Incremental,
{
    Players::Incremental
}

/// The forwarding method in force for a server: its own, else the proxy's.
pub open spec fn effective_forwarding(server: ServerInfo, auth: AuthConfig) -> ForwardingMethod {
    match server.forwarding {
        Some(m) => m,
        None => auth.default_forwarding,
    }
}

/// Looks up the forwarding method in force for `server`.
pub fn resolve_forwarding<'a>(server: &'a ServerInfo, auth: &'a AuthConfig) -> (r: &'a ForwardingMethod)
    ensures
        *r == effective_forwarding(*server, *auth),
{
    match &server.forwarding {
        Some(m) => m,
        None => &auth.default_forwarding,
    }
}

} // verus!
