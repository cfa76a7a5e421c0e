//! A reverse proxy core for a versioned game protocol: secret-based identity
//! forwarding to backend servers, the login exchange that carries it, and the
//! backend endpoint model that supports switching servers.
pub mod cfg;
pub mod connector;
pub mod endpoint;
pub mod forwarding;
pub mod packets;
pub mod player;
pub mod proxy;
pub mod wire;
