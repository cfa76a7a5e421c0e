//! Opening a backend connection: which forwarding method applies, the
//! packets that start the login, and the answer to the backend's request
//! for the client's signed identity.
use vstd::prelude::*;
use crate::cfg::{effective_forwarding, resolve_forwarding, AuthConfig, ForwardingMethod, ServerInfo};
use crate::forwarding::{
    handle_plugin_request, identity_payload, negotiated_mask, signed_data, ForwardingError,
    LoginPluginRequest, LoginPluginResponse,
};
use crate::player::{ClientInfo, IdentifiedKey, PlayerUuid};
use crate::wire::push_all;

verus! {

/// A backend server as a connection remembers it.
#[derive(Debug, Clone)]
pub struct ServerStubInfo {
    pub server_id: Option<String>,
    pub server_name: String,
    pub server_ip: String,
    pub server_port: u16,
}

impl ServerStubInfo {
    /// The stub of a configured server: all of it but its forwarding method.
    pub fn from_info(value: &ServerInfo) -> (r: ServerStubInfo)
        ensures
            r.server_id is Some <==> value.server_id is Some,
            r.server_id is Some ==> r.server_id->Some_0@ == value.server_id->Some_0@,
            r.server_name@ == value.server_name@,
            r.server_ip@ == value.server_ip@,
            r.server_port == value.server_port,
    {
        let server_id = match &value.server_id {
            Some(id) => Some(id.clone()),
            None => None,
        };
        ServerStubInfo {
            server_id,
            server_name: value.server_name.clone(),
            server_ip: value.server_ip.clone(),
            server_port: value.server_port,
        }
    }
}

/// The state a connection moves to after its handshake.
#[derive(Debug, Clone, Copy, PartialEq, Eq, Structural)]
pub enum NextState {
    Status,
    Login,
}

/// The first packet on a new connection.
#[derive(Debug, Clone)]
pub struct Handshake {
    pub protocol_version: i32,
    pub server_address: String,
    pub server_port: u16,
    pub next_state: NextState,
}

/// The packet that starts a login.
#[derive(Debug, Clone)]
pub struct LoginStart {
    pub name: String,
    pub sig_data: Option<IdentifiedKey>,
    pub sig_holder: Option<PlayerUuid>,
}

/// What the proxy sends a backend before it waits for the backend's
/// request, and the secret it answers that request with.
#[derive(Debug, Clone)]
pub struct LoginPlan {
    pub secret: String,
    pub handshake: Handshake,
    pub login_start: LoginStart,
}

/// What a backend sent during the login exchange.
#[derive(Debug, Clone)]
pub enum LoginEvent {
    /// The request for the client's signed identity.
    PluginRequest(LoginPluginRequest),
    /// A packet that the login exchange has no handler for.
    Unhandled { packet_id: i32, data: Vec<u8> },
}

/// The backend's answer to the login once the identity was sent (a
/// compression setting or the login success), passed on undecoded.
#[derive(Debug, Clone)]
pub struct LoginCompletion {
    pub packet_id: i32,
    pub data: Vec<u8>,
}

/// Why a backend connection could not be established.
#[derive(Debug, Clone, Copy, PartialEq, Eq, Structural)]
pub enum ConnectError {
    /// The server is configured for the legacy forwarding method, which this
    /// proxy does not offer.
    LegacyForwardingUnsupported,
    /// The backend sent a packet other than the identity request.
    UnexpectedPacket { packet_id: i32 },
    /// The backend asked for the identity again after it was answered.
    RepeatedPluginRequest { message_id: i32 },
    /// The signed identity could not be built.
    Forwarding(ForwardingError),
}

/// Two keys that hold the same values.
pub open spec fn same_key(a: IdentifiedKey, b: IdentifiedKey) -> bool {
    a.expires_at == b.expires_at && a.public_key@ == b.public_key@ && a.key_signature@ == b.key_signature@
}

/// A copy of a key, field by field.
pub fn copy_key(k: &IdentifiedKey) -> (r: IdentifiedKey)
    ensures
        same_key(r, *k),
{
    let mut public_key: Vec<u8> = Vec::new();
    push_all(&mut public_key, k.public_key.as_slice());
    let mut key_signature: Vec<u8> = Vec::new();
    push_all(&mut key_signature, k.key_signature.as_slice());
    IdentifiedKey { expires_at: k.expires_at, public_key, key_signature }
}

/// The packets that open the login on a backend for a client: a handshake
/// with the client's protocol version and the backend's own address, then a
/// login start with the client's name and its key material.
pub open spec fn plan_matches(p: LoginPlan, server: ServerInfo, client: ClientInfo) -> bool {
    &&& p.handshake.protocol_version == client.protocol_version
    &&& p.handshake.server_address@ == server.server_ip@
    &&& p.handshake.server_port == server.server_port
    &&& p.handshake.next_state == NextState::Login
    &&& p.login_start.name@ == client.profile.name@
    &&& (p.login_start.sig_data is Some <==> client.mojang_key is Some)
    &&& (client.mojang_key is Some ==> same_key(p.login_start.sig_data->Some_0, client.mojang_key->Some_0))
    &&& p.login_start.sig_holder == client.sig_holder
}

/// Prepares the login on `server` for `client`. The forwarding method is
/// settled first, so a server configured for the legacy method is refused
/// before anything is sent to it.
pub fn plan_backend_login(server: &ServerInfo, auth: &AuthConfig, client: &ClientInfo) -> (r: Result<
    LoginPlan,
    ConnectError,
>)
    ensures
        match effective_forwarding(*server, *auth) {
            ForwardingMethod::BungeeLegacy => r == Err::<LoginPlan, ConnectError>(
                ConnectError::LegacyForwardingUnsupported,
            ),
            ForwardingMethod::VelocityModern { secret_key } => r is Ok && r->Ok_0.secret@ == secret_key@
                && plan_matches(r->Ok_0, *server, *client),
        },
{
    let secret = match resolve_forwarding(server, auth) {
        ForwardingMethod::BungeeLegacy => {
            return Err(ConnectError::LegacyForwardingUnsupported);
        },
        ForwardingMethod::VelocityModern { secret_key } => secret_key.clone(),
    };
    let handshake = Handshake {
        protocol_version: client.protocol_version,
        server_address: server.server_ip.clone(),
        server_port: server.server_port,
        next_state: NextState::Login,
    };
    let sig_data = match &client.mojang_key {
        Some(k) => Some(copy_key(k)),
        None => None,
    };
    let login_start = LoginStart {
        name: client.profile.name.clone(),
        sig_data,
        sig_holder: client.sig_holder,
    };
    Ok(LoginPlan { secret, handshake, login_start })
}

/// Answers what the backend sent after the login start: the identity
/// request gets the signed identity; anything else ends the attempt.
pub fn answer_login_event(plan: &LoginPlan, client: &ClientInfo, event: &LoginEvent) -> (r: Result<
    LoginPluginResponse,
    ConnectError,
>)
    ensures
        match *event {
            LoginEvent::PluginRequest(req) => {
                let mask = negotiated_mask(req.data@, client.sig_holder is Some, client.mojang_key is Some);
                match identity_payload(*client, mask) {
                    Ok(p) => r is Ok && r->Ok_0.message_id == req.message_id && r->Ok_0.successful
                        && r->Ok_0.data@ == signed_data(plan.secret@, p) && r->Ok_0.data@.len() == 32 + p.len(),
                    Err(e) => r == Err::<LoginPluginResponse, ConnectError>(ConnectError::Forwarding(e)),
                }
            },
            LoginEvent::Unhandled { packet_id, data } => r == Err::<LoginPluginResponse, ConnectError>(
                ConnectError::UnexpectedPacket { packet_id },
            ),
        },
{
    match event {
        LoginEvent::PluginRequest(req) => match handle_plugin_request(plan.secret.as_str(), client, req) {
            Ok(resp) => Ok(resp),
            Err(e) => Err(ConnectError::Forwarding(e)),
        },
        LoginEvent::Unhandled { packet_id, .. } => Err(ConnectError::UnexpectedPacket { packet_id: *packet_id }),
    }
}

/// Takes what the backend sent after the identity response: any packet
/// but another identity request completes the login and is handed on as
/// it came.
pub fn complete_login(event: LoginEvent) -> (r: Result<LoginCompletion, ConnectError>)
    ensures
        match event {
            LoginEvent::PluginRequest(req) => r == Err::<LoginCompletion, ConnectError>(
                ConnectError::RepeatedPluginRequest { message_id: req.message_id },
            ),
            LoginEvent::Unhandled { packet_id, data } => r is Ok && r->Ok_0.packet_id == packet_id
                && r->Ok_0.data@ == data@,
        },
{
    match event {
        LoginEvent::PluginRequest(req) => Err(ConnectError::RepeatedPluginRequest { message_id: req.message_id }),
        LoginEvent::Unhandled { packet_id, data } => Ok(LoginCompletion { packet_id, data }),
    }
}

} // verus!
