//! The backend half of a live player session, and what one read from either
//! side of the session leads to.
use vstd::prelude::*;
use crate::cfg::ServerInfo;
use crate::player::ClientInfo;

verus! {

/// Where a player is to be moved.
#[derive(Debug, Clone)]
pub enum ForwardToServerType {
    /// A configured server, by its identifier.
    ById(String),
    /// A server given in full.
    Info(ServerInfo),
}

/// What dispatching one backend packet asks of the session.
#[derive(Debug, Clone)]
pub enum EndpointResolution {
    DoNothing,
    DisconnectGracefully,
    ForwardToServer(ForwardToServerType),
}

/// What a handler-dispatching read of one packet came to.
#[derive(Debug, Clone)]
pub enum DispatchOutcome<T, E> {
    /// A registered handler took the packet and gave this result.
    Handled(T),
    /// No handler is registered for the packet; its undecoded bytes.
    NoHandler { packet_id: i32, data: Vec<u8> },
    /// The time allowed passed with no packet.
    TimedOut,
    /// The transport failed.
    Transport(E),
}

/// The next thing a session does after one read from its backend.
#[derive(Debug, Clone)]
pub enum ServerStep<E> {
    /// A handler resolved the packet.
    Resolved(EndpointResolution),
    /// The packet is relayed to the client as it came, after which there is
    /// nothing more to do for it.
    ForwardToClient(Vec<u8>),
    /// Nothing arrived in time.
    Idle,
    /// The backend connection is broken.
    Failed(E),
}

/// What a session does after one read from its client.
#[derive(Debug, Clone)]
pub enum ClientFunctionResponse {
    DoNothing,
    ForwardPacket(Vec<u8>),
    ForwardPackets(Vec<Vec<u8>>),
}

/// The per-session state that backend packet handlers work on. `CW` writes
/// to the client, `SW` to the backend.
pub struct BackendContext<CW, SW> {
    pub client_info: ClientInfo,
    pub client_write: CW,
    pub server_write: SW,
}

/// A live backend connection attached to a client session. The read side
/// `R` and `backend_context.server_write` belong to the same backend socket.
pub struct BackendEndpoint<R, CW, SW> {
    pub backend_context: BackendContext<CW, SW>,
    pub server_read: R,
}

/// A backend connection that has logged in but is not yet attached to a
/// session.
pub struct BackendEndpointWithNoContext<R, SW> {
    pub server_read: R,
    pub server_write: SW,
}

impl<R, CW, SW> BackendEndpoint<R, CW, SW> {
    /// Moves a session to a new backend: the client's identity and write
    /// half come from `old_server`, both halves of the backend connection
    /// from `new_server`; the old backend halves are dropped.
    pub fn merge(old_server: BackendEndpoint<R, CW, SW>, new_server: BackendEndpointWithNoContext<R, SW>) -> (r:
        BackendEndpoint<R, CW, SW>)
        ensures
            r.backend_context.client_info == old_server.backend_context.client_info,
            r.backend_context.client_write == old_server.backend_context.client_write,
            r.backend_context.server_write == new_server.server_write,
            r.server_read == new_server.server_read,
    {
        let BackendEndpoint { backend_context, .. } = old_server;
        let BackendContext { client_info, client_write, .. } = backend_context;
        let BackendEndpointWithNoContext { server_read, server_write } = new_server;
        BackendEndpoint { backend_context: BackendContext { client_info, client_write, server_write }, server_read }
    }

    /// The step that one read from the backend leads to. A packet without a
    /// handler is relayed to the client byte for byte.
    pub fn resolve_server_read<E>(outcome: DispatchOutcome<EndpointResolution, E>) -> (r: ServerStep<E>)
        ensures
            match outcome {
                DispatchOutcome::Handled(res) => r == ServerStep::<E>::Resolved(res),
                DispatchOutcome::NoHandler { packet_id, data } => r is ForwardToClient
                    && r->ForwardToClient_0@ == data@,
                DispatchOutcome::TimedOut => r is Idle,
                DispatchOutcome::Transport(e) => r == ServerStep::<E>::Failed(e),
            },
    {
        match outcome {
            DispatchOutcome::Handled(res) => ServerStep::Resolved(res),
            DispatchOutcome::NoHandler { data, .. } => ServerStep::ForwardToClient(data),
            DispatchOutcome::TimedOut => ServerStep::Idle,
            DispatchOutcome::Transport(e) => ServerStep::Failed(e),
        }
    }
}

/// The client half of a session: its read side, with no handlers registered.
pub struct Client<R> {
    pub read: R,
}

impl<R> Client<R> {
    /// Wraps a client read side as it is given; the caller clears its
    /// handlers first where it had any.
    pub fn create(current_pipeline: R) -> (r: Client<R>)
        ensures
            r.read == current_pipeline,
    {
        Client { read: current_pipeline }
    }

    /// What one read from the client leads to: a packet without a handler
    /// is forwarded to the backend byte for byte; `None` when nothing
    /// arrived in time.
    pub fn resolve_client_read<E>(outcome: DispatchOutcome<ClientFunctionResponse, E>) -> (r: Result<
        Option<ClientFunctionResponse>,
        E,
    >)
        ensures
            match outcome {
                DispatchOutcome::Handled(res) => r == Ok::<Option<ClientFunctionResponse>, E>(Some(res)),
                DispatchOutcome::NoHandler { packet_id, data } => r is Ok && r->Ok_0 is Some
                    && r->Ok_0->Some_0 is ForwardPacket && r->Ok_0->Some_0->ForwardPacket_0@ == data@,
                DispatchOutcome::TimedOut => r == Ok::<Option<ClientFunctionResponse>, E>(None),
                DispatchOutcome::Transport(e) => r == Err::<Option<ClientFunctionResponse>, E>(e),
            },
    {
        match outcome {
            DispatchOutcome::Handled(res) => Ok(Some(res)),
            DispatchOutcome::NoHandler { data, .. } => Ok(Some(ClientFunctionResponse::ForwardPacket(data))),
            DispatchOutcome::TimedOut => Ok(None),
            DispatchOutcome::Transport(e) => Err(e),
        }
    }
}

} // verus!
