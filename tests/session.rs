use umbrella::cfg::Players;
use umbrella::endpoint::{
    BackendContext, BackendEndpoint, BackendEndpointWithNoContext, Client, ClientFunctionResponse, DispatchOutcome,
    EndpointResolution, ServerStep,
};
use umbrella::player::{ClientInfo, GameProfile, PlayerUuid};
use umbrella::proxy::{status_players, MutableProxyInfo, StatusPlayers};

fn client() -> ClientInfo {
    ClientInfo {
        protocol_version: 760,
        remote_addr: "1.2.3.4:5".to_string(),
        mojang_key: None,
        sig_holder: None,
        profile: GameProfile { id: PlayerUuid { bytes: [0u8; 16] }, name: "P".to_string(), properties: vec![] },
    }
}

#[test]
fn unknown_backend_packet_passes_through() {
    let raw = vec![0x00, 0xff, 0x10, 0x7f, 0x80];
    let step = BackendEndpoint::<u8, u8, u8>::resolve_server_read::<String>(DispatchOutcome::NoHandler {
        packet_id: 0x42,
        data: raw.clone(),
    });
    match step {
        ServerStep::ForwardToClient(out) => assert_eq!(out, raw),
        _ => panic!("expected passthrough"),
    }
    let step = BackendEndpoint::<u8, u8, u8>::resolve_server_read::<String>(DispatchOutcome::TimedOut);
    assert!(matches!(step, ServerStep::Idle));
    let step =
        BackendEndpoint::<u8, u8, u8>::resolve_server_read::<String>(DispatchOutcome::Transport("eof".to_string()));
    assert!(matches!(step, ServerStep::Failed(e) if e == "eof"));
    let step = BackendEndpoint::<u8, u8, u8>::resolve_server_read::<String>(DispatchOutcome::Handled(
        EndpointResolution::DisconnectGracefully,
    ));
    assert!(matches!(step, ServerStep::Resolved(EndpointResolution::DisconnectGracefully)));
}

#[test]
fn unknown_client_packet_passes_through() {
    let raw = vec![9, 8, 7];
    let r = Client::<u8>::resolve_client_read::<String>(DispatchOutcome::NoHandler { packet_id: 1, data: raw.clone() });
    assert!(matches!(r, Ok(Some(ClientFunctionResponse::ForwardPacket(d))) if d == raw));
    let r = Client::<u8>::resolve_client_read::<String>(DispatchOutcome::TimedOut);
    assert!(matches!(r, Ok(None)));
    let r = Client::<u8>::resolve_client_read::<String>(DispatchOutcome::Transport("reset".to_string()));
    assert_eq!(r.unwrap_err(), "reset");
    let c = Client::create(5u8);
    assert_eq!(c.read, 5);
}

#[test]
fn merge_keeps_client_half() {
    let old = BackendEndpoint {
        backend_context: BackendContext { client_info: client(), client_write: "client", server_write: "old-w" },
        server_read: "old-r",
    };
    let new = BackendEndpointWithNoContext { server_read: "new-r", server_write: "new-w" };
    let merged = BackendEndpoint::merge(old, new);
    assert_eq!(merged.backend_context.client_write, "client");
    assert_eq!(merged.backend_context.server_write, "new-w");
    assert_eq!(merged.server_read, "new-r");
    assert_eq!(merged.backend_context.client_info.remote_addr, "1.2.3.4:5");
}

#[test]
fn player_counter_returns_to_zero() {
    let cap = Players::Capped { max_players: 2 };
    let mut info = MutableProxyInfo::new();
    assert!(info.try_admit(&cap));
    assert!(info.try_admit(&cap));
    assert!(!info.try_admit(&cap));
    assert_eq!(info.current_players, 2);
    info.release();
    assert!(info.try_admit(&cap));
    info.release();
    info.release();
    assert_eq!(info.current_players, 0);
    assert!(info.try_admit(&Players::Incremental));
    info.release();
    assert_eq!(info.current_players, 0);
}

#[test]
fn status_counts() {
    assert_eq!(status_players(&Players::Incremental, 4), StatusPlayers { max: 5, online: 4 });
    assert_eq!(
        status_players(&Players::Static { max_players: 100, online_players: 7 }, 4),
        StatusPlayers { max: 100, online: 7 }
    );
    assert_eq!(status_players(&Players::Capped { max_players: 20 }, 4), StatusPlayers { max: 20, online: 4 });
}

#[test]
fn full_cap_refuses_at_largest_count() {
    let mut info = MutableProxyInfo { current_players: i32::MAX };
    assert!(!info.try_admit(&Players::Capped { max_players: 10 }));
    assert_eq!(info.current_players, i32::MAX);
}
