use umbrella::cfg::{incremental, AuthConfig, ForwardingMethod, IncomingAuthMethod, Players, ServerInfo};
use umbrella::connector::{answer_login_event, complete_login, plan_backend_login, ConnectError, LoginEvent, NextState, ServerStubInfo};
use umbrella::forwarding::LoginPluginRequest;
use umbrella::player::{ClientInfo, GameProfile, IdentifiedKey, PlayerUuid};

fn client() -> ClientInfo {
    ClientInfo {
        protocol_version: 760,
        remote_addr: "10.0.0.2:5000".to_string(),
        mojang_key: Some(IdentifiedKey { expires_at: 9, public_key: vec![1], key_signature: vec![2] }),
        sig_holder: Some(PlayerUuid { bytes: [3u8; 16] }),
        profile: GameProfile { id: PlayerUuid { bytes: [4u8; 16] }, name: "Alex".to_string(), properties: vec![] },
    }
}

fn server(forwarding: Option<ForwardingMethod>) -> ServerInfo {
    ServerInfo {
        server_id: Some("lobby".to_string()),
        server_name: "Lobby".to_string(),
        server_ip: "192.168.1.5".to_string(),
        server_port: 25570,
        forwarding,
    }
}

fn auth(default_forwarding: ForwardingMethod) -> AuthConfig {
    AuthConfig {
        force_key_authentication: false,
        default_forwarding,
        incoming_auth: IncomingAuthMethod::Mojang { override_sessionserver: None },
    }
}

fn modern(s: &str) -> ForwardingMethod {
    ForwardingMethod::VelocityModern { secret_key: s.to_string() }
}

#[test]
fn legacy_forwarding_is_refused() {
    let r = plan_backend_login(&server(None), &auth(ForwardingMethod::BungeeLegacy), &client());
    assert_eq!(r.unwrap_err(), ConnectError::LegacyForwardingUnsupported);
    let r = plan_backend_login(&server(Some(ForwardingMethod::BungeeLegacy)), &auth(modern("x")), &client());
    assert_eq!(r.unwrap_err(), ConnectError::LegacyForwardingUnsupported);
}

#[test]
fn server_override_wins() {
    let plan = plan_backend_login(&server(Some(modern("own"))), &auth(ForwardingMethod::BungeeLegacy), &client()).unwrap();
    assert_eq!(plan.secret, "own");
    let plan = plan_backend_login(&server(None), &auth(modern("shared")), &client()).unwrap();
    assert_eq!(plan.secret, "shared");
}

#[test]
fn login_packets_carry_backend_address() {
    let plan = plan_backend_login(&server(None), &auth(modern("s")), &client()).unwrap();
    assert_eq!(plan.handshake.protocol_version, 760);
    assert_eq!(plan.handshake.server_address, "192.168.1.5");
    assert_eq!(plan.handshake.server_port, 25570);
    assert_eq!(plan.handshake.next_state, NextState::Login);
    assert_eq!(plan.login_start.name, "Alex");
    let key = plan.login_start.sig_data.unwrap();
    assert_eq!((key.expires_at, key.public_key, key.key_signature), (9, vec![1], vec![2]));
    assert_eq!(plan.login_start.sig_holder.unwrap().bytes, [3u8; 16]);
}

#[test]
fn login_event_answers() {
    let plan = plan_backend_login(&server(None), &auth(modern("s")), &client()).unwrap();
    let ev = LoginEvent::PluginRequest(LoginPluginRequest { message_id: 11, data: vec![2] });
    let resp = answer_login_event(&plan, &client(), &ev).unwrap();
    assert_eq!(resp.message_id, 11);
    assert!(resp.successful);
    assert_eq!(resp.data[32], 2);
    let ev = LoginEvent::Unhandled { packet_id: 3, data: vec![1, 2] };
    assert_eq!(answer_login_event(&plan, &client(), &ev).unwrap_err(), ConnectError::UnexpectedPacket { packet_id: 3 });
}

#[test]
fn stub_keeps_server_fields() {
    let s = server(Some(modern("x")));
    let stub = ServerStubInfo::from_info(&s);
    assert_eq!(stub.server_id.as_deref(), Some("lobby"));
    assert_eq!(stub.server_name, "Lobby");
    assert_eq!(stub.server_ip, "192.168.1.5");
    assert_eq!(stub.server_port, 25570);
}

#[test]
fn default_player_policy() {
    assert_eq!(incremental(), Players::Incremental);
}

#[test]
fn login_completion_is_passed_on() {
    let done = complete_login(LoginEvent::Unhandled { packet_id: 2, data: vec![0x10, 0x20, 0x30] }).unwrap();
    assert_eq!(done.packet_id, 2);
    assert_eq!(done.data, vec![0x10, 0x20, 0x30]);
    let again = complete_login(LoginEvent::PluginRequest(LoginPluginRequest { message_id: 8, data: vec![] }));
    assert_eq!(again.unwrap_err(), ConnectError::RepeatedPluginRequest { message_id: 8 });
}

#[test]
fn response_tag_precedes_payload() {
    let plan = plan_backend_login(&server(None), &auth(modern("s")), &client()).unwrap();
    let ev = LoginEvent::PluginRequest(LoginPluginRequest { message_id: 1, data: vec![3] });
    let resp = answer_login_event(&plan, &client(), &ev).unwrap();
    assert_eq!(umbrella::forwarding::verify_signed_data("s", &resp.data).unwrap(), resp.data[32..].to_vec());
    assert_eq!(resp.data[32], 3);
}
