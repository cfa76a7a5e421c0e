use umbrella::connector::{Handshake, LoginStart, NextState};
use umbrella::forwarding::LoginPluginResponse;
use umbrella::packets::{encode_handshake, encode_login_start, encode_plugin_response};
use umbrella::player::{IdentifiedKey, PlayerUuid};
use umbrella::wire::EncodeError;

#[test]
fn handshake_body() {
    let h = Handshake {
        protocol_version: 760,
        server_address: "ab".to_string(),
        server_port: 25565,
        next_state: NextState::Login,
    };
    assert_eq!(encode_handshake(&h).unwrap(), vec![0xf8, 0x05, 2, b'a', b'b', 0x63, 0xdd, 2]);
    let s = Handshake { next_state: NextState::Status, server_port: 1, ..h.clone() };
    assert_eq!(encode_handshake(&s).unwrap(), vec![0xf8, 0x05, 2, b'a', b'b', 0, 1, 1]);
    let long = Handshake { server_address: "z".repeat(40000), ..h };
    assert_eq!(encode_handshake(&long).unwrap_err(), EncodeError::StringTooLong);
}

#[test]
fn login_start_body() {
    let bare = LoginStart { name: "Al".to_string(), sig_data: None, sig_holder: None };
    assert_eq!(encode_login_start(&bare).unwrap(), vec![2, b'A', b'l', 0, 0]);
    let full = LoginStart {
        name: "Al".to_string(),
        sig_data: Some(IdentifiedKey { expires_at: 2, public_key: vec![5], key_signature: vec![] }),
        sig_holder: Some(PlayerUuid { bytes: [9u8; 16] }),
    };
    let mut expected = vec![2, b'A', b'l', 1, 0, 0, 0, 0, 0, 0, 0, 2, 1, 5, 0, 1];
    expected.extend([9u8; 16]);
    assert_eq!(encode_login_start(&full).unwrap(), expected);
}

#[test]
fn plugin_response_body() {
    let r = LoginPluginResponse { message_id: 300, successful: true, data: vec![7, 8] };
    assert_eq!(encode_plugin_response(&r), vec![0xac, 0x02, 1, 7, 8]);
    let r = LoginPluginResponse { message_id: 0, successful: false, data: vec![] };
    assert_eq!(encode_plugin_response(&r), vec![0, 0]);
}
