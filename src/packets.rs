//! Packet bodies of the backend login exchange, in their wire form (without
//! the frame and packet identifier that the transport adds).
use vstd::prelude::*;
use crate::connector::{Handshake, LoginStart, NextState};
use crate::forwarding::LoginPluginResponse;
use crate::player::{join, key_bytes, uuid_bytes, write_key, write_uuid};
use crate::wire::{be_bytes, push_all, string_bytes, varint_bytes, write_be, write_string, write_varint, EncodeError};

verus! {

/// The wire value of a next state.
pub open spec fn next_state_id(s: NextState) -> i32 {
    match s {
        NextState::Status => 1,
        NextState::Login => 2,
    }
}

/// A handshake: protocol version, server address, port as two big-endian
/// bytes, next state.
pub open spec fn handshake_bytes(h: Handshake) -> Option<Seq<u8>> {
    join(
        join(Some(varint_bytes(h.protocol_version)), string_bytes(h.server_address@)),
        Some(be_bytes(h.server_port as nat, 2) + varint_bytes(next_state_id(h.next_state))),
    )
}

/// A login start: the name, then each optional part behind a presence byte.
pub open spec fn login_start_bytes(l: LoginStart) -> Option<Seq<u8>> {
    let key_part = match l.sig_data {
        Some(k) => join(Some(seq![1u8]), key_bytes(k)),
        None => Some(seq![0u8]),
    };
    let holder_part = match l.sig_holder {
        Some(u) => seq![1u8] + uuid_bytes(u),
        None => seq![0u8],
    };
    join(join(string_bytes(l.name@), key_part), Some(holder_part))
}

/// A login plugin response: message id, success flag, then the data to the
/// end of the packet.
pub open spec fn plugin_response_bytes(r: LoginPluginResponse) -> Seq<u8> {
    varint_bytes(r.message_id) + seq![if r.successful { 1u8 } else { 0u8 }] + r.data@
}

/// Encodes a handshake body.
pub fn encode_handshake(h: &Handshake) -> (r: Result<Vec<u8>, EncodeError>)
    ensures
        match handshake_bytes(*h) {
            Some(e) => r is Ok && r->Ok_0@ == e,
            None => r == Err::<Vec<u8>, EncodeError>(EncodeError::StringTooLong),
        },
{
    let mut out: Vec<u8> = Vec::new();
    write_varint(&mut out, h.protocol_version);
    write_string(&mut out, h.server_address.as_str())?;
    write_be(&mut out, h.server_port as u64, 2);
    let state: i32 = match h.next_state {
        NextState::Status => 1,
        NextState::Login => 2,
    };
    write_varint(&mut out, state);
    proof {
        let e1 = string_bytes(h.server_address@).unwrap();
        assert(out@ =~= (varint_bytes(h.protocol_version) + e1) + (be_bytes(h.server_port as nat, 2)
            + varint_bytes(next_state_id(h.next_state))));
    }
    Ok(out)
}

/// Encodes a login start body.
pub fn encode_login_start(l: &LoginStart) -> (r: Result<Vec<u8>, EncodeError>)
    ensures
        match login_start_bytes(*l) {
            Some(e) => r is Ok && r->Ok_0@ == e,
            None => r is Err,
        },
{
    let mut out: Vec<u8> = Vec::new();
    write_string(&mut out, l.name.as_str())?;
    let ghost a = out@;
    match &l.sig_data {
        Some(k) => {
            out.push(1u8);
            write_key(&mut out, k)?;
            proof {
                assert(out@ =~= a + (seq![1u8] + key_bytes(*k).unwrap()));
            }
        },
        None => out.push(0u8),
    }
    let ghost b = out@;
    match &l.sig_holder {
        Some(u) => {
            out.push(1u8);
            write_uuid(&mut out, u);
            assert(out@ =~= b + (seq![1u8] + uuid_bytes(*u)));
        },
        None => out.push(0u8),
    }
    proof {
        let e0 = string_bytes(l.name@).unwrap();
        assert(a == e0);
    }
    Ok(out)
}

/// Encodes a login plugin response body.
pub fn encode_plugin_response(resp: &LoginPluginResponse) -> (r: Vec<u8>)
    ensures
        r@ == plugin_response_bytes(*resp),
{
    let mut out: Vec<u8> = Vec::new();
    write_varint(&mut out, resp.message_id);
    out.push(if resp.successful { 1u8 } else { 0u8 });
    push_all(&mut out, resp.data.as_slice());
    out
}

} // verus!
