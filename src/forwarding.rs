//! The secret-based identity forwarding: which payload variant a backend
//! gets, what the payload holds, and how it is signed.
use vstd::prelude::*;
use hmac::Mac;
use crate::player::{
    join, key_bytes, profile_bytes, uuid_bytes, write_key, write_profile, write_uuid, ClientInfo,
};
use crate::wire::{string_bytes, utf8_of, varint_bytes, write_string, write_varint, push_all};

verus! {

/// Why no forwarding payload could be built for a client.
#[derive(Debug, Clone, Copy, PartialEq, Eq, Structural)]
pub enum ForwardingError {
    /// The negotiated variant carries an identity key the client did not present.
    MissingIdentityKey,
    /// The negotiated variant carries a signature holder the client did not present.
    MissingSignatureHolder,
    /// A part of the client's identity has no wire form.
    PayloadEncoding,
}

/// A backend's login-phase extension request.
#[derive(Debug, Clone)]
pub struct LoginPluginRequest {
    pub message_id: i32,
    pub data: Vec<u8>,
}

/// The proxy's answer to a login-phase extension request.
#[derive(Debug, Clone)]
pub struct LoginPluginResponse {
    pub message_id: i32,
    pub successful: bool,
    pub data: Vec<u8>,
}

/// The variant that the backend asks for: its first byte brought into
/// `1..=3`, or 1 when it sent nothing.
pub open spec fn requested_mask(hint: Seq<u8>) -> u8 {
    if hint.len() == 0 {
        1
    } else if hint[0] < 1 {
        1
    } else if hint[0] > 3 {
        3
    } else {
        hint[0]
    }
}

/// The richest variant that the client's identity can fill.
pub open spec fn max_available(has_sig_holder: bool, has_key: bool) -> u8 {
    if has_sig_holder && has_key {
        3
    } else if has_sig_holder {
        2
    } else {
        1
    }
}

/// The variant sent: the requested one, lowered to what is available.
pub open spec fn negotiated_mask(hint: Seq<u8>, has_sig_holder: bool, has_key: bool) -> u8 {
    let req = requested_mask(hint);
    let avail = max_available(has_sig_holder, has_key);
    if req < avail {
        req
    } else {
        avail
    }
}

/// The unsigned payload of variant `mask` for a client, field by field: the
/// variant, the address, the profile, the identity key when the variant is
/// above 1 and the signature holder when it is above 2.
pub open spec fn identity_payload(c: ClientInfo, mask: u8) -> Result<Seq<u8>, ForwardingError> {
    if mask > 1 && c.mojang_key is None {
        Err(ForwardingError::MissingIdentityKey)
    } else if mask > 2 && c.sig_holder is None {
        Err(ForwardingError::MissingSignatureHolder)
    } else {
        let key_part = if mask > 1 { key_bytes(c.mojang_key.unwrap()) } else { Some(Seq::empty()) };
        let holder_part = if mask > 2 { Some(uuid_bytes(c.sig_holder.unwrap())) } else { Some(Seq::empty()) };
        let all = join(
            join(join(join(Some(varint_bytes(mask as i32)), string_bytes(c.remote_addr@)),
                profile_bytes(c.profile)), key_part),
            holder_part,
        );
        match all {
            Some(b) => Ok(b),
            None => Err(ForwardingError::PayloadEncoding),
        }
    }
}

/// The HMAC-SHA256 tag of `data` under `key`.
pub uninterp spec fn hmac_sha256_of(key: Seq<u8>, data: Seq<u8>) -> Seq<u8>;

/// Relies on hmac's `Hmac<Sha256>` (hmac 0.12, sha2 0.10): a fresh keyed
/// instance, fed `data` once and finalized, gives the 32-byte tag, which
/// depends on the key and the data alone. `new_from_slice` accepts keys of
/// any length.
#[verifier::external_body]
fn hmac_sha256(key: &[u8], data: &[u8]) -> (r: Vec<u8>)
    ensures
        r@ == hmac_sha256_of(key@, data@),
        r@.len() == 32,
{
    let mut mac = <hmac::Hmac<sha2::Sha256> as Mac>::new_from_slice(key).unwrap();
    mac.update(data);
    mac.finalize().into_bytes().to_vec()
}

/// The data that carries a payload to the backend: its tag under the
/// secret, then the payload.
pub open spec fn signed_data(secret: Seq<char>, payload: Seq<u8>) -> Seq<u8> {
    hmac_sha256_of(utf8_of(secret), payload) + payload
}

/// Chooses the payload variant for a backend's request `hint`.
pub fn negotiate_mask(hint: &[u8], has_sig_holder: bool, has_key: bool) -> (r: u8)
    ensures
        r == negotiated_mask(hint@, has_sig_holder, has_key),
        1 <= r <= 3,
{
    let req: u8 = if hint.len() == 0 {
        1
    } else if hint[0] < 1 {
        1
    } else if hint[0] > 3 {
        3
    } else {
        hint[0]
    };
    let avail: u8 = if has_sig_holder && has_key {
        3
    } else if has_sig_holder {
        2
    } else {
        1
    };
    if req < avail {
        req
    } else {
        avail
    }
}

/// Builds the unsigned payload of variant `mask` for `client`.
pub fn build_identity_payload(client: &ClientInfo, mask: u8) -> (r: Result<Vec<u8>, ForwardingError>)
    ensures
        match identity_payload(*client, mask) {
            Ok(p) => r is Ok && r->Ok_0@ == p,
            Err(e) => r == Err::<Vec<u8>, ForwardingError>(e),
        },
{
    if mask > 1 && client.mojang_key.is_none() {
        return Err(ForwardingError::MissingIdentityKey);
    }
    if mask > 2 && client.sig_holder.is_none() {
        return Err(ForwardingError::MissingSignatureHolder);
    }
    let mut out: Vec<u8> = Vec::new();
    write_varint(&mut out, mask as i32);
    if write_string(&mut out, &client.remote_addr).is_err() {
        return Err(ForwardingError::PayloadEncoding);
    }
    if write_profile(&mut out, &client.profile).is_err() {
        return Err(ForwardingError::PayloadEncoding);
    }
    if mask > 1 {
        match &client.mojang_key {
            Some(k) => {
                if write_key(&mut out, k).is_err() {
                    return Err(ForwardingError::PayloadEncoding);
                }
            },
            None => {},
        }
    }
    let ghost d = out@;
    if mask > 2 {
        match &client.sig_holder {
            Some(u) => write_uuid(&mut out, u),
            None => {},
        }
    }
    proof {
        let e0 = varint_bytes(mask as i32);
        let e1 = string_bytes(client.remote_addr@).unwrap();
        let e2 = profile_bytes(client.profile).unwrap();
        let e3 = if mask > 1 { key_bytes(client.mojang_key.unwrap()).unwrap() } else { Seq::empty() };
        let e4 = if mask > 2 { uuid_bytes(client.sig_holder.unwrap()) } else { Seq::empty() };
        assert(d =~= (((e0 + e1) + e2) + e3));
        assert(out@ =~= ((((e0 + e1) + e2) + e3) + e4));
    }
    Ok(out)
}

/// Prefixes `payload` with its tag under `secret`.
pub fn sign_payload(secret: &str, payload: &[u8]) -> (r: Vec<u8>)
    ensures
        r@ == signed_data(secret@, payload@),
        r@.len() == 32 + payload@.len(),
{
    let mut out = hmac_sha256(secret.as_bytes(), payload);
    push_all(&mut out, payload);
    out
}

/// Answers a backend's login-phase extension request with the client's
/// signed identity, in the richest variant that both sides support.
pub fn handle_plugin_request(secret: &str, client: &ClientInfo, request: &LoginPluginRequest) -> (r:
    Result<LoginPluginResponse, ForwardingError>)
    ensures
        ({
            let mask = negotiated_mask(request.data@, client.sig_holder is Some, client.mojang_key is Some);
            match identity_payload(*client, mask) {
                Ok(p) => r is Ok && r->Ok_0.message_id == request.message_id && r->Ok_0.successful
                    && r->Ok_0.data@ == signed_data(secret@, p) && r->Ok_0.data@.len() == 32 + p.len(),
                Err(e) => r == Err::<LoginPluginResponse, ForwardingError>(e),
            }
        }),
{
    let mask = negotiate_mask(request.data.as_slice(), client.sig_holder.is_some(), client.mojang_key.is_some());
    let payload = build_identity_payload(client, mask)?;
    let data = sign_payload(secret, payload.as_slice());
    Ok(LoginPluginResponse { message_id: request.message_id, successful: true, data })
}

/// Checks forwarded data as a backend holding `secret` would: the first 32
/// bytes must be the tag of the rest. Gives the payload back when they are.
pub fn verify_signed_data(secret: &str, data: &[u8]) -> (r: Option<Vec<u8>>)
    ensures
        match r {
            Some(p) => data@.len() >= 32 && p@ == data@.subrange(32, data@.len() as int)
                && data@.subrange(0, 32) == hmac_sha256_of(utf8_of(secret@), p@),
            None => data@.len() < 32 || data@.subrange(0, 32) != hmac_sha256_of(
                utf8_of(secret@),
                data@.subrange(32, data@.len() as int),
            ),
        },
{
    if data.len() < 32 {
        return None;
    }
    let mut payload: Vec<u8> = Vec::new();
    push_all(&mut payload, data.split_at(32).1);
    let tag = hmac_sha256(secret.as_bytes(), payload.as_slice());
    assert(payload@ =~= data@.subrange(32, data@.len() as int));
    let mut i: usize = 0;
    while i < 32
        invariant
            0 <= i <= 32,
            data@.len() >= 32,
            tag@.len() == 32,
            tag@ == hmac_sha256_of(utf8_of(secret@), data@.subrange(32, data@.len() as int)),
            payload@ == data@.subrange(32, data@.len() as int),
            forall|j: int| 0 <= j < i ==> tag@[j] == data@[j],
        decreases 32 - i,
    {
        if tag[i] != data[i] {
            assert(data@.subrange(0, 32)[i as int] != tag@[i as int]);
            assert(data@.subrange(0, 32) != tag@);
            return None;
        }
        i = i + 1;
    }
    assert(data@.subrange(0, 32) =~= tag@);
    Some(payload)
}

/// A backend that holds the same secret recomputes exactly the tag that was
/// sent: splitting the signed data after the tag gives back the tag and the
/// payload it was computed over.
pub proof fn lemma_signature_reproducible(secret: Seq<char>, payload: Seq<u8>)
    ensures
        ({
            let d = signed_data(secret, payload);
            let n = hmac_sha256_of(utf8_of(secret), payload).len();
            d.subrange(0, n as int) == hmac_sha256_of(utf8_of(secret), d.subrange(n as int, d.len() as int))
                && d.subrange(n as int, d.len() as int) == payload
        }),
{
    let d = signed_data(secret, payload);
    let n = hmac_sha256_of(utf8_of(secret), payload).len();
    assert(d.subrange(n as int, d.len() as int) =~= payload);
    assert(d.subrange(0, n as int) =~= hmac_sha256_of(utf8_of(secret), payload));
}

} // verus!
