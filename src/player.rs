//! The identity that a client brought to the proxy, and the canonical wire
//! forms of its parts.
use vstd::prelude::*;
use crate::wire::{
    long_bytes, prefixed_bytes, string_bytes, varint_bytes, write_long, write_prefixed_bytes,
    write_string, write_varint, push_all, EncodeError, PREFIX_LIMIT,
};

verus! {

/// A player or key-holder identifier, as its sixteen bytes in network order.
#[derive(Debug, Clone, Copy)]
pub struct PlayerUuid {
    pub bytes: [u8; 16],
}

/// One signed property of a game profile (a skin, a cape).
#[derive(Debug, Clone)]
pub struct ProfileProperty {
    pub name: String,
    pub value: String,
    pub signature: Option<String>,
}

/// The authenticated profile of a player.
#[derive(Debug, Clone)]
pub struct GameProfile {
    pub id: PlayerUuid,
    pub name: String,
    pub properties: Vec<ProfileProperty>,
}

/// The public key that a client identified itself with, and the signature
/// over it.
#[derive(Debug, Clone)]
pub struct IdentifiedKey {
    pub expires_at: i64,
    pub public_key: Vec<u8>,
    pub key_signature: Vec<u8>,
}

/// What the proxy knows of an authenticated client connection. Written once
/// when the client has logged in, read only afterwards.
#[derive(Debug, Clone)]
pub struct ClientInfo {
    pub protocol_version: i32,
    /// The client's address in its textual form (`host:port`).
    pub remote_addr: String,
    pub mojang_key: Option<IdentifiedKey>,
    pub sig_holder: Option<PlayerUuid>,
    pub profile: GameProfile,
}

/// Concatenation of two encodings, absent where either is.
pub open spec fn join(a: Option<Seq<u8>>, b: Option<Seq<u8>>) -> Option<Seq<u8>> {
    match (a, b) {
        (Some(x), Some(y)) => Some(x + y),
        _ => None,
    }
}

/// A UUID travels as its sixteen raw bytes.
pub open spec fn uuid_bytes(u: PlayerUuid) -> Seq<u8> {
    u.bytes@
}

/// A property: name, value, whether a signature follows, and the signature.
pub open spec fn property_bytes(p: ProfileProperty) -> Option<Seq<u8>> {
    let head = join(string_bytes(p.name@), string_bytes(p.value@));
    match p.signature {
        Some(s) => join(join(head, Some(seq![1u8])), string_bytes(s@)),
        None => join(head, Some(seq![0u8])),
    }
}

/// The properties one after another, without their count.
pub open spec fn properties_body(ps: Seq<ProfileProperty>) -> Option<Seq<u8>>
    decreases ps.len(),
{
    if ps.len() == 0 {
        Some(Seq::empty())
    } else {
        join(properties_body(ps.drop_last()), property_bytes(ps.last()))
    }
}

/// A profile: its id, its name, and its properties after their count.
pub open spec fn profile_bytes(p: GameProfile) -> Option<Seq<u8>> {
    if p.properties@.len() > PREFIX_LIMIT {
        None
    } else {
        join(
            join(Some(uuid_bytes(p.id)), string_bytes(p.name@)),
            join(Some(varint_bytes(p.properties@.len() as i32)), properties_body(p.properties@)),
        )
    }
}

/// A key: its expiry as a long, then the key and its signature as
/// length-prefixed byte arrays.
pub open spec fn key_bytes(k: IdentifiedKey) -> Option<Seq<u8>> {
    join(join(Some(long_bytes(k.expires_at)), prefixed_bytes(k.public_key@)), prefixed_bytes(k.key_signature@))
}

/// A list with an entry that has no wire form has none either.
proof fn lemma_body_absent_extends(ps: Seq<ProfileProperty>, k: int)
    requires
        0 <= k <= ps.len(),
        properties_body(ps.subrange(0, k)) is None,
    ensures
        properties_body(ps) is None,
    decreases ps.len() - k,
{
    if k < ps.len() {
        let t = ps.subrange(0, k + 1);
        assert(t.drop_last() =~= ps.subrange(0, k));
        lemma_body_absent_extends(ps, k + 1);
    } else {
        assert(ps.subrange(0, k) =~= ps);
    }
}

/// Appends the wire form of a UUID.
pub fn write_uuid(out: &mut Vec<u8>, u: &PlayerUuid)
    ensures
        final(out)@ == old(out)@ + uuid_bytes(*u),
{
    push_all(out, &u.bytes);
}

/// Appends the wire form of a profile property.
pub fn write_property(out: &mut Vec<u8>, p: &ProfileProperty) -> (r: Result<(), EncodeError>)
    ensures
        match property_bytes(*p) {
            Some(e) => r is Ok && final(out)@ == old(out)@ + e,
            None => r is Err,
        },
{
    let ghost start = out@;
    write_string(out, &p.name)?;
    write_string(out, &p.value)?;
    match &p.signature {
        Some(s) => {
            out.push(1u8);
            write_string(out, s)?;
            proof {
                let e1 = string_bytes(p.name@).unwrap();
                let e2 = string_bytes(p.value@).unwrap();
                let e3 = string_bytes(s@).unwrap();
                assert(out@ =~= start + (((e1 + e2) + seq![1u8]) + e3));
            }
        },
        None => {
            out.push(0u8);
            proof {
                let e1 = string_bytes(p.name@).unwrap();
                let e2 = string_bytes(p.value@).unwrap();
                assert(out@ =~= start + ((e1 + e2) + seq![0u8]));
            }
        },
    }
    Ok(())
}

/// Appends the wire form of a profile.
pub fn write_profile(out: &mut Vec<u8>, p: &GameProfile) -> (r: Result<(), EncodeError>)
    ensures
        match profile_bytes(*p) {
            Some(e) => r is Ok && final(out)@ == old(out)@ + e,
            None => r is Err,
        },
{
    let ghost start = out@;
    if p.properties.len() > PREFIX_LIMIT {
        return Err(EncodeError::ArrayTooLong);
    }
    write_uuid(out, &p.id);
    write_string(out, &p.name)?;
    let ghost head = out@;
    write_varint(out, p.properties.len() as i32);
    let ghost counted = out@;
    let mut i: usize = 0;
    while i < p.properties.len()
        invariant
            0 <= i <= p.properties@.len(),
            p.properties@.len() <= PREFIX_LIMIT,
            properties_body(p.properties@.subrange(0, i as int)) is Some,
            string_bytes(p.name@) is Some,
            out@ == counted + properties_body(p.properties@.subrange(0, i as int)).unwrap(),
            head == start + uuid_bytes(p.id) + string_bytes(p.name@).unwrap(),
            counted == head + varint_bytes(p.properties@.len() as i32),
        decreases p.properties@.len() - i,
    {
        let res = write_property(out, &p.properties[i]);
        proof {
            let s = p.properties@.subrange(0, i + 1);
            assert(s.drop_last() =~= p.properties@.subrange(0, i as int));
            assert(s.last() == p.properties@[i as int]);
        }
        if res.is_err() {
            proof {
                lemma_body_absent_extends(p.properties@, i + 1);
            }
            return Err(EncodeError::StringTooLong);
        }
        i = i + 1;
        proof {
            assert(out@ =~= counted + properties_body(p.properties@.subrange(0, i as int)).unwrap());
        }
    }
    proof {
        assert(p.properties@.subrange(0, i as int) =~= p.properties@);
        let body = properties_body(p.properties@).unwrap();
        let e1 = string_bytes(p.name@).unwrap();
        assert(out@ =~= start + ((uuid_bytes(p.id) + e1) + (varint_bytes(p.properties@.len() as i32) + body)));
    }
    Ok(())
}

/// Appends the wire form of an identified key.
pub fn write_key(out: &mut Vec<u8>, k: &IdentifiedKey) -> (r: Result<(), EncodeError>)
    ensures
        match key_bytes(*k) {
            Some(e) => r is Ok && final(out)@ == old(out)@ + e,
            None => r is Err,
        },
{
    let ghost start = out@;
    write_long(out, k.expires_at);
    write_prefixed_bytes(out, k.public_key.as_slice())?;
    write_prefixed_bytes(out, k.key_signature.as_slice())?;
    proof {
        let e1 = prefixed_bytes(k.public_key@).unwrap();
        let e2 = prefixed_bytes(k.key_signature@).unwrap();
        assert(out@ =~= start + ((long_bytes(k.expires_at) + e1) + e2));
    }
    Ok(())
}

} // verus!
