//! Canonical wire forms of the primitive values that the forwarding payload
//! is made of: variable-length integers, length-prefixed strings and byte
//! arrays, big-endian longs and raw UUIDs.
use vstd::prelude::*;
use vstd::utf8::encode_utf8;

verus! {

/// The longest string, in bytes, that the protocol's string form admits.
pub const STRING_LIMIT: usize = 32767;

/// The largest length that a length prefix can carry.
pub const PREFIX_LIMIT: usize = 2147483647;

/// Why a value has no wire form.
#[derive(Debug, Clone, Copy, PartialEq, Eq, Structural)]
pub enum EncodeError {
    /// A string is longer than the protocol admits.
    StringTooLong,
    /// A byte array or list has more elements than a length prefix can carry.
    ArrayTooLong,
}

/// Seven bits per byte, least significant group first, with the high bit set
/// on every byte but the last.
pub open spec fn varint_unsigned(v: nat) -> Seq<u8>
    decreases v,
{
    if v < 128 {
        seq![v as u8]
    } else {
        seq![((v % 128) + 128) as u8] + varint_unsigned(v / 128)
    }
}

/// A signed 32-bit variable-length integer is encoded through its two's
/// complement bit pattern.
pub open spec fn varint_bytes(v: i32) -> Seq<u8> {
    if v >= 0 {
        varint_unsigned(v as nat)
    } else {
        varint_unsigned((v + 0x1_0000_0000int) as nat)
    }
}

/// The UTF-8 bytes of a string value.
pub open spec fn utf8_of(s: Seq<char>) -> Seq<u8> {
    encode_utf8(s)
}

/// A byte array prefixed by its length as a variable-length integer.
pub open spec fn prefixed_bytes(b: Seq<u8>) -> Option<Seq<u8>> {
    if b.len() > PREFIX_LIMIT {
        None
    } else {
        Some(varint_bytes(b.len() as i32) + b)
    }
}

/// A string: its UTF-8 bytes with a length prefix, at most `STRING_LIMIT`
/// bytes long.
pub open spec fn string_bytes(s: Seq<char>) -> Option<Seq<u8>> {
    if utf8_of(s).len() > STRING_LIMIT {
        None
    } else {
        Some(varint_bytes(utf8_of(s).len() as i32) + utf8_of(s))
    }
}

/// The `n` low bytes of `v`, most significant first.
pub open spec fn be_bytes(v: nat, n: nat) -> Seq<u8>
    decreases n,
{
    if n == 0 {
        Seq::empty()
    } else {
        be_bytes(v / 256, (n - 1) as nat).push((v % 256) as u8)
    }
}

/// A signed 64-bit integer as eight big-endian bytes of its two's complement.
pub open spec fn long_bytes(v: i64) -> Seq<u8> {
    if v >= 0 {
        be_bytes(v as nat, 8)
    } else {
        be_bytes((v + 0x1_0000_0000_0000_0000int) as nat, 8)
    }
}

/// Appends the bytes of `b` to `out`.
pub fn push_all(out: &mut Vec<u8>, b: &[u8])
    ensures
        final(out)@ == old(out)@ + b@,
{
    let mut i: usize = 0;
    while i < b.len()
        invariant
            0 <= i <= b@.len(),
            out@ == old(out)@ + b@.subrange(0, i as int),
        decreases b@.len() - i,
    {
        out.push(b[i]);
        i = i + 1;
        assert(b@.subrange(0, i as int) == b@.subrange(0, i - 1 as int).push(b@[i - 1]));
    }
    assert(b@.subrange(0, b@.len() as int) == b@);
}

/// Appends the variable-length form of `v`.
pub fn write_varint(out: &mut Vec<u8>, v: i32)
    ensures
        final(out)@ == old(out)@ + varint_bytes(v),
{
    let mut rest: u32 = if v >= 0 {
        v as u32
    } else {
        ((v as i64) + 0x1_0000_0000i64) as u32
    };
    loop
        invariant
            old(out)@ + varint_bytes(v) == out@ + varint_unsigned(rest as nat),
        decreases rest,
    {
        if rest < 128 {
            out.push(rest as u8);
            return;
        }
        let low: u8 = ((rest % 128) + 128) as u8;
        out.push(low);
        proof {
            assert(varint_unsigned(rest as nat) == seq![low] + varint_unsigned((rest / 128) as nat));
        }
        rest = rest / 128;
    }
}

/// Appends `b` with its length prefix, or fails where the length does not fit one.
pub fn write_prefixed_bytes(out: &mut Vec<u8>, b: &[u8]) -> (r: Result<(), EncodeError>)
    ensures
        match prefixed_bytes(b@) {
            Some(e) => r is Ok && final(out)@ == old(out)@ + e,
            None => r == Err::<(), EncodeError>(EncodeError::ArrayTooLong) && final(out)@ == old(out)@,
        },
{
    if b.len() > PREFIX_LIMIT {
        return Err(EncodeError::ArrayTooLong);
    }
    write_varint(out, b.len() as i32);
    push_all(out, b);
    Ok(())
}

/// Appends the string form of `s`, or fails where it is too long.
pub fn write_string(out: &mut Vec<u8>, s: &str) -> (r: Result<(), EncodeError>)
    ensures
        match string_bytes(s@) {
            Some(e) => r is Ok && final(out)@ == old(out)@ + e,
            None => r == Err::<(), EncodeError>(EncodeError::StringTooLong) && final(out)@ == old(out)@,
        },
{
    let b = s.as_bytes();
    if b.len() > STRING_LIMIT {
        return Err(EncodeError::StringTooLong);
    }
    write_varint(out, b.len() as i32);
    push_all(out, b);
    Ok(())
}

/// Appends the `n` low bytes of `v`, most significant first.
pub fn write_be(out: &mut Vec<u8>, v: u64, n: usize)
    ensures
        final(out)@ == old(out)@ + be_bytes(v as nat, n as nat),
    decreases n,
{
    if n > 0 {
        write_be(out, v / 256, n - 1);
        out.push((v % 256) as u8);
    }
}

/// Appends the eight big-endian bytes of `v`.
pub fn write_long(out: &mut Vec<u8>, v: i64)
    ensures
        final(out)@ == old(out)@ + long_bytes(v),
{
    let bits: u64 = if v >= 0 {
        v as u64
    } else {
        ((v as i128) + 0x1_0000_0000_0000_0000i128) as u64
    };
    write_be(out, bits, 8);
}

} // verus!
