//! The envelope codecs: the serialization collaborator's two entry points,
//! specialized to the plain envelope shapes the generated artifacts carry —
//! the empty envelope, a single integer, and the two-field envelope of an
//! integer and a flag.  Encoding and decoding round-trip.

use vstd::prelude::*;

verus! {

/// A failure to decode an envelope from bytes.
#[derive(Clone, Copy, Debug, PartialEq, Eq, Structural)]
pub enum CodecError {
    /// The bytes do not hold a value of the expected shape.
    Malformed,
}

/// The eight little-endian bytes of an integer.
pub open spec fn u64_le(x: u64) -> Seq<u8> {
    seq![
        x as u8,
        (x >> 8) as u8,
        (x >> 16) as u8,
        (x >> 24) as u8,
        (x >> 32) as u8,
        (x >> 40) as u8,
        (x >> 48) as u8,
        (x >> 56) as u8,
    ]
}

/// The single byte of a flag.
pub open spec fn bool_byte(b: bool) -> u8 {
    if b {
        1
    } else {
        0
    }
}

/// The encoding of the two-field envelope `(u64, bool)`: the fields in
/// declaration order.
pub open spec fn pair_bytes(id: u64, only: bool) -> Seq<u8> {
    u64_le(id) + seq![bool_byte(only)]
}

/// No two integers share their little-endian bytes.
pub proof fn lemma_u64_le_injective(x: u64, y: u64)
    requires
        u64_le(x) == u64_le(y),
    ensures
        x == y,
{
    assert(u64_le(x)[0] == u64_le(y)[0]);
    assert(u64_le(x)[1] == u64_le(y)[1]);
    assert(u64_le(x)[2] == u64_le(y)[2]);
    assert(u64_le(x)[3] == u64_le(y)[3]);
    assert(u64_le(x)[4] == u64_le(y)[4]);
    assert(u64_le(x)[5] == u64_le(y)[5]);
    assert(u64_le(x)[6] == u64_le(y)[6]);
    assert(u64_le(x)[7] == u64_le(y)[7]);
    assert(x == y) by (bit_vector)
        requires
            x as u8 == y as u8,
            (x >> 8) as u8 == (y >> 8) as u8,
            (x >> 16) as u8 == (y >> 16) as u8,
            (x >> 24) as u8 == (y >> 24) as u8,
            (x >> 32) as u8 == (y >> 32) as u8,
            (x >> 40) as u8 == (y >> 40) as u8,
            (x >> 48) as u8 == (y >> 48) as u8,
            (x >> 56) as u8 == (y >> 56) as u8,
    ;
}

/// Relies on `bincode::serialize` for `()`: the unit value serializes to no
/// bytes, and serialization of these in-memory shapes cannot fail.
#[verifier::external_body]
fn ser_unit_raw() -> (r: Vec<u8>)
    ensures
        r@ == Seq::<u8>::empty(),
{
    bincode::serialize(&()).expect("serialize message failed")
}

/// Relies on `bincode::serialize` for `u64`: fixed-width encoding, eight
/// little-endian bytes; the call cannot fail for this shape.
#[verifier::external_body]
fn ser_u64_raw(x: u64) -> (r: Vec<u8>)
    ensures
        r@ == u64_le(x),
{
    bincode::serialize(&x).expect("serialize message failed")
}

/// Relies on `bincode::serialize` for `(u64, bool)`: the tuple fields in
/// order, the integer as eight little-endian bytes, the flag as one byte
/// that is 1 for true and 0 for false; the call cannot fail for this shape.
#[verifier::external_body]
fn ser_pair_raw(id: u64, only: bool) -> (r: Vec<u8>)
    ensures
        r@ == pair_bytes(id, only),
{
    bincode::serialize(&(id, only)).expect("serialize message failed")
}

/// Relies on `bincode::deserialize` for `()`: no bytes are read, trailing
/// bytes are allowed, so it succeeds on every input.
#[verifier::external_body]
fn de_unit_raw(bytes: &[u8]) -> (r: Result<(), CodecError>)
    ensures
        r is Ok,
{
    bincode::deserialize::<()>(bytes).map_err(|_| CodecError::Malformed)
}

/// Relies on `bincode::deserialize` for `u64`: reads eight little-endian
/// bytes, fails exactly when fewer are available; trailing bytes are
/// allowed.
#[verifier::external_body]
fn de_u64_raw(bytes: &[u8]) -> (r: Result<u64, CodecError>)
    ensures
        r is Ok <==> bytes@.len() >= 8,
        r matches Ok(x) ==> u64_le(x) == bytes@.subrange(0, 8),
{
    bincode::deserialize::<u64>(bytes).map_err(|_| CodecError::Malformed)
}

/// Relies on `bincode::deserialize` for `(u64, bool)`: reads eight
/// little-endian bytes and then one flag byte that must be 0 or 1; trailing
/// bytes are allowed.
#[verifier::external_body]
fn de_pair_raw(bytes: &[u8]) -> (r: Result<(u64, bool), CodecError>)
    ensures
        r is Ok <==> (bytes@.len() >= 9 && (bytes@[8] == 0 || bytes@[8] == 1)),
        r matches Ok(p) ==> u64_le(p.0) == bytes@.subrange(0, 8) && bool_byte(p.1) == bytes@[8],
{
    bincode::deserialize::<(u64, bool)>(bytes).map_err(|_| CodecError::Malformed)
}

/// Serializes the empty envelope into an empty buffer.
pub fn ser_unit(buf: &mut Vec<u8>)
    requires
        old(buf)@.len() == 0,
    ensures
        final(buf)@ == Seq::<u8>::empty(),
{
    *buf = ser_unit_raw();
}

/// Serializes a single-field envelope into an empty buffer.
pub fn ser_u64(x: u64, buf: &mut Vec<u8>)
    requires
        old(buf)@.len() == 0,
    ensures
        final(buf)@ == u64_le(x),
{
    *buf = ser_u64_raw(x);
}

/// Serializes the two-field envelope `(u64, bool)` into an empty buffer.
pub fn ser_pair(id: u64, only: bool, buf: &mut Vec<u8>)
    requires
        old(buf)@.len() == 0,
    ensures
        final(buf)@ == pair_bytes(id, only),
{
    *buf = ser_pair_raw(id, only);
}

/// Deserializes the empty envelope: every input succeeds, no bytes are
/// read.
pub fn de_unit(bytes: &[u8]) -> (r: Result<(), CodecError>)
    ensures
        r is Ok,
{
    de_unit_raw(bytes)
}

/// Deserializes a single-field envelope: succeeds exactly when at least
/// eight bytes are available, and the value re-encodes to the first eight.
pub fn de_u64(bytes: &[u8]) -> (r: Result<u64, CodecError>)
    ensures
        r is Ok <==> bytes@.len() >= 8,
        r matches Ok(x) ==> u64_le(x) == bytes@.subrange(0, 8),
{
    de_u64_raw(bytes)
}

/// Deserializes the two-field envelope: succeeds exactly when at least nine
/// bytes are available and the flag byte is 0 or 1, and the value
/// re-encodes to the first nine.
pub fn de_pair(bytes: &[u8]) -> (r: Result<(u64, bool), CodecError>)
    ensures
        r is Ok <==> (bytes@.len() >= 9 && (bytes@[8] == 0 || bytes@[8] == 1)),
        r matches Ok(p) ==> pair_bytes(p.0, p.1) == bytes@.subrange(0, 9),
{
    let r = de_pair_raw(bytes);
    proof {
        if r is Ok {
            let p = r->Ok_0;
            assert(pair_bytes(p.0, p.1) =~= bytes@.subrange(0, 9)) by {
                assert(u64_le(p.0) == bytes@.subrange(0, 8));
                assert(forall|k: int|
                    0 <= k < 8 ==> u64_le(p.0)[k] == #[trigger] bytes@.subrange(0, 8)[k]);
            }
        }
    }
    r
}

/// Round-trip law, empty envelope: encoding then decoding yields the unit
/// value again.
pub fn round_trip_unit() -> (r: Result<(), CodecError>)
    ensures
        r is Ok,
{
    let mut buf: Vec<u8> = Vec::new();
    ser_unit(&mut buf);
    de_unit(buf.as_slice())
}

/// Round-trip law, single-field envelope: encoding then decoding yields a
/// value equal to the original.
pub fn round_trip_u64(x: u64) -> (r: u64)
    ensures
        r == x,
{
    let mut buf: Vec<u8> = Vec::new();
    ser_u64(x, &mut buf);
    let out = de_u64(buf.as_slice());
    match out {
        Ok(y) => {
            proof {
                assert(buf@.subrange(0, 8) =~= u64_le(x));
                lemma_u64_le_injective(y, x);
            }
            y
        },
        Err(_) => {
            proof {
                assert(false);
            }
            0
        },
    }
}

/// Round-trip law, two-field envelope: encoding then decoding yields a pair
/// structurally equal to the original.
pub fn round_trip_pair(id: u64, only: bool) -> (r: (u64, bool))
    ensures
        r == (id, only),
{
    let mut buf: Vec<u8> = Vec::new();
    ser_pair(id, only, &mut buf);
    let out = de_pair(buf.as_slice());
    match out {
        Ok(p) => {
            proof {
                assert(buf@[8] == bool_byte(only));
                assert(buf@.subrange(0, 9) =~= pair_bytes(id, only));
                assert(u64_le(p.0) =~= pair_bytes(p.0, p.1).subrange(0, 8));
                assert(u64_le(id) =~= pair_bytes(id, only).subrange(0, 8));
                lemma_u64_le_injective(p.0, id);
                assert(bool_byte(p.1) == pair_bytes(p.0, p.1)[8]);
                assert(bool_byte(only) == pair_bytes(id, only)[8]);
                assert(p.1 == only);
            }
            p
        },
        Err(_) => {
            proof {
                assert(false);
            }
            (0, false)
        },
    }
}

} // verus!
