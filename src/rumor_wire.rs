//! The envelope in which a rumor travels between supervisors: the rumor's
//! kind, the member that sent it, and the rumor's own encoding.
//!
//! On the wire: the kind's number as four little-endian bytes, the length
//! of the sender's id as four little-endian bytes, the id, then the payload.
use vstd::prelude::*;
use vstd::string::StrSliceExecFns;
use vstd::utf8::encode_utf8;
use crate::launcher::{le_bytes, le_value};
use crate::rumor::RumorType;

verus! {

/// Why an envelope could not be read.
#[derive(Debug, PartialEq, Eq)]
pub enum WireError {
    /// The named part of the envelope is missing or malformed.
    ProtocolMismatch(&'static str),
}

/// The number of each rumor kind on the wire.
pub open spec fn type_number(t: RumorType) -> u32 {
    match t {
        RumorType::Member => 1,
        RumorType::Service => 2,
        RumorType::Election => 3,
        RumorType::ServiceConfig => 4,
        RumorType::ServiceFile => 5,
        RumorType::Fake => 6,
        RumorType::Fake2 => 7,
        RumorType::ElectionUpdate => 8,
        RumorType::Departure => 9,
    }
}

/// The kind a number stands for on the wire; the kinds kept for tests are
/// not accepted from peers.
pub open spec fn type_of_number(n: int) -> Option<RumorType> {
    if n == 1 {
        Some(RumorType::Member)
    } else if n == 2 {
        Some(RumorType::Service)
    } else if n == 3 {
        Some(RumorType::Election)
    } else if n == 4 {
        Some(RumorType::ServiceConfig)
    } else if n == 5 {
        Some(RumorType::ServiceFile)
    } else if n == 8 {
        Some(RumorType::ElectionUpdate)
    } else if n == 9 {
        Some(RumorType::Departure)
    } else {
        None
    }
}

impl RumorType {
    pub fn value(&self) -> (r: u32)
        ensures
            r == type_number(*self),
    {
        match *self {
            RumorType::Member => 1,
            RumorType::Service => 2,
            RumorType::Election => 3,
            RumorType::ServiceConfig => 4,
            RumorType::ServiceFile => 5,
            RumorType::Fake => 6,
            RumorType::Fake2 => 7,
            RumorType::ElectionUpdate => 8,
            RumorType::Departure => 9,
        }
    }

    pub fn from_u32(n: u32) -> (r: Option<RumorType>)
        ensures
            r == type_of_number(n as int),
    {
        if n == 1 {
            Some(RumorType::Member)
        } else if n == 2 {
            Some(RumorType::Service)
        } else if n == 3 {
            Some(RumorType::Election)
        } else if n == 4 {
            Some(RumorType::ServiceConfig)
        } else if n == 5 {
            Some(RumorType::ServiceFile)
        } else if n == 8 {
            Some(RumorType::ElectionUpdate)
        } else if n == 9 {
            Some(RumorType::Departure)
        } else {
            None
        }
    }
}

/// A rumor as it travels: its kind, the sender's id, and its encoding.
pub struct RumorEnvelope {
    pub type_: RumorType,
    pub from_id: Vec<u8>,
    pub payload: Vec<u8>,
}

/// The bytes of an envelope.
pub open spec fn envelope_bytes(t: RumorType, from_id: Seq<u8>, payload: Seq<u8>) -> Seq<u8> {
    le_bytes(type_number(t)) + le_bytes(from_id.len() as u32) + from_id + payload
}

/// What bytes are read as: kind, sender's id and payload, or the part
/// that does not fit.
pub open spec fn envelope_parts(b: Seq<u8>) -> Result<(RumorType, Seq<u8>, Seq<u8>), WireError> {
    if b.len() < 8 {
        Err(WireError::ProtocolMismatch("length"))
    } else if type_of_number(le_value(b)) is None {
        Err(WireError::ProtocolMismatch("type"))
    } else if le_value(b.skip(4)) > b.len() - 8 {
        Err(WireError::ProtocolMismatch("from-id"))
    } else {
        let n = le_value(b.skip(4));
        Ok(
            (
                type_of_number(le_value(b))->0,
                b.subrange(8, 8 + n),
                b.subrange(8 + n, b.len() as int),
            ),
        )
    }
}

/// The eight little-endian bytes of `n`.
pub open spec fn u64_bytes(n: u64) -> Seq<u8> {
    le_bytes((n % 4294967296) as u32) + le_bytes((n / 4294967296) as u32)
}

/// A text on the wire: the length of its UTF-8 encoding, then the encoding.
pub open spec fn text_bytes(s: Seq<char>) -> Seq<u8> {
    u64_bytes(encode_utf8(s).len() as u64) + encode_utf8(s)
}

/// A flag on the wire: one byte, 1 for true.
pub open spec fn flag_byte(b: bool) -> Seq<u8> {
    if b {
        seq![1u8]
    } else {
        seq![0u8]
    }
}

/// Appends the eight little-endian bytes of `n`.
pub(crate) fn push_u64(r: &mut Vec<u8>, n: u64)
    ensures
        final(r)@ == old(r)@ + u64_bytes(n),
{
    push_le32(r, (n % 4294967296) as u32);
    push_le32(r, (n / 4294967296) as u32);
    assert(r@ =~= old(r)@ + u64_bytes(n));
}

/// Appends a text as its length and UTF-8 bytes.
pub(crate) fn push_text(r: &mut Vec<u8>, s: &String)
    ensures
        final(r)@ == old(r)@ + text_bytes(s@),
{
    let bytes = s.as_str().as_bytes_vec();
    push_u64(r, bytes.len() as u64);
    push_all(r, &bytes);
    assert(r@ =~= old(r)@ + text_bytes(s@));
}

/// Appends a flag.
pub(crate) fn push_flag(r: &mut Vec<u8>, b: bool)
    ensures
        final(r)@ == old(r)@ + flag_byte(b),
{
    r.push(if b {
        1u8
    } else {
        0u8
    });
    assert(r@ =~= old(r)@ + flag_byte(b));
}

/// Appends the four little-endian bytes of `n`.
fn push_le32(r: &mut Vec<u8>, n: u32)
    ensures
        final(r)@ == old(r)@ + le_bytes(n),
{
    r.push((n % 256) as u8);
    r.push(((n / 256) % 256) as u8);
    r.push(((n / 65536) % 256) as u8);
    r.push(((n / 16777216) % 256) as u8);
    assert(r@ =~= old(r)@ + le_bytes(n));
}

/// Appends the bytes of `b`.
fn push_all(r: &mut Vec<u8>, b: &Vec<u8>)
    ensures
        final(r)@ == old(r)@ + b@,
{
    let mut i: usize = 0;
    while i < b.len()
        invariant
            i <= b@.len(),
            r@ == old(r)@ + b@.take(i as int),
        decreases b@.len() - i,
    {
        r.push(b[i]);
        i += 1;
        assert(r@ =~= old(r)@ + b@.take(i as int));
    }
    assert(b@.take(i as int) =~= b@);
}

/// The bytes of `b` from `from` up to `to`.
fn copy_range(b: &Vec<u8>, from: usize, to: usize) -> (r: Vec<u8>)
    requires
        from <= to <= b@.len(),
    ensures
        r@ == b@.subrange(from as int, to as int),
{
    let mut r: Vec<u8> = Vec::new();
    let mut i: usize = from;
    while i < to
        invariant
            from <= i <= to,
            to <= b@.len(),
            r@ == b@.subrange(from as int, i as int),
        decreases to - i,
    {
        r.push(b[i]);
        i += 1;
        assert(r@ =~= b@.subrange(from as int, i as int));
    }
    r
}

/// The number in the four bytes of `b` from `at`.
fn read_le32(b: &Vec<u8>, at: usize) -> (r: u64)
    requires
        at + 4 <= b@.len(),
    ensures
        r == le_value(b@.skip(at as int)),
{
    let len = b.len();
    assert(at + 4 <= len);
    b[at] as u64 + 256 * (b[at + 1] as u64) + 65536 * (b[at + 2] as u64) + 16777216 * (b[at
        + 3] as u64)
}

impl RumorEnvelope {
    /// The envelope's bytes.
    pub fn encode(&self) -> (r: Vec<u8>)
        requires
            self.from_id@.len() <= u32::MAX,
        ensures
            r@ == envelope_bytes(self.type_, self.from_id@, self.payload@),
    {
        let mut r: Vec<u8> = Vec::new();
        push_le32(&mut r, self.type_.value());
        push_le32(&mut r, self.from_id.len() as u32);
        push_all(&mut r, &self.from_id);
        push_all(&mut r, &self.payload);
        assert(r@ =~= envelope_bytes(self.type_, self.from_id@, self.payload@));
        r
    }

    /// Reads an envelope from its bytes.
    pub fn decode(b: &Vec<u8>) -> (r: Result<RumorEnvelope, WireError>)
        ensures
            match envelope_parts(b@) {
                Ok((t, id, payload)) => r matches Ok(e) && e.type_ == t && e.from_id@ == id
                    && e.payload@ == payload,
                Err(e) => r matches Err(x) && x == e,
            },
    {
        if b.len() < 8 {
            return Err(WireError::ProtocolMismatch("length"));
        }
        let t = read_le32(b, 0);
        assert(b@.skip(0) =~= b@);
        let type_ = if t > u32::MAX as u64 {
            None
        } else {
            RumorType::from_u32(t as u32)
        };
        let type_ = match type_ {
            Some(x) => x,
            None => {
                return Err(WireError::ProtocolMismatch("type"));
            },
        };
        let n = read_le32(b, 4);
        if n > (b.len() - 8) as u64 {
            return Err(WireError::ProtocolMismatch("from-id"));
        }
        let n = n as usize;
        let from_id = copy_range(b, 8, 8 + n);
        let payload = copy_range(b, 8 + n, b.len());
        Ok(RumorEnvelope { type_, from_id, payload })
    }
}

/// An envelope read back from its bytes is the envelope that was written,
/// for every kind a peer may send.
pub proof fn lemma_envelope_round_trip(t: RumorType, from_id: Seq<u8>, payload: Seq<u8>)
    requires
        from_id.len() <= u32::MAX,
        type_of_number(type_number(t) as int) == Some(t),
    ensures
        envelope_parts(envelope_bytes(t, from_id, payload)) == Ok::<
            (RumorType, Seq<u8>, Seq<u8>),
            WireError,
        >((t, from_id, payload)),
{
    let b = envelope_bytes(t, from_id, payload);
    lemma_le_round_trip(type_number(t));
    lemma_le_round_trip(from_id.len() as u32);
    assert(b.take(4) =~= le_bytes(type_number(t)));
    assert(le_value(b) == le_value(b.take(4)));
    assert(b.skip(4).take(4) =~= le_bytes(from_id.len() as u32));
    assert(le_value(b.skip(4)) == le_value(b.skip(4).take(4)));
    assert(b.subrange(8, 8 + from_id.len() as int) =~= from_id);
    assert(b.subrange(8 + from_id.len() as int, b.len() as int) =~= payload);
}

/// Writing a number in four little-endian bytes and reading it back gives
/// the number.
pub proof fn lemma_le_round_trip(n: u32)
    ensures
        le_value(le_bytes(n)) == n,
{
    assert((n % 256) + 256 * ((n / 256) % 256) + 65536 * ((n / 65536) % 256) + 16777216 * ((n
        / 16777216) % 256) == n) by (nonlinear_arith);
}

/// Bytes that read as an envelope are written again unchanged: re-encoding
/// an envelope that was received is byte-identical.
pub proof fn lemma_envelope_reencode(b: Seq<u8>)
    requires
        envelope_parts(b) is Ok,
    ensures
        ({
            let (t, id, payload) = envelope_parts(b)->Ok_0;
            envelope_bytes(t, id, payload) == b
        }),
{
    let (t, id, payload) = envelope_parts(b)->Ok_0;
    let n = le_value(b.skip(4));
    assert(type_number(t) == le_value(b)) by {
        assert(type_of_number(le_value(b)) == Some(t));
    }
    assert(le_bytes(type_number(t)) =~= b.take(4)) by {
        assert(le_value(b) == b[0] + 256 * b[1] + 65536 * b[2] + 16777216 * b[3]);
        lemma_le_bytes_of_value(b[0], b[1], b[2], b[3]);
    }
    assert(le_bytes(id.len() as u32) =~= b.skip(4).take(4)) by {
        lemma_le_bytes_of_value(b[4], b[5], b[6], b[7]);
    }
    assert(envelope_bytes(t, id, payload) =~= b);
}

/// Four bytes are the little-endian bytes of the number they hold.
proof fn lemma_le_bytes_of_value(b0: u8, b1: u8, b2: u8, b3: u8)
    ensures
        le_bytes((b0 + 256 * b1 + 65536 * b2 + 16777216 * b3) as u32) == seq![b0, b1, b2, b3],
{
    let n = b0 + 256 * b1 + 65536 * b2 + 16777216 * b3;
    assert(n % 256 == b0 && (n / 256) % 256 == b1 && (n / 65536) % 256 == b2 && (n / 16777216)
        % 256 == b3) by (nonlinear_arith)
        requires
            n == b0 + 256 * b1 + 65536 * b2 + 16777216 * b3,
            0 <= b0 < 256,
            0 <= b1 < 256,
            0 <= b2 < 256,
            0 <= b3 < 256,
    ;
    assert(le_bytes(n as u32) =~= seq![b0, b1, b2, b3]);
}

} // verus!
