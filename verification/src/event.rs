//! Deterministic derivation of fixed-width event identifiers.
//!
//! An event identifier is the 8-byte little-endian encoding of a 64-bit
//! counter. The encoding is total and injective: distinct counters always
//! produce distinct identifiers.

use vstd::prelude::*;

verus! {

/// The 8-byte little-endian encoding of a 64-bit value.
pub open spec fn le_bytes8(v: u64) -> Seq<u8> {
    seq![
        (v & 0xff) as u8,
        ((v >> 8) & 0xff) as u8,
        ((v >> 16) & 0xff) as u8,
        ((v >> 24) & 0xff) as u8,
        ((v >> 32) & 0xff) as u8,
        ((v >> 40) & 0xff) as u8,
        ((v >> 48) & 0xff) as u8,
        ((v >> 56) & 0xff) as u8,
    ]
}

/// Encodes a 64-bit value as its 8 little-endian bytes. The fixed-width
/// encoding is total: it cannot fail or produce any other length.
pub fn encode_u64_le(v: u64) -> (r: [u8; 8])
    ensures
        r@ == le_bytes8(v),
{
    let r: [u8; 8] = [
        (v & 0xff) as u8,
        ((v >> 8) & 0xff) as u8,
        ((v >> 16) & 0xff) as u8,
        ((v >> 24) & 0xff) as u8,
        ((v >> 32) & 0xff) as u8,
        ((v >> 40) & 0xff) as u8,
        ((v >> 48) & 0xff) as u8,
        ((v >> 56) & 0xff) as u8,
    ];
    proof {
        assert(r@ =~= le_bytes8(v));
    }
    r
}

/// The 64-bit counter an event identifier is derived from.
pub struct DeriveEventIdParam {
    pub event_id: u64,
}

impl DeriveEventIdParam {
    /// The wire form of the counter: its 8 little-endian bytes.
    pub fn to_bytes(&self) -> (r: [u8; 8])
        ensures
            r@ == le_bytes8(self.event_id),
    {
        encode_u64_le(self.event_id)
    }
}

/// Derives the fixed 8-byte identifier of the event numbered by a 64-bit
/// counter: the counter's little-endian encoding.
pub fn derive_event_id(event_id: u64) -> (r: [u8; 8])
    ensures
        r@ == le_bytes8(event_id),
{
    let data = DeriveEventIdParam { event_id };
    data.to_bytes()
}

/// Distinct counters always produce distinct event identifiers: the
/// little-endian encoding is injective over the whole 64-bit domain.
pub proof fn lemma_derive_event_id_injective(a: u64, b: u64)
    ensures
        a != b ==> le_bytes8(a) != le_bytes8(b),
{
    if le_bytes8(a) == le_bytes8(b) {
        assert((a & 0xff) as u8 == (b & 0xff) as u8);
        assert(((a >> 8) & 0xff) as u8 == ((b >> 8) & 0xff) as u8);
        assert(((a >> 16) & 0xff) as u8 == ((b >> 16) & 0xff) as u8);
        assert(((a >> 24) & 0xff) as u8 == ((b >> 24) & 0xff) as u8);
        assert(((a >> 32) & 0xff) as u8 == ((b >> 32) & 0xff) as u8);
        assert(((a >> 40) & 0xff) as u8 == ((b >> 40) & 0xff) as u8);
        assert(((a >> 48) & 0xff) as u8 == ((b >> 48) & 0xff) as u8);
        assert(((a >> 56) & 0xff) as u8 == ((b >> 56) & 0xff) as u8);
        assert({
            &&& (a & 0xff) as u8 == (b & 0xff) as u8
            &&& ((a >> 8) & 0xff) as u8 == ((b >> 8) & 0xff) as u8
            &&& ((a >> 16) & 0xff) as u8 == ((b >> 16) & 0xff) as u8
            &&& ((a >> 24) & 0xff) as u8 == ((b >> 24) & 0xff) as u8
            &&& ((a >> 32) & 0xff) as u8 == ((b >> 32) & 0xff) as u8
            &&& ((a >> 40) & 0xff) as u8 == ((b >> 40) & 0xff) as u8
            &&& ((a >> 48) & 0xff) as u8 == ((b >> 48) & 0xff) as u8
            &&& ((a >> 56) & 0xff) as u8 == ((b >> 56) & 0xff) as u8
        } ==> a == b) by (bit_vector);
    }
}

} // verus!
