//! Commitment codec: the fixed byte form of a bid value that a bidder signs
//! when committing and that a reveal is checked against.
use vstd::prelude::*;

verus! {

/// The eight bytes of `v`, least significant first.
pub open spec fn le_bytes(v: u64) -> Seq<u8> {
    seq![
        (v % 0x100) as u8,
        ((v / 0x100) % 0x100) as u8,
        ((v / 0x1_0000) % 0x100) as u8,
        ((v / 0x100_0000) % 0x100) as u8,
        ((v / 0x1_0000_0000) % 0x100) as u8,
        ((v / 0x100_0000_0000) % 0x100) as u8,
        ((v / 0x1_0000_0000_0000) % 0x100) as u8,
        ((v / 0x100_0000_0000_0000) % 0x100) as u8,
    ]
}

/// Relies on bincode::serialize: its function-level options encode integers at
/// fixed width, little endian, with no size limit, so a `u64` becomes its eight
/// bytes least significant first and the call does not fail.
#[verifier::external_body]
fn serialize_u64(value: u64) -> (r: Option<Vec<u8>>)
    ensures
        r is Some,
        r.unwrap()@ == le_bytes(value),
{
    bincode::serialize(&value).ok()
}

/// Serializes a bid value into the bytes that a commitment signs.
pub fn encode_value(value: u64) -> (r: Vec<u8>)
    ensures
        r@ == le_bytes(value),
        r@.len() == 8,
{
    match serialize_u64(value) {
        Some(bytes) => bytes,
        None => Vec::new(),
    }
}

} // verus!
