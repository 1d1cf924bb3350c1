use vstd::prelude::*;

verus! {

/// The byte a boolean message travels as.
pub open spec fn bool_byte(b: bool) -> u8 {
    if b { 1 } else { 0 }
}

/// The boolean a received byte stands for: only `1` reads as true.
pub open spec fn byte_bool(byte: u8) -> bool {
    byte == 1
}

/// Encodes one boolean message as its single byte.
pub fn encode_bool(b: bool) -> (r: u8)
    ensures
        r == bool_byte(b),
{
    if b { 1 } else { 0 }
}

/// Decodes one received byte.
pub fn decode_bool(byte: u8) -> (r: bool)
    ensures
        r == byte_bool(byte),
{
    byte == 1
}

/// A boolean sent on one endpoint is the boolean received on the other.
pub proof fn lemma_bool_round_trip(b: bool)
    ensures
        byte_bool(bool_byte(b)) == b,
{
}

} // verus!
