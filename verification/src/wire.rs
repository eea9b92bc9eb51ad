//! The size field that precedes each packet.
use vstd::prelude::*;

verus! {

/// What `bincode` says of bytes that hold no 16-bit number.
pub uninterp spec fn undecodable(bytes: Seq<u8>) -> Seq<char>;

/// The size that the first two bytes spell, low byte first, or what is said of bytes
/// that are too few.
pub open spec fn size_field(bytes: Seq<u8>) -> Result<u16, Seq<char>> {
    if bytes.len() >= 2 {
        Ok((bytes[0] + 256 * bytes[1]) as u16)
    } else {
        Err(undecodable(bytes))
    }
}

/// Calls `bincode::deserialize::<u16>` and prints its error.
///
/// The default configuration reads two bytes, low byte first, and lets further bytes
/// be. With fewer than two it fails; the text of the failure follows from the bytes
/// alone.
#[verifier::external_body]
fn decode_u16(bytes: &[u8]) -> (size: Result<u16, String>)
    ensures
        size is Ok <==> bytes@.len() >= 2,
        size matches Ok(n) ==> n == bytes@[0] + 256 * bytes@[1],
        size matches Err(e) ==> e@ == undecodable(bytes@),
{
    match bincode::deserialize::<u16>(bytes) {
        Ok(n) => Ok(n),
        Err(e) => Err(e.to_string()),
    }
}

/// Reads the size field.
pub fn read_size(bytes: &[u8]) -> (size: Result<u16, String>)
    ensures
        size is Ok <==> bytes@.len() >= 2,
        size matches Ok(n) ==> size_field(bytes@) == Ok::<u16, Seq<char>>(n),
        size matches Err(e) ==> size_field(bytes@) == Err::<u16, Seq<char>>(e@),
{
    decode_u16(bytes)
}

/// Each size is spelled by exactly one pair of bytes, whatever follows them.
pub proof fn law_size_has_one_spelling(size: u16, bytes: Seq<u8>)
    requires
        bytes.len() >= 2,
    ensures
        size_field(bytes) == Ok::<u16, Seq<char>>(size) <==> bytes[0] == size % 256 && bytes[1]
            == size / 256,
{
}

/// A field of two bytes or more is always read, as the first byte and 256 times the
/// second; a shorter one never is.
pub proof fn law_size_is_low_byte_first(bytes: Seq<u8>)
    ensures
        bytes.len() >= 2 ==> (size_field(bytes) matches Ok(n) && n as int == bytes[0] as int + 256 * (
        bytes[1] as int)),
        bytes.len() < 2 ==> size_field(bytes) == Err::<u16, Seq<char>>(undecodable(bytes)),
{
}

} // verus!
