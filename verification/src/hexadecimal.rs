//! Hexadecimal text of byte strings, for showing a commitment to a reader.
use vstd::prelude::*;

verus! {

/// The sixteen lowercase hexadecimal digits, in order of their value.
pub open spec fn hex_alphabet() -> Seq<char> {
    seq!['0', '1', '2', '3', '4', '5', '6', '7', '8', '9', 'a', 'b', 'c', 'd', 'e', 'f']
}

/// Character `i` of the hexadecimal text of `bytes`: the digit of the high
/// half of byte `i / 2` at even `i`, of its low half at odd `i`.
pub open spec fn hex_char(bytes: Seq<u8>, i: int) -> char {
    let byte = bytes[i / 2];
    if i % 2 == 0 {
        hex_alphabet()[(byte / 16) as int]
    } else {
        hex_alphabet()[(byte % 16) as int]
    }
}

/// The hexadecimal text of `bytes`: two lowercase digits for each byte, high
/// half first, in the order of the bytes.
pub open spec fn hex_text(bytes: Seq<u8>) -> Seq<char> {
    Seq::new(2 * bytes.len(), |i: int| hex_char(bytes, i))
}

/// Calls `hex::encode`. Believed of it, from its documentation and its
/// source: the text has two characters for each byte of `data`, in order,
/// the first taken from `0123456789abcdef` at the byte's high four bits and
/// the second at its low four bits.
#[verifier::external_body]
fn encode_lowercase(data: &[u8]) -> (text: String)
    ensures
        text@ == hex_text(data@),
{
    hex::encode(data)
}

/// The lowercase hexadecimal text of a commitment: 64 characters.
pub fn commitment_hex(commitment: &[u8; 32]) -> (text: String)
    ensures
        text@ == hex_text(commitment@),
        text@.len() == 64,
{
    encode_lowercase(commitment.as_slice())
}

} // verus!
