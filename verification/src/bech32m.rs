//! Bech32 text, as the `bech32` crate writes and reads it.

use bech32::{Bech32m, Hrp};
use vstd::prelude::*;

verus! {

/// The characters of the data part, in the order of the five-bit values they stand for.
pub const ALPHABET: &'static str = "qpzry9x8gf2tvdw0s3jn54khce6mua7l";

/// The longest text that carries a checksum.
pub const CODE_LENGTH: usize = 1023;

/// Tells whether a text can be a human-readable part: 1 to 83 printable ASCII characters,
/// not of mixed case.
pub open spec fn is_hrp(s: Seq<char>) -> bool {
    &&& 1 <= s.len() <= 83
    &&& forall|i: int| 0 <= i < s.len() ==> 33 <= (#[trigger] s[i]) as u32 <= 126
    &&& is_lower_case(s) || is_upper_case(s)
}

/// Tells whether a text holds no upper-case ASCII letter.
pub open spec fn is_lower_case(s: Seq<char>) -> bool {
    forall|i: int| 0 <= i < s.len() ==> !('A' <= #[trigger] s[i] <= 'Z')
}

/// Tells whether a text holds no lower-case ASCII letter.
pub open spec fn is_upper_case(s: Seq<char>) -> bool {
    forall|i: int| 0 <= i < s.len() ==> !('a' <= #[trigger] s[i] <= 'z')
}

/// The length of an encoded text: the human-readable part, a separator, the data in groups
/// of five bits, and six characters of checksum.
pub open spec fn encoded_length(hrp_len: nat, data_len: nat) -> nat {
    hrp_len + 1 + (8 * data_len + 4) / 5 + 6
}

/// What `bech32::encode` with the Bech32m checksum makes of a human-readable part and data:
/// the encoded text, or the text of its error.
pub uninterp spec fn bech32m_encoded(hrp: Seq<char>, data: Seq<u8>) -> Result<Seq<char>, Seq<char>>;

/// What `bech32::decode` makes of a text: the human-readable part and the data, or the text
/// of its error.
pub uninterp spec fn bech32_decoded(text: Seq<char>) -> Result<(Seq<char>, Seq<u8>), Seq<char>>;

/// Tells whether the decoder reads a human-readable part and data from a text.
pub open spec fn decodes_to(text: Seq<char>, hrp: Seq<char>, data: Seq<u8>) -> bool {
    bech32_decoded(text) == Ok::<(Seq<char>, Seq<u8>), Seq<char>>((hrp, data))
}

/// A result of the decoder.
pub type Decoded = Result<(String, Vec<u8>), String>;

/// A result of the decoder, by its contents.
pub open spec fn decoded_view(r: Decoded) -> Result<(Seq<char>, Seq<u8>), Seq<char>> {
    match r {
        Ok((hrp, data)) => Ok((hrp@, data@)),
        Err(e) => Err(e@),
    }
}

/// Calls `bech32::Hrp::parse`, which takes the texts of `is_hrp` and holds them as they are.
#[verifier::external_body]
pub(crate) fn hrp_parse(text: &str) -> (r: Result<String, String>)
    requires
        is_hrp(text@),
    ensures
        r is Ok,
        r->Ok_0@ == text@,
{
    match Hrp::parse(text) {
        Ok(hrp) => Ok(hrp.as_str().to_string()),
        Err(e) => Err(e.to_string()),
    }
}

/// Calls `bech32::encode::<Bech32m>`, with the human-readable part converted by
/// `Hrp::parse_unchecked`. It fails on a text over the code length and on nothing else. The
/// text begins with the human-readable part in lower case and a separator; the first
/// character of the data part stands for the high five bits of the first byte; and the
/// decoder gives back what was encoded.
#[verifier::external_body]
pub(crate) fn bech32m_encode(hrp: &str, data: &[u8]) -> (r: Result<String, String>)
    requires
        is_hrp(hrp@),
        is_lower_case(hrp@),
        8 * data@.len() + 94 <= usize::MAX,
    ensures
        crate::text::text_view(r) == bech32m_encoded(hrp@, data@),
        r is Ok <==> encoded_length(hrp@.len(), data@.len()) <= CODE_LENGTH,
        r matches Ok(text) ==> text@.len() == encoded_length(hrp@.len(), data@.len()),
        r matches Ok(text) ==> crate::text::begins_with(text@, hrp@.push('1')),
        r matches Ok(text) ==> data@.len() > 0 ==> text@[(hrp@.len() + 1) as int] == ALPHABET@[data@[0] as int
            / 8],
        r matches Ok(text) ==> decodes_to(text@, hrp@, data@),
{
    match bech32::encode::<Bech32m>(Hrp::parse_unchecked(hrp), data) {
        Ok(text) => Ok(text),
        Err(e) => Err(e.to_string()),
    }
}

/// Calls `bech32::decode`, which accepts either checksum.
#[verifier::external_body]
pub(crate) fn bech32_decode(text: &str) -> (r: Decoded)
    ensures
        decoded_view(r) == bech32_decoded(text@),
{
    match bech32::decode(text) {
        Ok((hrp, data)) => Ok((hrp.as_str().to_string(), data)),
        Err(e) => Err(e.to_string()),
    }
}

}
