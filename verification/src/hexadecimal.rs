//! Hexadecimal text, as the `hex` crate writes and reads it.

use vstd::prelude::*;

verus! {

/// The lower-case hexadecimal digit of a number below sixteen.
pub open spec fn hex_digit(n: int) -> char {
    if n < 10 {
        (48 + n) as char
    } else {
        (87 + n) as char
    }
}

/// Tells whether a character is a hexadecimal digit, of either case.
pub open spec fn is_hex_digit(c: char) -> bool {
    '0' <= c <= '9' || 'a' <= c <= 'f' || 'A' <= c <= 'F'
}

/// The value of a hexadecimal digit.
pub open spec fn hex_value(c: char) -> int {
    if '0' <= c <= '9' {
        c as int - 48
    } else if 'a' <= c <= 'f' {
        c as int - 87
    } else {
        c as int - 55
    }
}

/// The bytes written as two lower-case digits each, the high half first.
pub open spec fn hex_text(bytes: Seq<u8>) -> Seq<char> {
    Seq::new(
        2 * bytes.len(),
        |i: int|
            if i % 2 == 0 {
                hex_digit(bytes[i / 2] as int / 16)
            } else {
                hex_digit(bytes[i / 2] as int % 16)
            },
    )
}

/// Tells whether a text is an even number of hexadecimal digits.
pub open spec fn is_hex(s: Seq<char>) -> bool {
    s.len() % 2 == 0 && forall|i: int| 0 <= i < s.len() ==> is_hex_digit(#[trigger] s[i])
}

/// The bytes that a text of hexadecimal digits stands for; none for any other text.
pub open spec fn hex_bytes(s: Seq<char>) -> Option<Seq<u8>> {
    if is_hex(s) {
        Some(
            Seq::new(
                s.len() / 2,
                |i: int| (hex_value(s[2 * i]) * 16 + hex_value(s[2 * i + 1])) as u8,
            ),
        )
    } else {
        None
    }
}

/// Calls `hex::encode`, which writes each byte as two lower-case digits.
#[verifier::external_body]
pub(crate) fn hex_encode(bytes: &[u8]) -> (r: String)
    ensures
        r@ == hex_text(bytes@),
{
    hex::encode(bytes)
}

/// Calls `hex::decode`, which reads two digits of either case as one byte, and refuses an
/// odd length and every other character. Its error is dropped.
#[verifier::external_body]
pub(crate) fn hex_decode(text: &str) -> (r: Option<Vec<u8>>)
    ensures
        match r {
            Some(bytes) => hex_bytes(text@) == Some(bytes@),
            None => hex_bytes(text@) is None,
        },
{
    hex::decode(text).ok()
}

/// Bytes written as hexadecimal text read back as the same bytes.
pub proof fn hex_reads_back(bytes: Seq<u8>)
    ensures
        hex_bytes(hex_text(bytes)) == Some(bytes),
{
}

/// Hexadecimal text has two digits for each byte, in lower case.
pub proof fn hex_text_is_lower_case(bytes: Seq<u8>)
    ensures
        hex_text(bytes).len() == 2 * bytes.len(),
        forall|i: int|
            0 <= i < hex_text(bytes).len() ==> '0' <= #[trigger] hex_text(bytes)[i] <= '9' || 'a'
                <= hex_text(bytes)[i] <= 'f',
{
}

/// What stands for bytes is an even number of digits, of either case, and nothing else does;
/// written again, the bytes have the same digits in lower case.
pub proof fn only_digits_stand_for_bytes(s: Seq<char>)
    ensures
        hex_bytes(s) is Some <==> s.len() % 2 == 0 && forall|i: int|
            0 <= i < s.len() ==> '0' <= #[trigger] s[i] <= '9' || 'a' <= s[i] <= 'f' || 'A' <= s[i]
                <= 'F',
        hex_bytes(s) matches Some(bytes) ==> 2 * bytes.len() == s.len() && forall|i: int|
            0 <= i < s.len() ==> hex_text(bytes)[i] == #[trigger] s[i] || ('A' <= s[i] <= 'F'
                && hex_text(bytes)[i] as int == s[i] as int + 32),
{
    if s.len() % 2 == 0 && forall|i: int|
        0 <= i < s.len() ==> '0' <= #[trigger] s[i] <= '9' || 'a' <= s[i] <= 'f' || 'A' <= s[i]
            <= 'F' {
        assert forall|i: int| 0 <= i < s.len() implies is_hex_digit(#[trigger] s[i]) by {}
    }
    if hex_bytes(s) is Some {
        let bytes = hex_bytes(s)->0;
        assert forall|i: int| 0 <= i < s.len() implies hex_text(bytes)[i] == #[trigger] s[i] || (
        'A' <= s[i] <= 'F' && hex_text(bytes)[i] as int == s[i] as int + 32) by {
            let k = i / 2;
            assert(is_hex_digit(s[2 * k]) && is_hex_digit(s[2 * k + 1]));
            let high = hex_value(s[2 * k]);
            let low = hex_value(s[2 * k + 1]);
            assert(bytes[k] as int == high * 16 + low);
            assert(bytes[k] as int / 16 == high && bytes[k] as int % 16 == low);
            assert(i == 2 * k || i == 2 * k + 1);
        }
    }
}

}
