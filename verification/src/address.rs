//! Shielded payment addresses.
//!
//! An address travels as Bech32m text whose human-readable part tells the network and whose
//! payload is a type byte followed by the 43 bytes of a raw Orchard address.

use crate::bech32m::{bech32_decode, bech32m_encode, hrp_parse, Decoded};
use crate::hexadecimal::hex_encode;
use crate::network::{hrp_text, WalletResult};
use crate::text::{joined, same_text};
use vstd::prelude::*;

verus! {

/// The type byte of an Orchard address.
pub const ORCHARD_TYPE: u8 = 0x10;

/// The payload of an address: the type byte, then the raw address.
pub open spec fn address_payload(raw: Seq<u8>) -> Seq<u8> {
    seq![ORCHARD_TYPE] + raw
}

/// The text of a raw address on a network.
pub open spec fn address_text(raw: Seq<u8>, network: Seq<char>) -> Seq<char> {
    crate::bech32m::bech32m_encoded(
        crate::network::hrp_of(network),
        address_payload(raw),
    )->Ok_0
}

/// The message about an address of another network.
pub open spec fn wrong_network_text(expected: Seq<char>, got: Seq<char>) -> Seq<char> {
    "address is for a different network: expected "@ + expected + ", got "@ + got
}

/// The raw address that a decoded text holds for a network, or why it holds none: the
/// decoder's message, an address of another network, or a payload of another kind.
pub open spec fn recipient(
    decoded: Result<(Seq<char>, Seq<u8>), Seq<char>>,
    network: Seq<char>,
) -> Result<Seq<u8>, Seq<char>> {
    match decoded {
        Err(e) => Err(e),
        Ok((hrp, data)) => if hrp != crate::network::hrp_of(network) {
            Err(wrong_network_text(crate::network::hrp_of(network), hrp))
        } else if data.len() != 44 || data[0] != ORCHARD_TYPE {
            Err("not an Orchard shielded address"@)
        } else {
            Ok(data.skip(1))
        },
    }
}

/// The raw address that an address text stands for on a network, or why it stands for none.
pub open spec fn decoded_address(address: Seq<char>, network: Seq<char>) -> Result<
    Seq<u8>,
    Seq<char>,
> {
    recipient(crate::bech32m::bech32_decoded(address), network)
}

/// Tells whether an address text stands for a raw address on a network.
pub open spec fn stands_for(address: Seq<char>, network: Seq<char>, raw: Seq<u8>) -> bool {
    decoded_address(address, network) == Ok::<Seq<u8>, Seq<char>>(raw)
}

/// A raw address or a message, by their contents.
pub open spec fn raw_view(r: WalletResult<[u8; 43]>) -> Result<Seq<u8>, Seq<char>> {
    match r {
        Ok(raw) => Ok(raw@),
        Err(message) => Err(message@),
    }
}

/// Tells whether a decoded text is an address of a network.
pub open spec fn is_address(
    decoded: Result<(Seq<char>, Seq<u8>), Seq<char>>,
    network: Seq<char>,
) -> bool {
    match decoded {
        Ok((hrp, data)) => hrp == crate::network::hrp_of(network) && data.len() == 44 && data[0]
            == ORCHARD_TYPE,
        Err(_) => false,
    }
}

/// The human-readable parts of the networks are well formed.
proof fn lemma_hrp_of(network: Seq<char>)
    ensures
        crate::bech32m::is_hrp(crate::network::hrp_of(network)),
        crate::bech32m::is_lower_case(crate::network::hrp_of(network)),
        4 <= crate::network::hrp_of(network).len() <= 5,
{
    reveal_strlit("dash");
    reveal_strlit("tdash");
}

/// The human-readable part of the addresses of a network, checked for its form.
pub fn hrp_for(network: &str) -> (r: WalletResult<String>)
    ensures
        r is Ok,
        r->Ok_0@ == crate::network::hrp_of(network@),
{
    proof {
        lemma_hrp_of(network@);
    }
    hrp_parse(hrp_text(network))
}

/// Writes a raw Orchard address as Bech32m text.
///
/// The text begins with the human-readable part of the network, the separator and `z`, and
/// reads back as the same raw address on the same network.
pub fn encode_raw_orchard_address(raw: &[u8; 43], network: &str) -> (r: WalletResult<String>)
    ensures
        r is Ok,
        r->Ok_0@ == address_text(raw@, network@),
        r->Ok_0@.len() == crate::network::hrp_of(network@).len() + 78,
        crate::text::begins_with(r->Ok_0@, crate::network::hrp_of(network@) + "1z"@),
        stands_for(r->Ok_0@, network@, raw@),
{
    let mut payload: Vec<u8> = Vec::with_capacity(44);
    payload.push(ORCHARD_TYPE);
    payload.extend_from_slice(raw);
    let ghost hrp_seq = crate::network::hrp_of(network@);
    proof {
        lemma_hrp_of(network@);
        assert(payload@ =~= address_payload(raw@));
    }
    let hrp: String = hrp_for(network)?;
    let r: WalletResult<String> = bech32m_encode(hrp.as_str(), payload.as_slice());
    proof {
        let text = r->Ok_0@;
        reveal_strlit("1z");
        reveal_strlit("qpzry9x8gf2tvdw0s3jn54khce6mua7l");
        assert(text.take((hrp_seq.len() + 2) as int) =~= hrp_seq + "1z"@);
        assert(payload@.skip(1) =~= raw@);
    }
    r
}

/// Tells whether what the decoder made of a text is an address of a network.
pub fn is_valid_decoded(decoded: &Decoded, network: &str) -> (r: bool)
    ensures
        r == is_address(crate::bech32m::decoded_view(*decoded), network@),
{
    match decoded {
        Ok((hrp, data)) => {
            if !same_text(hrp.as_str(), hrp_text(network)) {
                return false;
            }
            data.len() == 44 && data[0] == ORCHARD_TYPE
        },
        Err(_) => false,
    }
}

/// Tells whether a text is a shielded address of a network.
pub fn is_valid_address(address: String, network: String) -> (r: bool)
    ensures
        r == is_address(crate::bech32m::bech32_decoded(address@), network@),
        r == (decoded_address(address@, network@) is Ok),
{
    let decoded: Decoded = bech32_decode(address.as_str());
    is_valid_decoded(&decoded, network.as_str())
}

/// Copies 43 bytes into an array.
fn to_raw(bytes: &[u8]) -> (r: [u8; 43])
    requires
        bytes@.len() == 43,
    ensures
        r@ == bytes@,
{
    let mut raw: [u8; 43] = [0u8; 43];
    let mut i: usize = 0;
    while i < 43
        invariant
            i <= 43,
            bytes@.len() == 43,
            forall|j: int| 0 <= j < i ==> raw@[j] == bytes@[j],
        decreases 43 - i,
    {
        raw[i] = bytes[i];
        i = i + 1;
    }
    raw
}

/// The raw address that the decoder's result holds for a network.
pub fn recipient_from_decoded(decoded: &Decoded, network: &str) -> (r: WalletResult<[u8; 43]>)
    ensures
        raw_view(r) == recipient(crate::bech32m::decoded_view(*decoded), network@),
{
    let (hrp, data): (&String, &Vec<u8>) = match decoded {
        Ok((hrp, data)) => (hrp, data),
        Err(e) => {
            return Err(e.clone());
        },
    };
    let expected: String = hrp_for(network)?;
    if !same_text(hrp.as_str(), expected.as_str()) {
        let mut message: String = joined(
            "address is for a different network: expected ",
            expected.as_str(),
        );
        message.append(", got ");
        message.append(hrp.as_str());
        return Err(message);
    }
    if data.len() != 44 || data[0] != ORCHARD_TYPE {
        return Err("not an Orchard shielded address".to_string());
    }
    let tail: &[u8] = vstd::slice::slice_subrange(data.as_slice(), 1, 44);
    Ok(to_raw(tail))
}

/// Reads a shielded address of a network back to the raw Orchard address.
pub fn decode_shielded_address(address: &str, network: &str) -> (r: WalletResult<[u8; 43]>)
    ensures
        raw_view(r) == decoded_address(address@, network@),
{
    let decoded: Decoded = bech32_decode(address);
    recipient_from_decoded(&decoded, network)
}

/// The text that stands for a counterparty: an address where it is as long as one, and
/// hexadecimal otherwise.
pub open spec fn counterparty_text(raw: Seq<u8>, network: Seq<char>) -> Seq<char> {
    if raw.len() == 43 {
        address_text(raw, network)
    } else {
        crate::hexadecimal::hex_text(raw)
    }
}

/// Renders the counterparty of an activity entry.
///
/// Either rendering can be read back: the address as the same raw address on the same
/// network, the hexadecimal text as the same bytes.
pub fn encode_raw_counterparty(raw: &[u8], network: &str) -> (r: String)
    ensures
        r@ == counterparty_text(raw@, network@),
        raw@.len() == 43 ==> stands_for(r@, network@, raw@),
        raw@.len() != 43 ==> crate::hexadecimal::hex_bytes(r@) == Some(raw@),
{
    proof {
        crate::hexadecimal::hex_reads_back(raw@);
    }
    if raw.len() == 43 {
        let fixed: [u8; 43] = to_raw(raw);
        if let Ok(encoded) = encode_raw_orchard_address(&fixed, network) {
            return encoded;
        }
    }
    hex_encode(raw)
}

/// A text is a valid address of a network exactly where it reads back to a raw address.
pub proof fn valid_iff_decodes(
    decoded: Result<(Seq<char>, Seq<u8>), Seq<char>>,
    network: Seq<char>,
)
    ensures
        is_address(decoded, network) <==> recipient(decoded, network) is Ok,
{
}

/// A raw address that was read from a text has 43 bytes.
pub proof fn recipient_has_43_bytes(
    decoded: Result<(Seq<char>, Seq<u8>), Seq<char>>,
    network: Seq<char>,
)
    ensures
        recipient(decoded, network) matches Ok(raw) ==> raw.len() == 43,
{
}

/// An address of one network is refused on a network with another human-readable part, and
/// the message names both.
pub proof fn other_network_is_refused(
    decoded: Result<(Seq<char>, Seq<u8>), Seq<char>>,
    network: Seq<char>,
    other: Seq<char>,
)
    requires
        recipient(decoded, network) is Ok,
        crate::network::hrp_of(network) != crate::network::hrp_of(other),
    ensures
        !is_address(decoded, other),
        recipient(decoded, other) is Err,
        recipient(decoded, other)->Err_0 == wrong_network_text(
            crate::network::hrp_of(other),
            crate::network::hrp_of(network),
        ),
{
}

/// The test network and the main network have different human-readable parts.
pub proof fn test_network_is_separate(other: Seq<char>)
    requires
        other != "testnet"@,
    ensures
        crate::network::hrp_of("testnet"@) != crate::network::hrp_of(other),
{
    reveal_strlit("dash");
    reveal_strlit("tdash");
    assert("dash"@.len() != "tdash"@.len());
}

/// A decoded text holds a raw address for a network exactly where its human-readable part is
/// that of the network and its payload is the byte 16 and then the 43 bytes of the address.
pub proof fn recipient_is_behind_the_type_byte(
    hrp: Seq<char>,
    data: Seq<u8>,
    network: Seq<char>,
    raw: Seq<u8>,
)
    ensures
        recipient(Ok((hrp, data)), network) == Ok::<Seq<u8>, Seq<char>>(raw) <==> hrp
            == crate::network::hrp_of(network) && raw.len() == 43 && data == seq![16u8] + raw,
{
    if data == seq![16u8] + raw && raw.len() == 43 {
        assert(data.skip(1) =~= raw);
    }
    if recipient(Ok((hrp, data)), network) == Ok::<Seq<u8>, Seq<char>>(raw) {
        assert(data =~= seq![16u8] + raw);
    }
}

/// A decoded text that holds no raw address for a network is refused for the first reason that
/// there is: the decoder's own, the network, or the payload.
pub proof fn refused_address_has_a_reason(
    hrp: Seq<char>,
    data: Seq<u8>,
    network: Seq<char>,
    message: Seq<char>,
)
    ensures
        recipient(Err(message), network) == Err::<Seq<u8>, Seq<char>>(message),
        hrp != crate::network::hrp_of(network) ==> recipient(Ok((hrp, data)), network) == Err::<
            Seq<u8>,
            Seq<char>,
        >(
            "address is for a different network: expected "@ + crate::network::hrp_of(network)
                + ", got "@ + hrp,
        ),
        hrp == crate::network::hrp_of(network) && (data.len() != 44 || data[0] != 16)
            ==> recipient(Ok((hrp, data)), network) == Err::<Seq<u8>, Seq<char>>(
            "not an Orchard shielded address"@,
        ),
{
}

/// What is encoded for a raw address is the byte 16 and the raw address, under the
/// human-readable part of the network.
pub proof fn address_is_encoded_with_the_type_byte(raw: Seq<u8>, network: Seq<char>)
    ensures
        address_text(raw, network) == crate::bech32m::bech32m_encoded(
            crate::network::hrp_of(network),
            seq![16u8] + raw,
        )->Ok_0,
        raw.len() == 43 ==> counterparty_text(raw, network) == address_text(raw, network),
        raw.len() != 43 ==> crate::hexadecimal::hex_bytes(counterparty_text(raw, network)) == Some(
            raw,
        ),
{
    crate::hexadecimal::hex_reads_back(raw);
}

/// A raw address is told by its bytes, and a refusal by its message; what the decoder gave is
/// told by its human-readable part and its payload.
pub proof fn addresses_are_told_as_they_are(r: WalletResult<[u8; 43]>, decoded: Decoded)
    ensures
        r is Ok <==> raw_view(r) is Ok,
        r is Ok ==> raw_view(r)->Ok_0 == r->Ok_0@,
        r is Err ==> raw_view(r)->Err_0 == r->Err_0@,
        decoded is Ok <==> crate::bech32m::decoded_view(decoded) is Ok,
        decoded is Ok ==> crate::bech32m::decoded_view(decoded)->Ok_0 == (
            decoded->Ok_0.0@,
            decoded->Ok_0.1@,
        ),
        decoded is Err ==> crate::bech32m::decoded_view(decoded)->Err_0 == decoded->Err_0@,
{
}

}
