use dash_shielded::address::{
    decode_shielded_address, encode_raw_counterparty, encode_raw_orchard_address, hrp_for,
    is_valid_address, is_valid_decoded, recipient_from_decoded,
};
use dash_shielded::network::{
    coin_type, network_from_name, network_label, quorum_base, Network,
};

const ZERO_MAINNET: &str =
    "dash1zqqqqqqqqqqqqqqqqqqqqqqqqqqqqqqqqqqqqqqqqqqqqqqqqqqqqqqqqqqqqqqqqqqqqqqs9ac4r";
const ZERO_TESTNET: &str =
    "tdash1zqqqqqqqqqqqqqqqqqqqqqqqqqqqqqqqqqqqqqqqqqqqqqqqqqqqqqqqqqqqqqqqqqqqqqqqcpr06";
const COUNT_MAINNET: &str =
    "dash1zqqqzqsrqszsvpcgpy9qkrqdpc83qygjzv2p29shrqv35xcur50p7gppyg3jgffxyu5zj2sd4epd8";
const COUNT_TESTNET: &str =
    "tdash1zqqqzqsrqszsvpcgpy9qkrqdpc83qygjzv2p29shrqv35xcur50p7gppyg3jgffxyu5zj2sag96h7";
/// The same payload as `COUNT_MAINNET`, under the older checksum.
const COUNT_OLD_CHECKSUM: &str =
    "dash1zqqqzqsrqszsvpcgpy9qkrqdpc83qygjzv2p29shrqv35xcur50p7gppyg3jgffxyu5zj2scffdg9";
/// Another type byte.
const OTHER_TYPE: &str =
    "dash1zyqqqqqqqqqqqqqqqqqqqqqqqqqqqqqqqqqqqqqqqqqqqqqqqqqqqqqqqqqqqqqqqqqqqqqhy0ar0";
/// One byte less.
const TOO_SHORT: &str =
    "dash1zqqqqqqqqqqqqqqqqqqqqqqqqqqqqqqqqqqqqqqqqqqqqqqqqqqqqqqqqqqqqqqqqqqqql3ys86";
const OTHER_COIN: &str =
    "zash1zqqqqqqqqqqqqqqqqqqqqqqqqqqqqqqqqqqqqqqqqqqqqqqqqqqqqqqqqqqqqqqqqqqqqqqyuyzuy";

fn counting() -> [u8; 43] {
    let mut raw = [0u8; 43];
    for i in 0..43 {
        raw[i] = i as u8;
    }
    raw
}

fn valid(address: &str, network: &str) -> bool {
    is_valid_address(address.to_string(), network.to_string())
}

#[test]
fn networks_have_their_names_and_numbers() {
    assert_eq!(network_from_name("mainnet"), Network::Mainnet);
    assert_eq!(network_from_name("testnet"), Network::Testnet);
    assert_eq!(network_from_name("devnet"), Network::Devnet);
    assert_eq!(network_from_name("regtest"), Network::Regtest);
    assert_eq!(network_from_name("anything"), Network::Regtest);
    assert_eq!(network_label(Network::Mainnet), "Mainnet");
    assert_eq!(network_label(Network::Testnet), "Testnet");
    assert_eq!(network_label(Network::Devnet), "Devnet");
    assert_eq!(network_label(Network::Regtest), "Regtest");
    assert_eq!(coin_type("testnet"), 1);
    assert_eq!(coin_type("mainnet"), 5);
    assert_eq!(coin_type("devnet"), 5);
    assert_eq!(quorum_base(Network::Mainnet), "https://quorums.mainnet.networks.dash.org");
    assert_eq!(quorum_base(Network::Testnet), "https://quorums.testnet.networks.dash.org");
    assert_eq!(quorum_base(Network::Devnet), "");
    assert_eq!(quorum_base(Network::Regtest), "");
}

#[test]
fn human_readable_part_tells_the_network() {
    assert_eq!(hrp_for("testnet"), Ok("tdash".to_string()));
    assert_eq!(hrp_for("mainnet"), Ok("dash".to_string()));
    assert_eq!(hrp_for("devnet"), Ok("dash".to_string()));
}

#[test]
fn raw_addresses_are_written_in_bech32m() {
    assert_eq!(encode_raw_orchard_address(&[0u8; 43], "mainnet"), Ok(ZERO_MAINNET.to_string()));
    assert_eq!(encode_raw_orchard_address(&[0u8; 43], "testnet"), Ok(ZERO_TESTNET.to_string()));
    assert_eq!(encode_raw_orchard_address(&counting(), "mainnet"), Ok(COUNT_MAINNET.to_string()));
    assert_eq!(encode_raw_orchard_address(&counting(), "testnet"), Ok(COUNT_TESTNET.to_string()));
}

#[test]
fn written_addresses_read_back() {
    for network in ["mainnet", "testnet", "devnet"] {
        for raw in [[0u8; 43], counting(), [255u8; 43]] {
            let text = encode_raw_orchard_address(&raw, network).unwrap();
            assert_eq!(text.len(), hrp_for(network).unwrap().len() + 78);
            assert_eq!(decode_shielded_address(&text, network), Ok(raw));
            assert!(valid(&text, network));
        }
    }
}

#[test]
fn addresses_of_another_network_are_refused() {
    assert!(valid(COUNT_MAINNET, "mainnet"));
    assert!(!valid(COUNT_MAINNET, "testnet"));
    assert!(valid(COUNT_TESTNET, "testnet"));
    assert!(!valid(COUNT_TESTNET, "mainnet"));
    assert!(!valid(OTHER_COIN, "mainnet"));
    assert_eq!(
        decode_shielded_address(COUNT_TESTNET, "mainnet"),
        Err("address is for a different network: expected dash, got tdash".to_string())
    );
    assert_eq!(
        decode_shielded_address(COUNT_MAINNET, "testnet"),
        Err("address is for a different network: expected tdash, got dash".to_string())
    );
}

#[test]
fn payloads_of_another_kind_are_refused() {
    for text in [OTHER_TYPE, TOO_SHORT] {
        assert!(!valid(text, "mainnet"));
        assert_eq!(
            decode_shielded_address(text, "mainnet"),
            Err("not an Orchard shielded address".to_string())
        );
    }
}

#[test]
fn malformed_texts_are_refused() {
    let broken = COUNT_MAINNET.replace("d4epd8", "d4epd9");
    for text in ["", "dash", "dash1z", "not an address", broken.as_str()] {
        assert!(!valid(text, "mainnet"));
        let expected = bech32::decode(text).err().map(|e| e.to_string());
        assert_eq!(decode_shielded_address(text, "mainnet").err(), expected);
    }
}

#[test]
fn either_checksum_is_read() {
    assert!(valid(COUNT_OLD_CHECKSUM, "mainnet"));
    assert_eq!(decode_shielded_address(COUNT_OLD_CHECKSUM, "mainnet"), Ok(counting()));
}

#[test]
fn upper_case_is_refused() {
    assert!(!valid(&COUNT_MAINNET.to_uppercase(), "mainnet"));
}

#[test]
fn decoded_values_are_judged_alone() {
    let mut data = vec![0x10u8];
    data.extend_from_slice(&counting());
    let good = Ok(("dash".to_string(), data.clone()));
    assert!(is_valid_decoded(&good, "mainnet"));
    assert!(!is_valid_decoded(&good, "testnet"));
    assert_eq!(recipient_from_decoded(&good, "mainnet"), Ok(counting()));
    data.push(0);
    let long = Ok(("dash".to_string(), data));
    assert!(!is_valid_decoded(&long, "mainnet"));
    assert_eq!(
        recipient_from_decoded(&long, "mainnet"),
        Err("not an Orchard shielded address".to_string())
    );
    let empty = Ok(("dash".to_string(), Vec::new()));
    assert!(!is_valid_decoded(&empty, "mainnet"));
    let failed = Err("no".to_string());
    assert!(!is_valid_decoded(&failed, "mainnet"));
    assert_eq!(recipient_from_decoded(&failed, "mainnet"), Err("no".to_string()));
}

#[test]
fn counterparties_are_addresses_or_hexadecimal() {
    assert_eq!(encode_raw_counterparty(&counting(), "mainnet"), COUNT_MAINNET);
    assert_eq!(encode_raw_counterparty(&counting(), "testnet"), COUNT_TESTNET);
    assert_eq!(encode_raw_counterparty(&[0x00, 0xab, 0xff], "mainnet"), "00abff");
    assert_eq!(encode_raw_counterparty(&[], "mainnet"), "");
    assert_eq!(encode_raw_counterparty(&[1u8; 42], "mainnet"), "01".repeat(42));
    assert_eq!(encode_raw_counterparty(&[1u8; 44], "mainnet"), "01".repeat(44));
}
