use dash_shielded::address::{decode_shielded_address, is_valid_address};
use dash_shielded::keys::{
    derive_address_and_fvk, derive_viewing_key, generate_mnemonic, key_texts, mnemonic_to_seed,
    phrase_to_seed, seed_or_message, spending_key, whole_seed,
};

const PHRASE: &str = "abandon abandon abandon abandon abandon abandon abandon abandon abandon abandon abandon about";
const SEED: &str = "5eb00bbddcf069084889a8ab9155568165f5c453ccb85e70811aaed6f6da5fc19a5ac40b389cd370d086206dec8aa6c43daea6690f20ad3d8d48b2d2ce9e38e4";

fn seed() -> [u8; 64] {
    let mut out = [0u8; 64];
    out.copy_from_slice(&hex::decode(SEED).unwrap());
    out
}

#[test]
fn phrases_give_their_seed() {
    assert_eq!(mnemonic_to_seed(PHRASE), Ok(seed()));
    assert_eq!(phrase_to_seed(PHRASE), Ok(seed()));
}

#[test]
fn white_space_around_a_phrase_makes_no_difference() {
    let padded = format!(" \n\t{}\u{a0}\u{3000}\r\n", PHRASE);
    assert_eq!(mnemonic_to_seed(&padded), Ok(seed()));
    assert_eq!(phrase_to_seed(&padded), Ok(seed()));
    let spread = PHRASE.replace(' ', "  ");
    assert_eq!(mnemonic_to_seed(&spread), Ok(seed()));
}

#[test]
fn seed_in_hexadecimal_is_taken_as_it_is() {
    assert_eq!(mnemonic_to_seed(SEED), Ok(seed()));
    assert_eq!(mnemonic_to_seed(&SEED.to_uppercase()), Ok(seed()));
    assert_eq!(mnemonic_to_seed(&format!("  {}\n", SEED)), Ok(seed()));
}

#[test]
fn other_lengths_of_hexadecimal_are_no_seed() {
    for text in [&SEED[..62], &SEED[..66], &SEED[..126], "", "00"] {
        let r = mnemonic_to_seed(text);
        assert!(r.unwrap_err().starts_with("invalid mnemonic: "));
    }
}

#[test]
fn entropy_in_hexadecimal_is_taken_as_24_words() {
    let phrase = "abandon ".repeat(23) + "art";
    let entropy = "00".repeat(32);
    assert!(mnemonic_to_seed(&entropy).is_ok());
    assert_eq!(mnemonic_to_seed(&entropy), mnemonic_to_seed(&phrase));
    assert_eq!(mnemonic_to_seed(&format!(" {}\n", entropy)), mnemonic_to_seed(&phrase));
    assert_eq!(
        derive_viewing_key(entropy.clone(), "testnet".to_string()),
        derive_viewing_key(phrase, "testnet".to_string())
    );
    assert_eq!(mnemonic_to_seed(&"FF".repeat(32)), mnemonic_to_seed(&("zoo ".repeat(23) + "vote")));
    assert!(phrase_to_seed(&entropy).is_err());
}

#[test]
fn unknown_words_are_named() {
    let phrase = PHRASE.replace("about", "abouts");
    let e = bip0039::Mnemonic::<bip0039::English>::from_phrase(phrase.as_str()).unwrap_err();
    assert_eq!(mnemonic_to_seed(&phrase), Err(format!("invalid mnemonic: {}", e)));
    assert_eq!(phrase_to_seed(&phrase), Err(e.to_string()));
    assert!(phrase_to_seed(SEED).is_err());
}

#[test]
fn wrong_checksum_is_refused() {
    let phrase = PHRASE.replace("about", "abandon");
    assert!(mnemonic_to_seed(&phrase).unwrap_err().starts_with("invalid mnemonic: "));
}

#[test]
fn failed_seeds_keep_their_message() {
    assert_eq!(seed_or_message("bad: ", Ok([7u8; 64])), Ok([7u8; 64]));
    assert_eq!(seed_or_message("bad: ", Err("why".to_string())), Err("bad: why".to_string()));
}

#[test]
fn only_whole_seeds_are_taken() {
    assert_eq!(whole_seed(&seed()), Some(seed()));
    assert_eq!(whole_seed(&seed()[..63]), None);
    assert_eq!(whole_seed(&[]), None);
    assert_eq!(whole_seed(&[0u8; 65]), None);
}

#[test]
fn accounts_are_limited() {
    assert!(spending_key(PHRASE, "mainnet", 0x7fff_ffff).is_ok());
    assert_eq!(
        spending_key(PHRASE, "mainnet", 0x8000_0000),
        Err("account: out of range integral type conversion attempted".to_string())
    );
    assert_eq!(
        derive_address_and_fvk(PHRASE, "mainnet", u32::MAX),
        Err("account: out of range integral type conversion attempted".to_string())
    );
}

#[test]
fn mnemonic_is_looked_at_before_the_account() {
    assert!(spending_key("nonsense", "mainnet", u32::MAX)
        .unwrap_err()
        .starts_with("invalid mnemonic: "));
}

#[test]
fn spending_keys_are_those_of_the_standard() {
    let expected = orchard::keys::SpendingKey::from_zip32_seed(
        &seed(),
        5,
        zip32::AccountId::try_from(3).unwrap(),
    )
    .unwrap();
    assert_eq!(&spending_key(PHRASE, "mainnet", 3).unwrap(), expected.to_bytes());
    assert_eq!(spending_key(SEED, "mainnet", 3), spending_key(PHRASE, "mainnet", 3));
    assert_ne!(spending_key(PHRASE, "mainnet", 3), spending_key(PHRASE, "mainnet", 4));
    assert_ne!(spending_key(PHRASE, "mainnet", 3), spending_key(PHRASE, "testnet", 3));
    assert_eq!(spending_key(PHRASE, "mainnet", 3), spending_key(PHRASE, "devnet", 3));
}

#[test]
fn address_and_viewing_key_belong_to_the_account() {
    for (network, coin, account) in [("mainnet", 5u32, 0u32), ("testnet", 1, 0), ("testnet", 1, 7)] {
        let sk = orchard::keys::SpendingKey::from_zip32_seed(
            &seed(),
            coin,
            zip32::AccountId::try_from(account).unwrap(),
        )
        .unwrap();
        let fvk = orchard::keys::FullViewingKey::from(&sk);
        let raw = fvk.address_at(0u32, orchard::keys::Scope::External).to_raw_address_bytes();
        let (address, key) = derive_address_and_fvk(PHRASE, network, account).unwrap();
        assert_eq!(key, hex::encode(fvk.to_bytes()));
        assert_eq!(key.len(), 192);
        assert_eq!(decode_shielded_address(&address, network), Ok(raw));
        assert!(is_valid_address(address.clone(), network.to_string()));
        let prefix = if network == "testnet" { "tdash1z" } else { "dash1z" };
        assert!(address.starts_with(prefix));
    }
}

#[test]
fn viewing_key_is_that_of_the_first_account() {
    let (_, key) = derive_address_and_fvk(PHRASE, "testnet", 0).unwrap();
    assert_eq!(key.len(), 192);
    assert_eq!(derive_viewing_key(PHRASE.to_string(), "testnet".to_string()), Ok(key));
    assert!(derive_viewing_key("nonsense".to_string(), "testnet".to_string())
        .unwrap_err()
        .starts_with("invalid mnemonic: "));
}

#[test]
fn keys_are_written_as_text() {
    let (address, key) = key_texts(&[0u8; 43], &[0xa5u8; 96], "mainnet").unwrap();
    assert_eq!(
        address,
        "dash1zqqqqqqqqqqqqqqqqqqqqqqqqqqqqqqqqqqqqqqqqqqqqqqqqqqqqqqqqqqqqqqqqqqqqqqs9ac4r"
    );
    assert_eq!(key, "a5".repeat(96));
}

#[test]
fn generated_mnemonics_are_accepted() {
    let phrase = generate_mnemonic();
    assert_eq!(phrase.split(' ').count(), 24);
    assert!(phrase.chars().all(|c| c == ' ' || ('a'..='z').contains(&c)));
    assert!(mnemonic_to_seed(&phrase).is_ok());
    assert_eq!(mnemonic_to_seed(&phrase), phrase_to_seed(&phrase));
    assert!(derive_viewing_key(phrase.clone(), "mainnet".to_string()).is_ok());
    assert_ne!(phrase, generate_mnemonic());
}
