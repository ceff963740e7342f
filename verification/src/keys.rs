//! From a mnemonic to the keys and the receive address of an account.

use crate::address::encode_raw_orchard_address;
use crate::hexadecimal::{hex_decode, hex_encode};
use crate::network::{coin_type, WalletResult};
use crate::text::{joined, trim};
use bip0039::{Count, English, Mnemonic};
use orchard::keys::{FullViewingKey, SpendingKey};
use vstd::prelude::*;
use zip32::AccountId;

verus! {

/// The two halves of an account's addresses: those given to others, and those for change.
#[derive(Clone, Copy, Debug, PartialEq, Eq, Structural)]
pub enum Scope {
    External,
    Internal,
}

// ---------------------------------------------------------------------------
// Names for what the key crates compute
// ---------------------------------------------------------------------------

/// The seed that `bip0039` derives from an English mnemonic phrase and a passphrase
/// (`Mnemonic::from_phrase`, then `Mnemonic::to_seed`), or the text of its error.
pub uninterp spec fn bip39_seed(phrase: Seq<char>, passphrase: Seq<char>) -> Result<Seq<u8>, Seq<char>>;

/// The phrase of 24 English words that `bip0039` writes 32 bytes of entropy as
/// (`Mnemonic::from_entropy`).
pub uninterp spec fn entropy_phrase(entropy: Seq<u8>) -> Seq<char>;

/// The bytes of the Orchard spending key at the account level below a seed
/// (`SpendingKey::from_zip32_seed`); none where the coin type is out of range or the derivation
/// meets an invalid key.
pub uninterp spec fn zip32_spending_key(seed: Seq<u8>, coin_type: u32, account: u32) -> Option<Seq<u8>>;

/// The bytes of the full viewing key of a spending key given by its bytes
/// (`FullViewingKey::from`); none where the bytes are no spending key.
pub uninterp spec fn orchard_viewing_key(sk: Seq<u8>) -> Option<Seq<u8>>;

/// The raw address of a full viewing key, given by its bytes, at an index
/// (`FullViewingKey::address_at`); none where the bytes are no viewing key.
pub uninterp spec fn orchard_raw_address(fvk: Seq<u8>, index: u32, scope: Scope) -> Option<Seq<u8>>;

// ---------------------------------------------------------------------------
// Model
// ---------------------------------------------------------------------------

/// A seed or a message, by their contents.
pub open spec fn seed_view(r: Result<[u8; 64], String>) -> Result<Seq<u8>, Seq<char>> {
    match r {
        Ok(seed) => Ok(seed@),
        Err(message) => Err(message@),
    }
}

/// A spending key or a message, by their contents.
pub open spec fn key_view(r: Result<[u8; 32], String>) -> Result<Seq<u8>, Seq<char>> {
    match r {
        Ok(key) => Ok(key@),
        Err(message) => Err(message@),
    }
}

/// An address and a viewing key, or a message, by their contents.
pub open spec fn pair_view(r: WalletResult<(String, String)>) -> Result<
    (Seq<char>, Seq<char>),
    Seq<char>,
> {
    match r {
        Ok((address, fvk)) => Ok((address@, fvk@)),
        Err(message) => Err(message@),
    }
}

/// The same result, with a message put behind `context`.
pub open spec fn with_context<T>(context: Seq<char>, r: Result<T, Seq<char>>) -> Result<T, Seq<char>> {
    match r {
        Ok(value) => Ok(value),
        Err(message) => Err(context + message),
    }
}

/// The seed that a text is itself the hexadecimal form of: 64 bytes, no more and no fewer.
pub open spec fn literal_seed(text: Seq<char>) -> Option<Seq<u8>> {
    match crate::hexadecimal::hex_bytes(text) {
        Some(bytes) => if bytes.len() == 64 {
            Some(bytes)
        } else {
            None
        },
        None => None,
    }
}

/// The entropy that a text is itself the hexadecimal form of: 32 bytes, no more and no fewer.
pub open spec fn literal_entropy(text: Seq<char>) -> Option<Seq<u8>> {
    match crate::hexadecimal::hex_bytes(text) {
        Some(bytes) => if bytes.len() == 32 {
            Some(bytes)
        } else {
            None
        },
        None => None,
    }
}

/// The mnemonic phrase of a text: the words of the entropy that it is the hexadecimal form of,
/// or else the text itself.
pub open spec fn phrase_of(text: Seq<char>) -> Seq<char> {
    match literal_entropy(text) {
        Some(entropy) => entropy_phrase(entropy),
        None => text,
    }
}

/// Tells whether a text, without surrounding white space, is neither a seed nor entropy in
/// hexadecimal.
pub open spec fn is_phrase_text(mnemonic_seed: Seq<char>) -> bool {
    let text = crate::text::trimmed(mnemonic_seed);
    literal_seed(text) is None && literal_entropy(text) is None
}

/// The seed of a wallet: the text without surrounding white space is the seed in hexadecimal,
/// the entropy of a mnemonic phrase in hexadecimal, or a mnemonic phrase. A phrase is used
/// without a passphrase.
pub open spec fn seed_of(mnemonic_seed: Seq<char>) -> Result<Seq<u8>, Seq<char>> {
    let text = crate::text::trimmed(mnemonic_seed);
    match literal_seed(text) {
        Some(seed) => Ok(seed),
        None => with_context("invalid mnemonic: "@, bip39_seed(phrase_of(text), ""@)),
    }
}

/// The number of accounts below a seed.
pub const ACCOUNT_LIMIT: u32 = 0x8000_0000;

/// The spending key of an account.
pub open spec fn account_key(mnemonic_seed: Seq<char>, network: Seq<char>, account: u32) -> Result<
    Seq<u8>,
    Seq<char>,
> {
    match seed_of(mnemonic_seed) {
        Err(message) => Err(message),
        Ok(seed) => if account >= ACCOUNT_LIMIT {
            Err("account: out of range integral type conversion attempted"@)
        } else {
            match zip32_spending_key(seed, crate::network::coin_type_of(network), account) {
                Some(key) => Ok(key),
                None => Err("zip32: Seed produced invalid spending key."@),
            }
        },
    }
}

/// The full viewing key of a spending key.
pub open spec fn viewing_key_of(key: Seq<u8>) -> Seq<u8> {
    orchard_viewing_key(key)->0
}

/// The raw address at which a spending key receives: the first external one.
pub open spec fn receive_address_of(key: Seq<u8>) -> Seq<u8> {
    orchard_raw_address(viewing_key_of(key), 0, Scope::External)->0
}

/// The receive address and the full viewing key of an account, as text.
pub open spec fn account_texts(mnemonic_seed: Seq<char>, network: Seq<char>, account: u32) -> Result<
    (Seq<char>, Seq<char>),
    Seq<char>,
> {
    match account_key(mnemonic_seed, network, account) {
        Err(message) => Err(message),
        Ok(key) => Ok(
            (
                crate::address::address_text(receive_address_of(key), network),
                crate::hexadecimal::hex_text(viewing_key_of(key)),
            ),
        ),
    }
}

/// The full viewing key of an account, as text.
pub open spec fn viewing_key_text(mnemonic_seed: Seq<char>, network: Seq<char>, account: u32) -> Result<
    Seq<char>,
    Seq<char>,
> {
    match account_texts(mnemonic_seed, network, account) {
        Ok((_, fvk)) => Ok(fvk),
        Err(message) => Err(message),
    }
}

/// Tells whether a text is lower-case words, one space apart.
pub open spec fn is_words(s: Seq<char>) -> bool {
    &&& s.len() > 0
    &&& s.first() != ' '
    &&& s.last() != ' '
    &&& forall|i: int| 0 <= i < s.len() ==> 'a' <= #[trigger] s[i] <= 'z' || s[i] == ' '
    &&& forall|i: int| 0 <= i < s.len() - 1 ==> !(#[trigger] s[i] == ' ' && s[i + 1] == ' ')
}

/// The number of words of a text of words that are one space apart.
pub open spec fn word_count(s: Seq<char>) -> nat {
    s.filter(|c: char| c == ' ').len() + 1
}

// ---------------------------------------------------------------------------
// Calls into the key crates
// ---------------------------------------------------------------------------

/// Calls `Mnemonic::<English>::from_phrase` and `Mnemonic::to_seed` of `bip0039`. The phrase
/// is split at white space, so white space around it makes no difference.
#[verifier::external_body]
pub(crate) fn phrase_seed(phrase: &str, passphrase: &str) -> (r: Result<[u8; 64], String>)
    ensures
        seed_view(r) == bip39_seed(phrase@, passphrase@),
        seed_view(r) == bip39_seed(crate::text::trimmed(phrase@), passphrase@),
{
    match Mnemonic::<English>::from_phrase(phrase) {
        Ok(mnemonic) => Ok(mnemonic.to_seed(passphrase)),
        Err(e) => Err(e.to_string()),
    }
}

/// Calls `Mnemonic::<English>::from_entropy` of `bip0039`, which writes 32 bytes as 24 words of
/// the English list, one space apart, with a checksum that the parser accepts.
#[verifier::external_body]
pub(crate) fn entropy_words(entropy: &[u8]) -> (r: String)
    requires
        entropy@.len() == 32,
    ensures
        r@ == entropy_phrase(entropy@),
        is_words(r@),
        word_count(r@) == 24,
        forall|passphrase: Seq<char>| (#[trigger] bip39_seed(r@, passphrase)) is Ok,
{
    let mnemonic = Mnemonic::<English>::from_entropy(entropy).expect("the entropy of 24 words");
    mnemonic.to_string()
}

/// Calls `Mnemonic::<English>::generate` of `bip0039`, which draws entropy at random and
/// writes it as words of the English list, one space apart, with a checksum that the parser
/// accepts. Which words they are is left to chance.
#[verifier::external_body]
pub(crate) fn random_phrase(words: usize) -> (r: String)
    requires
        words == 12 || words == 15 || words == 18 || words == 21 || words == 24,
    ensures
        is_words(r@),
        word_count(r@) == words,
        forall|passphrase: Seq<char>| (#[trigger] bip39_seed(r@, passphrase)) is Ok,
{
    let count: Count = Count::try_from(words).expect("a word count of the standard");
    Mnemonic::<English>::generate(count).to_string()
}

/// Calls `AccountId::try_from` of `zip32`, which takes the numbers below 2^31 and refuses
/// the others with one message.
#[verifier::external_body]
pub(crate) fn account_index(account: u32) -> (r: Result<u32, String>)
    ensures
        account < ACCOUNT_LIMIT ==> r is Ok && r->Ok_0 == account,
        account >= ACCOUNT_LIMIT ==> r is Err && r->Err_0@
            == "out of range integral type conversion attempted"@,
{
    match AccountId::try_from(account) {
        Ok(id) => Ok(u32::from(id)),
        Err(e) => Err(e.to_string()),
    }
}

/// Calls `SpendingKey::from_zip32_seed` of `orchard`, whose error has one message. A key that
/// it derives was checked, so its bytes are accepted as a spending key again. The crate asserts
/// that no spend authorizing key on the way is zero; that is left to the hash function.
#[verifier::external_body]
pub(crate) fn seed_spending_key(seed: &[u8; 64], coin_type: u32, account: u32) -> (r: Result<
    [u8; 32],
    String,
>)
    requires
        account < ACCOUNT_LIMIT,
    ensures
        match r {
            Ok(key) => zip32_spending_key(seed@, coin_type, account) == Some(key@),
            Err(_) => zip32_spending_key(seed@, coin_type, account) is None,
        },
        r matches Ok(key) ==> orchard_viewing_key(key@) is Some,
        r matches Err(message) ==> message@ == "Seed produced invalid spending key."@,
{
    match SpendingKey::from_zip32_seed(seed, coin_type, AccountId::const_from_u32(account)) {
        Ok(key) => Ok(*key.to_bytes()),
        Err(e) => Err(e.to_string()),
    }
}

/// Calls `FullViewingKey::from` of `orchard` on the spending key with the given bytes. The
/// viewing key of a valid spending key is valid, so its bytes are accepted again and it has
/// an address at every index.
#[verifier::external_body]
pub(crate) fn full_viewing_key(key: &[u8; 32]) -> (r: [u8; 96])
    requires
        orchard_viewing_key(key@) is Some,
    ensures
        orchard_viewing_key(key@) == Some(r@),
        forall|index: u32, scope: Scope| (#[trigger] orchard_raw_address(r@, index, scope)) is Some,
{
    let key: SpendingKey = SpendingKey::from_bytes(*key).expect("bytes of a spending key");
    FullViewingKey::from(&key).to_bytes()
}

/// Calls `FullViewingKey::address_at` of `orchard` on the viewing key with the given bytes,
/// and takes the raw form of the address.
#[verifier::external_body]
pub(crate) fn raw_address_at(fvk: &[u8; 96], index: u32, scope: Scope) -> (r: [u8; 43])
    requires
        orchard_raw_address(fvk@, index, scope) is Some,
    ensures
        orchard_raw_address(fvk@, index, scope) == Some(r@),
{
    let fvk: FullViewingKey = FullViewingKey::from_bytes(fvk).expect("bytes of a viewing key");
    let scope: zip32::Scope = match scope {
        Scope::External => zip32::Scope::External,
        Scope::Internal => zip32::Scope::Internal,
    };
    fvk.address_at(index, scope).to_raw_address_bytes()
}

// ---------------------------------------------------------------------------
// Derivation
// ---------------------------------------------------------------------------

/// Puts the message of a failed seed derivation behind `context`.
pub fn seed_or_message(context: &str, r: Result<[u8; 64], String>) -> (out: WalletResult<[u8; 64]>)
    ensures
        seed_view(out) == with_context(context@, seed_view(r)),
{
    match r {
        Ok(seed) => Ok(seed),
        Err(message) => Err(joined(context, message.as_str())),
    }
}

/// Takes bytes as a seed where there are 64 of them.
pub fn whole_seed(bytes: &[u8]) -> (r: Option<[u8; 64]>)
    ensures
        match r {
            Some(seed) => bytes@.len() == 64 && seed@ == bytes@,
            None => bytes@.len() != 64,
        },
{
    if bytes.len() != 64 {
        return None;
    }
    let mut seed: [u8; 64] = [0u8; 64];
    let mut i: usize = 0;
    while i < 64
        invariant
            i <= 64,
            bytes@.len() == 64,
            forall|j: int| 0 <= j < i ==> seed@[j] == bytes@[j],
        decreases 64 - i,
    {
        seed[i] = bytes[i];
        i = i + 1;
    }
    Some(seed)
}

/// The seed that a mnemonic phrase, or a seed or entropy in hexadecimal, stands for.
///
/// Entropy stands for the seed of the phrase that it is written as.
pub fn mnemonic_to_seed(mnemonic_seed: &str) -> (r: WalletResult<[u8; 64]>)
    ensures
        seed_view(r) == seed_of(mnemonic_seed@),
        literal_entropy(crate::text::trimmed(mnemonic_seed@)) matches Some(entropy) ==> r is Ok
            && seed_of(mnemonic_seed@) == seed_of(entropy_phrase(entropy)),
{
    let text: &str = trim(mnemonic_seed);
    if let Some(bytes) = hex_decode(text) {
        if let Some(seed) = whole_seed(bytes.as_slice()) {
            return Ok(seed);
        }
        if bytes.len() == 32 {
            let phrase: String = entropy_words(bytes.as_slice());
            proof {
                lemma_words_are_a_phrase(phrase@);
            }
            return seed_or_message("invalid mnemonic: ", phrase_seed(phrase.as_str(), ""));
        }
    }
    seed_or_message("invalid mnemonic: ", phrase_seed(text, ""))
}

/// The seed that a mnemonic phrase stands for, where nothing but a phrase will do.
///
/// It is the seed that `mnemonic_to_seed` gives for the same text, where that is no seed and no
/// entropy in hexadecimal.
pub fn phrase_to_seed(mnemonic_seed: &str) -> (r: Result<[u8; 64], String>)
    ensures
        seed_view(r) == bip39_seed(mnemonic_seed@, ""@),
        is_phrase_text(mnemonic_seed@) ==> seed_of(mnemonic_seed@)
            == with_context("invalid mnemonic: "@, seed_view(r)),
{
    phrase_seed(mnemonic_seed, "")
}

/// The bytes of the spending key of an account.
pub fn spending_key(mnemonic_seed: &str, network: &str, account: u32) -> (r: WalletResult<[u8; 32]>)
    ensures
        key_view(r) == account_key(mnemonic_seed@, network@, account),
        r matches Ok(key) ==> orchard_viewing_key(key@) is Some,
{
    proof {
        reveal_strlit("account: ");
        reveal_strlit("out of range integral type conversion attempted");
        reveal_strlit("account: out of range integral type conversion attempted");
        assert("account: "@ + "out of range integral type conversion attempted"@
            =~= "account: out of range integral type conversion attempted"@);
        reveal_strlit("zip32: ");
        reveal_strlit("Seed produced invalid spending key.");
        reveal_strlit("zip32: Seed produced invalid spending key.");
        assert("zip32: "@ + "Seed produced invalid spending key."@
            =~= "zip32: Seed produced invalid spending key."@);
    }
    let seed: [u8; 64] = mnemonic_to_seed(mnemonic_seed)?;
    let account_id: u32 = match account_index(account) {
        Ok(id) => id,
        Err(message) => {
            return Err(joined("account: ", message.as_str()));
        },
    };
    match seed_spending_key(&seed, coin_type(network), account_id) {
        Ok(key) => Ok(key),
        Err(message) => Err(joined("zip32: ", message.as_str())),
    }
}

/// Writes a raw address of a network and a full viewing key as text.
pub fn key_texts(raw: &[u8; 43], fvk: &[u8; 96], network: &str) -> (r: WalletResult<(String, String)>)
    ensures
        r is Ok,
        r->Ok_0.0@ == crate::address::address_text(raw@, network@),
        r->Ok_0.1@ == crate::hexadecimal::hex_text(fvk@),
        r->Ok_0.1@.len() == 192,
        crate::address::stands_for(r->Ok_0.0@, network@, raw@),
        crate::hexadecimal::hex_bytes(r->Ok_0.1@) == Some(fvk@),
{
    proof {
        crate::hexadecimal::hex_reads_back(fvk@);
    }
    let address: String = encode_raw_orchard_address(raw, network)?;
    Ok((address, hex_encode(fvk.as_slice())))
}

/// The receive address and the full viewing key of an account.
///
/// The address reads back, on the network it was derived for, as the raw address of the
/// account; the viewing key reads back as its bytes.
pub fn derive_address_and_fvk(mnemonic_seed: &str, network: &str, account: u32) -> (r: WalletResult<
    (String, String),
>)
    ensures
        pair_view(r) == account_texts(mnemonic_seed@, network@, account),
        r matches Ok((address, _)) ==> crate::address::stands_for(
            address@,
            network@,
            receive_address_of(account_key(mnemonic_seed@, network@, account)->Ok_0),
        ),
        r matches Ok((_, fvk)) ==> fvk@.len() == 192,
        r matches Ok((_, fvk)) ==> crate::hexadecimal::hex_bytes(fvk@) == Some(
            viewing_key_of(account_key(mnemonic_seed@, network@, account)->Ok_0),
        ),
{
    let key: [u8; 32] = spending_key(mnemonic_seed, network, account)?;
    let fvk: [u8; 96] = full_viewing_key(&key);
    let raw: [u8; 43] = raw_address_at(&fvk, 0, Scope::External);
    key_texts(&raw, &fvk, network)
}

/// The full viewing key of the first account.
pub fn derive_viewing_key(mnemonic_seed: String, network: String) -> (r: WalletResult<String>)
    ensures
        crate::text::text_view(r) == viewing_key_text(mnemonic_seed@, network@, 0),
        r matches Ok(fvk) ==> fvk@.len() == 192,
{
    let (_, fvk): (String, String) = derive_address_and_fvk(
        mnemonic_seed.as_str(),
        network.as_str(),
        0,
    )?;
    Ok(fvk)
}

/// Draws a new mnemonic of 24 words. The wallet accepts it.
pub fn generate_mnemonic() -> (r: String)
    ensures
        is_words(r@),
        word_count(r@) == 24,
        seed_of(r@) == bip39_seed(r@, ""@),
        seed_of(r@) is Ok,
{
    let phrase: String = random_phrase(24);
    proof {
        lemma_words_are_a_phrase(phrase@);
    }
    phrase
}

/// Two or more words are taken as a phrase, as they stand.
proof fn lemma_words_are_a_phrase(s: Seq<char>)
    requires
        is_words(s),
        word_count(s) > 1,
    ensures
        is_phrase_text(s),
        seed_of(s) == with_context("invalid mnemonic: "@, bip39_seed(s, ""@)),
{
    crate::text::lemma_trim_both_nothing(s, crate::text::white_space());
    lemma_some_match(s, |c: char| c == ' ');
}

/// A text from which a filter keeps something holds something that the filter keeps.
proof fn lemma_some_match(s: Seq<char>, p: spec_fn(char) -> bool)
    requires
        s.filter(p).len() > 0,
    ensures
        exists|k: int| 0 <= k < s.len() && p(#[trigger] s[k]),
{
    s.lemma_filter_pred(p, 0);
    s.lemma_filter_contains_rev(p, s.filter(p)[0]);
}

// ---------------------------------------------------------------------------
// Laws
// ---------------------------------------------------------------------------

/// A seed in hexadecimal is the seed, every byte of it, whatever white space is around it.
pub proof fn seed_in_hexadecimal_is_the_seed(mnemonic_seed: Seq<char>, seed: Seq<u8>)
    requires
        seed.len() == 64,
    ensures
        crate::hexadecimal::hex_bytes(crate::text::trimmed(mnemonic_seed)) == Some(seed)
            ==> seed_of(mnemonic_seed) == Ok::<Seq<u8>, Seq<char>>(seed),
        seed_of(crate::hexadecimal::hex_text(seed)) == Ok::<Seq<u8>, Seq<char>>(seed),
{
    crate::hexadecimal::hex_reads_back(seed);
    lemma_hex_is_not_trimmed(seed);
}

/// Hexadecimal text has no white space around it.
proof fn lemma_hex_is_not_trimmed(bytes: Seq<u8>)
    ensures
        crate::text::trimmed(crate::hexadecimal::hex_text(bytes)) == crate::hexadecimal::hex_text(
            bytes,
        ),
{
    let s = crate::hexadecimal::hex_text(bytes);
    crate::hexadecimal::hex_text_is_lower_case(bytes);
    if s.len() > 0 {
        assert('0' <= s[0] <= '9' || 'a' <= s[0] <= 'f');
        let last = s[s.len() - 1];
        assert('0' <= last <= '9' || 'a' <= last <= 'f');
    }
    crate::text::lemma_trim_both_nothing(s, crate::text::white_space());
}

/// 32 bytes of entropy in hexadecimal stand for the seed of their words, whatever white space
/// is around them.
pub proof fn entropy_stands_for_its_words(mnemonic_seed: Seq<char>, entropy: Seq<u8>, seed: Seq<u8>)
    requires
        entropy.len() == 32,
        bip39_seed(entropy_phrase(entropy), ""@) == Ok::<Seq<u8>, Seq<char>>(seed),
    ensures
        crate::hexadecimal::hex_bytes(crate::text::trimmed(mnemonic_seed)) == Some(entropy)
            ==> seed_of(mnemonic_seed) == Ok::<Seq<u8>, Seq<char>>(seed),
        seed_of(crate::hexadecimal::hex_text(entropy)) == Ok::<Seq<u8>, Seq<char>>(seed),
{
    crate::hexadecimal::hex_reads_back(entropy);
    lemma_hex_is_not_trimmed(entropy);
}

/// Any other text is a phrase, and stands for the seed that the phrase without surrounding white
/// space has with an empty passphrase; a refusal is told with what is wrong with the phrase.
pub proof fn other_texts_are_phrases(mnemonic_seed: Seq<char>)
    requires
        crate::hexadecimal::hex_bytes(crate::text::trimmed(mnemonic_seed)) matches Some(bytes)
            ==> bytes.len() != 64 && bytes.len() != 32,
    ensures
        match bip39_seed(crate::text::trimmed(mnemonic_seed), ""@) {
            Ok(seed) => seed_of(mnemonic_seed) == Ok::<Seq<u8>, Seq<char>>(seed),
            Err(reason) => seed_of(mnemonic_seed) == Err::<Seq<u8>, Seq<char>>(
                "invalid mnemonic: "@ + reason,
            ),
        },
{
}

/// The key of an account is the one that its own seed, coin type and number derive: coin type 1
/// on the test network and 5 on any other.
pub proof fn account_key_is_derived(
    mnemonic_seed: Seq<char>,
    network: Seq<char>,
    account: u32,
    key: Seq<u8>,
)
    ensures
        account_key(mnemonic_seed, network, account) == Ok::<Seq<u8>, Seq<char>>(key) <==> seed_of(
            mnemonic_seed,
        ) is Ok && account < 0x8000_0000 && zip32_spending_key(
            seed_of(mnemonic_seed)->Ok_0,
            if network == "testnet"@ {
                1
            } else {
                5
            },
            account,
        ) == Some(key),
{
}

/// An account without a key is refused for the first reason that there is: the mnemonic, the
/// number of the account, or the derivation.
pub proof fn refused_account_has_a_reason(mnemonic_seed: Seq<char>, network: Seq<char>, account: u32)
    requires
        account_key(mnemonic_seed, network, account) is Err,
    ensures
        account_key(mnemonic_seed, network, account)->Err_0 == if seed_of(mnemonic_seed) is Err {
            seed_of(mnemonic_seed)->Err_0
        } else if account >= 0x8000_0000 {
            "account: out of range integral type conversion attempted"@
        } else {
            "zip32: Seed produced invalid spending key."@
        },
{
}

/// The address of an account is its first external one, and its viewing key is told whole: the
/// text reads back as the bytes of the full viewing key.
pub proof fn account_texts_belong_to_the_key(
    mnemonic_seed: Seq<char>,
    network: Seq<char>,
    account: u32,
    key: Seq<u8>,
    fvk: Seq<u8>,
    raw: Seq<u8>,
)
    requires
        account_key(mnemonic_seed, network, account) == Ok::<Seq<u8>, Seq<char>>(key),
        orchard_viewing_key(key) == Some(fvk),
        orchard_raw_address(fvk, 0, Scope::External) == Some(raw),
    ensures
        account_texts(mnemonic_seed, network, account) is Ok,
        account_texts(mnemonic_seed, network, account)->Ok_0.0 == crate::address::address_text(
            raw,
            network,
        ),
        crate::hexadecimal::hex_bytes(account_texts(mnemonic_seed, network, account)->Ok_0.1)
            == Some(fvk),
        viewing_key_text(mnemonic_seed, network, account) == Ok::<Seq<char>, Seq<char>>(
            account_texts(mnemonic_seed, network, account)->Ok_0.1,
        ),
{
    crate::hexadecimal::hex_reads_back(fvk);
}

/// An account whose key is refused has neither address nor viewing key, for the same reason.
pub proof fn refused_account_has_no_texts(mnemonic_seed: Seq<char>, network: Seq<char>, account: u32)
    requires
        account_key(mnemonic_seed, network, account) is Err,
    ensures
        account_texts(mnemonic_seed, network, account) is Err,
        account_texts(mnemonic_seed, network, account)->Err_0 == account_key(
            mnemonic_seed,
            network,
            account,
        )->Err_0,
        viewing_key_text(mnemonic_seed, network, account) is Err,
        viewing_key_text(mnemonic_seed, network, account)->Err_0 == account_key(
            mnemonic_seed,
            network,
            account,
        )->Err_0,
{
}

/// Seeds, keys and texts are told as they are, and refusals by their messages.
pub proof fn keys_are_told_as_they_are(
    seed: Result<[u8; 64], String>,
    key: Result<[u8; 32], String>,
    pair: WalletResult<(String, String)>,
)
    ensures
        seed is Ok <==> seed_view(seed) is Ok,
        seed is Ok ==> seed_view(seed)->Ok_0 == seed->Ok_0@,
        seed is Err ==> seed_view(seed)->Err_0 == seed->Err_0@,
        key is Ok <==> key_view(key) is Ok,
        key is Ok ==> key_view(key)->Ok_0 == key->Ok_0@,
        key is Err ==> key_view(key)->Err_0 == key->Err_0@,
        pair is Ok <==> pair_view(pair) is Ok,
        pair is Ok ==> pair_view(pair)->Ok_0 == (pair->Ok_0.0@, pair->Ok_0.1@),
        pair is Err ==> pair_view(pair)->Err_0 == pair->Err_0@,
{
}

/// A context is put in front of a message and leaves a value alone.
pub proof fn context_stands_before_the_message<T>(context: Seq<char>, value: T, message: Seq<char>)
    ensures
        with_context(context, Ok::<T, Seq<char>>(value)) == Ok::<T, Seq<char>>(value),
        with_context(context, Err::<T, Seq<char>>(message)) == Err::<T, Seq<char>>(
            context + message,
        ),
{
}

}
