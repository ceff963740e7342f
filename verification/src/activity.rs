//! Shielded activity, as the host sees it.

use crate::address::encode_raw_counterparty;
use crate::hexadecimal::hex_encode;
use crate::text::{decimal_text, trim_surrounding, utf8_text};
use vstd::prelude::*;

verus! {

/// Whether an entry records a receipt or a spend.
#[derive(Clone, Copy, Debug, PartialEq, Eq, Structural)]
pub enum Direction {
    In,
    Out,
}

/// One entry of a wallet's activity.
pub struct ActivityEntry {
    pub id: Vec<u8>,
    pub direction: Direction,
    pub amount: u64,
    pub memo: Option<Vec<u8>>,
    pub created_at_ms: u64,
    pub block_height: Option<u64>,
    pub fee: Option<u64>,
    pub counterparty: Option<Vec<u8>>,
}

/// One transaction, as it is reported to the host.
pub struct Transaction {
    pub txid: String,
    pub block_time_in_seconds: i64,
    pub mined_height: i64,
    pub value: String,
    pub fee: Option<String>,
    pub to_address: Option<String>,
    pub memos: Vec<String>,
}

// ---------------------------------------------------------------------------
// Model
// ---------------------------------------------------------------------------

/// A transaction, by its contents.
pub struct TransactionView {
    pub txid: Seq<char>,
    pub block_time_in_seconds: int,
    pub mined_height: int,
    pub value: Seq<char>,
    pub fee: Option<Seq<char>>,
    pub to_address: Option<Seq<char>>,
    pub memos: Seq<Seq<char>>,
}

impl View for Transaction {
    type V = TransactionView;

    open spec fn view(&self) -> TransactionView {
        TransactionView {
            txid: self.txid@,
            block_time_in_seconds: self.block_time_in_seconds as int,
            mined_height: self.mined_height as int,
            value: self.value@,
            fee: crate::text::optional_view(self.fee),
            to_address: crate::text::optional_view(self.to_address),
            memos: crate::text::texts_view(self.memos@),
        }
    }
}

/// Transactions, by their contents.
pub open spec fn transactions_view(transactions: Seq<Transaction>) -> Seq<TransactionView> {
    transactions.map_values(|t: Transaction| t@)
}

/// A number read as a signed one of the same width.
pub open spec fn as_signed(n: u64) -> int {
    if n <= i64::MAX {
        n as int
    } else {
        n - 0x1_0000_0000_0000_0000
    }
}

/// The memo that bytes on the wire stand for: their text without the zeros at its ends.
pub open spec fn memo_text(bytes: Seq<u8>) -> Seq<char> {
    crate::text::without_surrounding(vstd::utf8::decode_utf8(bytes), '\0')
}

/// The memos of an entry: one where the entry has bytes that are UTF-8 and more than zeros.
pub open spec fn memos_of(memo: Option<Vec<u8>>) -> Seq<Seq<char>> {
    match memo {
        Some(bytes) => if vstd::utf8::valid_utf8(bytes@) && memo_text(bytes@).len() > 0 {
            seq![memo_text(bytes@)]
        } else {
            Seq::empty()
        },
        None => Seq::empty(),
    }
}

/// The transaction that an entry is reported as.
///
/// Amounts are magnitudes: the host applies the sign, and takes a transaction with a
/// destination for a spend. So only a spend has one.
pub open spec fn reported(entry: ActivityEntry, network: Seq<char>) -> TransactionView {
    TransactionView {
        txid: crate::hexadecimal::hex_text(entry.id@),
        block_time_in_seconds: entry.created_at_ms as int / 1000,
        mined_height: match entry.block_height {
            Some(height) => as_signed(height),
            None => 0,
        },
        value: crate::text::decimal(entry.amount as nat),
        fee: match entry.fee {
            Some(fee) => Some(crate::text::decimal(fee as nat)),
            None => None,
        },
        to_address: match (entry.direction, entry.counterparty) {
            (Direction::Out, Some(raw)) => Some(
                crate::address::counterparty_text(raw@, network),
            ),
            _ => None,
        },
        memos: memos_of(entry.memo),
    }
}

/// The transactions that entries are reported as, in the same order.
pub open spec fn all_reported(entries: Seq<ActivityEntry>, network: Seq<char>) -> Seq<
    TransactionView,
> {
    entries.map_values(|entry: ActivityEntry| reported(entry, network))
}

// ---------------------------------------------------------------------------
// Conversion
// ---------------------------------------------------------------------------

/// The memos of an entry.
pub fn entry_memos(memo: &Option<Vec<u8>>) -> (r: Vec<String>)
    ensures
        crate::text::texts_view(r@) == memos_of(*memo),
{
    let mut memos: Vec<String> = Vec::new();
    if let Some(bytes) = memo {
        let mut copy: Vec<u8> = Vec::new();
        copy.extend_from_slice(bytes.as_slice());
        assert(copy@ =~= bytes@);
        if let Some(text) = utf8_text(copy) {
            let inner: &str = trim_surrounding(text.as_str(), '\0');
            if inner.unicode_len() > 0 {
                memos.push(inner.to_string());
            }
        }
    }
    memos
}

/// A number read as a signed one of the same width.
fn signed(n: u64) -> (r: i64)
    ensures
        r == as_signed(n),
{
    assert(n > 0x7fff_ffff_ffff_ffff ==> n as i64 == n - 0x1_0000_0000_0000_0000) by (bit_vector);
    #[verifier::truncate]
    (n as i64)
}

/// The transaction that an entry is reported as.
pub fn entry_transaction(entry: &ActivityEntry, network: &str) -> (r: Transaction)
    ensures
        r@ == reported(*entry, network@),
{
    let mined_height: i64 = match entry.block_height {
        Some(height) => signed(height),
        None => 0,
    };
    let fee: Option<String> = match entry.fee {
        Some(fee) => Some(decimal_text(fee as u128)),
        None => None,
    };
    let to_address: Option<String> = match entry.direction {
        Direction::Out => match &entry.counterparty {
            Some(raw) => Some(encode_raw_counterparty(raw.as_slice(), network)),
            None => None,
        },
        Direction::In => None,
    };
    Transaction {
        txid: hex_encode(entry.id.as_slice()),
        block_time_in_seconds: (entry.created_at_ms / 1000) as i64,
        mined_height,
        value: decimal_text(entry.amount as u128),
        fee,
        to_address,
        memos: entry_memos(&entry.memo),
    }
}

/// The transactions that entries are reported as.
pub fn activity_transactions(entries: &Vec<ActivityEntry>, network: &str) -> (r: Vec<Transaction>)
    ensures
        transactions_view(r@) == all_reported(entries@, network@),
{
    let mut transactions: Vec<Transaction> = Vec::new();
    let mut i: usize = 0;
    while i < entries.len()
        invariant
            i <= entries@.len(),
            transactions@.len() == i,
            forall|j: int|
                0 <= j < i ==> (#[trigger] transactions@[j])@ == reported(entries@[j], network@),
        decreases entries@.len() - i,
    {
        transactions.push(entry_transaction(&entries[i], network));
        i = i + 1;
    }
    transactions
}

// ---------------------------------------------------------------------------
// Laws
// ---------------------------------------------------------------------------

/// A transaction is reported with a destination exactly where its entry is a spend whose
/// counterparty is known.
pub proof fn only_spends_carry_a_destination(entry: ActivityEntry, network: Seq<char>)
    ensures
        reported(entry, network).to_address is Some <==> entry.direction == Direction::Out
            && entry.counterparty is Some,
{
}

/// What is reported of an entry can be read back: its identifier, its amount and its fee.
pub proof fn report_reads_back(entry: ActivityEntry, network: Seq<char>)
    ensures
        crate::hexadecimal::hex_bytes(reported(entry, network).txid) == Some(entry.id@),
        crate::text::parsed_u64(reported(entry, network).value) == Some(entry.amount),
        entry.fee matches Some(fee) ==> reported(entry, network).fee is Some
            && crate::text::parsed_u64(reported(entry, network).fee->0) == Some(fee),
        entry.fee is None ==> reported(entry, network).fee is None,
{
    crate::hexadecimal::hex_reads_back(entry.id@);
    crate::text::decimal_reads_back(entry.amount);
    if entry.fee is Some {
        crate::text::decimal_reads_back(entry.fee->0);
    }
}

/// What is said of a transaction says every field of it, as it is.
pub proof fn transaction_view_tells_every_field(t: Transaction, i: int)
    ensures
        t@.txid == t.txid@,
        t@.block_time_in_seconds == t.block_time_in_seconds,
        t@.mined_height == t.mined_height,
        t@.value == t.value@,
        t.fee is Some <==> t@.fee is Some,
        t.fee is Some ==> t@.fee->0 == t.fee->0@,
        t.to_address is Some <==> t@.to_address is Some,
        t.to_address is Some ==> t@.to_address->0 == t.to_address->0@,
        t@.memos.len() == t.memos@.len(),
        0 <= i < t.memos@.len() ==> t@.memos[i] == t.memos@[i]@,
{
}

/// Every entry is reported, in the order of the entries.
pub proof fn every_entry_is_reported(entries: Seq<ActivityEntry>, network: Seq<char>, i: int)
    requires
        0 <= i < entries.len(),
    ensures
        all_reported(entries, network).len() == entries.len(),
        all_reported(entries, network)[i] == reported(entries[i], network),
{
}

/// Transactions are said of one by one, in their order.
pub proof fn every_transaction_is_told(transactions: Seq<Transaction>, i: int)
    requires
        0 <= i < transactions.len(),
    ensures
        transactions_view(transactions).len() == transactions.len(),
        transactions_view(transactions)[i] == transactions[i]@,
{
}

/// The time of a transaction is the last whole second of its entry's milliseconds.
pub proof fn time_is_in_whole_seconds(entry: ActivityEntry, network: Seq<char>)
    ensures
        reported(entry, network).block_time_in_seconds * 1000 <= entry.created_at_ms,
        entry.created_at_ms < (reported(entry, network).block_time_in_seconds + 1) * 1000,
{
}

/// The height of a transaction is that of its entry, as long as it can be told as a signed
/// number, and wraps around beyond; an entry without a height has height zero.
pub proof fn height_is_that_of_the_entry(entry: ActivityEntry, network: Seq<char>)
    ensures
        entry.block_height is None ==> reported(entry, network).mined_height == 0,
        entry.block_height matches Some(h) ==> i64::MIN <= reported(entry, network).mined_height
            <= i64::MAX,
        entry.block_height matches Some(h) ==> h <= i64::MAX ==> reported(
            entry,
            network,
        ).mined_height == h,
        entry.block_height matches Some(h) ==> h > i64::MAX ==> reported(entry, network).mined_height
            + u64::MAX + 1 == h,
{
}

/// The memo bytes of an entry decide over its memos, whatever else the entry holds: text that is
/// more than zeros is the one memo, without the zeros at its ends, and anything else is none.
/// The direction, the amount and the counterparty make no difference.
pub proof fn memos_come_from_the_memo_bytes(entry: ActivityEntry, network: Seq<char>)
    ensures
        entry.memo is None ==> reported(entry, network).memos.len() == 0,
        entry.memo matches Some(bytes) ==> !vstd::utf8::valid_utf8(bytes@) ==> reported(
            entry,
            network,
        ).memos.len() == 0,
        entry.memo matches Some(bytes) ==> vstd::utf8::valid_utf8(bytes@)
            ==> crate::text::without_surrounding(vstd::utf8::decode_utf8(bytes@), '\0').len() == 0
            ==> reported(entry, network).memos.len() == 0,
        entry.memo matches Some(bytes) ==> vstd::utf8::valid_utf8(bytes@)
            ==> crate::text::without_surrounding(vstd::utf8::decode_utf8(bytes@), '\0').len() > 0
            ==> reported(entry, network).memos == seq![
            crate::text::without_surrounding(vstd::utf8::decode_utf8(bytes@), '\0'),
        ],
{
}

/// The destination of a spend is its counterparty: an address of the network where it is 43
/// bytes long, and else hexadecimal text that reads back as the same bytes.
pub proof fn destination_is_the_counterparty(entry: ActivityEntry, network: Seq<char>, raw: Seq<u8>)
    requires
        entry.direction == Direction::Out,
        entry.counterparty is Some,
        entry.counterparty->0@ == raw,
    ensures
        reported(entry, network).to_address is Some,
        raw.len() == 43 ==> reported(entry, network).to_address->0 == crate::address::address_text(
            raw,
            network,
        ),
        raw.len() != 43 ==> crate::hexadecimal::hex_bytes(
            reported(entry, network).to_address->0,
        ) == Some(raw),
{
    crate::hexadecimal::hex_reads_back(raw);
}

/// Entries that differ in their direction alone are reported alike, but for the destination,
/// which a receipt has none of.
pub proof fn direction_decides_over_the_destination_alone(
    a: ActivityEntry,
    b: ActivityEntry,
    network: Seq<char>,
)
    requires
        a.direction == Direction::In,
        b == (ActivityEntry { direction: Direction::Out, ..a }),
    ensures
        reported(a, network).to_address is None,
        reported(a, network).txid == reported(b, network).txid,
        reported(a, network).block_time_in_seconds == reported(b, network).block_time_in_seconds,
        reported(a, network).mined_height == reported(b, network).mined_height,
        reported(a, network).value == reported(b, network).value,
        reported(a, network).fee == reported(b, network).fee,
        reported(a, network).memos == reported(b, network).memos,
{
}

/// The amounts of a transaction are written plainly: digits without a sign and without a zero in
/// front.
pub proof fn amounts_are_written_plainly(entry: ActivityEntry, network: Seq<char>)
    ensures
        reported(entry, network).value == crate::text::decimal(entry.amount as nat),
        entry.fee matches Some(fee) ==> reported(entry, network).fee == Some(
            crate::text::decimal(fee as nat),
        ),
        reported(entry, network).txid == crate::hexadecimal::hex_text(entry.id@),
{
}

}
