//! Memos on the wire.

use vstd::prelude::*;

verus! {

/// The most bytes that a memo may have.
pub const MEMO_LIMIT: usize = 32;

/// The bytes that a memo takes on the wire.
pub const WIRE_LENGTH: usize = 36;

/// The bytes of a memo.
pub open spec fn memo_bytes(memo: Seq<char>) -> Seq<u8> {
    vstd::utf8::encode_utf8(memo)
}

/// A memo on the wire: its bytes, then zeros.
pub open spec fn padded(memo: Seq<char>) -> Seq<u8> {
    memo_bytes(memo) + Seq::new((WIRE_LENGTH - memo_bytes(memo).len()) as nat, |i: int| 0u8)
}

/// The number of bytes of a memo.
pub fn memo_length(memo: &str) -> (r: usize)
    ensures
        r == memo_bytes(memo@).len(),
{
    memo.as_bytes().len()
}

/// Fills a memo up with zeros to its length on the wire.
pub fn pad_memo(memo: &str) -> (r: [u8; 36])
    requires
        memo_bytes(memo@).len() <= WIRE_LENGTH,
    ensures
        r@ == padded(memo@),
{
    let bytes: &[u8] = memo.as_bytes();
    let n: usize = bytes.len();
    let mut wire: [u8; 36] = [0u8; 36];
    let mut i: usize = 0;
    while i < n
        invariant
            i <= n,
            n == bytes@.len(),
            n <= 36,
            forall|j: int| 0 <= j < i ==> wire@[j] == bytes@[j],
            forall|j: int| i <= j < 36 ==> wire@[j] == 0,
        decreases n - i,
    {
        wire[i] = bytes[i];
        i = i + 1;
    }
    wire
}

/// The bytes of two texts in a row are the bytes of each in a row.
proof fn lemma_encode_concat(a: Seq<char>, b: Seq<char>)
    ensures
        vstd::utf8::encode_utf8(a + b) == vstd::utf8::encode_utf8(a) + vstd::utf8::encode_utf8(b),
    decreases a.len(),
{
    if a.len() > 0 {
        lemma_encode_concat(a.drop_first(), b);
        assert((a + b).drop_first() =~= a.drop_first() + b);
    }
}

/// A character that is trimmed makes no difference at the end of a text.
proof fn lemma_trim_pushed(s: Seq<char>, c: char, p: spec_fn(char) -> bool)
    requires
        p(c),
    ensures
        crate::text::trim_both(s.push(c), p) == crate::text::trim_both(s, p),
{
    lemma_trim_start_pushed(s, c, p);
    let front = crate::text::trim_start(s, p);
    if front.len() > 0 {
        assert(front.push(c).drop_last() =~= front);
    }
}

/// What is left of a text and one more character that is trimmed at the start.
proof fn lemma_trim_start_pushed(s: Seq<char>, c: char, p: spec_fn(char) -> bool)
    requires
        p(c),
    ensures
        crate::text::trim_start(s.push(c), p) == if crate::text::trim_start(s, p).len() == 0 {
            Seq::<char>::empty()
        } else {
            crate::text::trim_start(s, p).push(c)
        },
    decreases s.len(),
{
    if s.len() == 0 {
        assert(s.push(c).drop_first() =~= Seq::<char>::empty());
        assert(crate::text::trim_start(Seq::<char>::empty(), p) == Seq::<char>::empty());
    } else if p(s.first()) {
        lemma_trim_start_pushed(s.drop_first(), c, p);
        assert(s.push(c).drop_first() =~= s.drop_first().push(c));
    }
}

/// Zeros make no difference at the end of a memo.
proof fn lemma_zeros_are_trimmed(memo: Seq<char>, zeros: Seq<char>)
    requires
        forall|i: int| 0 <= i < zeros.len() ==> zeros[i] == '\0',
    ensures
        crate::text::without_surrounding(memo + zeros, '\0') == crate::text::without_surrounding(
            memo,
            '\0',
        ),
    decreases zeros.len(),
{
    if zeros.len() > 0 {
        lemma_zeros_are_trimmed(memo, zeros.drop_last());
        assert(memo + zeros =~= (memo + zeros.drop_last()).push('\0'));
        lemma_trim_pushed(memo + zeros.drop_last(), '\0', crate::text::just('\0'));
    }
}

/// A memo that was filled up reads back as UTF-8, without the zeros at its ends.
pub proof fn padded_memo_reads_back(memo: Seq<char>)
    requires
        memo_bytes(memo).len() <= WIRE_LENGTH,
    ensures
        vstd::utf8::valid_utf8(padded(memo)),
        crate::activity::memo_text(padded(memo)) == crate::text::without_surrounding(memo, '\0'),
{
    let k = (WIRE_LENGTH - memo_bytes(memo).len()) as nat;
    let zeros = Seq::new(k, |i: int| '\0');
    vstd::utf8::is_ascii_chars_encode_utf8(zeros);
    assert(vstd::utf8::encode_utf8(zeros) =~= Seq::new(k, |i: int| 0u8));
    lemma_encode_concat(memo, zeros);
    vstd::utf8::encode_utf8_valid_utf8(memo + zeros);
    vstd::utf8::encode_utf8_decode_utf8(memo + zeros);
    lemma_zeros_are_trimmed(memo, zeros);
}

/// A memo that has no zeros at its ends and is not empty comes back, from the bytes that were
/// sent, as the one memo of the transaction.
pub proof fn sent_memo_is_reported(memo: Seq<char>, wire: Vec<u8>)
    requires
        memo_bytes(memo).len() <= WIRE_LENGTH,
        memo.len() > 0,
        memo.first() != '\0',
        memo.last() != '\0',
        wire@ == padded(memo),
    ensures
        crate::activity::memos_of(Some(wire)) == seq![memo],
{
    padded_memo_reads_back(memo);
    crate::text::lemma_trim_both_nothing(memo, crate::text::just('\0'));
}

/// An empty memo comes back as no memo.
pub proof fn empty_memo_is_not_reported(wire: Vec<u8>)
    requires
        wire@ == padded(Seq::empty()),
    ensures
        crate::activity::memos_of(Some(wire)).len() == 0,
{
    padded_memo_reads_back(Seq::empty());
}

/// A memo on the wire has 36 bytes: the bytes of the memo, and zeros behind them.
pub proof fn padded_memo_is_the_memo_and_zeros(memo: Seq<char>)
    requires
        vstd::utf8::encode_utf8(memo).len() <= 36,
    ensures
        padded(memo).len() == 36,
        padded(memo).subrange(0, vstd::utf8::encode_utf8(memo).len() as int)
            == vstd::utf8::encode_utf8(memo),
        forall|i: int|
            vstd::utf8::encode_utf8(memo).len() <= i < 36 ==> #[trigger] padded(memo)[i] == 0,
        MEMO_LIMIT == 32,
{
    assert(padded(memo).subrange(0, vstd::utf8::encode_utf8(memo).len() as int)
        =~= vstd::utf8::encode_utf8(memo));
}

/// A memo that has no zeros at its ends and is not empty is reported as the one memo of its
/// transaction, whether the entry is a spend or a receipt, and whatever else it holds.
pub proof fn memo_is_reported_in_both_directions(
    memo: Seq<char>,
    entry: crate::activity::ActivityEntry,
    network: Seq<char>,
)
    requires
        memo_bytes(memo).len() <= WIRE_LENGTH,
        memo.len() > 0,
        memo.first() != '\0',
        memo.last() != '\0',
        entry.memo is Some,
        entry.memo->0@ == padded(memo),
    ensures
        crate::activity::reported(entry, network).memos == seq![memo],
{
    sent_memo_is_reported(memo, entry.memo->0);
}

}
