//! Text helpers: comparison, concatenation, decimal numbers and trimming.
//!
//! A text is modelled by its sequence of characters.

use vstd::prelude::*;

verus! {

/// Tells whether two texts hold the same characters.
pub fn same_text(a: &str, b: &str) -> (r: bool)
    ensures
        r == (a@ == b@),
{
    a.to_string() == b.to_string()
}

/// `a` followed by `b`.
pub fn joined(a: &str, b: &str) -> (r: String)
    ensures
        r@ == a@ + b@,
{
    let mut out: String = a.to_string();
    out.append(b);
    out
}

/// A text or a message, by their characters.
pub open spec fn text_view(r: Result<String, String>) -> Result<Seq<char>, Seq<char>> {
    match r {
        Ok(text) => Ok(text@),
        Err(message) => Err(message@),
    }
}

/// Texts, by their characters.
pub open spec fn texts_view(texts: Seq<String>) -> Seq<Seq<char>> {
    texts.map_values(|text: String| text@)
}

/// A text that may be missing, by its characters.
pub open spec fn optional_view(text: Option<String>) -> Option<Seq<char>> {
    match text {
        Some(present) => Some(present@),
        None => None,
    }
}

/// Tells whether `text` begins with `prefix`.
pub open spec fn begins_with(text: Seq<char>, prefix: Seq<char>) -> bool {
    prefix.len() <= text.len() && text.take(prefix.len() as int) == prefix
}

/// Tells whether `text` begins with `prefix`.
pub fn starts_with(text: &str, prefix: &str) -> (r: bool)
    ensures
        r == begins_with(text@, prefix@),
{
    let n: usize = prefix.unicode_len();
    if text.unicode_len() < n {
        return false;
    }
    same_text(text.substring_char(0, n), prefix)
}

// ---------------------------------------------------------------------------
// Decimal numbers
// ---------------------------------------------------------------------------

/// The character of a decimal digit.
pub open spec fn digit_char(d: nat) -> char {
    (48 + d) as char
}

/// Tells whether a character is one of `0` to `9`.
pub open spec fn is_digit(c: char) -> bool {
    '0' <= c <= '9'
}

/// The value of a decimal digit.
pub open spec fn digit_value(c: char) -> nat {
    (c as int - 48) as nat
}

/// The decimal digits of a number, most significant first, without leading zeros.
pub open spec fn decimal(n: nat) -> Seq<char>
    decreases n,
{
    if n < 10 {
        seq![digit_char(n)]
    } else {
        decimal(n / 10).push(digit_char(n % 10))
    }
}

/// The number that a sequence of decimal digits stands for.
pub open spec fn decimal_value(s: Seq<char>) -> nat
    decreases s.len(),
{
    if s.len() == 0 {
        0
    } else {
        decimal_value(s.drop_last()) * 10 + digit_value(s.last())
    }
}

/// Tells whether a text is made of decimal digits alone.
pub open spec fn all_digits(s: Seq<char>) -> bool {
    forall|i: int| 0 <= i < s.len() ==> is_digit(#[trigger] s[i])
}

/// A text without the `+` that it may begin with.
pub open spec fn without_plus(s: Seq<char>) -> Seq<char> {
    if s.len() > 0 && s[0] == '+' {
        s.skip(1)
    } else {
        s
    }
}

/// What a text reads as when it is taken as an unsigned 64-bit number: an optional `+`,
/// then one or more decimal digits, whose value fits.
pub open spec fn parsed_u64(s: Seq<char>) -> Option<u64> {
    let digits = without_plus(s);
    if digits.len() > 0 && all_digits(digits) && decimal_value(digits) <= u64::MAX {
        Some(decimal_value(digits) as u64)
    } else {
        None
    }
}

/// The text of one decimal digit.
fn digit_text(d: u128) -> (r: &'static str)
    requires
        d < 10,
    ensures
        r@ == seq![digit_char(d as nat)],
{
    proof {
        reveal_strlit("0");
        reveal_strlit("1");
        reveal_strlit("2");
        reveal_strlit("3");
        reveal_strlit("4");
        reveal_strlit("5");
        reveal_strlit("6");
        reveal_strlit("7");
        reveal_strlit("8");
        reveal_strlit("9");
    }
    let r: &'static str = match d {
        0 => "0",
        1 => "1",
        2 => "2",
        3 => "3",
        4 => "4",
        5 => "5",
        6 => "6",
        7 => "7",
        8 => "8",
        _ => "9",
    };
    r
}

/// Writes a number in decimal.
pub fn decimal_text(n: u128) -> (r: String)
    ensures
        r@ == decimal(n as nat),
    decreases n,
{
    if n < 10 {
        digit_text(n).to_string()
    } else {
        let mut out: String = decimal_text(n / 10);
        out.append(digit_text(n % 10));
        out
    }
}

/// The value of the first digits is at most the value of all of them.
proof fn lemma_decimal_value_prefix(s: Seq<char>, k: int)
    requires
        0 <= k <= s.len(),
    ensures
        decimal_value(s.take(k)) <= decimal_value(s),
    decreases s.len() - k,
{
    if k < s.len() {
        lemma_decimal_value_prefix(s, k + 1);
        assert(s.take(k + 1).drop_last() =~= s.take(k));
    } else {
        assert(s.take(k) =~= s);
    }
}

/// Reads an unsigned 64-bit number.
pub fn parse_u64(text: &str) -> (r: Option<u64>)
    ensures
        r == parsed_u64(text@),
{
    let ghost s = text@;
    let ghost digits = without_plus(s);
    if !text.is_ascii() {
        proof {
            let i = choose|i: int| 0 <= i < s.len() && !('\0' <= #[trigger] s[i] <= '\u{7f}');
            if s[0] == '+' {
                assert(!is_digit(digits[i - 1]));
            }
        }
        return None;
    }
    proof {
        vstd::string::is_ascii_spec_bytes(text);
    }
    let bytes: &[u8] = text.as_bytes();
    let n: usize = bytes.len();
    let start: usize = if n > 0 && bytes[0] == 43 {
        1
    } else {
        0
    };
    if start == n {
        return None;
    }
    let mut value: u64 = 0;
    let mut i: usize = start;
    while i < n
        invariant
            start <= i <= n,
            start <= 1,
            s == text@,
            n == s.len(),
            bytes@.len() == n,
            digits == without_plus(s),
            digits == s.skip(start as int),
            digits.len() > 0,
            forall|j: int| 0 <= j < n ==> #[trigger] bytes@[j] == s[j] as u8,
            forall|j: int| 0 <= j < n ==> '\0' <= #[trigger] s[j] <= '\u{7f}',
            forall|j: int| 0 <= j < i - start ==> is_digit(#[trigger] digits[j]),
            value == decimal_value(digits.take(i - start)),
        decreases n - i,
    {
        let b: u8 = bytes[i];
        assert(digits[i - start] == s[i as int]);
        if b < 48 || b > 57 {
            return None;
        }
        proof {
            lemma_decimal_value_prefix(digits, i + 1 - start);
            assert(digits.take(i + 1 - start).drop_last() =~= digits.take(i - start));
        }
        match value.checked_mul(10) {
            None => {
                return None;
            },
            Some(tens) => match tens.checked_add((b - 48) as u64) {
                None => {
                    return None;
                },
                Some(next) => {
                    value = next;
                },
            },
        }
        i = i + 1;
    }
    assert(digits.take(n - start) =~= digits);
    Some(value)
}

/// A number written in decimal reads back as itself.
pub proof fn decimal_reads_back(n: u64)
    ensures
        parsed_u64(decimal(n as nat)) == Some(n),
{
    lemma_decimal_digits(n as nat);
}

/// The decimal digits of a number are digits, there is at least one, and they have the
/// value of the number.
pub proof fn lemma_decimal_digits(n: nat)
    ensures
        decimal(n).len() > 0,
        all_digits(decimal(n)),
        decimal_value(decimal(n)) == n,
    decreases n,
{
    if n >= 10 {
        lemma_decimal_digits(n / 10);
        assert(decimal(n).drop_last() =~= decimal(n / 10));
    } else {
        assert(decimal(n).drop_last() =~= Seq::<char>::empty());
        assert(decimal_value(Seq::<char>::empty()) == 0);
    }
}

/// Different numbers have different decimal texts.
pub proof fn decimal_is_injective(a: nat, b: nat)
    ensures
        decimal(a) == decimal(b) ==> a == b,
{
    lemma_decimal_digits(a);
    lemma_decimal_digits(b);
}

// ---------------------------------------------------------------------------
// Trimming
// ---------------------------------------------------------------------------

/// A text without the characters at its end that meet `p`.
pub open spec fn trim_end(s: Seq<char>, p: spec_fn(char) -> bool) -> Seq<char>
    decreases s.len(),
{
    if s.len() > 0 && p(s.last()) {
        trim_end(s.drop_last(), p)
    } else {
        s
    }
}

/// A text without the characters at its start that meet `p`.
pub open spec fn trim_start(s: Seq<char>, p: spec_fn(char) -> bool) -> Seq<char>
    decreases s.len(),
{
    if s.len() > 0 && p(s.first()) {
        trim_start(s.drop_first(), p)
    } else {
        s
    }
}

/// A text without the characters at either end that meet `p`.
pub open spec fn trim_both(s: Seq<char>, p: spec_fn(char) -> bool) -> Seq<char> {
    trim_end(trim_start(s, p), p)
}

/// The predicate that holds of `c` alone.
pub open spec fn just(c: char) -> spec_fn(char) -> bool {
    |x: char| x == c
}

/// A text without the occurrences of `c` at its end.
pub open spec fn without_trailing(s: Seq<char>, c: char) -> Seq<char> {
    trim_end(s, just(c))
}

/// A text without the occurrences of `c` at either end.
pub open spec fn without_surrounding(s: Seq<char>, c: char) -> Seq<char> {
    trim_both(s, just(c))
}

/// The part of a text before the last occurrence of `c`, if there is one.
pub open spec fn text_before_last(s: Seq<char>, c: char) -> Option<Seq<char>>
    decreases s.len(),
{
    if s.len() == 0 {
        None
    } else if s.last() == c {
        Some(s.drop_last())
    } else {
        text_before_last(s.drop_last(), c)
    }
}

/// Removes the occurrences of `c` at the end of a text.
pub fn trim_trailing<'a>(text: &'a str, c: char) -> (r: &'a str)
    ensures
        r@ == without_trailing(text@, c),
{
    let ghost p = just(c);
    let n: usize = text.unicode_len();
    let mut end: usize = n;
    assert(text@.take(n as int) =~= text@);
    while end > 0 && text.get_char(end - 1) == c
        invariant
            end <= n,
            n == text@.len(),
            p == just(c),
            trim_end(text@, p) == trim_end(text@.take(end as int), p),
        decreases end,
    {
        assert(text@.take(end as int).drop_last() =~= text@.take(end - 1));
        end = end - 1;
    }
    text.substring_char(0, end)
}

/// Removes the occurrences of `c` at either end of a text.
pub fn trim_surrounding<'a>(text: &'a str, c: char) -> (r: &'a str)
    ensures
        r@ == without_surrounding(text@, c),
{
    let ghost p = just(c);
    let n: usize = text.unicode_len();
    let mut start: usize = 0;
    assert(text@.skip(0) =~= text@);
    while start < n && text.get_char(start) == c
        invariant
            start <= n,
            n == text@.len(),
            p == just(c),
            trim_start(text@, p) == trim_start(text@.skip(start as int), p),
        decreases n - start,
    {
        assert(text@.skip(start as int).drop_first() =~= text@.skip(start + 1));
        start = start + 1;
    }
    trim_trailing(text.substring_char(start, n), c)
}

/// The part of a text before the last occurrence of `c`.
pub fn before_last<'a>(text: &'a str, c: char) -> (r: Option<&'a str>)
    ensures
        match r {
            Some(part) => text_before_last(text@, c) == Some(part@),
            None => text_before_last(text@, c) is None,
        },
{
    let n: usize = text.unicode_len();
    let mut end: usize = n;
    assert(text@.take(n as int) =~= text@);
    while end > 0
        invariant
            end <= n,
            n == text@.len(),
            text_before_last(text@, c) == text_before_last(text@.take(end as int), c),
        decreases end,
    {
        assert(text@.take(end as int).drop_last() =~= text@.take(end - 1));
        if text.get_char(end - 1) == c {
            return Some(text.substring_char(0, end - 1));
        }
        end = end - 1;
    }
    None
}

/// Tells whether a character has the Unicode property `White_Space`.
pub open spec fn is_white_space(c: char) -> bool {
    let n = c as u32;
    ||| 0x09 <= n <= 0x0d
    ||| n == 0x20
    ||| n == 0x85
    ||| n == 0xa0
    ||| n == 0x1680
    ||| 0x2000 <= n <= 0x200a
    ||| n == 0x2028
    ||| n == 0x2029
    ||| n == 0x202f
    ||| n == 0x205f
    ||| n == 0x3000
}

/// The predicate that holds of white space.
pub open spec fn white_space() -> spec_fn(char) -> bool {
    |c: char| is_white_space(c)
}

/// A text without the white space at either end.
pub open spec fn trimmed(s: Seq<char>) -> Seq<char> {
    trim_both(s, white_space())
}

/// Tells whether a character has the Unicode property `White_Space`.
fn is_space(c: char) -> (r: bool)
    ensures
        r == is_white_space(c),
{
    let n: u32 = c as u32;
    (0x09 <= n && n <= 0x0d) || n == 0x20 || n == 0x85 || n == 0xa0 || n == 0x1680 || (0x2000 <= n
        && n <= 0x200a) || n == 0x2028 || n == 0x2029 || n == 0x202f || n == 0x205f || n == 0x3000
}

/// Removes the white space at either end of a text.
pub fn trim<'a>(text: &'a str) -> (r: &'a str)
    ensures
        r@ == trimmed(text@),
{
    let ghost p = white_space();
    let n: usize = text.unicode_len();
    let mut start: usize = 0;
    assert(text@.skip(0) =~= text@);
    while start < n && is_space(text.get_char(start))
        invariant
            start <= n,
            n == text@.len(),
            p == white_space(),
            trim_start(text@, p) == trim_start(text@.skip(start as int), p),
        decreases n - start,
    {
        assert(text@.skip(start as int).drop_first() =~= text@.skip(start + 1));
        start = start + 1;
    }
    let mut end: usize = n;
    let ghost rest = text@.skip(start as int);
    while end > start && is_space(text.get_char(end - 1))
        invariant
            start <= end <= n,
            n == text@.len(),
            p == white_space(),
            trim_end(rest, p) == trim_end(text@.subrange(start as int, end as int), p),
        decreases end,
    {
        assert(text@.subrange(start as int, end as int).drop_last() =~= text@.subrange(
            start as int,
            end - 1,
        ));
        end = end - 1;
    }
    text.substring_char(start, end)
}

/// A text that neither begins nor ends with a character that meets `p` is left as it is.
pub proof fn lemma_trim_both_nothing(s: Seq<char>, p: spec_fn(char) -> bool)
    requires
        s.len() > 0 ==> !p(s.first()) && !p(s.last()),
    ensures
        trim_both(s, p) == s,
{
}

// ---------------------------------------------------------------------------
// Bytes
// ---------------------------------------------------------------------------

/// Calls `String::from_utf8`, which takes the bytes that are valid UTF-8, and no others, and
/// gives the text that they encode. Its error is dropped.
#[verifier::external_body]
pub(crate) fn utf8_text(bytes: Vec<u8>) -> (r: Option<String>)
    ensures
        r is Some <==> vstd::utf8::valid_utf8(bytes@),
        r matches Some(text) ==> text@ == vstd::utf8::decode_utf8(bytes@),
{
    String::from_utf8(bytes).ok()
}

// ---------------------------------------------------------------------------
// Laws
// ---------------------------------------------------------------------------

/// A text begins with another exactly where it is that text and some more.
pub proof fn beginning_is_a_prefix(text: Seq<char>, prefix: Seq<char>)
    ensures
        begins_with(text, prefix) <==> exists|rest: Seq<char>| text == #[trigger] (prefix + rest),
{
    if begins_with(text, prefix) {
        let rest = text.skip(prefix.len() as int);
        assert(text =~= prefix + rest);
    }
    if exists|rest: Seq<char>| text == #[trigger] (prefix + rest) {
        let rest = choose|rest: Seq<char>| text == #[trigger] (prefix + rest);
        assert(text.take(prefix.len() as int) =~= prefix);
    }
}

/// A number is written with the digits `0` to `9` alone, at least one of them, and with no zero
/// in front, but for zero itself.
pub proof fn decimal_is_plain(n: nat)
    ensures
        decimal(n).len() >= 1,
        forall|i: int| 0 <= i < decimal(n).len() ==> '0' <= #[trigger] decimal(n)[i] <= '9',
        decimal(n)[0] == '0' ==> n == 0 && decimal(n).len() == 1,
    decreases n,
{
    if n >= 10 {
        decimal_is_plain(n / 10);
    }
}

/// Digits have the value that their places give them: one more digit behind makes ten times
/// the value and the digit.
pub proof fn digits_have_place_value(digits: Seq<char>, c: char)
    requires
        '0' <= c <= '9',
    ensures
        decimal_value(Seq::empty()) == 0,
        decimal_value(digits.push(c)) == 10 * decimal_value(digits) + (c as int - '0' as int),
{
    assert(digits.push(c).drop_last() =~= digits);
}

/// The digits of a number that is ten times another and some more are those of the other and one
/// more.
pub proof fn decimal_grows_by_a_digit(n: nat, c: char)
    requires
        n > 0,
        '0' <= c <= '9',
    ensures
        decimal((10 * n + (c as int - '0' as int)) as nat) == decimal(n).push(c),
        decimal((c as int - '0' as int) as nat) == seq![c],
{
    let d = (c as int - '0' as int) as nat;
    let m = 10 * n + d;
    assert(m / 10 == n && m % 10 == d);
    assert(digit_char(d) == c);
}

/// Digits, with or without a `+` in front, read as their value wherever it fits.
pub proof fn digits_read_as_their_value(digits: Seq<char>)
    requires
        digits.len() > 0,
        forall|i: int| 0 <= i < digits.len() ==> '0' <= #[trigger] digits[i] <= '9',
    ensures
        parsed_u64(digits) == if decimal_value(digits) <= u64::MAX {
            Some(decimal_value(digits) as u64)
        } else {
            None
        },
        parsed_u64(seq!['+'] + digits) == parsed_u64(digits),
{
    assert((seq!['+'] + digits).skip(1) =~= digits);
    assert(digits[0] != '+');
}

/// What reads as a number is one or more digits with its value, with at most a `+` in front:
/// no sign but that, no space and no other character.
pub proof fn only_digits_read_as_a_number(text: Seq<char>)
    requires
        parsed_u64(text) is Some,
    ensures
        ({
            let digits = if text[0] == '+' {
                text.subrange(1, text.len() as int)
            } else {
                text
            };
            &&& text.len() > 0
            &&& digits.len() > 0
            &&& forall|i: int| 0 <= i < digits.len() ==> '0' <= #[trigger] digits[i] <= '9'
            &&& decimal_value(digits) == parsed_u64(text)->0
        }),
{
    assert(text.skip(1) =~= text.subrange(1, text.len() as int));
}

/// What is cut off the end of a text meets the predicate, and the rest does not end so.
proof fn lemma_cut_end(s: Seq<char>, p: spec_fn(char) -> bool)
    ensures
        trim_end(s, p).len() <= s.len(),
        s.take(trim_end(s, p).len() as int) == trim_end(s, p),
        forall|i: int| trim_end(s, p).len() <= i < s.len() ==> p(#[trigger] s[i]),
        trim_end(s, p).len() > 0 ==> !p(trim_end(s, p).last()),
    decreases s.len(),
{
    if s.len() > 0 && p(s.last()) {
        lemma_cut_end(s.drop_last(), p);
        assert(s.take(trim_end(s, p).len() as int) =~= s.drop_last().take(
            trim_end(s, p).len() as int,
        ));
        assert forall|i: int| trim_end(s, p).len() <= i < s.len() implies p(#[trigger] s[i]) by {
            if i < s.len() - 1 {
                assert(s.drop_last()[i] == s[i]);
            }
        }
    } else {
        assert(s.take(s.len() as int) =~= s);
    }
}

/// What is cut off the start of a text meets the predicate, and the rest does not begin so.
proof fn lemma_cut_start(s: Seq<char>, p: spec_fn(char) -> bool)
    ensures
        trim_start(s, p).len() <= s.len(),
        s.skip((s.len() - trim_start(s, p).len()) as int) == trim_start(s, p),
        forall|i: int| 0 <= i < s.len() - trim_start(s, p).len() ==> p(#[trigger] s[i]),
        trim_start(s, p).len() > 0 ==> !p(trim_start(s, p).first()),
    decreases s.len(),
{
    if s.len() > 0 && p(s.first()) {
        let rest = s.drop_first();
        lemma_cut_start(rest, p);
        let kept = trim_start(s, p).len();
        assert(s.skip((s.len() - kept) as int) =~= rest.skip((rest.len() - kept) as int));
        assert forall|i: int| 0 <= i < s.len() - kept implies p(#[trigger] s[i]) by {
            if i > 0 {
                assert(rest[i - 1] == s[i]);
            }
        }
    } else {
        assert(s.skip(0) =~= s);
    }
}

/// Trimming cuts off the longest runs at both ends that meet the predicate, and nothing else.
proof fn lemma_cut_both(s: Seq<char>, p: spec_fn(char) -> bool)
    ensures
        exists|a: int, b: int|
            0 <= a <= b <= s.len() && trim_both(s, p) == #[trigger] s.subrange(a, b) && (forall|
                i: int,
            |
                0 <= i < a || b <= i < s.len() ==> p(#[trigger] s[i])),
        trim_both(s, p).len() > 0 ==> !p(trim_both(s, p).first()) && !p(trim_both(s, p).last()),
{
    let front = trim_start(s, p);
    let out = trim_end(front, p);
    lemma_cut_start(s, p);
    lemma_cut_end(front, p);
    let a = s.len() - front.len();
    let b = a + out.len();
    assert(s.subrange(a, b) =~= out);
    assert forall|i: int| 0 <= i < a || b <= i < s.len() implies p(#[trigger] s[i]) by {
        if i >= b {
            assert(front[i - a] == s[i]);
        }
    }
    if out.len() > 0 {
        assert(out.first() == front.first());
    }
}

/// Without its trailing occurrences of a character a text is the text up to them: what is cut
/// off is that character alone, and the rest does not end with it.
pub proof fn trailing_characters_are_cut(s: Seq<char>, c: char)
    ensures
        without_trailing(s, c).len() <= s.len(),
        without_trailing(s, c) == s.subrange(0, without_trailing(s, c).len() as int),
        forall|i: int| without_trailing(s, c).len() <= i < s.len() ==> #[trigger] s[i] == c,
        without_trailing(s, c).len() > 0 ==> without_trailing(s, c).last() != c,
{
    lemma_cut_end(s, just(c));
    assert forall|i: int| without_trailing(s, c).len() <= i < s.len() implies #[trigger] s[i] == c by {
        assert(just(c)(s[i]));
    }
}

/// Without its surrounding occurrences of a character a text is a part of it: around the part
/// there is that character alone, and the part neither begins nor ends with it.
pub proof fn surrounding_characters_are_cut(s: Seq<char>, c: char)
    ensures
        exists|a: int, b: int|
            0 <= a <= b <= s.len() && without_surrounding(s, c) == #[trigger] s.subrange(a, b) && (
            forall|i: int| 0 <= i < a || b <= i < s.len() ==> #[trigger] s[i] == c),
        without_surrounding(s, c).len() > 0 ==> without_surrounding(s, c).first() != c
            && without_surrounding(s, c).last() != c,
{
    let p = just(c);
    lemma_cut_both(s, p);
    let (a, b) = choose|a: int, b: int|
        0 <= a <= b <= s.len() && trim_both(s, p) == #[trigger] s.subrange(a, b) && (forall|i: int|
            0 <= i < a || b <= i < s.len() ==> p(#[trigger] s[i]));
    assert forall|i: int| 0 <= i < a || b <= i < s.len() implies #[trigger] s[i] == c by {
        assert(p(s[i]));
    }
    assert(without_surrounding(s, c) == s.subrange(a, b));
}

/// A trimmed text is a part of the text: around the part there is white space alone, and the
/// part neither begins nor ends with white space. Every white space is a code point up to
/// U+3000, and the space and the line ends are among them.
pub proof fn surrounding_white_space_is_cut(s: Seq<char>)
    ensures
        exists|a: int, b: int|
            0 <= a <= b <= s.len() && trimmed(s) == #[trigger] s.subrange(a, b) && (forall|i: int|
                0 <= i < a || b <= i < s.len() ==> is_white_space(#[trigger] s[i])),
        trimmed(s).len() > 0 ==> !is_white_space(trimmed(s).first()) && !is_white_space(
            trimmed(s).last(),
        ),
        forall|c: char| #[trigger] is_white_space(c) ==> c as u32 <= 0x3000,
        is_white_space(' ') && is_white_space('\n') && is_white_space('\r') && is_white_space('\t'),
{
    let p = white_space();
    lemma_cut_both(s, p);
    let (a, b) = choose|a: int, b: int|
        0 <= a <= b <= s.len() && trim_both(s, p) == #[trigger] s.subrange(a, b) && (forall|i: int|
            0 <= i < a || b <= i < s.len() ==> p(#[trigger] s[i]));
    assert forall|i: int| 0 <= i < a || b <= i < s.len() implies is_white_space(#[trigger] s[i]) by {
        assert(p(s[i]));
    }
    assert(trimmed(s) == s.subrange(a, b));
}

/// The part before the last occurrence of a character is followed by that character, and the
/// character does not occur behind that; there is no such part exactly where it does not occur
/// at all.
pub proof fn text_is_split_at_the_last(s: Seq<char>, c: char)
    ensures
        text_before_last(s, c) is None <==> !s.contains(c),
        text_before_last(s, c) matches Some(part) ==> part.len() < s.len() && part == s.subrange(
            0,
            part.len() as int,
        ) && s[part.len() as int] == c && forall|i: int|
            part.len() < i < s.len() ==> #[trigger] s[i] != c,
    decreases s.len(),
{
    if s.len() > 0 {
        let front = s.drop_last();
        text_is_split_at_the_last(front, c);
        if s.last() == c {
            assert(s[s.len() - 1] == c);
            assert(front =~= s.subrange(0, front.len() as int));
        } else {
            if front.contains(c) {
                let k = front.index_of(c);
                assert(s[k] == c);
            }
            if s.contains(c) {
                let k = s.index_of(c);
                assert(front[k] == c);
            }
            if text_before_last(s, c) is Some {
                let part = text_before_last(s, c)->0;
                assert(front.subrange(0, part.len() as int) =~= s.subrange(0, part.len() as int));
                assert forall|i: int| part.len() < i < s.len() implies #[trigger] s[i] != c by {
                    if i < front.len() {
                        assert(front[i] == s[i]);
                    }
                }
            }
        }
    }
}

/// Texts are told one by one, each by its own characters; a text that may be missing is told
/// where it is there, and a result is told as a text or as a message.
pub proof fn texts_are_told_as_they_are(
    texts: Seq<String>,
    i: int,
    optional: Option<String>,
    result: Result<String, String>,
)
    ensures
        texts_view(texts).len() == texts.len(),
        0 <= i < texts.len() ==> texts_view(texts)[i] == texts[i]@,
        optional is Some <==> optional_view(optional) is Some,
        optional is Some ==> optional_view(optional)->0 == optional->0@,
        result is Ok <==> text_view(result) is Ok,
        result is Ok ==> text_view(result)->Ok_0 == result->Ok_0@,
        result is Err ==> text_view(result)->Err_0 == result->Err_0@,
{
}

}
