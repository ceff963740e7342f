//! JSON text, as the `json` crate writes and reads it.

use crate::text::utf8_text;
use json::object::Object;
use json::JsonValue;
use vstd::prelude::*;

verus! {

// ---------------------------------------------------------------------------
// Writing
// ---------------------------------------------------------------------------

/// An object of the `json` crate.
#[verifier::external_type_specification]
#[verifier::external_body]
pub struct ExObject(json::object::Object);

/// The fields of an object whose values are all texts, in the order of insertion.
pub uninterp spec fn object_fields(object: Object) -> Seq<(Seq<char>, Seq<char>)>;

/// Tells whether the values of an object are all texts.
pub uninterp spec fn all_texts(object: Object) -> bool;

/// A character inside a JSON string: quotation mark, reverse solidus and control characters
/// are escaped, and every other character stands for itself.
pub open spec fn escaped_char(c: char) -> Seq<char> {
    if c == '"' || c == '\\' {
        seq!['\\', c]
    } else if c == '\u{8}' {
        seq!['\\', 'b']
    } else if c == '\t' {
        seq!['\\', 't']
    } else if c == '\n' {
        seq!['\\', 'n']
    } else if c == '\u{c}' {
        seq!['\\', 'f']
    } else if c == '\r' {
        seq!['\\', 'r']
    } else if (c as u32) < 32 {
        seq!['\\', 'u', '0', '0'] + crate::hexadecimal::hex_text(seq![c as u8])
    } else {
        seq![c]
    }
}

/// The characters of a text, each as it stands inside a JSON string.
pub open spec fn escaped(s: Seq<char>) -> Seq<char>
    decreases s.len(),
{
    if s.len() == 0 {
        Seq::empty()
    } else {
        escaped(s.drop_last()) + escaped_char(s.last())
    }
}

/// A text as a JSON string.
pub open spec fn quoted(s: Seq<char>) -> Seq<char> {
    seq!['"'] + escaped(s) + seq!['"']
}

/// Fields as they stand in a JSON object, with a comma between two of them.
pub open spec fn listed(fields: Seq<(Seq<char>, Seq<char>)>) -> Seq<char>
    decreases fields.len(),
{
    if fields.len() == 0 {
        Seq::empty()
    } else {
        let separator = if fields.len() == 1 {
            Seq::<char>::empty()
        } else {
            seq![',']
        };
        let (key, value) = fields.last();
        listed(fields.drop_last()) + separator + quoted(key) + seq![':'] + quoted(value)
    }
}

/// Fields as one JSON object, without spaces.
pub open spec fn object_text(fields: Seq<(Seq<char>, Seq<char>)>) -> Seq<char> {
    seq!['{'] + listed(fields) + seq!['}']
}

/// Calls `Object::new`, which makes an object without fields.
#[verifier::external_body]
pub(crate) fn object_new() -> (r: Object)
    ensures
        object_fields(r) == Seq::<(Seq<char>, Seq<char>)>::empty(),
        all_texts(r),
{
    Object::new()
}

/// Calls `Object::insert` with a text as the value: a field with a new key goes behind the
/// others.
#[verifier::external_body]
pub(crate) fn object_insert(object: &mut Object, key: &str, value: &str)
    requires
        forall|i: int| 0 <= i < object_fields(*old(object)).len() ==> (#[trigger] object_fields(*old(object))[i]).0 != key@,
    ensures
        object_fields(*final(object)) == object_fields(*old(object)).push((key@, value@)),
        all_texts(*old(object)) ==> all_texts(*final(object)),
{
    object.insert(key, JsonValue::from(value));
}

/// Calls `JsonValue::dump` on an object whose values are all texts, which writes it in its most
/// compact form.
#[verifier::external_body]
pub(crate) fn object_dump(object: Object) -> (r: String)
    requires
        all_texts(object),
    ensures
        r@ == object_text(object_fields(object)),
{
    JsonValue::Object(object).dump()
}

// ---------------------------------------------------------------------------
// Reading
// ---------------------------------------------------------------------------

/// Where in a JSON text a byte stands.
#[derive(Clone, Copy, Debug, PartialEq, Eq, Structural)]
pub enum Place {
    /// Outside the strings.
    Value,
    /// Inside a string.
    Text,
    /// Inside a string, behind a reverse solidus.
    Escape,
}

/// Where the byte behind `b` stands.
pub open spec fn place_after(place: Place, b: u8) -> Place {
    match place {
        Place::Value => if b == 34 {
            Place::Text
        } else {
            Place::Value
        },
        Place::Text => if b == 34 {
            Place::Value
        } else if b == 92 {
            Place::Escape
        } else {
            Place::Text
        },
        Place::Escape => Place::Text,
    }
}

/// Where the byte at an index stands.
pub open spec fn place_at(bytes: Seq<u8>, i: int) -> Place
    decreases i,
{
    if i <= 0 {
        Place::Value
    } else {
        place_after(place_at(bytes, i - 1), bytes[i - 1])
    }
}

/// Tells whether a byte is a decimal digit.
pub open spec fn is_digit_byte(b: u8) -> bool {
    48 <= b <= 57
}

/// Tells whether the byte at an index stands directly behind a point, outside the strings.
pub open spec fn follows_point(bytes: Seq<u8>, i: int) -> bool {
    1 <= i < bytes.len() && bytes[i - 1] == 46 && place_at(bytes, i) == Place::Value
}

/// Tells whether no fraction, outside the strings, begins with a zero.
pub open spec fn fractions_begin_nonzero(bytes: Seq<u8>) -> bool {
    forall|i: int| #[trigger] follows_point(bytes, i) ==> bytes[i] != 48
}

/// The same bytes, but with a one in place of each zero that a fraction begins with, outside
/// the strings.
pub open spec fn with_nonzero_fractions(bytes: Seq<u8>) -> Seq<u8> {
    Seq::new(
        bytes.len(),
        |i: int|
            if bytes[i] == 48 && follows_point(bytes, i) {
                49u8
            } else {
                bytes[i]
            },
    )
}

/// Tells whether two texts differ at most in digits that stand directly behind a point, outside
/// the strings.
pub open spec fn same_but_fractions(a: Seq<u8>, b: Seq<u8>) -> bool {
    &&& a.len() == b.len()
    &&& forall|i: int|
        0 <= i < a.len() ==> #[trigger] a[i] == b[i] || (follows_point(a, i) && is_digit_byte(a[i])
            && is_digit_byte(b[i]))
}

/// Putting ones in place of zeros moves nothing into a string or out of it.
proof fn lemma_places_stay(bytes: Seq<u8>, i: int)
    requires
        0 <= i <= bytes.len(),
    ensures
        place_at(with_nonzero_fractions(bytes), i) == place_at(bytes, i),
    decreases i,
{
    if i > 0 {
        lemma_places_stay(bytes, i - 1);
    }
}

/// The replaced text has no fraction that begins with a zero, and differs from the text in
/// the digits of fractions alone.
proof fn lemma_nonzero_fractions(bytes: Seq<u8>)
    ensures
        fractions_begin_nonzero(with_nonzero_fractions(bytes)),
        same_but_fractions(with_nonzero_fractions(bytes), bytes),
{
    let out = with_nonzero_fractions(bytes);
    assert forall|i: int| 0 <= i < bytes.len() implies follows_point(out, i) == #[trigger] follows_point(
        bytes,
        i,
    ) by {
        lemma_places_stay(bytes, i);
    }
}

/// Bytes that are UTF-8 stay so when ASCII bytes are put in place of ASCII bytes.
proof fn lemma_ascii_replaced(a: Seq<u8>, b: Seq<u8>)
    requires
        vstd::utf8::valid_utf8(a),
        a.len() == b.len(),
        forall|i: int| 0 <= i < a.len() ==> #[trigger] a[i] == b[i] || (a[i] < 128 && b[i] < 128),
    ensures
        vstd::utf8::valid_utf8(b),
    decreases a.len(),
{
    if a.len() > 0 {
        lemma_ascii_replaced(vstd::utf8::pop_first_scalar(a), vstd::utf8::pop_first_scalar(b));
    }
}

/// Puts a one in place of each zero that a fraction begins with, outside the strings. No
/// number reaches what is read from a text, and the parser counts the digits of a fraction that
/// begins so within bounds.
pub fn nonzero_fractions(text: &str) -> (r: String)
    ensures
        vstd::utf8::encode_utf8(r@) == with_nonzero_fractions(vstd::utf8::encode_utf8(text@)),
        fractions_begin_nonzero(vstd::utf8::encode_utf8(r@)),
        same_but_fractions(vstd::utf8::encode_utf8(r@), vstd::utf8::encode_utf8(text@)),
{
    let bytes: &[u8] = text.as_bytes();
    let n: usize = bytes.len();
    let mut out: Vec<u8> = Vec::with_capacity(n);
    let mut place: Place = Place::Value;
    let mut i: usize = 0;
    while i < n
        invariant
            i <= n,
            n == bytes@.len(),
            place == place_at(bytes@, i as int),
            out@.len() == i,
            forall|j: int| 0 <= j < i ==> #[trigger] out@[j] == with_nonzero_fractions(bytes@)[j],
        decreases n - i,
    {
        let b: u8 = bytes[i];
        if b == 48 && i >= 1 && bytes[i - 1] == 46 && place == Place::Value {
            out.push(49);
        } else {
            out.push(b);
        }
        place = match place {
            Place::Value => if b == 34 {
                Place::Text
            } else {
                Place::Value
            },
            Place::Text => if b == 34 {
                Place::Value
            } else if b == 92 {
                Place::Escape
            } else {
                Place::Text
            },
            Place::Escape => Place::Text,
        };
        i = i + 1;
    }
    proof {
        lemma_nonzero_fractions(bytes@);
        vstd::utf8::encode_utf8_valid_utf8(text@);
        lemma_ascii_replaced(bytes@, out@);
        vstd::utf8::decode_utf8_encode_utf8(out@);
    }
    match utf8_text(out) {
        Some(replaced) => replaced,
        None => String::new(),
    }
}

/// Three fields of a row; a field that is missing, or is no text, is none.
pub type Row = (Option<String>, Option<String>, Option<String>);

/// A row, by its characters.
pub open spec fn row_view(row: Row) -> (Option<Seq<char>>, Option<Seq<char>>, Option<Seq<char>>) {
    (
        crate::text::optional_view(row.0),
        crate::text::optional_view(row.1),
        crate::text::optional_view(row.2),
    )
}

/// Rows, by their characters.
pub open spec fn rows_view(rows: Seq<Row>) -> Seq<(Option<Seq<char>>, Option<Seq<char>>, Option<Seq<char>>)> {
    rows.map_values(|row: Row| row_view(row))
}

/// Rows or a message, by their characters.
pub open spec fn table_view(r: Result<Vec<Row>, String>) -> Result<
    Seq<(Option<Seq<char>>, Option<Seq<char>>, Option<Seq<char>>)>,
    Seq<char>,
> {
    match r {
        Ok(rows) => Ok(rows_view(rows@)),
        Err(message) => Err(message@),
    }
}

/// What `json::parse` finds in a text: for each member of the array under `list`, in order,
/// the texts under three keys; or the text of its error. Where there is no such array there
/// are no rows.
pub uninterp spec fn json_table(body: Seq<char>, list: Seq<char>, first: Seq<char>, second: Seq<char>, third: Seq<char>) -> Result<Seq<(Option<Seq<char>>, Option<Seq<char>>, Option<Seq<char>>)>, Seq<char>>;

/// Calls `json::parse` and takes from the value, by index, `members` and `as_str`, the texts
/// under three keys of each member of one array. The digits of a fraction decide over the value
/// of a number and over nothing else that the parser does, and no number is taken from the
/// value; so a text that differs in such digits alone gives the same rows, or the same error.
/// The parser counts the digits of a fraction in 16 bits as long as the number is small enough
/// to take them in; the count can overflow only behind zeros that a fraction begins with, which
/// are left out.
#[verifier::external_body]
pub(crate) fn read_table(body: &str, list: &str, first: &str, second: &str, third: &str) -> (r: Result<
    Vec<Row>,
    String,
>)
    requires
        fractions_begin_nonzero(vstd::utf8::encode_utf8(body@)),
    ensures
        table_view(r) == json_table(body@, list@, first@, second@, third@),
        forall|other: Seq<char>|
            same_but_fractions(vstd::utf8::encode_utf8(body@), vstd::utf8::encode_utf8(other))
                ==> table_view(r) == #[trigger] json_table(other, list@, first@, second@, third@),
{
    let text = |row: &JsonValue, key: &str| row[key].as_str().map(|s| s.to_string());
    match json::parse(body) {
        Ok(value) => Ok(
            value[list]
                .members()
                .map(|row| (text(row, first), text(row, second), text(row, third)))
                .collect(),
        ),
        Err(e) => Err(e.to_string()),
    }
}

/// Rows are told one by one, in order, each with its three fields in their places.
pub proof fn rows_are_told_as_they_are(table: Result<Vec<Row>, String>, i: int)
    ensures
        table is Ok <==> table_view(table) is Ok,
        table is Err ==> table_view(table)->Err_0 == table->Err_0@,
        table matches Ok(rows) ==> table_view(table)->Ok_0.len() == rows@.len(),
        table matches Ok(rows) ==> 0 <= i < rows@.len() ==> {
            let told = table_view(table)->Ok_0[i];
            &&& told.0 == crate::text::optional_view(rows@[i].0)
            &&& told.1 == crate::text::optional_view(rows@[i].1)
            &&& told.2 == crate::text::optional_view(rows@[i].2)
        },
{
}

/// A text begins outside the strings. A quotation mark opens a string there and closes it inside,
/// unless a reverse solidus stands before it, which takes the next byte along whatever it is.
/// No other byte opens or closes a string.
pub proof fn strings_open_and_close_at_quotation_marks(bytes: Seq<u8>, i: int)
    requires
        0 <= i < bytes.len(),
    ensures
        place_at(bytes, 0) == Place::Value,
        place_at(bytes, i) == Place::Value ==> (place_at(bytes, i + 1) == Place::Text <==> bytes[i]
            == 34),
        place_at(bytes, i) == Place::Value ==> (place_at(bytes, i + 1) == Place::Value <==> bytes[i]
            != 34),
        place_at(bytes, i) == Place::Text ==> (place_at(bytes, i + 1) == Place::Value <==> bytes[i]
            == 34),
        place_at(bytes, i) == Place::Text ==> (place_at(bytes, i + 1) == Place::Escape <==> bytes[i]
            == 92),
        place_at(bytes, i) == Place::Text ==> (place_at(bytes, i + 1) == Place::Text <==> bytes[i]
            != 34 && bytes[i] != 92),
        place_at(bytes, i) == Place::Escape ==> place_at(bytes, i + 1) == Place::Text,
{
}

/// Nothing inside a string is replaced, and outside the strings nothing but a zero directly
/// behind a point, by a one.
pub proof fn only_fractions_are_replaced(bytes: Seq<u8>, i: int)
    requires
        0 <= i < bytes.len(),
    ensures
        with_nonzero_fractions(bytes).len() == bytes.len(),
        place_at(bytes, i) != Place::Value ==> with_nonzero_fractions(bytes)[i] == bytes[i],
        i == 0 ==> with_nonzero_fractions(bytes)[i] == bytes[i],
        i > 0 && bytes[i - 1] != 46 ==> with_nonzero_fractions(bytes)[i] == bytes[i],
        bytes[i] != 48 ==> with_nonzero_fractions(bytes)[i] == bytes[i],
        with_nonzero_fractions(bytes)[i] != bytes[i] ==> with_nonzero_fractions(bytes)[i] == 49,
{
}

}
