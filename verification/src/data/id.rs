//! Universally unique identifiers of the database.
//!
//! An [`ID`] is a 128-bit value. Its text is the hyphenated form of a
//! UUID in lower case: 32 hexadecimal digits in groups of 8, 4, 4, 4 and
//! 12. Only that form is read back; the `uuid` crate makes new values and
//! turns text into values and values into text.

use uuid::Uuid;
use vstd::prelude::*;
use vstd::string::*;
use vstd::utf8::is_ascii_chars;
use vstd::utf8::is_ascii_chars_encode_utf8;

verus! {

/// The byte `-`.
pub const DASH: u8 = 0x2d;

/// The length of the text of an id.
pub const TEXT_LEN: usize = 36;

/// `b` is one of `0` to `9` or `a` to `f`.
pub open spec fn is_hex(b: u8) -> bool {
    (0x30 <= b <= 0x39) || (0x61 <= b <= 0x66)
}

/// The place `i` of the text of an id holds a hyphen.
pub open spec fn is_dash_place(i: int) -> bool {
    i == 8 || i == 13 || i == 18 || i == 23
}

/// The byte `b` may stand at the place `i` of the text of an id.
pub open spec fn fits_place(i: int, b: u8) -> bool {
    if is_dash_place(i) {
        b == DASH
    } else {
        is_hex(b)
    }
}

/// `text` is the text of an id: 36 bytes, hyphens after 8, 12, 16 and 20
/// digits, and lower-case hexadecimal digits everywhere else.
pub open spec fn id_format(text: Seq<u8>) -> bool {
    &&& text.len() == TEXT_LEN
    &&& forall|i: int| 0 <= i < TEXT_LEN ==> fits_place(i, #[trigger] text[i])
}

/// The value of a hexadecimal digit.
pub open spec fn digit_value(b: u8) -> nat {
    if b <= 0x39 {
        (b - 0x30) as nat
    } else {
        (b - 0x61 + 10) as nat
    }
}

/// The number that the hexadecimal digits of `text` spell, most
/// significant digit first. Hyphens are passed over.
pub open spec fn hex_value(text: Seq<u8>) -> nat
    decreases text.len(),
{
    if text.len() == 0 {
        0
    } else if text.last() == DASH {
        hex_value(text.drop_last())
    } else {
        hex_value(text.drop_last()) * 16 + digit_value(text.last())
    }
}

/// Whether `b` is a lower-case hexadecimal digit.
pub fn byte_is_hex(b: u8) -> (hex: bool)
    ensures
        hex == is_hex(b),
{
    (0x30 <= b && b <= 0x39) || (0x61 <= b && b <= 0x66)
}

/// Whether `text` is the text of an id.
pub fn has_id_format(text: &[u8]) -> (ok: bool)
    ensures
        ok == id_format(text@),
{
    if text.len() != TEXT_LEN {
        return false;
    }
    let mut at: usize = 0;
    while at < TEXT_LEN
        invariant
            at <= TEXT_LEN,
            text@.len() == TEXT_LEN,
            forall|i: int| 0 <= i < at ==> fits_place(i, #[trigger] text@[i]),
        decreases TEXT_LEN - at,
    {
        let b = text[at];
        let fits = if at == 8 || at == 13 || at == 18 || at == 23 {
            b == DASH
        } else {
            byte_is_hex(b)
        };
        if !fits {
            assert(!fits_place(at as int, text@[at as int]));
            return false;
        }
        at = at + 1;
    }
    true
}

/// The number of hyphens before the place `i` of the text of an id.
pub open spec fn dashes_before(i: int) -> int {
    if i > 23 {
        4
    } else if i > 18 {
        3
    } else if i > 13 {
        2
    } else if i > 8 {
        1
    } else {
        0
    }
}

/// The hexadecimal digit of `value` with the index `k`, counted from the
/// most significant digit, which has the index 0.
pub open spec fn nibble(value: u128, k: int) -> u128 {
    (value >> ((4 * (31 - k)) as u128)) & 0xf
}

/// The character of a hexadecimal digit, in lower case.
pub open spec fn hex_char(digit: u128) -> char {
    if digit < 10 {
        ((0x30 + digit) as u8) as char
    } else {
        ((0x61 + digit - 10) as u8) as char
    }
}

/// The text of the id with the value `value`.
pub open spec fn id_text(value: u128) -> Seq<char> {
    Seq::new(
        TEXT_LEN as nat,
        |i: int|
            if is_dash_place(i) {
                '-'
            } else {
                hex_char(nibble(value, i - dashes_before(i)))
            },
    )
}

/// The value is that of a random UUID: version 4, variant of RFC 4122.
pub open spec fn is_random_uuid(value: u128) -> bool {
    &&& (value >> 76) & 0xf == 4
    &&& (value >> 62) & 0x3 == 2
}

/// A random UUID is not nil.
pub proof fn lemma_random_uuid_is_not_nil(value: u128)
    requires
        is_random_uuid(value),
    ensures
        value != 0,
{
    assert((value >> 76) & 0xf == 4 ==> value != 0) by (bit_vector);
}

/// `Uuid::new_v4`, as a number: sixteen random bytes in which the version
/// is set to 4 and the variant to that of RFC 4122. It panics where the
/// system has no source of random bytes.
#[verifier::external_body]
fn uuid_new_v4() -> (value: u128)
    ensures
        is_random_uuid(value),
{
    Uuid::new_v4().as_u128()
}

/// `Uuid::parse_str`, as a number. The function reads more forms than
/// the one of [`id_format`]; of that form it gives the number that the
/// digits spell, and of the others nothing is claimed here.
#[verifier::external_body]
fn uuid_parse_str(input: &str) -> (parsed: Option<u128>)
    ensures
        id_format(input.spec_bytes()) ==> parsed.is_some() && parsed.unwrap() == hex_value(
            input.spec_bytes(),
        ),
{
    match Uuid::parse_str(input) {
        Ok(uuid) => Some(uuid.as_u128()),
        Err(_) => None,
    }
}

/// `Uuid::to_hyphenated`, displayed: the 32 digits of the number in lower
/// case, with hyphens after 8, 12, 16 and 20 of them.
#[verifier::external_body]
fn uuid_hyphenated(value: u128) -> (text: String)
    ensures
        text@ == id_text(value),
{
    Uuid::from_u128(value).to_hyphenated().to_string()
}

/// Universally unique ID for the database.
#[derive(Debug, PartialEq, Eq, Structural, PartialOrd, Ord)]
pub struct ID {
    value: u128,
}

impl ID {
    /// The 128-bit value of the id.
    pub closed spec fn view(&self) -> u128 {
        self.value
    }

    /// Creates a new unique ID: a random one, which is never nil.
    pub fn new() -> (id: ID)
        ensures
            is_random_uuid(id@),
            id@ != 0,
    {
        let value = uuid_new_v4();
        proof {
            lemma_random_uuid_is_not_nil(value);
        }
        ID { value }
    }

    /// Returns the nil ID, whose value is zero.
    pub fn nil() -> (id: ID)
        ensures
            id@ == 0,
    {
        ID { value: 0 }
    }

    /// Parses a string into an ID. Only the text of an id is read: the
    /// hyphenated form in lower case.
    pub fn parse(input: &str) -> (parsed: Option<ID>)
        ensures
            id_format(input.spec_bytes()) ==> parsed.is_some() && parsed.unwrap()@ == hex_value(
                input.spec_bytes(),
            ),
            !id_format(input.spec_bytes()) ==> parsed.is_none(),
    {
        if has_id_format(input.as_bytes()) {
            match uuid_parse_str(input) {
                Some(value) => Some(ID { value }),
                None => None,
            }
        } else {
            None
        }
    }

    /// Returns true if the ID is nil.
    pub fn is_nil(&self) -> (nil: bool)
        ensures
            nil == (self@ == 0),
    {
        self.value == 0
    }

    /// The text of the id.
    pub fn to_string(&self) -> (text: String)
        ensures
            text@ == id_text(self@),
    {
        uuid_hyphenated(self.value)
    }
}

/// The bytes of the text of the id with the value `value`.
pub open spec fn id_text_bytes(value: u128) -> Seq<u8> {
    Seq::new(TEXT_LEN as nat, |i: int| id_text(value)[i] as u8)
}

/// The number that the `digits` most significant hexadecimal digits of
/// `value` spell.
pub open spec fn leading(value: u128, digits: int) -> nat {
    if digits <= 0 {
        0
    } else if digits >= 32 {
        value as nat
    } else {
        (value >> ((4 * (32 - digits)) as u128)) as nat
    }
}

/// Reading one more digit multiplies by 16 and adds the digit.
pub proof fn lemma_next_digit(value: u128, k: int)
    requires
        0 <= k < 32,
    ensures
        nibble(value, k) < 16,
        leading(value, k + 1) == leading(value, k) * 16 + nibble(value, k),
{
    let shift = (4 * (31 - k)) as u128;
    assert((value >> shift) & 0xf < 16) by (bit_vector);
    if k == 0 {
        assert((value >> 124) == (value >> 124) & 0xf) by (bit_vector);
    } else {
        assert(shift <= 120 ==> (value >> shift) == (value >> ((shift + 4) as u128)) * 16 + ((value
            >> shift) & 0xf)) by (bit_vector);
        assert((value >> 0) == value) by (bit_vector);
    }
}

/// The byte of a digit is a hexadecimal digit, not a hyphen, and has the
/// value of the digit.
pub proof fn lemma_hex_char(digit: u128)
    requires
        digit < 16,
    ensures
        is_hex(hex_char(digit) as u8),
        hex_char(digit) as u8 != DASH,
        digit_value(hex_char(digit) as u8) == digit,
        hex_char(digit) <= '\u{7f}',
{
}

/// The first `i` bytes of the text of an id spell its leading digits.
pub proof fn lemma_text_prefix(value: u128, i: int)
    requires
        0 <= i <= TEXT_LEN,
    ensures
        hex_value(id_text_bytes(value).take(i)) == leading(value, i - dashes_before(i)),
    decreases i,
{
    let bytes = id_text_bytes(value);
    if i > 0 {
        let at = i - 1;
        lemma_text_prefix(value, at);
        let read = bytes.take(i);
        assert(read.drop_last() =~= bytes.take(at));
        assert(read.last() == bytes[at]);
        if !is_dash_place(at) {
            let k = at - dashes_before(at);
            lemma_next_digit(value, k);
            lemma_hex_char(nibble(value, k));
        }
    }
}

/// The text of an id reads back as the id: it has the format of an id, and
/// its digits spell the value.
pub proof fn law_text_reads_back(value: u128)
    ensures
        id_format(id_text_bytes(value)),
        hex_value(id_text_bytes(value)) == value,
{
    let bytes = id_text_bytes(value);
    assert forall|i: int| 0 <= i < TEXT_LEN implies fits_place(i, #[trigger] bytes[i]) by {
        if !is_dash_place(i) {
            let k = i - dashes_before(i);
            lemma_next_digit(value, k);
            lemma_hex_char(nibble(value, k));
        }
    }
    lemma_text_prefix(value, TEXT_LEN as int);
    assert(bytes.take(TEXT_LEN as int) =~= bytes);
}

/// A string that holds the text of an id has the bytes of that text, so
/// [`ID::parse`] gives back the id that [`ID::to_string`] was called on.
pub proof fn law_parse_undoes_to_string(value: u128, text: &str)
    requires
        text@ == id_text(value),
    ensures
        text.spec_bytes() == id_text_bytes(value),
        id_format(text.spec_bytes()),
        hex_value(text.spec_bytes()) == value,
{
    assert(is_ascii_chars(text@)) by {
        assert forall|i: int| 0 <= i < text@.len() implies '\0' <= #[trigger] text@[i] <= '\u{7f}' by {
            if !is_dash_place(i) {
                let k = i - dashes_before(i);
                lemma_next_digit(value, k);
                lemma_hex_char(nibble(value, k));
            }
        }
    }
    is_ascii_chars_encode_utf8(text@);
    assert(text.spec_bytes() =~= id_text_bytes(value));
    law_text_reads_back(value);
}

} // verus!
