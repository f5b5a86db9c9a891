//! User identities: 128-bit values with a 32-digit hexadecimal text form.

use vstd::prelude::*;
use vstd::string::*;
use crate::error::{AppError, AppResult};

verus! {

/// The lower-case hexadecimal digit of a value below sixteen.
pub open spec fn hex_digit(n: u128) -> char {
    if n == 0 { '0' } else if n == 1 { '1' } else if n == 2 { '2' } else if n == 3 { '3' }
    else if n == 4 { '4' } else if n == 5 { '5' } else if n == 6 { '6' } else if n == 7 { '7' }
    else if n == 8 { '8' } else if n == 9 { '9' } else if n == 10 { 'a' } else if n == 11 { 'b' }
    else if n == 12 { 'c' } else if n == 13 { 'd' } else if n == 14 { 'e' } else { 'f' }
}

/// Whether `c` is a lower-case hexadecimal digit.
pub open spec fn is_lower_hex(c: char) -> bool {
    ('0' <= c && c <= '9') || ('a' <= c && c <= 'f')
}

/// The `i`-th group of four bits of `value`, counted from the most
/// significant end.
pub open spec fn nibble(value: u128, i: int) -> u128 {
    (value >> ((4 * (31 - i)) as u128)) & 0xf
}

/// The text form of a 128-bit value: thirty-two lower-case hexadecimal
/// digits, most significant first, with no separators.
pub open spec fn simple_text(value: u128) -> Seq<char> {
    Seq::new(32, |i: int| hex_digit(nibble(value, i)))
}

/// What `uuid::Uuid::parse_str` makes of a text: the 128-bit value it
/// denotes, or `None` where the text is rejected.
pub uninterp spec fn uuid_parse(text: Seq<char>) -> Option<u128>;

/// Calls `uuid::Uuid::parse_str` and hands back the value as an integer.
/// The result is named by `uuid_parse`. Of that name one fact is stated, which
/// the parser's source gives: a text of thirty-two lower-case hexadecimal
/// digits is read back as the value whose digits they are.
#[verifier::external_body]
fn parse_uuid(text: &str) -> (parsed: Option<u128>)
    ensures
        parsed == uuid_parse(text@),
        forall|value: u128| text@ == simple_text(value) ==> parsed == Some(value),
{
    match uuid::Uuid::parse_str(text) {
        Ok(id) => Some(id.as_u128()),
        Err(_) => None,
    }
}

/// Whether a value has the fixed bits of a random identity: the thirteenth
/// hexadecimal digit, which marks the version, is 4, and the two bits below
/// bit 64, which mark the variant, are one and zero.
pub open spec fn is_version_four(value: u128) -> bool {
    nibble(value, 12) == 4 && (value >> 62u128) & 0x3 == 2
}

/// Calls `uuid::Uuid::new_v4` for 128 bits that are random but for the six
/// that mark version and variant. Which value comes out is not determined.
/// What is claimed is what the generator sets in every value: version 4 and
/// the variant bits `10`.
#[verifier::external_body]
fn random_uuid() -> (value: u128)
    ensures
        is_version_four(value),
{
    uuid::Uuid::new_v4().as_u128()
}

fn hex_digit_str(n: u8) -> (digit: &'static str)
    requires
        n < 16,
    ensures
        digit@ == seq![hex_digit(n as u128)],
{
    proof {
        reveal_strlit("0"); reveal_strlit("1"); reveal_strlit("2"); reveal_strlit("3");
        reveal_strlit("4"); reveal_strlit("5"); reveal_strlit("6"); reveal_strlit("7");
        reveal_strlit("8"); reveal_strlit("9"); reveal_strlit("a"); reveal_strlit("b");
        reveal_strlit("c"); reveal_strlit("d"); reveal_strlit("e"); reveal_strlit("f");
    }
    let digit = if n == 0 { "0" } else if n == 1 { "1" } else if n == 2 { "2" }
        else if n == 3 { "3" } else if n == 4 { "4" } else if n == 5 { "5" }
        else if n == 6 { "6" } else if n == 7 { "7" } else if n == 8 { "8" }
        else if n == 9 { "9" } else if n == 10 { "a" } else if n == 11 { "b" }
        else if n == 12 { "c" } else if n == 13 { "d" } else if n == 14 { "e" } else { "f" };
    assert(digit@ =~= seq![hex_digit(n as u128)]);
    digit
}

fn nibble_at(value: u128, i: u8) -> (n: u8)
    requires
        i < 32,
    ensures
        n as u128 == nibble(value, i as int),
        n < 16,
{
    let shift: u128 = 4 * (31 - i as u128);
    let masked: u128 = (value >> shift) & 0xf;
    assert(masked < 16) by (bit_vector)
        requires
            masked == (value >> shift) & 0xf,
    ;
    masked as u8
}

/// Writes a 128-bit value as thirty-two lower-case hexadecimal digits.
pub fn format_simple(value: u128) -> (text: String)
    ensures
        text@ == simple_text(value),
{
    let mut text = String::new();
    let mut i: u8 = 0;
    while i < 32
        invariant
            i <= 32,
            text@.len() == i,
            forall|k: int| 0 <= k < i ==> text@[k] == hex_digit(nibble(value, k)),
        decreases 32 - i,
    {
        let n: u8 = nibble_at(value, i);
        text.append(hex_digit_str(n));
        i = i + 1;
    }
    assert(text@ =~= simple_text(value));
    text
}

/// Every character of a value's text form is a lower-case hexadecimal digit.
pub proof fn simple_text_is_lower_hex(value: u128)
    ensures
        simple_text(value).len() == 32,
        forall|i: int| 0 <= i < 32 ==> is_lower_hex(#[trigger] simple_text(value)[i]),
{
    assert forall|i: int| 0 <= i < 32 implies is_lower_hex(#[trigger] simple_text(value)[i]) by {
        let n = nibble(value, i);
        let shift: u128 = (4 * (31 - i)) as u128;
        assert(n < 16) by (bit_vector)
            requires
                n == (value >> shift) & 0xf,
        ;
    }
}

/// The identity of a user: an opaque 128-bit value, fixed when the account
/// is created.
#[derive(Clone, Copy, Debug, PartialEq, Eq, Structural)]
pub struct UserId(pub u128);

impl UserId {
    /// The text of this identity as the stores hold it.
    pub open spec fn text(self) -> Seq<char> {
        simple_text(self.0)
    }

    /// The identity that a stored text denotes, if it denotes one.
    pub open spec fn parse(text: Seq<char>) -> Option<UserId> {
        match uuid_parse(text) {
            Some(value) => Some(UserId(value)),
            None => None,
        }
    }

    /// A fresh identity, drawn at random. Which one is not determined; every
    /// one carries the marks of a random identity, version 4.
    pub fn new() -> (id: UserId)
        ensures
            is_version_four(id.0),
    {
        UserId(random_uuid())
    }

    pub fn raw(self) -> (value: u128)
        ensures
            value == self.0,
    {
        self.0
    }

    /// Reads an identity from its text. A text that denotes none is a
    /// conversion error.
    pub fn from_str(text: &str) -> (parsed: AppResult<UserId>)
        ensures
            parsed == Self::parsed_or_error(Self::parse(text@)),
            forall|id: UserId| text@ == id.text() ==> parsed == Ok::<UserId, AppError>(id),
    {
        match parse_uuid(text) {
            Some(value) => Ok(UserId(value)),
            None => Err(AppError::Conversion),
        }
    }

    pub open spec fn parsed_or_error(parsed: Option<UserId>) -> AppResult<UserId> {
        match parsed {
            Some(id) => Ok(id),
            None => Err(AppError::Conversion),
        }
    }

    /// Writes the identity as thirty-two lower-case hexadecimal digits.
    pub fn to_string(&self) -> (text: String)
        ensures
            text@ == self.text(),
    {
        format_simple(self.0)
    }
}

} // verus!
