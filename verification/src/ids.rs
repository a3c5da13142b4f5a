//! Actor identifiers: 128-bit UUIDs, held as plain integers.

use vstd::prelude::*;

verus! {

/// The identity of an actor: the 128 bits of a UUID, most significant first.
#[derive(Clone, Copy, Debug, PartialEq, Eq, Structural, Hash)]
pub struct UserId(pub u128);

/// Why a text was not accepted as an identifier.
pub struct InvalidUserId {
    pub reason: String,
}

/// The error of `uuid::Uuid::parse_str`, carried through as it is.
#[verifier::external_type_specification]
#[verifier::external_body]
pub struct ExUuidError(uuid::Error);

/// The UUID that `uuid::Uuid::parse_str` reads from a text, as 128 bits, or
/// `None` where it rejects the text.
pub uninterp spec fn uuid_parsed(text: Seq<char>) -> Option<u128>;

/// Sixteen to the power `n`.
pub open spec fn pow16(n: nat) -> nat
    decreases n,
{
    if n == 0 {
        1
    } else {
        16 * pow16((n - 1) as nat)
    }
}

/// The lower-case hexadecimal digit for `n`, for `n` from 0 to 15.
pub open spec fn hex_char(n: int) -> char {
    if n < 10 {
        (48 + n) as u8 as char
    } else {
        (87 + n) as u8 as char
    }
}

/// The number of hyphens that stand before position `i` of a hyphenated UUID.
pub open spec fn hyphens_before(i: int) -> int {
    if i < 8 {
        0
    } else if i < 13 {
        1
    } else if i < 18 {
        2
    } else if i < 23 {
        3
    } else {
        4
    }
}

/// The canonical text of a UUID: 32 lower-case hexadecimal digits, most
/// significant first, in groups of 8, 4, 4, 4 and 12 separated by hyphens.
pub open spec fn uuid_text(bits: u128) -> Seq<char> {
    Seq::new(
        36,
        |i: int|
            if i == 8 || i == 13 || i == 18 || i == 23 {
                '-'
            } else {
                hex_char(((bits as int) / (pow16((31 - (i - hyphens_before(i))) as nat) as int)) % 16)
            },
    )
}

/// Whether `bits` is marked as a random UUID: the four bits of the version
/// are 4 and the two highest bits of the variant are 1 and 0, which is the
/// variant of RFC 9562. In the text these are the first digit of the third
/// group, `4`, and the first digit of the fourth, one of `8`, `9`, `a`, `b`.
pub open spec fn is_random_uuid(bits: u128) -> bool {
    bits & 0x0000_0000_0000_f000_c000_0000_0000_0000u128
        == 0x0000_0000_0000_4000_8000_0000_0000_0000u128
}

/// Trusted: `uuid::Uuid::new_v4`, a UUID from the operating system's random
/// source, handed over as its 128 bits. The value depends on chance; what
/// holds of every outcome is that it is marked as a random UUID, for
/// `new_v4` masks the random bits and sets the version and the variant.
#[verifier::external_body]
fn uuid_new_v4() -> (r: u128)
    ensures
        is_random_uuid(r),
{
    uuid::Uuid::new_v4().as_u128()
}

/// Trusted: `uuid::Uuid::parse_str`. The result depends on the text alone,
/// so it is named: `uuid_parsed`.
#[verifier::external_body]
fn uuid_parse_str(text: &str) -> (r: Result<u128, uuid::Error>)
    ensures
        match r {
            Ok(bits) => uuid_parsed(text@) == Some(bits),
            Err(_) => uuid_parsed(text@) is None,
        },
{
    uuid::Uuid::parse_str(text).map(|id| id.as_u128())
}

/// Trusted: `Display` of `uuid::Uuid`, which writes the hyphenated lower-case
/// form, and which `parse_str` is documented to read back ("any of the
/// formats generated by this module").
#[verifier::external_body]
fn uuid_to_string(bits: u128) -> (r: String)
    ensures
        r@ == uuid_text(bits),
        uuid_parsed(r@) == Some(bits),
{
    uuid::Uuid::from_u128(bits).to_string()
}

/// Trusted: `Display` of `uuid::Error`, the parser's message.
#[verifier::external_body]
fn uuid_error_text(e: &uuid::Error) -> String {
    e.to_string()
}

impl UserId {
    /// A fresh random identifier: a UUID of version 4.
    pub fn generate() -> (r: UserId)
        ensures
            is_random_uuid(r.0),
    {
        UserId(uuid_new_v4())
    }

    /// Reads an identifier from any of the textual UUID forms.
    pub fn parse(text: &str) -> (r: Result<UserId, InvalidUserId>)
        ensures
            match r {
                Ok(id) => uuid_parsed(text@) == Some(id.0),
                Err(_) => uuid_parsed(text@) is None,
            },
    {
        match uuid_parse_str(text) {
            Ok(bits) => Ok(UserId(bits)),
            Err(e) => Err(InvalidUserId { reason: uuid_error_text(&e) }),
        }
    }

    /// The canonical hyphenated text of the identifier; `parse` reads it back.
    pub fn to_text(&self) -> (r: String)
        ensures
            r@ == uuid_text(self.0),
            uuid_parsed(r@) == Some(self.0),
    {
        uuid_to_string(self.0)
    }
}

} // verus!
