use vstd::prelude::*;

use crate::text::hex_digit;
use vstd::arithmetic::power::pow;

verus! {

/// The `k`-th hexadecimal digit of a 128-bit value, the most significant first.
pub open spec fn uuid_nibble(id: u128, k: int) -> nat {
    ((id as int / pow(16, (31 - k) as nat)) % 16) as nat
}

/// How many hyphens the canonical text of an identifier has before position `i`.
pub open spec fn hyphens_before(i: int) -> int {
    if i < 8 {
        0
    } else if i < 13 {
        1
    } else if i < 18 {
        2
    } else if i < 23 {
        3
    } else {
        4
    }
}

/// The canonical text of an identifier, as `uuid::Uuid`'s `Display` writes the
/// 128-bit value `id` (taken big-endian): its 32 lower-case hexadecimal digits,
/// most significant first, in groups of 8, 4, 4, 4 and 12 joined by hyphens.
pub open spec fn uuid_text(id: u128) -> Seq<char> {
    Seq::new(
        36,
        |i: int|
            if i == 8 || i == 13 || i == 18 || i == 23 {
                '-'
            } else {
                hex_digit(uuid_nibble(id, i - hyphens_before(i)))
            },
    )
}

/// What `uuid::Uuid::parse_str` makes of a text: the 128-bit value it denotes,
/// or, where the text is not a UUID in one of the accepted forms, the message
/// that its error displays.
pub uninterp spec fn uuid_parse(text: Seq<char>) -> Result<u128, Seq<char>>;

/// Renders an identifier with `uuid::Uuid::from_u128(id).to_string()`.
///
/// Trusted: the text is `uuid_text(id)`, and `uuid::Uuid::parse_str` gives
/// the same value back from it.
#[verifier::external_body]
pub(crate) fn format_uuid(id: u128) -> (res: String)
    ensures
        res@ == uuid_text(id),
        uuid_parse(res@) is Ok && uuid_parse(res@)->Ok_0 == id,
{
    uuid::Uuid::from_u128(id).to_string()
}

/// Parses an identifier with `uuid::Uuid::parse_str`; a refusal gives the
/// error's message.
///
/// Trusted: the value, or the message, is the one `uuid_parse(text)` names.
#[verifier::external_body]
pub(crate) fn parse_uuid(text: &str) -> (res: Result<u128, String>)
    ensures
        res is Ok <==> uuid_parse(text@) is Ok,
        res is Ok ==> res->Ok_0 == uuid_parse(text@)->Ok_0,
        res is Err ==> res->Err_0@ == uuid_parse(text@)->Err_0,
{
    match uuid::Uuid::parse_str(text) {
        Ok(u) => Ok(u.as_u128()),
        Err(e) => Err(e.to_string()),
    }
}

} // verus!
