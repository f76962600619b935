//! Identifiers of accounts, transactions and purchases: 128-bit values that
//! are drawn at random and written as UUID text.

use std::str::FromStr;
use uuid::Uuid;
use vstd::prelude::*;

verus! {

/// `uuid::Error`: why a text spells no identifier. Nothing is read from it.
#[verifier::external_type_specification]
#[verifier::external_body]
pub struct ExUuidError(uuid::Error);

/// The identifier that a text spells in one of the UUID notations, if it
/// spells one.
pub uninterp spec fn id_of_text(text: Seq<char>) -> Option<u128>;

/// The hyphenated lower-case UUID text of an identifier.
pub uninterp spec fn text_of_id(id: u128) -> Seq<char>;

/// The bits that every randomly drawn identifier has in common: the version
/// field reads 4 and the variant field starts with the bits 1 0.
pub open spec fn is_random_id(id: u128) -> bool {
    id & 0x0000_0000_0000_f000_c000_0000_0000_0000u128
        == 0x0000_0000_0000_4000_8000_0000_0000_0000u128
}

/// Calls `Uuid::new_v4` and hands back the identifier's 128 bits. Trusted:
/// the bits are random but for the version and variant fields, which
/// `new_v4` sets as `is_random_id` says.
#[verifier::external_body]
pub(crate) fn draw_id() -> (id: u128)
    ensures
        is_random_id(id),
{
    Uuid::new_v4().as_u128()
}

/// Calls `Uuid::from_str`. Trusted: whether the text is accepted, and the
/// bits it stands for, depend on the text alone; `id_of_text` names them.
#[verifier::external_body]
pub(crate) fn read_id(text: &str) -> (r: Result<u128, uuid::Error>)
    ensures
        match r {
            Ok(id) => id_of_text(text@) == Some(id),
            Err(_) => id_of_text(text@) is None,
        },
{
    match Uuid::from_str(text) {
        Ok(id) => Ok(id.as_u128()),
        Err(e) => Err(e),
    }
}

/// Calls `Uuid::to_string` on the identifier with these bits. Trusted: the
/// text depends on the bits alone; `text_of_id` names it.
#[verifier::external_body]
pub(crate) fn write_id(id: u128) -> (text: String)
    ensures
        text@ == text_of_id(id),
{
    Uuid::from_u128(id).to_string()
}

/// Draws a fresh identifier at random.
pub fn fresh_id() -> (id: u128)
    ensures
        is_random_id(id),
{
    draw_id()
}

/// Reads an identifier from UUID text; `None` where the text spells none.
pub fn parse_id(text: &str) -> (r: Option<u128>)
    ensures
        r == id_of_text(text@),
{
    match read_id(text) {
        Ok(id) => Some(id),
        Err(_) => None,
    }
}

/// The identifier as hyphenated lower-case UUID text.
pub fn id_to_string(id: u128) -> (text: String)
    ensures
        text@ == text_of_id(id),
{
    write_id(id)
}

} // verus!
