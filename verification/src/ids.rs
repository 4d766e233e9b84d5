//! Identifier handling at the edges of the library: parsing and printing
//! canonical workspace ids, and drawing the fresh unique tokens that name a
//! session's bus addresses. The outside calls stand behind trusted wrappers;
//! everything that consumes their results is verified.
use vstd::prelude::*;

verus! {

/// What `uuid::Uuid::parse_str` yields on a given text, as a 128-bit value:
/// `None` where the text is not a uuid in any accepted form, and `Some` of
/// the uuid's big-endian 128-bit value where it is. The result depends on
/// the characters alone.
pub uninterp spec fn uuid_parse(s: Seq<char>) -> Option<u128>;

/// The canonical hyphenated lowercase text of a 128-bit uuid value, as
/// `uuid::Uuid::to_string` renders it. The result depends on the value
/// alone.
pub uninterp spec fn uuid_text_of(id: u128) -> Seq<char>;

/// True for the characters a hyphenated lowercase uuid is made of.
pub open spec fn uuid_text_char(c: char) -> bool {
    ('0' <= c && c <= '9') || ('a' <= c && c <= 'f') || c == '-'
}

/// Relies on `uuid::Uuid::parse_str` and `uuid::Uuid::as_u128`: parsing
/// accepts only the simple, hyphenated, braced and urn uuid forms, all of
/// them 32 to 45 characters long, and returns the uuid's 128-bit value.
#[verifier::external_body]
pub(crate) fn parse_workspace_id(s: &str) -> (r: Option<u128>)
    ensures
        r == uuid_parse(s@),
        r is Some ==> 32 <= s@.len() <= 45,
{
    match uuid::Uuid::parse_str(s) {
        Ok(u) => Some(u.as_u128()),
        Err(_) => None,
    }
}

/// Relies on `uuid::Uuid::from_u128` and the hyphenated lowercase `Display`
/// form of `uuid::Uuid`: 36 characters, each a lowercase hex digit or a
/// hyphen.
#[verifier::external_body]
pub(crate) fn workspace_id_text(id: u128) -> (r: String)
    ensures
        r@ == uuid_text_of(id),
        r@.len() == 36,
        forall|i: int| 0 <= i < r@.len() ==> uuid_text_char(#[trigger] r@[i]),
{
    uuid::Uuid::from_u128(id).hyphenated().to_string()
}

/// True for the characters a fresh address token is made of.
pub open spec fn token_char(c: char) -> bool {
    ('0' <= c && c <= '9') || ('A' <= c && c <= 'Z') || ('a' <= c && c <= 'z')
}

/// Relies on `nuid::next`: every token is 22 characters drawn from the
/// base-62 alphanumeric alphabet. Distinct calls are meant to yield distinct
/// tokens; nothing is promised of which token comes back.
#[verifier::external_body]
pub(crate) fn fresh_address() -> (r: String)
    ensures
        r@.len() == 22,
        forall|i: int| 0 <= i < r@.len() ==> token_char(#[trigger] r@[i]),
{
    nuid::next().as_str().to_owned()
}

} // verus!
