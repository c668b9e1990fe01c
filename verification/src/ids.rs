//! Flow identifiers.
//!
//! A flow is identified by a UUID. Inside this crate the identifier is its
//! 128-bit value; the textual form (parsing at lookup boundaries, formatting
//! for callers) is delegated to the `uuid` crate through the two trusted
//! wrappers below.

use vstd::prelude::*;

verus! {

/// The 128-bit value that a given string parses to as a UUID, if any.
pub uninterp spec fn parsed_flow_id(s: Seq<char>) -> Option<u128>;

/// The canonical hyphenated text of a 128-bit flow identifier.
pub uninterp spec fn flow_id_text(id: u128) -> Seq<char>;

/// Relies on `uuid::Uuid::parse_str` and `Uuid::as_u128`: whether a string
/// parses as a UUID, and to which 128-bit value, depends on the characters
/// alone.
#[verifier::external_body]
pub(crate) fn parse_flow_id(s: &str) -> (r: Option<u128>)
    ensures
        r == parsed_flow_id(s@),
{
    match uuid::Uuid::parse_str(s) {
        Ok(parsed) => Some(parsed.as_u128()),
        Err(_) => None,
    }
}

/// Relies on `uuid::Uuid`'s `Display` impl, which prints the hyphenated
/// form: 36 characters, a function of the 128-bit value alone — and on
/// `Uuid::parse_str` accepting exactly that form, so the text parses back
/// to the same identifier.
#[verifier::external_body]
pub(crate) fn format_flow_id(id: u128) -> (r: String)
    ensures
        r@ == flow_id_text(id),
        r@.len() == 36,
        parsed_flow_id(r@) == Some(id),
{
    uuid::Uuid::from_u128(id).to_string()
}

} // verus!
