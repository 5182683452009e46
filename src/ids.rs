use vstd::prelude::*;

verus! {

/// The nil identifier, all 128 bits zero: what an unreadable group id
/// decodes to.
pub const NIL_ID: u128 = 0;

/// What `uuid::Uuid::parse_str` yields for a text, as the identifier's 128
/// bits; `None` where the text is no identifier.
pub uninterp spec fn parsed_id(s: Seq<char>) -> Option<u128>;

/// The text that `uuid::Uuid`'s `Display` writes for an identifier.
pub uninterp spec fn id_text(id: u128) -> Seq<char>;

/// Relies on `uuid::Uuid::parse_str`, taken as a function of the text alone.
#[verifier::external_body]
pub(crate) fn parse_id(s: &str) -> (r: Option<u128>)
    ensures
        r == parsed_id(s@),
{
    uuid::Uuid::parse_str(s).ok().map(|u| u.as_u128())
}

/// Relies on `uuid::Uuid`'s `Display`: the hyphenated form, 36 characters,
/// which `uuid::Uuid::parse_str` reads back to the same identifier.
#[verifier::external_body]
pub(crate) fn id_to_text(id: u128) -> (r: String)
    ensures
        r@ == id_text(id),
        r@.len() == 36,
        parsed_id(r@) == Some(id),
{
    uuid::Uuid::from_u128(id).to_string()
}

} // verus!
