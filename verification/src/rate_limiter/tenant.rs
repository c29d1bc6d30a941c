//! Tenant identifiers and their text form.

use uuid::Uuid;
use vstd::prelude::*;

verus! {

/// A tenant of the API: the 128 bits of its UUID.
pub type TenantId = u128;

/// The text form of the UUID with the given bits: lower-case hexadecimal
/// digits in five groups joined by hyphens.
pub uninterp spec fn uuid_text(id: u128) -> Seq<char>;

/// The bits of the UUID that a text stands for, where it stands for one.
pub uninterp spec fn uuid_from_text(text: Seq<char>) -> Option<u128>;

/// `Uuid::from_u128` and the `Display` of the `Uuid`: the hyphenated text
/// form of the tenant's identifier, which depends on the identifier alone.
#[verifier::external_body]
pub(crate) fn tenant_text(id: TenantId) -> (text: String)
    ensures
        text@ == uuid_text(id),
{
    Uuid::from_u128(id).to_string()
}

/// `Uuid::parse_str` and `Uuid::as_u128`: the identifier that a text stands
/// for, or `None` where `parse_str` refuses the text. The answer depends on
/// the text alone.
#[verifier::external_body]
pub(crate) fn parse_tenant(text: &str) -> (id: Option<TenantId>)
    ensures
        id == uuid_from_text(text@),
{
    match Uuid::parse_str(text) {
        Ok(uuid) => Some(uuid.as_u128()),
        Err(_) => None,
    }
}

} // verus!
