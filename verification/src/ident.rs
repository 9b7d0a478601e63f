use vstd::prelude::*;
use vstd::string::StringExecFns;
use crate::errors::BindError;

verus! {

/// A collection identifier: the value of its canonical 128-bit UUID text form.
#[derive(Clone, Copy, Debug, PartialEq, Eq, Structural)]
pub struct CollectionId {
    pub id: u128,
}

/// The value, if any, that a UUID text denotes: what `uuid::Uuid::parse_str`
/// accepts (hyphenated, simple, braced or URN form) and the 128-bit value it
/// reads.
pub uninterp spec fn uuid_text_value(s: Seq<char>) -> Option<u128>;

/// Relies on uuid::Uuid::parse_str and Uuid::as_u128: the parse is a function
/// of the text alone, named by `uuid_text_value`.
#[verifier::external_body]
fn parse_uuid_text(s: &str) -> (r: Option<u128>)
    ensures
        r == uuid_text_value(s@),
{
    match uuid::Uuid::parse_str(s) {
        Ok(u) => Some(u.as_u128()),
        Err(_) => None,
    }
}

/// Parses a collection identifier; text that is not a UUID is rejected before
/// the engine is ever involved.
pub fn parse_collection_id(s: &str) -> (r: Result<CollectionId, BindError>)
    ensures
        match uuid_text_value(s@) {
            Some(v) => r matches Ok(c) && c.id == v,
            None => r matches Err(e) && e is MalformedIdentifier,
        },
{
    match parse_uuid_text(s) {
        Some(v) => Ok(CollectionId { id: v }),
        None => Err(
            BindError::MalformedIdentifier(String::from_str("collection id must be a valid UUID")),
        ),
    }
}

} // verus!
