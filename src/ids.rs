use vstd::prelude::*;

verus! {

/// Relies on `uuid::Uuid::new_v4` for a random identifier, rendered by
/// `Uuid`'s `Display` in the hyphenated form of 36 characters.
#[verifier::external_body]
pub(crate) fn new_id() -> (r: String)
    ensures
        r@.len() == 36,
{
    uuid::Uuid::new_v4().to_string()
}

} // verus!
