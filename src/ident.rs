use vstd::prelude::*;

verus! {

/// Relies on `uuid::Uuid::new_v4` and the `Display` of `uuid::Uuid`: a random
/// version 4 UUID written in its hyphenated form, which is always 36
/// characters long. Nothing is promised of which one comes out.
#[verifier::external_body]
pub(crate) fn fresh_id() -> (r: String)
    ensures
        r@.len() == 36,
{
    uuid::Uuid::new_v4().to_string()
}

} // verus!
