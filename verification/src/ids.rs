//! Globally unique identifiers for findings and reports.

use vstd::prelude::*;

verus! {

/// Relies on uuid::Uuid::new_v4 and its Display impl: a fresh random
/// version-4 UUID rendered in the hyphenated form, which is 36 characters.
/// The value is random, so nothing beyond its shape is promised.
#[verifier::external_body]
pub fn fresh_id() -> (r: String)
    ensures
        r@.len() == 36,
{
    uuid::Uuid::new_v4().to_string()
}

} // verus!
