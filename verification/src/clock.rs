//! What only the machine can give: a fresh identifier and the time of day.

use vstd::prelude::*;

verus! {

/// Calls `uuid::Uuid::new_v4` and renders the identifier with `to_string`.
/// Believed: the text is the hyphenated form, 36 characters long. Which
/// identifier comes out is left open: it is random. The call relies on the
/// system's source of randomness being there.
#[verifier::external_body]
pub(crate) fn fresh_identifier() -> (id: String)
    ensures
        id@.len() == 36,
{
    uuid::Uuid::new_v4().to_string()
}

/// Calls `chrono::Utc::now` and renders the time with `to_rfc3339`. Nothing is
/// claimed of the text: it depends on the clock. The call relies on the
/// system's clock not standing before 1970.
#[verifier::external_body]
pub(crate) fn timestamp_now() -> (stamp: String) {
    chrono::Utc::now().to_rfc3339()
}

} // verus!
