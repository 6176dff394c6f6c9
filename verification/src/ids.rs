//! Fresh record identifiers.

use vstd::prelude::*;

verus! {

/// A fresh random identifier for a new record.
///
/// Calls `uuid::Uuid::new_v4` and renders it as text. The value is random,
/// so nothing is promised about it: two calls may be told apart only by
/// running them.
#[verifier::external_body]
pub(crate) fn new_id() -> (id: String) {
    uuid::Uuid::new_v4().to_string()
}

} // verus!
