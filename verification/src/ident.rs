//! Identifiers for new tasks.

use vstd::prelude::*;

verus! {

/// The number of characters in an identifier: 32 hexadecimal digits and 4 hyphens.
pub const ID_LENGTH: usize = 36;

/// A random version-4 identifier from `uuid::Uuid::new_v4`, written out by its
/// `Display` impl in the hyphenated form, which always has 36 characters.
/// Which identifier comes back is left open: two calls may give any two values.
/// The generator stops the process if the system cannot supply random bytes.
#[verifier::external_body]
pub(crate) fn fresh_id() -> (id: String)
    ensures
        id@.len() == ID_LENGTH,
{
    uuid::Uuid::new_v4().to_string()
}

} // verus!
