//! Typed decode errors.
//!
//! A decode failure is recoverable and carries what went wrong; it is never
//! papered over with a default value.

use vstd::prelude::*;

verus! {

/// What the marshaller reports when a reply cannot be turned into a typed
/// value.
#[derive(Debug, PartialEq, Eq)]
pub enum Error {
    /// The token is not in the parameter family's table. Carries the family
    /// name and the offending token.
    UnknownToken { family: String, token: String },
    /// The text is not a decimal number of the expected width. Carries the
    /// offending token.
    MalformedNumber { token: String },
}

} // verus!
