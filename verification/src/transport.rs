//! The error type of the HTTP transport, carried through as it is.

use vstd::prelude::*;

verus! {

/// `reqwest::Error`: opaque here.
#[verifier::external_type_specification]
#[verifier::external_body]
pub struct ExTransportError(reqwest::Error);

} // verus!
