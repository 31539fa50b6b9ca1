//! The error type that instruction handlers report to the runtime.
use vstd::prelude::*;

verus! {

/// anchor_lang::error::Error: the error half of the result that every
/// instruction handler returns. Carried through as an opaque value.
#[verifier::external_type_specification]
#[verifier::external_body]
pub struct ExAnchorError(anchor_lang::error::Error);

} // verus!
