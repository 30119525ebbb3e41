//! Trusted: the types of the `usvg` document parser that pass through this
//! crate. The verifier sees nothing inside them, and nothing is stated of
//! them.

use vstd::prelude::*;

verus! {

/// `usvg::Tree`, a parsed document.
#[verifier::external_type_specification]
#[verifier::external_body]
pub struct ExTree(usvg::Tree);

/// `usvg::Error`, the reason some bytes are no document.
#[verifier::external_type_specification]
#[verifier::external_body]
pub struct ExError(usvg::Error);

} // verus!
