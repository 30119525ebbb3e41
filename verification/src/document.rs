//! The document: what the parser's answer to the input bytes means for the run.

use crate::diagnostics::ConvertError;
use vstd::prelude::*;

verus! {

/// What the parser's answer means for the run: a tree is passed on as it is,
/// and any refusal ends the run with [`ConvertError::MalformedDocument`],
/// which keeps the parser's reason.
pub fn document_or_error(parsed: Result<usvg::Tree, usvg::Error>) -> (tree: Result<
    usvg::Tree,
    ConvertError,
>)
    ensures
        parsed matches Ok(t) ==> tree == Ok::<usvg::Tree, ConvertError>(t),
        parsed matches Err(reason) ==> tree == Err::<usvg::Tree, ConvertError>(
            ConvertError::MalformedDocument(reason),
        ),
{
    match parsed {
        Ok(tree) => Ok(tree),
        Err(reason) => Err(ConvertError::MalformedDocument(reason)),
    }
}

} // verus!
