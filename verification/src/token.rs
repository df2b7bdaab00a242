//! Token identifiers.

use vstd::prelude::*;

verus! {

/// An opaque integer identifier for one unit of a model's vocabulary.
///
/// A token is meaningful only relative to the vocabulary of the model
/// that produced it; tokens are not portable across models.
#[derive(Clone, Copy, Debug, PartialEq, Eq, Hash, Structural)]
pub struct LlamaToken(pub i32);

impl LlamaToken {
    /// Wrap a raw token id.
    pub fn new(value: i32) -> (t: LlamaToken)
        ensures
            t.0 == value,
    {
        LlamaToken(value)
    }
}

} // verus!
