use vstd::prelude::*;

verus! {

/// The model that serves a completion.
#[derive(Debug, Clone, Copy, PartialEq, Eq, Structural)]
pub enum Model {
    /// Llama 3, 8 billion parameters.
    Llama38B,
}

} // verus!
