//! The model that an interpreter is made from.
use vstd::prelude::*;

verus! {

/// A loaded model, known by the address of the runtime's model object.
///
/// An interpreter borrows its model, so that the model outlives it.
#[derive(Debug)]
pub struct Model {
    /// The address of the runtime's model object.
    pub model_ptr: usize,
}

} // verus!
