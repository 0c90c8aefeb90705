//! Errors that the operations on an interpreter report.
use vstd::prelude::*;

verus! {

/// The category of an [`Error`].
#[derive(Debug, Clone, Copy, PartialEq, Eq, Hash, PartialOrd, Ord, Structural)]
#[non_exhaustive]
pub enum ErrorKind {
    /// The interpreter, or the options object that it is made from, could not be created.
    FailedToCreateInterpreter,
    /// Memory for the input tensors could not be allocated.
    FailedToAllocateTensors,
    /// The input tensor at the given index could not be resized.
    FailedToResizeInputTensor(usize),
    /// Data could not be copied into the input tensor.
    FailedToCopyDataToInputTensor,
    /// The given index is larger than the largest valid one, which comes second.
    InvalidTensorIndex(usize, usize),
    /// The given number of bytes differs from the size of the tensor, which comes second.
    InvalidTensorDataCount(usize, usize),
    /// A tensor's data or description could not be read.
    ReadTensorError,
    /// Tensors have to be allocated first.
    AllocateTensorsRequired,
    /// The interpreter has to be invoked first.
    InvokeInterpreterRequired,
}

/// The error type of this crate.
#[derive(Debug, Clone, Copy, PartialEq, Eq, Hash, PartialOrd, Ord, Structural)]
pub struct Error {
    /// The category of the error.
    pub kind: ErrorKind,
}

impl Error {
    /// Makes an error of the given category.
    pub fn new(kind: ErrorKind) -> (error: Error)
        ensures
            error == (Error { kind }),
    {
        Error { kind }
    }

    /// Returns the category of the error.
    pub fn kind(&self) -> (kind: ErrorKind)
        ensures
            kind == self.kind,
    {
        self.kind
    }
}

} // verus!
