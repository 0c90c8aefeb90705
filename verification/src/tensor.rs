//! Tensors and their shapes.
use vstd::prelude::*;

verus! {

/// The shape of a tensor: its extent in each dimension, outermost first.
#[derive(Debug, PartialEq, Eq, Hash)]
pub struct Shape {
    dimensions: Vec<usize>,
}

impl View for Shape {
    type V = Seq<usize>;

    closed spec fn view(&self) -> Seq<usize> {
        self.dimensions@
    }
}

impl Shape {
    /// Makes a shape with the given dimensions.
    pub fn new(dimensions: Vec<usize>) -> (shape: Shape)
        ensures
            shape@ == dimensions@,
    {
        Shape { dimensions }
    }

    /// Returns the dimensions.
    pub fn dimensions(&self) -> (dimensions: &Vec<usize>)
        ensures
            dimensions@ == self@,
    {
        &self.dimensions
    }
}

/// A tensor of an interpreter, as it was when it was read.
#[derive(Debug)]
pub struct Tensor {
    /// The address of the runtime's tensor object.
    pub tensor_ptr: usize,
    /// The shape that the tensor had.
    pub shape: Shape,
}

impl Tensor {
    /// Returns the shape of the tensor.
    pub fn shape(&self) -> (shape: &Shape)
        ensures
            *shape == self.shape,
    {
        &self.shape
    }
}

} // verus!
