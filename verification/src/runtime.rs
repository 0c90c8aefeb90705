//! What an interpreter asks of the TensorFlow Lite runtime, and what it hears back.
//!
//! Objects of the runtime are known by their addresses; the address 0 is the null pointer.
use crate::error::Error;
use crate::tensor::Tensor;
use vstd::prelude::*;

verus! {

/// The status with which the runtime reports success (`kTfLiteOk`).
pub const STATUS_OK: u32 = 0;

/// A call into the runtime, with its arguments.
///
/// `T` is the element type of a buffer that a tensor is filled from.
#[derive(Debug)]
pub enum Call<'c, T> {
    /// `TfLiteInterpreterOptionsCreate`. Answered by an address.
    OptionsCreate,
    /// `TfLiteInterpreterOptionsSetNumThreads`. Answered when done.
    OptionsSetNumThreads { options: usize, num_threads: i32 },
    /// `TfLiteXNNPackDelegateCreate`, on the default XNNPACK options with the number of threads
    /// replaced where one is given. Answered by an address.
    XnnpackDelegateCreate { thread_count: Option<i32> },
    /// `TfLiteExternalDelegateCreate`, on the default options for the library at `path`.
    /// Answered by an address.
    ExternalDelegateCreate { path: &'c str },
    /// `TfLiteInterpreterOptionsAddDelegate`. Answered when done.
    OptionsAddDelegate { options: usize, delegate: usize },
    /// `TfLiteInterpreterCreate`. Answered by an address.
    InterpreterCreate { model: usize, options: usize },
    /// `TfLiteInterpreterOptionsDelete`. Answered when done.
    OptionsDelete { options: usize },
    /// `TfLiteInterpreterGetInputTensorCount`. Answered by a count.
    InputTensorCount { interpreter: usize },
    /// `TfLiteInterpreterGetOutputTensorCount`. Answered by a count.
    OutputTensorCount { interpreter: usize },
    /// `TfLiteInterpreterInvoke`. Answered by a status.
    Invoke { interpreter: usize },
    /// `TfLiteInterpreterAllocateTensors`. Answered by a status.
    AllocateTensors { interpreter: usize },
    /// `TfLiteInterpreterGetInputTensor`. Answered by an address.
    InputTensor { interpreter: usize, index: i32 },
    /// `TfLiteInterpreterGetOutputTensor`. Answered by an address.
    OutputTensor { interpreter: usize, index: i32 },
    /// Reads the tensor at an address. Answered by the tensor, or by why it could not be read.
    ReadTensor { tensor: usize },
    /// `TfLiteInterpreterResizeInputTensor`. Answered by a status.
    ResizeInputTensor { interpreter: usize, index: i32, dims: &'c [i32], dims_size: i32 },
    /// `TfLiteTensorByteSize`. Answered by a number of bytes.
    TensorByteSize { tensor: usize },
    /// `TfLiteTensorCopyFromBuffer`, from the memory of `data`. Answered by a status.
    TensorCopyFromBuffer { tensor: usize, data: &'c [T], byte_count: usize },
    /// `TfLiteInterpreterDelete`. Answered when done.
    InterpreterDelete { interpreter: usize },
    /// `TfLiteXNNPackDelegateDelete`. Answered when done.
    XnnpackDelegateDelete { delegate: usize },
    /// `TfLiteExternalDelegateDelete`. Answered when done.
    ExternalDelegateDelete { delegate: usize },
}

/// The mathematical model of a [`Call`].
#[verifier::ext_equal]
pub ghost enum CallView<T> {
    OptionsCreate,
    OptionsSetNumThreads { options: usize, num_threads: i32 },
    XnnpackDelegateCreate { thread_count: Option<i32> },
    ExternalDelegateCreate { path: Seq<char> },
    OptionsAddDelegate { options: usize, delegate: usize },
    InterpreterCreate { model: usize, options: usize },
    OptionsDelete { options: usize },
    InputTensorCount { interpreter: usize },
    OutputTensorCount { interpreter: usize },
    Invoke { interpreter: usize },
    AllocateTensors { interpreter: usize },
    InputTensor { interpreter: usize, index: i32 },
    OutputTensor { interpreter: usize, index: i32 },
    ReadTensor { tensor: usize },
    ResizeInputTensor { interpreter: usize, index: i32, dims: Seq<i32>, dims_size: i32 },
    TensorByteSize { tensor: usize },
    TensorCopyFromBuffer { tensor: usize, data: Seq<T>, byte_count: usize },
    InterpreterDelete { interpreter: usize },
    XnnpackDelegateDelete { delegate: usize },
    ExternalDelegateDelete { delegate: usize },
}

impl<'c, T> View for Call<'c, T> {
    type V = CallView<T>;

    open spec fn view(&self) -> CallView<T> {
        match *self {
            Call::OptionsCreate => CallView::OptionsCreate,
            Call::OptionsSetNumThreads { options, num_threads } => {
                CallView::OptionsSetNumThreads { options, num_threads }
            },
            Call::XnnpackDelegateCreate { thread_count } => {
                CallView::XnnpackDelegateCreate { thread_count }
            },
            Call::ExternalDelegateCreate { path } => {
                CallView::ExternalDelegateCreate { path: path@ }
            },
            Call::OptionsAddDelegate { options, delegate } => {
                CallView::OptionsAddDelegate { options, delegate }
            },
            Call::InterpreterCreate { model, options } => {
                CallView::InterpreterCreate { model, options }
            },
            Call::OptionsDelete { options } => CallView::OptionsDelete { options },
            Call::InputTensorCount { interpreter } => CallView::InputTensorCount { interpreter },
            Call::OutputTensorCount { interpreter } => CallView::OutputTensorCount { interpreter },
            Call::Invoke { interpreter } => CallView::Invoke { interpreter },
            Call::AllocateTensors { interpreter } => CallView::AllocateTensors { interpreter },
            Call::InputTensor { interpreter, index } => CallView::InputTensor { interpreter, index },
            Call::OutputTensor { interpreter, index } => {
                CallView::OutputTensor { interpreter, index }
            },
            Call::ReadTensor { tensor } => CallView::ReadTensor { tensor },
            Call::ResizeInputTensor { interpreter, index, dims, dims_size } => {
                CallView::ResizeInputTensor { interpreter, index, dims: dims@, dims_size }
            },
            Call::TensorByteSize { tensor } => CallView::TensorByteSize { tensor },
            Call::TensorCopyFromBuffer { tensor, data, byte_count } => {
                CallView::TensorCopyFromBuffer { tensor, data: data@, byte_count }
            },
            Call::InterpreterDelete { interpreter } => CallView::InterpreterDelete { interpreter },
            Call::XnnpackDelegateDelete { delegate } => CallView::XnnpackDelegateDelete { delegate },
            Call::ExternalDelegateDelete { delegate } => CallView::ExternalDelegateDelete { delegate },
        }
    }
}

/// What the runtime answers to a [`Call`].
#[derive(Debug)]
pub enum Reply {
    /// The call is done and has no result.
    Done,
    /// The address of an object; 0 where there is none.
    Address(usize),
    /// A number of tensors.
    Count(i32),
    /// A number of bytes.
    ByteSize(usize),
    /// A status: [`STATUS_OK`] or the code of a failure.
    Status(u32),
    /// A tensor that was read.
    Tensor(Result<Tensor, Error>),
}

impl Reply {
    /// Whether this reply is of the kind that answers the given call.
    pub open spec fn answers<T>(&self, call: CallView<T>) -> bool {
        match call {
            CallView::OptionsCreate
            | CallView::XnnpackDelegateCreate { .. }
            | CallView::ExternalDelegateCreate { .. }
            | CallView::InterpreterCreate { .. }
            | CallView::InputTensor { .. }
            | CallView::OutputTensor { .. } => self is Address,
            CallView::OptionsSetNumThreads { .. }
            | CallView::OptionsAddDelegate { .. }
            | CallView::OptionsDelete { .. }
            | CallView::InterpreterDelete { .. }
            | CallView::XnnpackDelegateDelete { .. }
            | CallView::ExternalDelegateDelete { .. } => self is Done,
            CallView::InputTensorCount { .. } | CallView::OutputTensorCount { .. } => {
                self is Count
            },
            CallView::Invoke { .. }
            | CallView::AllocateTensors { .. }
            | CallView::ResizeInputTensor { .. }
            | CallView::TensorCopyFromBuffer { .. } => self is Status,
            CallView::TensorByteSize { .. } => self is ByteSize,
            CallView::ReadTensor { .. } => self is Tensor,
        }
    }
}

/// The number of tensors that a count of the runtime stands for.
///
/// The runtime counts in a signed integer. A negative count, which no runtime should report, is
/// taken modulo the range of `usize`.
pub open spec fn tensor_count(count: i32) -> int {
    if count >= 0 {
        count as int
    } else {
        usize::MAX + 1 + count
    }
}

/// Converts a count of the runtime.
pub fn count_to_usize(count: i32) -> (n: usize)
    ensures
        n == tensor_count(count),
        count >= 0 ==> n == count,
        count < 0 ==> n - usize::MAX == count + 1,
{
    if count >= 0 {
        count as usize
    } else {
        usize::MAX - (-(count + 1)) as usize
    }
}

/// The C `int` that a size is handed to the runtime as: the size itself where it fits, and
/// otherwise the value that is equal to it modulo 2^32.
pub open spec fn c_int(value: usize) -> int {
    (value + 0x8000_0000) % 0x1_0000_0000 - 0x8000_0000
}

/// Converts a size to a C `int`.
pub fn usize_to_c_int(value: usize) -> (n: i32)
    ensures
        n == c_int(value),
        value <= 0x7fff_ffff ==> n == value,
        (value - n) % 0x1_0000_0000 == 0,
{
    proof {
        assert((value as i32) == (value + 0x8000_0000) % 0x1_0000_0000 - 0x8000_0000)
            by (bit_vector);
    }
    #[verifier::truncate]
    (value as i32)
}

} // verus!
