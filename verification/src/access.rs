//! Reaching the tensors of an interpreter.
use crate::command::{check_status, outcome_of};
use crate::error::{Error, ErrorKind};
use crate::operation::{Operation, Step};
use crate::runtime::{c_int, count_to_usize, tensor_count, usize_to_c_int, Call, CallView, Reply};
use crate::tensor::Tensor;
use vstd::prelude::*;

verus! {

/// The largest index of a tensor where the runtime reports the given count; 0 where there is no
/// tensor at all.
pub open spec fn largest_index(count: i32) -> int {
    if tensor_count(count) == 0 {
        0
    } else {
        tensor_count(count) - 1
    }
}

/// An index is valid where it is less than the number of tensors. Any other index is an error
/// that names it and the largest index.
pub open spec fn index_outcome(index: usize, count: i32) -> Result<(), Error> {
    if index < tensor_count(count) {
        Ok(())
    } else {
        Err(Error { kind: ErrorKind::InvalidTensorIndex(index, largest_index(count) as usize) })
    }
}

/// Checks the index of a tensor against the count that the runtime reports.
pub fn check_index(index: usize, count: i32) -> (outcome: Result<(), Error>)
    ensures
        outcome == index_outcome(index, count),
        count >= 0 ==> (outcome is Ok <==> index < count),
        0 < count <= index ==> outcome == Err::<(), Error>(
            Error { kind: ErrorKind::InvalidTensorIndex(index, (count - 1) as usize) },
        ),
        count == 0 ==> outcome == Err::<(), Error>(
            Error { kind: ErrorKind::InvalidTensorIndex(index, 0) },
        ),
        count < 0 ==> (outcome is Ok <==> index <= usize::MAX + count),
        count < 0 && index > usize::MAX + count ==> outcome == Err::<(), Error>(
            Error { kind: ErrorKind::InvalidTensorIndex(index, (usize::MAX + count) as usize) },
        ),
{
    let tensors: usize = count_to_usize(count);
    if index < tensors {
        Ok(())
    } else {
        let max_index: usize = if tensors == 0 {
            0
        } else {
            tensors - 1
        };
        Err(Error::new(ErrorKind::InvalidTensorIndex(index, max_index)))
    }
}

/// The inputs or the outputs of an interpreter.
#[derive(Debug, Clone, Copy, PartialEq, Eq, Structural)]
pub enum Side {
    /// The input tensors.
    Input,
    /// The output tensors.
    Output,
}

impl Side {
    /// The call that counts the tensors on this side.
    pub open spec fn count_call(self, interpreter: usize) -> CallView<u8> {
        match self {
            Side::Input => CallView::InputTensorCount { interpreter },
            Side::Output => CallView::OutputTensorCount { interpreter },
        }
    }

    /// The call that looks a tensor on this side up.
    pub open spec fn tensor_call(self, interpreter: usize, index: i32) -> CallView<u8> {
        match self {
            Side::Input => CallView::InputTensor { interpreter, index },
            Side::Output => CallView::OutputTensor { interpreter, index },
        }
    }

    /// What is missing where a tensor on this side cannot be read.
    pub open spec fn unread(self) -> ErrorKind {
        match self {
            Side::Input => ErrorKind::AllocateTensorsRequired,
            Side::Output => ErrorKind::InvokeInterpreterRequired,
        }
    }

    /// What fetching a tensor on this side gives for what reading it gave. A tensor that could not
    /// be read is put down to what is missing; everything else is handed on.
    pub open spec fn fetched(self, read: Result<Tensor, Error>) -> Result<Tensor, Error> {
        match read {
            Ok(tensor) => Ok(tensor),
            Err(error) => if error.kind == ErrorKind::ReadTensorError {
                Err(Error { kind: self.unread() })
            } else {
                Err(error)
            },
        }
    }

    /// Turns what reading a tensor on this side gave into what fetching it gives.
    pub fn explain(self, read: Result<Tensor, Error>) -> (fetched: Result<Tensor, Error>)
        ensures
            fetched == self.fetched(read),
            read matches Ok(tensor) ==> fetched == Ok::<Tensor, Error>(tensor),
            read matches Err(error) ==> {
                &&& fetched matches Err(reported)
                &&& error.kind != ErrorKind::ReadTensorError ==> reported == error
                &&& error.kind == ErrorKind::ReadTensorError && self == Side::Input
                    ==> reported.kind == ErrorKind::AllocateTensorsRequired
                &&& error.kind == ErrorKind::ReadTensorError && self == Side::Output
                    ==> reported.kind == ErrorKind::InvokeInterpreterRequired
            },
    {
        match read {
            Ok(tensor) => Ok(tensor),
            Err(error) => {
                if error.kind() == ErrorKind::ReadTensorError {
                    Err(
                        Error::new(
                            match self {
                                Side::Input => ErrorKind::AllocateTensorsRequired,
                                Side::Output => ErrorKind::InvokeInterpreterRequired,
                            },
                        ),
                    )
                } else {
                    Err(error)
                }
            },
        }
    }

    /// Makes the call that counts the tensors on this side.
    fn count(self, interpreter: usize) -> (call: Call<'static, u8>)
        ensures
            call@ == self.count_call(interpreter),
            self == Side::Input ==> call@ == (CallView::<u8>::InputTensorCount { interpreter }),
            self == Side::Output ==> call@ == (CallView::<u8>::OutputTensorCount { interpreter }),
    {
        match self {
            Side::Input => Call::InputTensorCount { interpreter },
            Side::Output => Call::OutputTensorCount { interpreter },
        }
    }
}

/// The operation that counts the tensors on one side of an interpreter.
#[derive(Debug, Clone, Copy)]
pub struct CountTensors {
    /// The address of the interpreter.
    pub interpreter_ptr: usize,
    /// Which tensors to count.
    pub side: Side,
}

impl Operation for CountTensors {
    type Elem = u8;

    type Output = usize;

    open spec fn pending(&self) -> CallView<u8> {
        self.side.count_call(self.interpreter_ptr)
    }

    open spec fn next(&self, reply: Reply) -> Step<CountTensors, usize> {
        match reply {
            Reply::Count(count) => Step::Done(tensor_count(count) as usize),
            _ => Step::Next(*self),
        }
    }

    open spec fn remaining(&self) -> nat {
        1
    }

    proof fn reply_advances(&self, reply: Reply) {
    }

    fn call(&self) -> (call: Call<'_, u8>) {
        self.side.count(self.interpreter_ptr)
    }

    fn step(self, reply: Reply) -> (step: Step<CountTensors, usize>) {
        match reply {
            Reply::Count(count) => Step::Done(count_to_usize(count)),
            _ => Step::Next(self),
        }
    }
}

/// The operation that fetches a tensor of an interpreter.
#[derive(Debug, Clone, Copy)]
pub struct FetchTensor {
    /// The address of the interpreter.
    pub interpreter_ptr: usize,
    /// Which tensors the index counts.
    pub side: Side,
    /// The index of the tensor.
    pub index: usize,
    /// How far the operation has come.
    pub stage: FetchStage,
}

/// The call that a [`FetchTensor`] waits for.
#[derive(Debug, Clone, Copy)]
pub enum FetchStage {
    /// The tensors are counted.
    Count,
    /// The tensor is looked up.
    LookUp,
    /// The tensor is read.
    Read {
        /// The address of the tensor.
        tensor_ptr: usize,
    },
}

impl FetchTensor {
    /// Fetching the tensor at an index, before the first call.
    pub open spec fn start(interpreter_ptr: usize, side: Side, index: usize) -> FetchTensor {
        FetchTensor { interpreter_ptr, side, index, stage: FetchStage::Count }
    }
}

impl Operation for FetchTensor {
    type Elem = u8;

    type Output = Result<Tensor, Error>;

    open spec fn pending(&self) -> CallView<u8> {
        match self.stage {
            FetchStage::Count => self.side.count_call(self.interpreter_ptr),
            FetchStage::LookUp => self.side.tensor_call(
                self.interpreter_ptr,
                c_int(self.index) as i32,
            ),
            FetchStage::Read { tensor_ptr } => CallView::ReadTensor { tensor: tensor_ptr },
        }
    }

    open spec fn next(&self, reply: Reply) -> Step<FetchTensor, Result<Tensor, Error>> {
        match (self.stage, reply) {
            (FetchStage::Count, Reply::Count(count)) => match index_outcome(self.index, count) {
                Ok(_) => Step::Next(FetchTensor { stage: FetchStage::LookUp, ..*self }),
                Err(error) => Step::Done(Err(error)),
            },
            (FetchStage::LookUp, Reply::Address(tensor_ptr)) => Step::Next(
                FetchTensor { stage: FetchStage::Read { tensor_ptr }, ..*self },
            ),
            (FetchStage::Read { .. }, Reply::Tensor(read)) => Step::Done(self.side.fetched(read)),
            _ => Step::Next(*self),
        }
    }

    open spec fn remaining(&self) -> nat {
        match self.stage {
            FetchStage::Count => 3,
            FetchStage::LookUp => 2,
            FetchStage::Read { .. } => 1,
        }
    }

    proof fn reply_advances(&self, reply: Reply) {
    }

    fn call(&self) -> (call: Call<'_, u8>) {
        match self.stage {
            FetchStage::Count => self.side.count(self.interpreter_ptr),
            FetchStage::LookUp => {
                let interpreter: usize = self.interpreter_ptr;
                let index: i32 = usize_to_c_int(self.index);
                match self.side {
                    Side::Input => Call::InputTensor { interpreter, index },
                    Side::Output => Call::OutputTensor { interpreter, index },
                }
            },
            FetchStage::Read { tensor_ptr } => Call::ReadTensor { tensor: tensor_ptr },
        }
    }

    fn step(self, reply: Reply) -> (step: Step<FetchTensor, Result<Tensor, Error>>) {
        match (self.stage, reply) {
            (FetchStage::Count, Reply::Count(count)) => match check_index(self.index, count) {
                Ok(()) => Step::Next(FetchTensor { stage: FetchStage::LookUp, ..self }),
                Err(error) => Step::Done(Err(error)),
            },
            (FetchStage::LookUp, Reply::Address(tensor_ptr)) => Step::Next(
                FetchTensor { stage: FetchStage::Read { tensor_ptr }, ..self },
            ),
            (FetchStage::Read { .. }, Reply::Tensor(read)) => Step::Done(self.side.explain(read)),
            _ => Step::Next(self),
        }
    }
}

/// Whether the runtime can take the dimensions of a shape: a C `int` holds each of them, and their
/// number.
pub open spec fn dims_fit(dimensions: Seq<usize>) -> bool {
    &&& dimensions.len() <= i32::MAX
    &&& forall|k: int| 0 <= k < dimensions.len() ==> #[trigger] dimensions[k] <= i32::MAX
}

/// Whether the dimensions that are handed to the runtime are those of a shape.
pub open spec fn same_dims(dims: Seq<i32>, dimensions: Seq<usize>) -> bool {
    &&& dims.len() == dimensions.len()
    &&& forall|k: int| 0 <= k < dimensions.len() ==> #[trigger] dims[k] == dimensions[k]
}

/// Converts the dimensions of a shape to what the runtime takes, where it can take them.
pub fn dims_to_c_ints(dimensions: &Vec<usize>) -> (dims: Option<Vec<i32>>)
    ensures
        dims is Some <==> dims_fit(dimensions@),
        dims matches Some(dims) ==> same_dims(dims@, dimensions@),
        dims is Some <==> dimensions@.len() <= 0x7fff_ffff && forall|k: int|
            0 <= k < dimensions@.len() ==> #[trigger] dimensions@[k] <= 0x7fff_ffff,
        dims matches Some(dims) ==> {
            &&& dims@.len() == dimensions@.len()
            &&& forall|k: int|
                0 <= k < dimensions@.len() ==> #[trigger] dims@[k] == dimensions@[k]
        },
{
    let largest: usize = i32::MAX as usize;
    if dimensions.len() > largest {
        return None;
    }
    let mut dims: Vec<i32> = Vec::new();
    for i in 0..dimensions.len()
        invariant
            largest == i32::MAX,
            dims@.len() == i,
            forall|k: int| 0 <= k < i ==> #[trigger] dimensions@[k] <= i32::MAX,
            forall|k: int| 0 <= k < i ==> #[trigger] dims@[k] == dimensions@[k],
    {
        if dimensions[i] > largest {
            return None;
        }
        dims.push(dimensions[i] as i32);
    }
    Some(dims)
}

/// The operation that resizes an input tensor.
#[derive(Debug)]
pub struct ResizeInput {
    /// The address of the interpreter.
    pub interpreter_ptr: usize,
    /// The index of the input tensor.
    pub index: usize,
    /// How far the operation has come.
    pub stage: ResizeStage,
}

/// The call that a [`ResizeInput`] waits for.
#[derive(Debug)]
pub enum ResizeStage {
    /// The input tensors are counted.
    Count {
        /// The new dimensions, where the runtime can take them.
        dims: Option<Vec<i32>>,
    },
    /// The tensor is resized.
    Resize {
        /// The new dimensions.
        dims: Vec<i32>,
    },
}

impl ResizeInput {
    /// Whether this is resizing the tensor at an index to the given dimensions, before the first
    /// call.
    pub open spec fn starts(
        &self,
        interpreter_ptr: usize,
        index: usize,
        dimensions: Seq<usize>,
    ) -> bool {
        &&& self.interpreter_ptr == interpreter_ptr
        &&& self.index == index
        &&& match self.stage {
            ResizeStage::Count { dims: Some(dims) } => {
                &&& dims_fit(dimensions)
                &&& same_dims(dims@, dimensions)
            },
            ResizeStage::Count { dims: None } => !dims_fit(dimensions),
            ResizeStage::Resize { .. } => false,
        }
    }

    /// The error with which resizing the tensor fails.
    pub open spec fn failure(&self) -> ErrorKind {
        ErrorKind::FailedToResizeInputTensor(self.index)
    }
}

impl Operation for ResizeInput {
    type Elem = u8;

    type Output = Result<(), Error>;

    open spec fn pending(&self) -> CallView<u8> {
        match self.stage {
            ResizeStage::Count { .. } => CallView::InputTensorCount {
                interpreter: self.interpreter_ptr,
            },
            ResizeStage::Resize { dims } => CallView::ResizeInputTensor {
                interpreter: self.interpreter_ptr,
                index: c_int(self.index) as i32,
                dims: dims@,
                dims_size: c_int(dims@.len() as usize) as i32,
            },
        }
    }

    open spec fn next(&self, reply: Reply) -> Step<ResizeInput, Result<(), Error>> {
        match (self.stage, reply) {
            (ResizeStage::Count { dims }, Reply::Count(count)) => {
                match (index_outcome(self.index, count), dims) {
                    (Err(error), _) => Step::Done(Err(error)),
                    (Ok(_), None) => Step::Done(Err(Error { kind: self.failure() })),
                    (Ok(_), Some(dims)) => Step::Next(
                        ResizeInput { stage: ResizeStage::Resize { dims }, ..*self },
                    ),
                }
            },
            (ResizeStage::Resize { .. }, Reply::Status(status)) => Step::Done(
                outcome_of(status, self.failure()),
            ),
            _ => Step::Next(*self),
        }
    }

    open spec fn remaining(&self) -> nat {
        match self.stage {
            ResizeStage::Count { .. } => 2,
            ResizeStage::Resize { .. } => 1,
        }
    }

    proof fn reply_advances(&self, reply: Reply) {
    }

    fn call(&self) -> (call: Call<'_, u8>) {
        match &self.stage {
            ResizeStage::Count { .. } => Call::InputTensorCount {
                interpreter: self.interpreter_ptr,
            },
            ResizeStage::Resize { dims } => Call::ResizeInputTensor {
                interpreter: self.interpreter_ptr,
                index: usize_to_c_int(self.index),
                dims: dims.as_slice(),
                dims_size: usize_to_c_int(dims.len()),
            },
        }
    }

    fn step(self, reply: Reply) -> (step: Step<ResizeInput, Result<(), Error>>) {
        let ResizeInput { interpreter_ptr, index, stage } = self;
        let stage = match (stage, reply) {
            (ResizeStage::Count { dims }, Reply::Count(count)) => {
                if let Err(error) = check_index(index, count) {
                    return Step::Done(Err(error));
                }
                match dims {
                    Some(dims) => ResizeStage::Resize { dims },
                    None => {
                        return Step::Done(
                            Err(Error::new(ErrorKind::FailedToResizeInputTensor(index))),
                        );
                    },
                }
            },
            (ResizeStage::Resize { .. }, Reply::Status(status)) => {
                return Step::Done(
                    check_status(status, ErrorKind::FailedToResizeInputTensor(index)),
                );
            },
            (stage, _) => stage,
        };
        Step::Next(ResizeInput { interpreter_ptr, index, stage })
    }
}

/// The operation that copies data into an input tensor.
#[derive(Debug)]
pub struct CopyInput<'d, T> {
    /// The address of the interpreter.
    pub interpreter_ptr: usize,
    /// The data.
    pub data: &'d [T],
    /// The number of bytes that the data takes.
    pub byte_count: usize,
    /// The index of the input tensor.
    pub index: usize,
    /// How far the operation has come.
    pub stage: CopyStage,
}

/// The call that a [`CopyInput`] waits for.
#[derive(Debug, Clone, Copy)]
pub enum CopyStage {
    /// The input tensors are counted.
    Count,
    /// The tensor is looked up.
    LookUp,
    /// The tensor is measured.
    Measure {
        /// The address of the tensor.
        tensor_ptr: usize,
    },
    /// The data is copied.
    Copy {
        /// The address of the tensor.
        tensor_ptr: usize,
    },
}

impl<'d, T> CopyInput<'d, T> {
    /// Whether this is copying data that takes the given number of bytes to the tensor at an
    /// index, before the first call.
    pub open spec fn starts(
        &self,
        interpreter_ptr: usize,
        data: &'d [T],
        index: usize,
        byte_count: nat,
    ) -> bool {
        &&& self.interpreter_ptr == interpreter_ptr
        &&& self.data == data
        &&& self.byte_count == byte_count
        &&& self.index == index
        &&& self.stage == CopyStage::Count
    }
}

impl<'d, T> Operation for CopyInput<'d, T> {
    type Elem = T;

    type Output = Result<(), Error>;

    open spec fn pending(&self) -> CallView<T> {
        match self.stage {
            CopyStage::Count => CallView::InputTensorCount { interpreter: self.interpreter_ptr },
            CopyStage::LookUp => CallView::InputTensor {
                interpreter: self.interpreter_ptr,
                index: c_int(self.index) as i32,
            },
            CopyStage::Measure { tensor_ptr } => CallView::TensorByteSize { tensor: tensor_ptr },
            CopyStage::Copy { tensor_ptr } => CallView::TensorCopyFromBuffer {
                tensor: tensor_ptr,
                data: self.data@,
                byte_count: self.byte_count,
            },
        }
    }

    open spec fn next(&self, reply: Reply) -> Step<CopyInput<'d, T>, Result<(), Error>> {
        match (self.stage, reply) {
            (CopyStage::Count, Reply::Count(count)) => match index_outcome(self.index, count) {
                Ok(_) => Step::Next(CopyInput { stage: CopyStage::LookUp, ..*self }),
                Err(error) => Step::Done(Err(error)),
            },
            (CopyStage::LookUp, Reply::Address(tensor_ptr)) => Step::Next(
                CopyInput { stage: CopyStage::Measure { tensor_ptr }, ..*self },
            ),
            (CopyStage::Measure { tensor_ptr }, Reply::ByteSize(byte_size)) => {
                if self.byte_count == byte_size {
                    Step::Next(CopyInput { stage: CopyStage::Copy { tensor_ptr }, ..*self })
                } else {
                    Step::Done(
                        Err(
                            Error {
                                kind: ErrorKind::InvalidTensorDataCount(self.byte_count, byte_size),
                            },
                        ),
                    )
                }
            },
            (CopyStage::Copy { .. }, Reply::Status(status)) => Step::Done(
                outcome_of(status, ErrorKind::FailedToCopyDataToInputTensor),
            ),
            _ => Step::Next(*self),
        }
    }

    open spec fn remaining(&self) -> nat {
        match self.stage {
            CopyStage::Count => 4,
            CopyStage::LookUp => 3,
            CopyStage::Measure { .. } => 2,
            CopyStage::Copy { .. } => 1,
        }
    }

    proof fn reply_advances(&self, reply: Reply) {
    }

    fn call(&self) -> (call: Call<'_, T>) {
        match self.stage {
            CopyStage::Count => Call::InputTensorCount { interpreter: self.interpreter_ptr },
            CopyStage::LookUp => Call::InputTensor {
                interpreter: self.interpreter_ptr,
                index: usize_to_c_int(self.index),
            },
            CopyStage::Measure { tensor_ptr } => Call::TensorByteSize { tensor: tensor_ptr },
            CopyStage::Copy { tensor_ptr } => Call::TensorCopyFromBuffer {
                tensor: tensor_ptr,
                data: self.data,
                byte_count: self.byte_count,
            },
        }
    }

    fn step(self, reply: Reply) -> (step: Step<CopyInput<'d, T>, Result<(), Error>>) {
        match (self.stage, reply) {
            (CopyStage::Count, Reply::Count(count)) => match check_index(self.index, count) {
                Ok(()) => Step::Next(CopyInput { stage: CopyStage::LookUp, ..self }),
                Err(error) => Step::Done(Err(error)),
            },
            (CopyStage::LookUp, Reply::Address(tensor_ptr)) => Step::Next(
                CopyInput { stage: CopyStage::Measure { tensor_ptr }, ..self },
            ),
            (CopyStage::Measure { tensor_ptr }, Reply::ByteSize(byte_size)) => {
                if self.byte_count != byte_size {
                    Step::Done(
                        Err(
                            Error::new(
                                ErrorKind::InvalidTensorDataCount(self.byte_count, byte_size),
                            ),
                        ),
                    )
                } else {
                    Step::Next(CopyInput { stage: CopyStage::Copy { tensor_ptr }, ..self })
                }
            },
            (CopyStage::Copy { .. }, Reply::Status(status)) => Step::Done(
                check_status(status, ErrorKind::FailedToCopyDataToInputTensor),
            ),
            _ => Step::Next(self),
        }
    }
}

} // verus!
