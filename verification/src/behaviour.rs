//! What each operation does, call by call and for every value that the runtime may reply.
//!
//! The calls and the outputs are written out in full, on the arguments of the operation and on what
//! the runtime replies.
use crate::access::{CopyInput, CountTensors, FetchTensor, ResizeInput, Side};
use crate::command::{Command, CommandKind};
use crate::creation::{ConfigureDelegate, Creation, DelegateSource};
use crate::error::{Error, ErrorKind};
use crate::interpreter::{assembled_view, InterpreterView, Options};
use crate::model::Model;
use crate::operation::{run, Operation, Step};
use crate::runtime::{Call, CallView, Reply};
use crate::teardown::Teardown;
use crate::tensor::Tensor;
use vstd::prelude::*;

verus! {

/// A run starts with the call that the operation waits for. The reply to it ends the run or is
/// followed by the run of what comes next.
pub proof fn a_run_is_its_steps<O: Operation>(op: O, reply: Reply, replies: Seq<Reply>)
    ensures
        run(op, Seq::empty()).calls == seq![op.pending()],
        run(op, Seq::empty()).output is None,
        run(op, seq![reply] + replies).calls[0] == op.pending(),
        match op.next(reply) {
            Step::Done(output) => {
                &&& run(op, seq![reply] + replies).calls.len() == 1
                &&& run(op, seq![reply] + replies).output == Some(output)
            },
            Step::Next(op1) => {
                &&& run(op, seq![reply] + replies).calls.drop_first() == run(op1, replies).calls
                &&& run(op, seq![reply] + replies).output == run(op1, replies).output
            },
        },
{
    assert((seq![reply] + replies).drop_first() =~= replies);
    assert((seq![reply] + replies).first() == reply);
    if let Step::Next(op1) = op.next(reply) {
        assert(run(op, seq![reply] + replies).calls.drop_first() =~= run(op1, replies).calls);
    }
}

/// A call is modelled by its own name and arguments.
pub proof fn calls_are_modelled_as_they_are<'c, T>(call: Call<'c, T>)
    ensures
        call is OptionsCreate ==> call@ == CallView::<T>::OptionsCreate,
        call matches Call::OptionsSetNumThreads { options, num_threads } ==> call@ == (CallView::<T>::OptionsSetNumThreads {
            options,
            num_threads,
        }),
        call matches Call::XnnpackDelegateCreate { thread_count } ==> call@ == (CallView::<T>::XnnpackDelegateCreate {
            thread_count,
        }),
        call matches Call::ExternalDelegateCreate { path } ==> call@ == (CallView::<T>::ExternalDelegateCreate {
            path: path@,
        }),
        call matches Call::OptionsAddDelegate { options, delegate } ==> call@ == (CallView::<T>::OptionsAddDelegate {
            options,
            delegate,
        }),
        call matches Call::InterpreterCreate { model, options } ==> call@ == (CallView::<T>::InterpreterCreate {
            model,
            options,
        }),
        call matches Call::OptionsDelete { options } ==> call@ == (CallView::<T>::OptionsDelete {
            options,
        }),
        call matches Call::InputTensorCount { interpreter } ==> call@ == (CallView::<T>::InputTensorCount {
            interpreter,
        }),
        call matches Call::OutputTensorCount { interpreter } ==> call@ == (CallView::<T>::OutputTensorCount {
            interpreter,
        }),
        call matches Call::Invoke { interpreter } ==> call@ == (CallView::<T>::Invoke {
            interpreter,
        }),
        call matches Call::AllocateTensors { interpreter } ==> call@ == (CallView::<T>::AllocateTensors {
            interpreter,
        }),
        call matches Call::InputTensor { interpreter, index } ==> call@ == (CallView::<T>::InputTensor {
            interpreter,
            index,
        }),
        call matches Call::OutputTensor { interpreter, index } ==> call@ == (CallView::<T>::OutputTensor {
            interpreter,
            index,
        }),
        call matches Call::ReadTensor { tensor } ==> call@ == (CallView::<T>::ReadTensor {
            tensor,
        }),
        call matches Call::ResizeInputTensor { interpreter, index, dims, dims_size } ==> call@ == (CallView::<T>::ResizeInputTensor {
            interpreter,
            index,
            dims: dims@,
            dims_size,
        }),
        call matches Call::TensorByteSize { tensor } ==> call@ == (CallView::<T>::TensorByteSize {
            tensor,
        }),
        call matches Call::TensorCopyFromBuffer { tensor, data, byte_count } ==> call@ == (CallView::<T>::TensorCopyFromBuffer {
            tensor,
            data: data@,
            byte_count,
        }),
        call matches Call::InterpreterDelete { interpreter } ==> call@ == (CallView::<T>::InterpreterDelete {
            interpreter,
        }),
        call matches Call::XnnpackDelegateDelete { delegate } ==> call@ == (CallView::<T>::XnnpackDelegateDelete {
            delegate,
        }),
        call matches Call::ExternalDelegateDelete { delegate } ==> call@ == (CallView::<T>::ExternalDelegateDelete {
            delegate,
        }),
{
}

/// Each call is answered by replies of one kind and no other: one that makes or looks an object up
/// by an address, a count, a size and a read by their like, one that can fail by a status, and the
/// rest by being done.
pub proof fn each_call_has_one_kind_of_answer<T>(call: CallView<T>, reply: Reply)
    ensures
        reply.answers(call) ==> match reply {
            Reply::Address(_) => call is OptionsCreate || call is XnnpackDelegateCreate
                || call is ExternalDelegateCreate || call is InterpreterCreate
                || call is InputTensor || call is OutputTensor,
            Reply::Count(_) => call is InputTensorCount || call is OutputTensorCount,
            Reply::ByteSize(_) => call is TensorByteSize,
            Reply::Status(_) => call is Invoke || call is AllocateTensors
                || call is ResizeInputTensor || call is TensorCopyFromBuffer,
            Reply::Tensor(_) => call is ReadTensor,
            Reply::Done => call is OptionsSetNumThreads || call is OptionsAddDelegate
                || call is OptionsDelete || call is InterpreterDelete
                || call is XnnpackDelegateDelete || call is ExternalDelegateDelete,
        },
        !reply.answers(call) ==> match reply {
            Reply::Address(_) => !(call is OptionsCreate || call is XnnpackDelegateCreate
                || call is ExternalDelegateCreate || call is InterpreterCreate
                || call is InputTensor || call is OutputTensor),
            Reply::Count(_) => !(call is InputTensorCount || call is OutputTensorCount),
            Reply::ByteSize(_) => !(call is TensorByteSize),
            Reply::Status(_) => !(call is Invoke || call is AllocateTensors
                || call is ResizeInputTensor || call is TensorCopyFromBuffer),
            Reply::Tensor(_) => !(call is ReadTensor),
            Reply::Done => !(call is OptionsSetNumThreads || call is OptionsAddDelegate
                || call is OptionsDelete || call is InterpreterDelete
                || call is XnnpackDelegateDelete || call is ExternalDelegateDelete),
        },
{
}

/// Without an options object nothing is created, whatever the options are.
pub proof fn creating_without_an_options_object(model: &Model, options: Options)
    ensures
        ({
            let outcome = run(Creation::start(model, options), seq![Reply::Address(0)]);
            &&& outcome.calls == seq![CallView::<u8>::OptionsCreate]
            &&& outcome.output matches Some(Err(error))
            &&& error.kind == ErrorKind::FailedToCreateInterpreter
        }),
{
}

/// By default an interpreter is created without a delegate: from an options object that is deleted
/// at once, and from the model that was given.
pub proof fn creating_by_default(model: &Model, options_ptr: usize, interpreter_ptr: usize)
    requires
        options_ptr != 0,
    ensures
        ({
            let outcome = run(
                Creation::start(model, Options::Default),
                seq![Reply::Address(options_ptr), Reply::Address(interpreter_ptr), Reply::Done],
            );
            &&& outcome.calls == seq![
                CallView::<u8>::OptionsCreate,
                CallView::InterpreterCreate { model: model.model_ptr, options: options_ptr },
                CallView::OptionsDelete { options: options_ptr },
            ]
            &&& interpreter_ptr == 0 ==> {
                &&& outcome.output matches Some(Err(error))
                &&& error.kind == ErrorKind::FailedToCreateInterpreter
            }
            &&& interpreter_ptr != 0 ==> {
                &&& outcome.output matches Some(Ok(interpreter))
                &&& interpreter@.options == Options::Default
                &&& interpreter@.interpreter == interpreter_ptr
                &&& interpreter@.delegate is None
                &&& interpreter@.model == model.model_ptr
            }
        }),
{
    broadcast use assembled_view;

    reveal_with_fuel(run, 4);
    let op = Creation::start(model, Options::Default);
    let replies = seq![Reply::Address(options_ptr), Reply::Address(interpreter_ptr), Reply::Done];
    assert(replies.drop_first().drop_first().first() == Reply::Done);
    assert(run(op, replies).calls =~= seq![
        CallView::<u8>::OptionsCreate,
        CallView::InterpreterCreate { model: model.model_ptr, options: options_ptr },
        CallView::OptionsDelete { options: options_ptr },
    ]);
}

/// With XNNPACK, the interpreter gets the thread count that was given, whatever it is, and the
/// delegate gets it where it is positive. The delegate is added to the options object before the
/// interpreter is created from it.
pub proof fn creating_with_xnnpack(
    model: &Model,
    thread_count: i32,
    options_ptr: usize,
    delegate_ptr: usize,
    interpreter_ptr: usize,
)
    requires
        options_ptr != 0,
    ensures
        ({
            let outcome = run(
                Creation::start(model, Options::Xnnpack(thread_count)),
                seq![
                    Reply::Address(options_ptr),
                    Reply::Done,
                    Reply::Address(delegate_ptr),
                    Reply::Done,
                    Reply::Address(interpreter_ptr),
                    Reply::Done,
                ],
            );
            &&& outcome.calls.len() == 6
            &&& outcome.calls[0] == CallView::<u8>::OptionsCreate
            &&& outcome.calls[1] == (CallView::<u8>::OptionsSetNumThreads {
                options: options_ptr,
                num_threads: thread_count,
            })
            &&& thread_count > 0 ==> outcome.calls[2] == (CallView::<u8>::XnnpackDelegateCreate {
                thread_count: Some(thread_count),
            })
            &&& thread_count <= 0 ==> outcome.calls[2] == (CallView::<u8>::XnnpackDelegateCreate {
                thread_count: None,
            })
            &&& outcome.calls[3] == (CallView::<u8>::OptionsAddDelegate {
                options: options_ptr,
                delegate: delegate_ptr,
            })
            &&& outcome.calls[4] == (CallView::<u8>::InterpreterCreate {
                model: model.model_ptr,
                options: options_ptr,
            })
            &&& outcome.calls[5] == (CallView::<u8>::OptionsDelete { options: options_ptr })
            &&& interpreter_ptr == 0 ==> {
                &&& outcome.output matches Some(Err(error))
                &&& error.kind == ErrorKind::FailedToCreateInterpreter
            }
            &&& interpreter_ptr != 0 ==> {
                &&& outcome.output matches Some(Ok(interpreter))
                &&& interpreter@.options == Options::Xnnpack(thread_count)
                &&& interpreter@.interpreter == interpreter_ptr
                &&& interpreter@.delegate == Some(delegate_ptr)
                &&& interpreter@.model == model.model_ptr
            }
        }),
{
    broadcast use assembled_view;

    reveal_with_fuel(run, 7);
    let replies = seq![
        Reply::Address(options_ptr),
        Reply::Done,
        Reply::Address(delegate_ptr),
        Reply::Done,
        Reply::Address(interpreter_ptr),
        Reply::Done,
    ];
    let r2 = replies.drop_first().drop_first();
    assert(r2.drop_first().drop_first().drop_first().first() == Reply::Done);
}

/// With an external delegate, the runtime chooses the number of threads, and the delegate is
/// created from the library at exactly the path that was given. It is added to the options object
/// before the interpreter is created from it.
pub proof fn creating_with_an_external_delegate(
    model: &Model,
    path: String,
    options_ptr: usize,
    delegate_ptr: usize,
    interpreter_ptr: usize,
)
    requires
        options_ptr != 0,
    ensures
        ({
            let outcome = run(
                Creation::start(model, Options::External(path)),
                seq![
                    Reply::Address(options_ptr),
                    Reply::Done,
                    Reply::Address(delegate_ptr),
                    Reply::Done,
                    Reply::Address(interpreter_ptr),
                    Reply::Done,
                ],
            );
            &&& outcome.calls.len() == 6
            &&& outcome.calls[0] == CallView::<u8>::OptionsCreate
            &&& outcome.calls[1] matches CallView::OptionsSetNumThreads { options, num_threads }
            &&& options == options_ptr
            &&& num_threads == -1
            &&& outcome.calls[2] == (CallView::<u8>::ExternalDelegateCreate { path: path@ })
            &&& outcome.calls[3] == (CallView::<u8>::OptionsAddDelegate {
                options: options_ptr,
                delegate: delegate_ptr,
            })
            &&& outcome.calls[4] == (CallView::<u8>::InterpreterCreate {
                model: model.model_ptr,
                options: options_ptr,
            })
            &&& outcome.calls[5] == (CallView::<u8>::OptionsDelete { options: options_ptr })
            &&& interpreter_ptr == 0 ==> {
                &&& outcome.output matches Some(Err(error))
                &&& error.kind == ErrorKind::FailedToCreateInterpreter
            }
            &&& interpreter_ptr != 0 ==> {
                &&& outcome.output matches Some(Ok(interpreter))
                &&& interpreter@.options == Options::External(path)
                &&& interpreter@.interpreter == interpreter_ptr
                &&& interpreter@.delegate == Some(delegate_ptr)
                &&& interpreter@.model == model.model_ptr
            }
        }),
{
    broadcast use assembled_view;

    reveal_with_fuel(run, 7);
    let replies = seq![
        Reply::Address(options_ptr),
        Reply::Done,
        Reply::Address(delegate_ptr),
        Reply::Done,
        Reply::Address(interpreter_ptr),
        Reply::Done,
    ];
    let r2 = replies.drop_first().drop_first();
    assert(r2.drop_first().drop_first().drop_first().first() == Reply::Done);
}

/// Configuring XNNPACK creates the delegate with the thread count that was given, where it is
/// positive, and adds it to the options object that was given.
pub proof fn configuring_xnnpack(options_ptr: usize, thread_count: i32, delegate_ptr: usize)
    ensures
        ({
            let outcome = run(
                ConfigureDelegate::start(options_ptr, DelegateSource::Xnnpack(thread_count)),
                seq![Reply::Address(delegate_ptr), Reply::Done],
            );
            &&& outcome.calls.len() == 2
            &&& thread_count > 0 ==> outcome.calls[0] == (CallView::<u8>::XnnpackDelegateCreate {
                thread_count: Some(thread_count),
            })
            &&& thread_count <= 0 ==> outcome.calls[0] == (CallView::<u8>::XnnpackDelegateCreate {
                thread_count: None,
            })
            &&& outcome.calls[1] == (CallView::<u8>::OptionsAddDelegate {
                options: options_ptr,
                delegate: delegate_ptr,
            })
            &&& outcome.output == Some(delegate_ptr)
        }),
{
    reveal_with_fuel(run, 3);
    let replies = seq![Reply::Address(delegate_ptr), Reply::Done];
    assert(replies.drop_first().first() == Reply::Done);
}

/// Configuring an external delegate creates it from the library at exactly the path that was given
/// and adds it to the options object that was given.
pub proof fn configuring_an_external_delegate(
    options_ptr: usize,
    path: String,
    delegate_ptr: usize,
)
    ensures
        ({
            let outcome = run(
                ConfigureDelegate::start(options_ptr, DelegateSource::External(path)),
                seq![Reply::Address(delegate_ptr), Reply::Done],
            );
            &&& outcome.calls == seq![
                CallView::<u8>::ExternalDelegateCreate { path: path@ },
                CallView::OptionsAddDelegate { options: options_ptr, delegate: delegate_ptr },
            ]
            &&& outcome.output == Some(delegate_ptr)
        }),
{
    reveal_with_fuel(run, 3);
    let replies = seq![Reply::Address(delegate_ptr), Reply::Done];
    assert(replies.drop_first().first() == Reply::Done);
}

/// Counting the input tensors asks the given interpreter for them, and gives the number that it
/// reports. A negative number wraps around, as unsigned integers do.
pub proof fn counting_inputs(interpreter_ptr: usize, count: i32)
    ensures
        ({
            let outcome = run(
                CountTensors { interpreter_ptr, side: Side::Input },
                seq![Reply::Count(count)],
            );
            &&& outcome.calls == seq![
                CallView::<u8>::InputTensorCount { interpreter: interpreter_ptr },
            ]
            &&& outcome.output matches Some(n)
            &&& count >= 0 ==> n == count
            &&& count < 0 ==> n - usize::MAX == count + 1
        }),
{
}

/// Counting the output tensors asks the given interpreter for them, and gives the number that it
/// reports. A negative number wraps around, as unsigned integers do.
pub proof fn counting_outputs(interpreter_ptr: usize, count: i32)
    ensures
        ({
            let outcome = run(
                CountTensors { interpreter_ptr, side: Side::Output },
                seq![Reply::Count(count)],
            );
            &&& outcome.calls == seq![
                CallView::<u8>::OutputTensorCount { interpreter: interpreter_ptr },
            ]
            &&& outcome.output matches Some(n)
            &&& count >= 0 ==> n == count
            &&& count < 0 ==> n - usize::MAX == count + 1
        }),
{
}

/// Invoking is one call, on the given interpreter. It succeeds just where the status is 0.
pub proof fn invoking(interpreter_ptr: usize, status: u32)
    ensures
        ({
            let outcome = run(
                Command { interpreter_ptr, kind: CommandKind::Invoke },
                seq![Reply::Status(status)],
            );
            &&& outcome.calls == seq![CallView::<u8>::Invoke { interpreter: interpreter_ptr }]
            &&& status == 0 ==> outcome.output == Some(Ok::<(), Error>(()))
            &&& status != 0 ==> outcome.output == Some(
                Err::<(), Error>(Error { kind: ErrorKind::AllocateTensorsRequired }),
            )
        }),
{
}

/// Allocating tensors is one call, on the given interpreter. It succeeds just where the status is
/// 0.
pub proof fn allocating(interpreter_ptr: usize, status: u32)
    ensures
        ({
            let outcome = run(
                Command { interpreter_ptr, kind: CommandKind::AllocateTensors },
                seq![Reply::Status(status)],
            );
            &&& outcome.calls == seq![
                CallView::<u8>::AllocateTensors { interpreter: interpreter_ptr },
            ]
            &&& status == 0 ==> outcome.output == Some(Ok::<(), Error>(()))
            &&& status != 0 ==> outcome.output == Some(
                Err::<(), Error>(Error { kind: ErrorKind::FailedToAllocateTensors }),
            )
        }),
{
}

/// Fetching an input at an index below the number of inputs looks exactly that input up and reads the
/// tensor that is found there. A tensor that was read is handed on, as is an error, except that a
/// tensor that could not be read is put down to what is missing.
pub proof fn fetching_an_input(
    interpreter_ptr: usize,
    index: usize,
    count: i32,
    tensor_ptr: usize,
    read: Result<Tensor, Error>,
)
    requires
        index < count,
    ensures
        ({
            let outcome = run(
                FetchTensor::start(interpreter_ptr, Side::Input, index),
                seq![Reply::Count(count), Reply::Address(tensor_ptr), Reply::Tensor(read)],
            );
            &&& outcome.calls.len() == 3
            &&& outcome.calls[0] == (CallView::<u8>::InputTensorCount {
                interpreter: interpreter_ptr,
            })
            &&& outcome.calls[1] matches CallView::InputTensor { interpreter, index: looked_up }
            &&& interpreter == interpreter_ptr
            &&& looked_up == index
            &&& outcome.calls[2] == (CallView::<u8>::ReadTensor { tensor: tensor_ptr })
            &&& read matches Ok(tensor) ==> outcome.output == Some(Ok::<Tensor, Error>(tensor))
            &&& read matches Err(error) ==> {
                &&& outcome.output matches Some(Err(reported))
                &&& error.kind == ErrorKind::ReadTensorError ==> reported.kind
                    == ErrorKind::AllocateTensorsRequired
                &&& error.kind != ErrorKind::ReadTensorError ==> reported == error
            }
        }),
{
    reveal_with_fuel(run, 4);
    let replies = seq![Reply::Count(count), Reply::Address(tensor_ptr), Reply::Tensor(read)];
    assert(replies.drop_first().drop_first().first() == Reply::Tensor(read));
}

/// Fetching an input at an index that is not below the number of inputs is an error that names the
/// index and the last one there is, and no tensor is looked up.
pub proof fn fetching_past_the_last_input(interpreter_ptr: usize, index: usize, count: i32)
    requires
        0 <= count <= index,
    ensures
        ({
            let outcome = run(
                FetchTensor::start(interpreter_ptr, Side::Input, index),
                seq![Reply::Count(count)],
            );
            &&& outcome.calls == seq![
                CallView::<u8>::InputTensorCount { interpreter: interpreter_ptr },
            ]
            &&& outcome.output matches Some(Err(error))
            &&& error.kind matches ErrorKind::InvalidTensorIndex(given, last)
            &&& given == index
            &&& count > 0 ==> last == count - 1
            &&& count == 0 ==> last == 0
        }),
{
}

/// Fetching an output at an index below the number of outputs looks exactly that output up and reads the
/// tensor that is found there. A tensor that was read is handed on, as is an error, except that a
/// tensor that could not be read is put down to what is missing.
pub proof fn fetching_an_output(
    interpreter_ptr: usize,
    index: usize,
    count: i32,
    tensor_ptr: usize,
    read: Result<Tensor, Error>,
)
    requires
        index < count,
    ensures
        ({
            let outcome = run(
                FetchTensor::start(interpreter_ptr, Side::Output, index),
                seq![Reply::Count(count), Reply::Address(tensor_ptr), Reply::Tensor(read)],
            );
            &&& outcome.calls.len() == 3
            &&& outcome.calls[0] == (CallView::<u8>::OutputTensorCount {
                interpreter: interpreter_ptr,
            })
            &&& outcome.calls[1] matches CallView::OutputTensor { interpreter, index: looked_up }
            &&& interpreter == interpreter_ptr
            &&& looked_up == index
            &&& outcome.calls[2] == (CallView::<u8>::ReadTensor { tensor: tensor_ptr })
            &&& read matches Ok(tensor) ==> outcome.output == Some(Ok::<Tensor, Error>(tensor))
            &&& read matches Err(error) ==> {
                &&& outcome.output matches Some(Err(reported))
                &&& error.kind == ErrorKind::ReadTensorError ==> reported.kind
                    == ErrorKind::InvokeInterpreterRequired
                &&& error.kind != ErrorKind::ReadTensorError ==> reported == error
            }
        }),
{
    reveal_with_fuel(run, 4);
    let replies = seq![Reply::Count(count), Reply::Address(tensor_ptr), Reply::Tensor(read)];
    assert(replies.drop_first().drop_first().first() == Reply::Tensor(read));
}

/// Fetching an output at an index that is not below the number of outputs is an error that names the
/// index and the last one there is, and no tensor is looked up.
pub proof fn fetching_past_the_last_output(interpreter_ptr: usize, index: usize, count: i32)
    requires
        0 <= count <= index,
    ensures
        ({
            let outcome = run(
                FetchTensor::start(interpreter_ptr, Side::Output, index),
                seq![Reply::Count(count)],
            );
            &&& outcome.calls == seq![
                CallView::<u8>::OutputTensorCount { interpreter: interpreter_ptr },
            ]
            &&& outcome.output matches Some(Err(error))
            &&& error.kind matches ErrorKind::InvalidTensorIndex(given, last)
            &&& given == index
            &&& count > 0 ==> last == count - 1
            &&& count == 0 ==> last == 0
        }),
{
}

/// Different tensors are looked up by different calls: another index, or the other side, never
/// reaches the same tensor.
pub proof fn different_tensors_are_looked_up_differently(
    interpreter_ptr: usize,
    side: Side,
    other_side: Side,
    index: usize,
    other_index: usize,
    count: i32,
)
    requires
        index < count,
        other_index < count,
        index != other_index || side != other_side,
    ensures
        ({
            let replies = seq![Reply::Count(count)];
            let calls = run(FetchTensor::start(interpreter_ptr, side, index), replies).calls;
            let other_calls = run(
                FetchTensor::start(interpreter_ptr, other_side, other_index),
                replies,
            ).calls;
            &&& calls.len() == 2
            &&& other_calls.len() == 2
            &&& calls[1] != other_calls[1]
        }),
{
    reveal_with_fuel(run, 2);
}

/// Where the runtime reports a negative number of tensors, it counts as the number that it wraps
/// around to, and the index is handed over by its lower 32 bits.
pub proof fn fetching_at_a_negative_count(
    interpreter_ptr: usize,
    side: Side,
    index: usize,
    count: i32,
)
    requires
        count < 0,
    ensures
        ({
            let outcome = run(
                FetchTensor::start(interpreter_ptr, side, index),
                seq![Reply::Count(count)],
            );
            &&& index <= usize::MAX + count ==> {
                &&& outcome.output is None
                &&& outcome.calls.len() == 2
                &&& outcome.calls[1] matches CallView::InputTensor {
                    interpreter,
                    index: looked_up,
                } ==> {
                    &&& side == Side::Input
                    &&& interpreter == interpreter_ptr
                    &&& (index - looked_up) % 0x1_0000_0000 == 0
                }
                &&& outcome.calls[1] matches CallView::OutputTensor {
                    interpreter,
                    index: looked_up,
                } ==> {
                    &&& side == Side::Output
                    &&& interpreter == interpreter_ptr
                    &&& (index - looked_up) % 0x1_0000_0000 == 0
                }
                &&& outcome.calls[1] is InputTensor || outcome.calls[1] is OutputTensor
            }
            &&& index > usize::MAX + count ==> {
                &&& outcome.calls.len() == 1
                &&& outcome.output matches Some(Err(error))
                &&& error.kind matches ErrorKind::InvalidTensorIndex(given, last)
                &&& given == index
                &&& last == usize::MAX + count
            }
        }),
{
    reveal_with_fuel(run, 2);
}

/// Resizing the input at an index below the number of inputs asks for exactly the dimensions that
/// were given, all of them and in their order, of exactly that input. It succeeds just where the
/// status is 0.
pub proof fn resizing_an_input(
    op: ResizeInput,
    interpreter_ptr: usize,
    index: usize,
    dimensions: Seq<usize>,
    count: i32,
    status: u32,
)
    requires
        op.starts(interpreter_ptr, index, dimensions),
        index < count,
        dimensions.len() <= 0x7fff_ffff,
        forall|k: int| 0 <= k < dimensions.len() ==> #[trigger] dimensions[k] <= 0x7fff_ffff,
    ensures
        ({
            let outcome = run(op, seq![Reply::Count(count), Reply::Status(status)]);
            &&& outcome.calls.len() == 2
            &&& outcome.calls[0] == (CallView::<u8>::InputTensorCount {
                interpreter: interpreter_ptr,
            })
            &&& outcome.calls[1] matches CallView::ResizeInputTensor {
                interpreter,
                index: resized,
                dims,
                dims_size,
            }
            &&& interpreter == interpreter_ptr
            &&& resized == index
            &&& dims.len() == dimensions.len()
            &&& forall|k: int| 0 <= k < dimensions.len() ==> #[trigger] dims[k] == dimensions[k]
            &&& dims_size == dimensions.len()
            &&& status == 0 ==> outcome.output == Some(Ok::<(), Error>(()))
            &&& status != 0 ==> outcome.output == Some(
                Err::<(), Error>(Error { kind: ErrorKind::FailedToResizeInputTensor(index) }),
            )
        }),
{
    reveal_with_fuel(run, 3);
    let replies = seq![Reply::Count(count), Reply::Status(status)];
    assert(replies.drop_first().first() == Reply::Status(status));
}

/// A shape with a dimension, or with a number of dimensions, that no C `int` holds is refused, and
/// no resize is asked for.
pub proof fn resizing_beyond_c_ints(
    op: ResizeInput,
    interpreter_ptr: usize,
    index: usize,
    dimensions: Seq<usize>,
    count: i32,
)
    requires
        op.starts(interpreter_ptr, index, dimensions),
        index < count || count < 0 && index <= usize::MAX + count,
        dimensions.len() > 0x7fff_ffff || exists|k: int|
            0 <= k < dimensions.len() && #[trigger] dimensions[k] > 0x7fff_ffff,
    ensures
        ({
            let outcome = run(op, seq![Reply::Count(count)]);
            &&& outcome.calls == seq![
                CallView::<u8>::InputTensorCount { interpreter: interpreter_ptr },
            ]
            &&& outcome.output == Some(
                Err::<(), Error>(Error { kind: ErrorKind::FailedToResizeInputTensor(index) }),
            )
        }),
{
}

/// Resizing at an index that is not below the number of inputs is an error that names the index
/// and the last one there is, whatever the shape is, and no resize is asked for.
pub proof fn resizing_past_the_last_input(
    op: ResizeInput,
    interpreter_ptr: usize,
    index: usize,
    dimensions: Seq<usize>,
    count: i32,
)
    requires
        op.starts(interpreter_ptr, index, dimensions),
        0 <= count <= index,
    ensures
        ({
            let outcome = run(op, seq![Reply::Count(count)]);
            &&& outcome.calls == seq![
                CallView::<u8>::InputTensorCount { interpreter: interpreter_ptr },
            ]
            &&& outcome.output matches Some(Err(error))
            &&& error.kind matches ErrorKind::InvalidTensorIndex(given, last)
            &&& given == index
            &&& count > 0 ==> last == count - 1
            &&& count == 0 ==> last == 0
        }),
{
}

/// Copying to the input at an index below the number of inputs looks exactly that input up and
/// measures the tensor that is found there. Where it takes as many bytes as the data, exactly the
/// data is copied to it, all of its bytes, which succeeds just where the status is 0.
pub proof fn copying_data<'d, T>(
    op: CopyInput<'d, T>,
    interpreter_ptr: usize,
    data: &'d [T],
    index: usize,
    byte_count: usize,
    count: i32,
    tensor_ptr: usize,
    status: u32,
)
    requires
        op.starts(interpreter_ptr, data, index, byte_count as nat),
        index < count,
    ensures
        ({
            let outcome = run(
                op,
                seq![
                    Reply::Count(count),
                    Reply::Address(tensor_ptr),
                    Reply::ByteSize(byte_count),
                    Reply::Status(status),
                ],
            );
            &&& outcome.calls.len() == 4
            &&& outcome.calls[0] == (CallView::<T>::InputTensorCount {
                interpreter: interpreter_ptr,
            })
            &&& outcome.calls[1] matches CallView::InputTensor { interpreter, index: looked_up }
            &&& interpreter == interpreter_ptr
            &&& looked_up == index
            &&& outcome.calls[2] == (CallView::<T>::TensorByteSize { tensor: tensor_ptr })
            &&& outcome.calls[3] == (CallView::<T>::TensorCopyFromBuffer {
                tensor: tensor_ptr,
                data: data@,
                byte_count,
            })
            &&& status == 0 ==> outcome.output == Some(Ok::<(), Error>(()))
            &&& status != 0 ==> outcome.output == Some(
                Err::<(), Error>(Error { kind: ErrorKind::FailedToCopyDataToInputTensor }),
            )
        }),
{
    reveal_with_fuel(run, 5);
    let replies = seq![
        Reply::Count(count),
        Reply::Address(tensor_ptr),
        Reply::ByteSize(byte_count),
        Reply::Status(status),
    ];
    let r2 = replies.drop_first().drop_first();
    assert(r2.first() == Reply::ByteSize(byte_count));
    assert(r2.drop_first().first() == Reply::Status(status));
}

/// Data that takes another number of bytes than the tensor is refused, with both numbers, and
/// nothing is copied.
pub proof fn copying_data_of_another_size<'d, T>(
    op: CopyInput<'d, T>,
    interpreter_ptr: usize,
    data: &'d [T],
    index: usize,
    byte_count: usize,
    count: i32,
    tensor_ptr: usize,
    byte_size: usize,
)
    requires
        op.starts(interpreter_ptr, data, index, byte_count as nat),
        index < count,
        byte_count != byte_size,
    ensures
        ({
            let outcome = run(
                op,
                seq![
                    Reply::Count(count),
                    Reply::Address(tensor_ptr),
                    Reply::ByteSize(byte_size),
                ],
            );
            &&& outcome.calls.len() == 3
            &&& outcome.calls[0] == (CallView::<T>::InputTensorCount {
                interpreter: interpreter_ptr,
            })
            &&& outcome.calls[1] matches CallView::InputTensor { interpreter, index: looked_up }
            &&& interpreter == interpreter_ptr
            &&& looked_up == index
            &&& outcome.calls[2] == (CallView::<T>::TensorByteSize { tensor: tensor_ptr })
            &&& outcome.output == Some(
                Err::<(), Error>(
                    Error { kind: ErrorKind::InvalidTensorDataCount(byte_count, byte_size) },
                ),
            )
        }),
{
    reveal_with_fuel(run, 4);
    let replies = seq![
        Reply::Count(count),
        Reply::Address(tensor_ptr),
        Reply::ByteSize(byte_size),
    ];
    assert(replies.drop_first().drop_first().first() == Reply::ByteSize(byte_size));
}

/// Copying to an index that is not below the number of inputs is an error that names the index and
/// the last one there is, and nothing is copied.
pub proof fn copying_past_the_last_input<'d, T>(
    op: CopyInput<'d, T>,
    interpreter_ptr: usize,
    data: &'d [T],
    index: usize,
    byte_count: usize,
    count: i32,
)
    requires
        op.starts(interpreter_ptr, data, index, byte_count as nat),
        0 <= count <= index,
    ensures
        ({
            let outcome = run(op, seq![Reply::Count(count)]);
            &&& outcome.calls == seq![
                CallView::<T>::InputTensorCount { interpreter: interpreter_ptr },
            ]
            &&& outcome.output matches Some(Err(error))
            &&& error.kind matches ErrorKind::InvalidTensorIndex(given, last)
            &&& given == index
            &&& count > 0 ==> last == count - 1
            &&& count == 0 ==> last == 0
        }),
{
}

/// Resizing and copying take a negative number of inputs as fetching does: as the number that it
/// wraps around to, with the index handed over by its lower 32 bits.
pub proof fn resizing_and_copying_at_a_negative_count<'d, T>(
    resize: ResizeInput,
    copy: CopyInput<'d, T>,
    interpreter_ptr: usize,
    index: usize,
    dimensions: Seq<usize>,
    data: &'d [T],
    byte_count: usize,
    count: i32,
)
    requires
        resize.starts(interpreter_ptr, index, dimensions),
        copy.starts(interpreter_ptr, data, index, byte_count as nat),
        count < 0,
    ensures
        ({
            let resizing = run(resize, seq![Reply::Count(count)]);
            let copying = run(copy, seq![Reply::Count(count)]);
            &&& index <= usize::MAX + count ==> {
                &&& copying.output is None
                &&& copying.calls.len() == 2
                &&& copying.calls[1] matches CallView::InputTensor { interpreter, index: looked_up }
                &&& interpreter == interpreter_ptr
                &&& (index - looked_up) % 0x1_0000_0000 == 0
            }
            &&& index <= usize::MAX + count && dimensions.len() <= 0x7fff_ffff && (forall|k: int|
                0 <= k < dimensions.len() ==> #[trigger] dimensions[k] <= 0x7fff_ffff) ==> {
                &&& resizing.output is None
                &&& resizing.calls.len() == 2
                &&& resizing.calls[1] matches CallView::ResizeInputTensor {
                    interpreter,
                    index: resized,
                    dims,
                    dims_size,
                }
                &&& interpreter == interpreter_ptr
                &&& (index - resized) % 0x1_0000_0000 == 0
                &&& dims.len() == dimensions.len()
                &&& forall|k: int|
                    0 <= k < dimensions.len() ==> #[trigger] dims[k] == dimensions[k]
                &&& dims_size == dimensions.len()
            }
            &&& index > usize::MAX + count ==> {
                &&& resizing.calls.len() == 1
                &&& copying.calls.len() == 1
                &&& resizing.output == copying.output
                &&& copying.output matches Some(Err(error))
                &&& error.kind matches ErrorKind::InvalidTensorIndex(given, last)
                &&& given == index
                &&& last == usize::MAX + count
            }
        }),
{
    reveal_with_fuel(run, 2);
}

/// Deleting an interpreter without a delegate is one call, on its address.
pub proof fn deleting_without_a_delegate(interpreter: InterpreterView)
    requires
        interpreter.options is Default || interpreter.delegate is None,
    ensures
        ({
            let outcome = run(Teardown::start(interpreter), seq![Reply::Done]);
            &&& outcome.calls == seq![
                CallView::<u8>::InterpreterDelete { interpreter: interpreter.interpreter },
            ]
            &&& outcome.output == Some(())
        }),
{
}

/// Deleting an interpreter with XNNPACK deletes the interpreter and then the XNNPACK delegate, each
/// at its address.
pub proof fn deleting_with_xnnpack(interpreter: InterpreterView, delegate_ptr: usize)
    requires
        interpreter.options is Xnnpack,
        interpreter.delegate == Some(delegate_ptr),
    ensures
        ({
            let outcome = run(Teardown::start(interpreter), seq![Reply::Done, Reply::Done]);
            &&& outcome.calls == seq![
                CallView::<u8>::InterpreterDelete { interpreter: interpreter.interpreter },
                CallView::XnnpackDelegateDelete { delegate: delegate_ptr },
            ]
            &&& outcome.output == Some(())
        }),
{
    reveal_with_fuel(run, 3);
    assert(seq![Reply::Done, Reply::Done].drop_first().first() == Reply::Done);
}

/// Deleting an interpreter with an external delegate deletes the interpreter and then the external
/// delegate, each at its address.
pub proof fn deleting_with_an_external_delegate(interpreter: InterpreterView, delegate_ptr: usize)
    requires
        interpreter.options is External,
        interpreter.delegate == Some(delegate_ptr),
    ensures
        ({
            let outcome = run(Teardown::start(interpreter), seq![Reply::Done, Reply::Done]);
            &&& outcome.calls == seq![
                CallView::<u8>::InterpreterDelete { interpreter: interpreter.interpreter },
                CallView::ExternalDelegateDelete { delegate: delegate_ptr },
            ]
            &&& outcome.output == Some(())
        }),
{
    reveal_with_fuel(run, 3);
    assert(seq![Reply::Done, Reply::Done].drop_first().first() == Reply::Done);
}

} // verus!
