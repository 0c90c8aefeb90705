//! What holds of the operations as a whole, whatever the runtime replies.
use crate::access::{dims_fit, index_outcome, largest_index, same_dims};
use crate::access::{CopyInput, CountTensors, FetchTensor, ResizeInput, Side};
use crate::command::{outcome_of, Command};
use crate::creation::{ConfigureDelegate, Creation, DelegateSource};
use crate::error::{Error, ErrorKind};
use crate::interpreter::{assembled_view, Interpreter, InterpreterView, Options};
use crate::model::Model;
use crate::operation::{answered, run, Operation, Run, Step};
use crate::runtime::{c_int, tensor_count, CallView, Reply, STATUS_OK};
use crate::teardown::Teardown;
use crate::tensor::Tensor;
use vstd::prelude::*;

verus! {

/// Configuring a delegate creates it and adds it to the options object, and gives its address, null
/// or not.
pub proof fn configure_runs(options_ptr: usize, source: DelegateSource, replies: Seq<Reply>)
    requires
        answered(ConfigureDelegate::start(options_ptr, source), replies),
        run(ConfigureDelegate::start(options_ptr, source), replies).output is Some,
    ensures
        replies.len() == 2,
        replies[1] == Reply::Done,
        replies[0] matches Reply::Address(delegate_ptr) && run(
            ConfigureDelegate::start(options_ptr, source),
            replies,
        ) == (Run {
            calls: seq![
                source.create_call(),
                CallView::OptionsAddDelegate { options: options_ptr, delegate: delegate_ptr },
            ],
            output: Some(delegate_ptr),
        }),
{
    reveal_with_fuel(run, 3);
    reveal_with_fuel(answered, 3);
    let op = ConfigureDelegate::start(options_ptr, source);
    assert(run(op, replies).calls.len() == replies.len());
}

/// The delegate that the options ask for.
pub open spec fn delegate_source(options: Options) -> Option<DelegateSource> {
    match options {
        Options::Default => None,
        Options::Xnnpack(thread_count) => Some(DelegateSource::Xnnpack(thread_count)),
        Options::External(path) => Some(DelegateSource::External(path)),
    }
}

/// The address of an interpreter's delegate, where its options ask for one and the runtime put it
/// at the given address.
pub open spec fn delegate_address(options: Options, delegate_ptr: usize) -> Option<usize> {
    if options is Default {
        None
    } else {
        Some(delegate_ptr)
    }
}

/// The replies of a runtime that puts the options object, the delegate and the interpreter at the
/// given addresses.
pub open spec fn creation_replies(
    options: Options,
    options_ptr: usize,
    delegate_ptr: usize,
    interpreter_ptr: usize,
) -> Seq<Reply> {
    if options is Default {
        seq![Reply::Address(options_ptr), Reply::Address(interpreter_ptr), Reply::Done]
    } else {
        seq![
            Reply::Address(options_ptr),
            Reply::Done,
            Reply::Address(delegate_ptr),
            Reply::Done,
            Reply::Address(interpreter_ptr),
            Reply::Done,
        ]
    }
}

/// The calls that create an interpreter, where the runtime puts the options object and the
/// delegate at the given addresses.
pub open spec fn creation_calls(
    model: &Model,
    options: Options,
    options_ptr: usize,
    delegate_ptr: usize,
) -> Seq<CallView<u8>> {
    let create = CallView::InterpreterCreate { model: model.model_ptr, options: options_ptr };
    let delete = CallView::OptionsDelete { options: options_ptr };
    match delegate_source(options) {
        None => seq![CallView::OptionsCreate, create, delete],
        Some(source) => seq![
            CallView::OptionsCreate,
            CallView::OptionsSetNumThreads {
                options: options_ptr,
                num_threads: source.num_threads(),
            },
            source.create_call(),
            CallView::OptionsAddDelegate { options: options_ptr, delegate: delegate_ptr },
            create,
            delete,
        ],
    }
}

/// Where the runtime creates an options object, creating an interpreter makes the calls of
/// [`creation_calls`], in that order and no others.
pub proof fn creation_runs(
    model: &Model,
    options: Options,
    options_ptr: usize,
    delegate_ptr: usize,
    interpreter_ptr: usize,
)
    requires
        options_ptr != 0,
    ensures
        answered(
            Creation::start(model, options),
            creation_replies(options, options_ptr, delegate_ptr, interpreter_ptr),
        ),
        run(
            Creation::start(model, options),
            creation_replies(options, options_ptr, delegate_ptr, interpreter_ptr),
        ) == (Run {
            calls: creation_calls(model, options, options_ptr, delegate_ptr),
            output: Some(
                Creation::start(model, options).created(
                    delegate_address(options, delegate_ptr),
                    interpreter_ptr,
                ),
            ),
        }),
{
    reveal_with_fuel(run, 7);
    reveal_with_fuel(answered, 7);
    let op = Creation::start(model, options);
    let replies = creation_replies(options, options_ptr, delegate_ptr, interpreter_ptr);
    assert(run(op, replies).calls =~= creation_calls(model, options, options_ptr, delegate_ptr));
}

/// Where the runtime creates no options object, nothing else is asked of it, and the creation
/// fails.
pub proof fn creation_needs_an_options_object(model: &Model, options: Options)
    ensures
        answered(Creation::start(model, options), seq![Reply::Address(0)]),
        run(Creation::start(model, options), seq![Reply::Address(0)]).calls == seq![
            CallView::<u8>::OptionsCreate,
        ],
        run(Creation::start(model, options), seq![Reply::Address(0)]).output == Some(
            Err::<Interpreter, Error>(Error { kind: ErrorKind::FailedToCreateInterpreter }),
        ),
{
    reveal_with_fuel(answered, 2);
}

/// Creating an interpreter has no other run to its end than those of [`creation_runs`] and
/// [`creation_needs_an_options_object`].
pub proof fn creation_has_no_other_run(model: &Model, options: Options, replies: Seq<Reply>)
    requires
        answered(Creation::start(model, options), replies),
        run(Creation::start(model, options), replies).output is Some,
    ensures
        replies == seq![Reply::Address(0)] || exists|
            options_ptr: usize,
            delegate_ptr: usize,
            interpreter_ptr: usize,
        |
            options_ptr != 0 && replies == #[trigger] creation_replies(
                options,
                options_ptr,
                delegate_ptr,
                interpreter_ptr,
            ),
{
    reveal_with_fuel(run, 7);
    reveal_with_fuel(answered, 7);
    let options_ptr = replies[0]->Address_0;
    if options_ptr == 0 {
        assert(replies =~= seq![Reply::Address(0)]);
    } else if options is Default {
        assert(replies =~= creation_replies(options, options_ptr, 0, replies[1]->Address_0));
    } else {
        assert(replies =~= creation_replies(
            options,
            options_ptr,
            replies[2]->Address_0,
            replies[4]->Address_0,
        ));
    }
}

/// The addresses of the options object, the delegate and the interpreter in a run to the end in
/// which there is an options object.
proof fn creation_addresses(model: &Model, options: Options, replies: Seq<Reply>) -> (at: (
    usize,
    usize,
    usize,
))
    requires
        answered(Creation::start(model, options), replies),
        run(Creation::start(model, options), replies).output is Some,
        replies[0] != Reply::Address(0),
    ensures
        at.0 != 0,
        replies == creation_replies(options, at.0, at.1, at.2),
        run(Creation::start(model, options), replies) == (Run {
            calls: creation_calls(model, options, at.0, at.1),
            output: Some(
                Creation::start(model, options).created(delegate_address(options, at.1), at.2),
            ),
        }),
{
    creation_has_no_other_run(model, options, replies);
    let at = choose|options_ptr: usize, delegate_ptr: usize, interpreter_ptr: usize|
        options_ptr != 0 && replies == #[trigger] creation_replies(
            options,
            options_ptr,
            delegate_ptr,
            interpreter_ptr,
        );
    creation_runs(model, options, at.0, at.1, at.2);
    at
}

/// Creating an interpreter succeeds just where the runtime creates both the options object and the
/// interpreter. The interpreter that it gives is at the address that the runtime created it at,
/// keeps the delegate's address, and has the options and the model that were asked for. Whatever
/// goes wrong, the error is the same.
pub proof fn creation_outcome(model: &Model, options: Options, replies: Seq<Reply>)
    requires
        answered(Creation::start(model, options), replies),
        run(Creation::start(model, options), replies).output is Some,
    ensures
        ({
            let outcome = run(Creation::start(model, options), replies);
            match outcome.output.unwrap() {
                Ok(interpreter) => {
                    &&& interpreter@.wf()
                    &&& interpreter@.options == options
                    &&& interpreter@.model == model.model_ptr
                    &&& forall|k: int|
                        #![trigger outcome.calls[k]]
                        0 <= k < replies.len() ==> match outcome.calls[k] {
                            CallView::OptionsCreate => replies[k] != Reply::Address(0),
                            CallView::InterpreterCreate { .. } => replies[k] == Reply::Address(
                                interpreter@.interpreter,
                            ),
                            CallView::XnnpackDelegateCreate { .. }
                            | CallView::ExternalDelegateCreate { .. } => {
                                &&& interpreter@.delegate is Some
                                &&& replies[k] == Reply::Address(interpreter@.delegate.unwrap())
                            },
                            _ => true,
                        }
                },
                Err(error) => {
                    &&& error.kind == ErrorKind::FailedToCreateInterpreter
                    &&& exists|k: int|
                        {
                            &&& 0 <= k < replies.len()
                            &&& #[trigger] outcome.calls[k] is OptionsCreate
                                || outcome.calls[k] is InterpreterCreate
                            &&& replies[k] == Reply::Address(0)
                        }
                },
            }
        }),
{
    broadcast use assembled_view;

    let op = Creation::start(model, options);
    if replies[0] == Reply::Address(0) {
        creation_has_no_other_run(model, options, replies);
        creation_needs_an_options_object(model, options);
        assert(run(op, replies).calls[0] is OptionsCreate);
    } else {
        let (_, _, interpreter_ptr) = creation_addresses(model, options, replies);
        if interpreter_ptr == 0 {
            assert(run(op, replies).calls[replies.len() - 2] is InterpreterCreate);
        }
    }
}

/// The replies of a runtime that deletes what it is asked to.
pub open spec fn teardown_replies(interpreter: InterpreterView) -> Seq<Reply> {
    if interpreter.owned_delegate() is None {
        seq![Reply::Done]
    } else {
        seq![Reply::Done, Reply::Done]
    }
}

/// Deleting an interpreter deletes its runtime object and then the delegate that it owns, and
/// nothing else. It has no other run to its end.
pub proof fn teardown_runs(interpreter: InterpreterView)
    ensures
        answered(Teardown::start(interpreter), teardown_replies(interpreter)),
        run(Teardown::start(interpreter), teardown_replies(interpreter)).output == Some(()),
        run(Teardown::start(interpreter), teardown_replies(interpreter)).calls == seq![
            CallView::<u8>::InterpreterDelete { interpreter: interpreter.interpreter },
        ] + match interpreter.owned_delegate() {
            None => Seq::empty(),
            Some(delegate) => seq![delegate.delete_call()],
        },
        forall|replies: Seq<Reply>|
            #[trigger] answered(Teardown::start(interpreter), replies) && run(
                Teardown::start(interpreter),
                replies,
            ).output is Some ==> replies == teardown_replies(interpreter),
{
    reveal_with_fuel(run, 3);
    reveal_with_fuel(answered, 3);
    assert forall|replies: Seq<Reply>|
        #[trigger] answered(Teardown::start(interpreter), replies) && run(
            Teardown::start(interpreter),
            replies,
        ).output is Some implies replies == teardown_replies(interpreter) by {
        assert(replies =~= teardown_replies(interpreter));
    }
}

/// Whether a call creates an object of the runtime.
pub open spec fn creates(call: CallView<u8>) -> bool {
    match call {
        CallView::OptionsCreate
        | CallView::XnnpackDelegateCreate { .. }
        | CallView::ExternalDelegateCreate { .. }
        | CallView::InterpreterCreate { .. } => true,
        _ => false,
    }
}

/// Whether a call deletes the object that another call created at the given address.
pub open spec fn deletes(call: CallView<u8>, maker: CallView<u8>, address: usize) -> bool {
    match maker {
        CallView::OptionsCreate => call == CallView::<u8>::OptionsDelete { options: address },
        CallView::XnnpackDelegateCreate { .. } => call == CallView::<u8>::XnnpackDelegateDelete {
            delegate: address,
        },
        CallView::ExternalDelegateCreate { .. } => call == CallView::<u8>::ExternalDelegateDelete {
            delegate: address,
        },
        CallView::InterpreterCreate { .. } => call == CallView::<u8>::InterpreterDelete {
            interpreter: address,
        },
        _ => false,
    }
}

/// The options object is deleted before the creation ends, by its last call and no earlier one,
/// whether or not an interpreter was created.
pub proof fn options_object_is_deleted(model: &Model, options: Options, replies: Seq<Reply>)
    requires
        answered(Creation::start(model, options), replies),
        run(Creation::start(model, options), replies).output is Some,
        replies[0] != Reply::Address(0),
    ensures
        ({
            let calls = run(Creation::start(model, options), replies).calls;
            &&& replies[0] == Reply::Address(calls.last()->OptionsDelete_options)
            &&& forall|k: int| 0 <= k < calls.len() ==> (#[trigger] calls[k] is OptionsDelete <==> k
                == calls.len() - 1)
        }),
{
    creation_addresses(model, options, replies);
}

/// Nothing outlives an interpreter: of the objects that the runtime was asked for while an
/// interpreter was created, each is deleted by exactly one of the calls that create the
/// interpreter and delete it, and after the call that created it. The interpreter goes before its
/// delegate.
///
/// This holds of interpreters that came to be. Where the creation fails after the delegate was
/// created, no call deletes the delegate.
pub proof fn every_object_is_deleted_once(
    model: &Model,
    options: Options,
    replies: Seq<Reply>,
    interpreter: Interpreter,
)
    requires
        answered(Creation::start(model, options), replies),
        run(Creation::start(model, options), replies).output == Some(
            Ok::<Interpreter, Error>(interpreter),
        ),
    ensures
        ({
            let creation = run(Creation::start(model, options), replies).calls;
            let calls = creation + run(
                Teardown::start(interpreter@),
                teardown_replies(interpreter@),
            ).calls;
            &&& forall|k: int|
                0 <= k < creation.len() && creates(#[trigger] creation[k]) ==> exists|j: int|
                    {
                        &&& k < j < calls.len()
                        &&& deletes(#[trigger] calls[j], creation[k], replies[k]->Address_0)
                        &&& forall|i: int|
                            0 <= i < calls.len() && deletes(
                                #[trigger] calls[i],
                                creation[k],
                                replies[k]->Address_0,
                            ) ==> i == j
                    }
            &&& forall|j: int|
                creation.len() <= j < calls.len() ==> (#[trigger] calls[j] is InterpreterDelete
                    <==> j == creation.len())
        }),
{
    broadcast use assembled_view;

    creation_needs_an_options_object(model, options);
    creation_outcome(model, options, replies);
    creation_addresses(model, options, replies);
    teardown_runs(interpreter@);
    let creation = run(Creation::start(model, options), replies).calls;
    let calls = creation + run(
        Teardown::start(interpreter@),
        teardown_replies(interpreter@),
    ).calls;
    assert forall|k: int| 0 <= k < creation.len() && creates(#[trigger] creation[k]) implies exists|
        j: int,
    |
        {
            &&& k < j < calls.len()
            &&& deletes(#[trigger] calls[j], creation[k], replies[k]->Address_0)
            &&& forall|i: int|
                0 <= i < calls.len() && deletes(
                    #[trigger] calls[i],
                    creation[k],
                    replies[k]->Address_0,
                ) ==> i == j
        } by {
        let j: int = match creation[k] {
            CallView::OptionsCreate => creation.len() - 1,
            CallView::InterpreterCreate { .. } => creation.len() as int,
            _ => (creation.len() + 1) as int,
        };
        assert(deletes(calls[j], creation[k], replies[k]->Address_0));
    }
}

/// Counting tensors is one call, and gives the count that the runtime reports.
pub proof fn counting_runs(op: CountTensors, replies: Seq<Reply>)
    requires
        answered(op, replies),
        run(op, replies).output is Some,
    ensures
        run(op, replies).calls == seq![op.side.count_call(op.interpreter_ptr)],
        replies.len() == 1,
        replies[0] matches Reply::Count(count) && run(op, replies).output == Some(
            tensor_count(count) as usize,
        ) && 0 <= tensor_count(count) <= usize::MAX,
{
}

/// A command is one call. It succeeds just where the runtime reports success.
pub proof fn command_runs(op: Command, replies: Seq<Reply>)
    requires
        answered(op, replies),
        run(op, replies).output is Some,
    ensures
        run(op, replies).calls == seq![op.pending()],
        replies.len() == 1,
        replies[0] is Status,
        run(op, replies).output.unwrap() is Ok <==> replies[0] == Reply::Status(STATUS_OK),
        run(op, replies).output.unwrap() matches Err(error) ==> error.kind == op.kind.failure(),
{
}

/// Fetching a tensor counts the tensors first. An index that is not valid is an error, and nothing
/// else is asked of the runtime. The tensor at a valid index is looked up and read.
pub proof fn fetch_runs(interpreter_ptr: usize, side: Side, index: usize, replies: Seq<Reply>)
    requires
        answered(FetchTensor::start(interpreter_ptr, side, index), replies),
        run(FetchTensor::start(interpreter_ptr, side, index), replies).output is Some,
    ensures
        ({
            let outcome = run(FetchTensor::start(interpreter_ptr, side, index), replies);
            let count = replies[0]->Count_0;
            &&& replies[0] is Count
            &&& if index < tensor_count(count) {
                &&& replies.len() == 3
                &&& replies[1] is Address
                &&& replies[2] is Tensor
                &&& outcome.calls == seq![
                    side.count_call(interpreter_ptr),
                    side.tensor_call(interpreter_ptr, c_int(index) as i32),
                    CallView::ReadTensor { tensor: replies[1]->Address_0 },
                ]
                &&& outcome.output == Some(side.fetched(replies[2]->Tensor_0))
            } else {
                &&& replies.len() == 1
                &&& outcome.calls == seq![side.count_call(interpreter_ptr)]
                &&& outcome.output == Some(
                    Err::<Tensor, Error>(
                        Error {
                            kind: ErrorKind::InvalidTensorIndex(
                                index,
                                largest_index(count) as usize,
                            ),
                        },
                    ),
                )
            }
        }),
{
    reveal_with_fuel(run, 4);
    reveal_with_fuel(answered, 4);
    let op = FetchTensor::start(interpreter_ptr, side, index);
    assert(run(op, replies).calls.len() == replies.len());
}

/// A tensor that cannot be read is never reported as such, but as what is missing: an allocation
/// for an input, an invocation for an output.
pub proof fn fetch_explains_unread_tensors(
    interpreter_ptr: usize,
    side: Side,
    index: usize,
    replies: Seq<Reply>,
)
    requires
        answered(FetchTensor::start(interpreter_ptr, side, index), replies),
        run(FetchTensor::start(interpreter_ptr, side, index), replies).output is Some,
    ensures
        ({
            let output = run(FetchTensor::start(interpreter_ptr, side, index), replies).output;
            &&& output.unwrap() matches Err(error) ==> error.kind != ErrorKind::ReadTensorError
            &&& replies.last() == Reply::Tensor(Err(Error { kind: ErrorKind::ReadTensorError }))
                ==> output == Some(Err::<Tensor, Error>(Error { kind: side.unread() }))
        }),
{
    fetch_runs(interpreter_ptr, side, index, replies);
}

/// Resizing a tensor counts the input tensors first. An index that is not valid is an error, and
/// nothing else is asked of the runtime. So is, at a valid index, a shape that the runtime cannot
/// take. Otherwise the tensor at the index is resized to exactly the given dimensions, which
/// succeeds just where the runtime reports success.
pub proof fn resize_runs(
    op: ResizeInput,
    interpreter_ptr: usize,
    index: usize,
    dimensions: Seq<usize>,
    replies: Seq<Reply>,
)
    requires
        op.starts(interpreter_ptr, index, dimensions),
        answered(op, replies),
        run(op, replies).output is Some,
    ensures
        ({
            let outcome = run(op, replies);
            let count = replies[0]->Count_0;
            let count_call = CallView::<u8>::InputTensorCount { interpreter: interpreter_ptr };
            let failure = ErrorKind::FailedToResizeInputTensor(index);
            &&& replies[0] is Count
            &&& outcome.calls[0] == count_call
            &&& outcome.calls.len() == replies.len()
            &&& if index >= tensor_count(count) {
                &&& replies.len() == 1
                &&& outcome.output == Some(index_outcome(index, count))
            } else if !dims_fit(dimensions) {
                &&& replies.len() == 1
                &&& outcome.output == Some(Err::<(), Error>(Error { kind: failure }))
            } else {
                &&& replies.len() == 2
                &&& replies[1] is Status
                &&& outcome.calls[1] matches CallView::ResizeInputTensor {
                    interpreter,
                    index: c_index,
                    dims,
                    dims_size,
                }
                &&& interpreter == interpreter_ptr
                &&& c_index == c_int(index)
                &&& same_dims(dims, dimensions)
                &&& dims_size == dimensions.len()
                &&& outcome.output == Some(outcome_of(replies[1]->Status_0, failure))
            }
        }),
{
    reveal_with_fuel(run, 3);
    reveal_with_fuel(answered, 3);
    assert(run(op, replies).calls.len() == replies.len());
}

/// Resizing a tensor reaches no other tensor: at most one resize is requested, by the last call,
/// and where the runtime reports a number of tensors it is for the given index.
pub proof fn resize_reaches_no_other_tensor(
    op: ResizeInput,
    interpreter_ptr: usize,
    index: usize,
    dimensions: Seq<usize>,
    replies: Seq<Reply>,
)
    requires
        op.starts(interpreter_ptr, index, dimensions),
        answered(op, replies),
        run(op, replies).output is Some,
    ensures
        ({
            let calls = run(op, replies).calls;
            forall|k: int|
                0 <= k < calls.len() ==> match #[trigger] calls[k] {
                    CallView::ResizeInputTensor { interpreter, index: c_index, .. } => {
                        &&& interpreter == interpreter_ptr
                        &&& k == calls.len() - 1
                        &&& replies[0]->Count_0 >= 0 ==> c_index == index
                    },
                    CallView::InputTensorCount { interpreter } => interpreter == interpreter_ptr,
                    _ => false,
                }
        }),
{
    resize_runs(op, interpreter_ptr, index, dimensions, replies);
}

/// Copying data to a tensor counts the input tensors first. An index that is not valid is an
/// error, and nothing else is asked of the runtime. The tensor at a valid index is looked up and
/// measured. Where its size is that of the data, the data is copied, which succeeds just where the
/// runtime reports success. Where it is not, that is an error, and nothing is copied.
pub proof fn copy_runs<'d, T>(
    op: CopyInput<'d, T>,
    interpreter_ptr: usize,
    data: &'d [T],
    index: usize,
    byte_count: nat,
    replies: Seq<Reply>,
)
    requires
        op.starts(interpreter_ptr, data, index, byte_count),
        answered(op, replies),
        run(op, replies).output is Some,
    ensures
        ({
            let outcome = run(op, replies);
            let count = replies[0]->Count_0;
            let tensor = replies[1]->Address_0;
            let byte_size = replies[2]->ByteSize_0;
            let count_call = CallView::<T>::InputTensorCount { interpreter: interpreter_ptr };
            let look_up = CallView::<T>::InputTensor {
                interpreter: interpreter_ptr,
                index: c_int(index) as i32,
            };
            let measure = CallView::<T>::TensorByteSize { tensor };
            &&& replies[0] is Count
            &&& if index < tensor_count(count) {
                &&& replies[1] is Address
                &&& replies[2] is ByteSize
                &&& if byte_size == byte_count {
                    &&& replies.len() == 4
                    &&& replies[3] is Status
                    &&& outcome.calls == seq![
                        count_call,
                        look_up,
                        measure,
                        CallView::TensorCopyFromBuffer {
                            tensor,
                            data: data@,
                            byte_count: byte_size,
                        },
                    ]
                    &&& outcome.output == Some(
                        outcome_of(
                            replies[3]->Status_0,
                            ErrorKind::FailedToCopyDataToInputTensor,
                        ),
                    )
                } else {
                    &&& replies.len() == 3
                    &&& outcome.calls == seq![count_call, look_up, measure]
                    &&& outcome.output == Some(
                        Err::<(), Error>(
                            Error {
                                kind: ErrorKind::InvalidTensorDataCount(
                                    byte_count as usize,
                                    byte_size,
                                ),
                            },
                        ),
                    )
                }
            } else {
                &&& replies.len() == 1
                &&& outcome.calls == seq![count_call]
                &&& outcome.output == Some(index_outcome(index, count))
            }
        }),
{
    reveal_with_fuel(run, 5);
    reveal_with_fuel(answered, 5);
    assert(run(op, replies).calls.len() == replies.len());
}

/// Whether two calls for copying data are the same, but for the type of the data.
pub open spec fn same_but_for_data<T, U>(call: CallView<T>, other: CallView<U>) -> bool {
    match (call, other) {
        (
            CallView::InputTensorCount { interpreter },
            CallView::InputTensorCount { interpreter: interpreter1 },
        ) => interpreter == interpreter1,
        (
            CallView::InputTensor { interpreter, index },
            CallView::InputTensor { interpreter: interpreter1, index: index1 },
        ) => interpreter == interpreter1 && index == index1,
        (
            CallView::TensorByteSize { tensor },
            CallView::TensorByteSize { tensor: tensor1 },
        ) => tensor == tensor1,
        (
            CallView::TensorCopyFromBuffer { tensor, byte_count, .. },
            CallView::TensorCopyFromBuffer { tensor: tensor1, byte_count: byte_count1, .. },
        ) => tensor == tensor1 && byte_count == byte_count1,
        _ => false,
    }
}

/// Two copies that agree on everything but their data run alike.
proof fn copies_run_alike<'d, 'e, T, U>(
    op: CopyInput<'d, T>,
    other: CopyInput<'e, U>,
    replies: Seq<Reply>,
)
    requires
        op.interpreter_ptr == other.interpreter_ptr,
        op.byte_count == other.byte_count,
        op.index == other.index,
        op.stage == other.stage,
    ensures
        answered(op, replies) <==> answered(other, replies),
        run(op, replies).output == run(other, replies).output,
        run(op, replies).calls.len() == run(other, replies).calls.len(),
        forall|k: int|
            0 <= k < run(op, replies).calls.len() ==> same_but_for_data(
                #[trigger] run(op, replies).calls[k],
                run(other, replies).calls[k],
            ),
    decreases replies.len(),
{
    if replies.len() > 0 {
        if let (Step::Next(op1), Step::Next(other1)) = (
            op.next(replies.first()),
            other.next(replies.first()),
        ) {
            let rest = replies.drop_first();
            copies_run_alike(op1, other1, rest);
            assert forall|k: int| 0 <= k < run(op, replies).calls.len() implies same_but_for_data(
                #[trigger] run(op, replies).calls[k],
                run(other, replies).calls[k],
            ) by {
                if k > 0 {
                    assert(run(op, replies).calls[k] == run(op1, rest).calls[k - 1]);
                    assert(run(other, replies).calls[k] == run(other1, rest).calls[k - 1]);
                }
            }
        }
    }
}

/// Copying elements is copying as many bytes as they take, whatever their type: on the same
/// replies both end alike, after the same calls, with the same tensor and the same number of bytes
/// to copy. That the bytes are the memory of the elements is not part of the statement: what lies
/// in the memory of a value has no mathematical model here.
pub proof fn copy_is_copy_of_bytes<'d, 'e, T>(
    op: CopyInput<'d, T>,
    reference: CopyInput<'e, u8>,
    interpreter_ptr: usize,
    data: &'d [T],
    bytes: &'e [u8],
    index: usize,
    replies: Seq<Reply>,
)
    requires
        bytes@.len() == data@.len() * vstd::layout::size_of::<T>(),
        op.starts(interpreter_ptr, data, index, data@.len() * vstd::layout::size_of::<T>()),
        reference.starts(interpreter_ptr, bytes, index, bytes@.len()),
    ensures
        answered(op, replies) <==> answered(reference, replies),
        run(op, replies).output == run(reference, replies).output,
        run(op, replies).calls.len() == run(reference, replies).calls.len(),
        forall|k: int|
            0 <= k < run(op, replies).calls.len() ==> same_but_for_data(
                #[trigger] run(op, replies).calls[k],
                run(reference, replies).calls[k],
            ),
{
    copies_run_alike(op, reference, replies);
}

/// Copying elements that are bytes is copying the bytes themselves.
pub proof fn copy_of_bytes<'d>(
    op: CopyInput<'d, u8>,
    interpreter_ptr: usize,
    data: &'d [u8],
    index: usize,
)
    ensures
        op.starts(interpreter_ptr, data, index, data@.len() * vstd::layout::size_of::<u8>())
            <==> op.starts(interpreter_ptr, data, index, data@.len()),
{
    broadcast use vstd::layout::layout_of_primitives;

    assert(data@.len() * vstd::layout::size_of::<u8>() == data@.len());
}

/// A valid index is handed to the runtime as it is.
pub proof fn valid_index_is_kept(index: usize, count: i32)
    requires
        count >= 0,
        index_outcome(index, count) is Ok,
    ensures
        c_int(index) == index,
{
}

/// Whether a call neither creates nor deletes an object of the runtime.
pub open spec fn keeps_objects<T>(call: CallView<T>) -> bool {
    match call {
        CallView::OptionsCreate
        | CallView::XnnpackDelegateCreate { .. }
        | CallView::ExternalDelegateCreate { .. }
        | CallView::InterpreterCreate { .. }
        | CallView::OptionsDelete { .. }
        | CallView::InterpreterDelete { .. }
        | CallView::XnnpackDelegateDelete { .. }
        | CallView::ExternalDelegateDelete { .. } => false,
        _ => true,
    }
}

/// Where no state of a kind of operation waits for a call that creates or deletes an object, no
/// run makes one.
proof fn run_keeps_objects<O: Operation>(op: O, replies: Seq<Reply>)
    requires
        forall|state: O| keeps_objects(#[trigger] state.pending()),
    ensures
        forall|k: int|
            0 <= k < run(op, replies).calls.len() ==> keeps_objects(
                #[trigger] run(op, replies).calls[k],
            ),
    decreases replies.len(),
{
    if replies.len() > 0 {
        if let Step::Next(op1) = op.next(replies.first()) {
            let rest = run(op1, replies.drop_first());
            run_keeps_objects(op1, replies.drop_first());
            assert forall|k: int| 0 <= k < run(op, replies).calls.len() implies keeps_objects(
                #[trigger] run(op, replies).calls[k],
            ) by {
                if k > 0 {
                    assert(run(op, replies).calls[k] == rest.calls[k - 1]);
                }
            }
        }
    }
}

/// Using an interpreter neither creates nor deletes an object of the runtime, whatever the runtime
/// replies: not counting its tensors, giving it a command, fetching a tensor, resizing one or
/// copying data to one.
pub proof fn using_an_interpreter_keeps_objects<'d, T>(
    counting: CountTensors,
    command: Command,
    fetch: FetchTensor,
    resize: ResizeInput,
    copy: CopyInput<'d, T>,
    replies: Seq<Reply>,
)
    ensures
        forall|k: int|
            0 <= k < run(counting, replies).calls.len() ==> keeps_objects(
                #[trigger] run(counting, replies).calls[k],
            ),
        forall|k: int|
            0 <= k < run(command, replies).calls.len() ==> keeps_objects(
                #[trigger] run(command, replies).calls[k],
            ),
        forall|k: int|
            0 <= k < run(fetch, replies).calls.len() ==> keeps_objects(
                #[trigger] run(fetch, replies).calls[k],
            ),
        forall|k: int|
            0 <= k < run(resize, replies).calls.len() ==> keeps_objects(
                #[trigger] run(resize, replies).calls[k],
            ),
        forall|k: int|
            0 <= k < run(copy, replies).calls.len() ==> keeps_objects(
                #[trigger] run(copy, replies).calls[k],
            ),
{
    run_keeps_objects(counting, replies);
    run_keeps_objects(command, replies);
    run_keeps_objects(fetch, replies);
    run_keeps_objects(resize, replies);
    run_keeps_objects(copy, replies);
}

} // verus!
