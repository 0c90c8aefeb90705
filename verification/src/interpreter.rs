//! The interpreter that performs inference.
use crate::access::{dims_to_c_ints, CopyInput, CopyStage, CountTensors, FetchStage};
use crate::access::{FetchTensor, ResizeInput, ResizeStage, Side};
use crate::command::{Command, CommandKind};
use crate::creation::{ConfigureDelegate, ConfigureStage, Creation, CreationStage, DelegateSource};
use crate::model::Model;
use crate::operation::Operation;
use crate::runtime::CallView;
use crate::teardown::{OwnedDelegate, Teardown};
use crate::tensor::Shape;
use vstd::prelude::*;

verus! {

/// Options for configuring the [`Interpreter`].
#[derive(Debug, Eq, PartialEq, Clone, Hash, Ord, PartialOrd)]
#[non_exhaustive]
pub enum Options {
    /// No delegate.
    Default,
    /// The XNNPACK delegate, with the given number of threads.
    Xnnpack(i32),
    /// The delegate in the library at the given path.
    External(String),
}

/// An interpreter of the runtime, with its configuration.
pub struct Interpreter<'a> {
    /// The configuration of the interpreter.
    options: Options,
    /// The address of the runtime's interpreter object.
    interpreter_ptr: usize,
    /// The address of the runtime's delegate object, where there is one.
    delegate_ptr: Option<usize>,
    /// The model, borrowed so that it outlives the interpreter.
    model: &'a Model,
}

/// The mathematical model of an [`Interpreter`].
pub ghost struct InterpreterView {
    /// The configuration.
    pub options: Options,
    /// The address of the runtime's interpreter object.
    pub interpreter: usize,
    /// The address of the runtime's delegate object, where there is one.
    pub delegate: Option<usize>,
    /// The address of the runtime's model object.
    pub model: usize,
}

impl InterpreterView {
    /// The interpreter exists, and it has a delegate just where its configuration asks for one.
    pub open spec fn wf(self) -> bool {
        &&& self.interpreter != 0
        &&& self.delegate is None <==> self.options is Default
    }

    /// The delegate that has to be deleted with the interpreter.
    pub open spec fn owned_delegate(self) -> Option<OwnedDelegate> {
        match (self.options, self.delegate) {
            (Options::Xnnpack(_), Some(delegate)) => Some(OwnedDelegate::Xnnpack(delegate)),
            (Options::External(_), Some(delegate)) => Some(OwnedDelegate::External(delegate)),
            _ => None,
        }
    }
}

impl<'a> View for Interpreter<'a> {
    type V = InterpreterView;

    closed spec fn view(&self) -> InterpreterView {
        InterpreterView {
            options: self.options,
            interpreter: self.interpreter_ptr,
            delegate: self.delegate_ptr,
            model: self.model.model_ptr,
        }
    }
}

impl<'a> Interpreter<'a> {
    /// The interpreter with the given parts.
    pub closed spec fn assembled(
        model: &'a Model,
        options: Options,
        interpreter_ptr: usize,
        delegate_ptr: Option<usize>,
    ) -> Interpreter<'a> {
        Interpreter { options, interpreter_ptr, delegate_ptr, model }
    }

    /// Puts an interpreter together.
    pub(crate) fn assemble(
        model: &'a Model,
        options: Options,
        interpreter_ptr: usize,
        delegate_ptr: Option<usize>,
    ) -> (interpreter: Interpreter<'a>)
        ensures
            interpreter == Interpreter::assembled(model, options, interpreter_ptr, delegate_ptr),
    {
        Interpreter { options, interpreter_ptr, delegate_ptr, model }
    }

    /// Creates a new interpreter for the model, configured by the options.
    ///
    /// The path of an external delegate becomes a C string, so it has no NUL character.
    pub fn new(model: &'a Model, options: Options) -> (creation: Creation<'a>)
        requires
            options matches Options::External(path) ==> !path@.contains('\0'),
        ensures
            creation == Creation::start(model, options),
            creation.pending() == CallView::<u8>::OptionsCreate,
            creation.model == model,
            creation.options == options,
    {
        Creation { model, options, stage: CreationStage::CreateOptions }
    }

    /// Creates an XNNPACK delegate and adds it to the options object.
    pub fn configure_xnnpack(options_ptr: usize, thread_count: i32) -> (configure:
        ConfigureDelegate)
        ensures
            configure == ConfigureDelegate::start(
                options_ptr,
                DelegateSource::Xnnpack(thread_count),
            ),
            configure.options_ptr == options_ptr,
            configure.pending() == (CallView::<u8>::XnnpackDelegateCreate {
                thread_count: if thread_count > 0 {
                    Some(thread_count)
                } else {
                    None
                },
            }),
    {
        ConfigureDelegate {
            options_ptr,
            source: DelegateSource::Xnnpack(thread_count),
            stage: ConfigureStage::Create,
        }
    }

    /// Creates the delegate in the library at the given path and adds it to the options object.
    ///
    /// The path becomes a C string, so it has no NUL character.
    pub fn configure_external_delegate(options_ptr: usize, path: String) -> (configure:
        ConfigureDelegate)
        requires
            !path@.contains('\0'),
        ensures
            configure == ConfigureDelegate::start(options_ptr, DelegateSource::External(path)),
            configure.options_ptr == options_ptr,
            configure.pending() == (CallView::<u8>::ExternalDelegateCreate { path: path@ }),
    {
        ConfigureDelegate {
            options_ptr,
            source: DelegateSource::External(path),
            stage: ConfigureStage::Create,
        }
    }

    /// Returns the total number of input tensors associated with the model.
    pub fn input_tensor_count(&self) -> (count: CountTensors)
        ensures
            count == (CountTensors { interpreter_ptr: self@.interpreter, side: Side::Input }),
            count.pending() == (CallView::<u8>::InputTensorCount {
                interpreter: self@.interpreter,
            }),
    {
        CountTensors { interpreter_ptr: self.interpreter_ptr, side: Side::Input }
    }

    /// Returns the total number of output tensors associated with the model.
    pub fn output_tensor_count(&self) -> (count: CountTensors)
        ensures
            count == (CountTensors { interpreter_ptr: self@.interpreter, side: Side::Output }),
            count.pending() == (CallView::<u8>::OutputTensorCount {
                interpreter: self@.interpreter,
            }),
    {
        CountTensors { interpreter_ptr: self.interpreter_ptr, side: Side::Output }
    }

    /// Invokes the interpreter to perform inference from the loaded graph.
    pub fn invoke(&self) -> (command: Command)
        ensures
            command == (Command {
                interpreter_ptr: self@.interpreter,
                kind: CommandKind::Invoke,
            }),
            command.pending() == (CallView::<u8>::Invoke { interpreter: self@.interpreter }),
    {
        Command { interpreter_ptr: self.interpreter_ptr, kind: CommandKind::Invoke }
    }

    /// Allocates memory for all input tensors and dependent tensors based on their shapes.
    ///
    /// This is a relatively expensive operation and should only be called after creating the
    /// interpreter and resizing any input tensors.
    pub fn allocate_tensors(&self) -> (command: Command)
        ensures
            command == (Command {
                interpreter_ptr: self@.interpreter,
                kind: CommandKind::AllocateTensors,
            }),
            command.pending() == (CallView::<u8>::AllocateTensors {
                interpreter: self@.interpreter,
            }),
    {
        Command { interpreter_ptr: self.interpreter_ptr, kind: CommandKind::AllocateTensors }
    }

    /// Fetches the input tensor at the given index.
    pub fn input(&self, index: usize) -> (fetch: FetchTensor)
        ensures
            fetch == FetchTensor::start(self@.interpreter, Side::Input, index),
            fetch.interpreter_ptr == self@.interpreter,
            fetch.side == Side::Input,
            fetch.index == index,
            fetch.pending() == (CallView::<u8>::InputTensorCount {
                interpreter: self@.interpreter,
            }),
    {
        FetchTensor {
            interpreter_ptr: self.interpreter_ptr,
            side: Side::Input,
            index,
            stage: FetchStage::Count,
        }
    }

    /// Fetches the output tensor at the given index.
    ///
    /// In general, best practice is to do this after invoking the interpreter.
    pub fn output(&self, index: usize) -> (fetch: FetchTensor)
        ensures
            fetch == FetchTensor::start(self@.interpreter, Side::Output, index),
            fetch.interpreter_ptr == self@.interpreter,
            fetch.side == Side::Output,
            fetch.index == index,
            fetch.pending() == (CallView::<u8>::OutputTensorCount {
                interpreter: self@.interpreter,
            }),
    {
        FetchTensor {
            interpreter_ptr: self.interpreter_ptr,
            side: Side::Output,
            index,
            stage: FetchStage::Count,
        }
    }

    /// Resizes the input tensor at the given index to the specified shape.
    ///
    /// A shape that the runtime cannot take, as a dimension exceeds the range of a C `int`, is an
    /// error, and the tensor keeps the shape that it has.
    ///
    /// After resizing an input tensor, the client must explicitly allocate tensors before
    /// attempting to access the resized tensor data or invoking the interpreter.
    pub fn resize_input(&self, index: usize, shape: Shape) -> (resize: ResizeInput)
        ensures
            resize.starts(self@.interpreter, index, shape@),
            resize.interpreter_ptr == self@.interpreter,
            resize.index == index,
            resize.pending() == (CallView::<u8>::InputTensorCount {
                interpreter: self@.interpreter,
            }),
    {
        ResizeInput {
            interpreter_ptr: self.interpreter_ptr,
            index,
            stage: ResizeStage::Count { dims: dims_to_c_ints(shape.dimensions()) },
        }
    }

    /// Copies the given bytes to the input tensor at the given index.
    pub fn copy_bytes<'d>(&self, data: &'d [u8], index: usize) -> (copy: CopyInput<'d, u8>)
        ensures
            copy.starts(self@.interpreter, data, index, data@.len()),
            copy.pending() == (CallView::<u8>::InputTensorCount {
                interpreter: self@.interpreter,
            }),
            copy.interpreter_ptr == self@.interpreter,
            copy.index == index,
            copy.data == data,
            copy.byte_count == data@.len(),
    {
        CopyInput {
            interpreter_ptr: self.interpreter_ptr,
            data,
            byte_count: data.len(),
            index,
            stage: CopyStage::Count,
        }
    }

    /// Copies the memory of the given data to the input tensor at the given index.
    pub fn copy<'d, T>(&self, data: &'d [T], index: usize) -> (copy: CopyInput<'d, T>)
        ensures
            copy.starts(
                self@.interpreter,
                data,
                index,
                data@.len() * vstd::layout::size_of::<T>(),
            ),
            copy.pending() == (CallView::<T>::InputTensorCount { interpreter: self@.interpreter }),
            copy.interpreter_ptr == self@.interpreter,
            copy.index == index,
            copy.data == data,
            copy.byte_count == data@.len() * vstd::layout::size_of::<T>(),
    {
        broadcast use vstd::layout::layout_of_slices;
        CopyInput {
            interpreter_ptr: self.interpreter_ptr,
            data,
            byte_count: core::mem::size_of_val(data),
            index,
            stage: CopyStage::Count,
        }
    }

    /// Deletes the interpreter, and then its delegate, in the way of the kind that the options ask
    /// for.
    pub fn drop(self) -> (teardown: Teardown)
        ensures
            teardown == Teardown::start(self@),
            teardown.pending() == (CallView::<u8>::InterpreterDelete {
                interpreter: self@.interpreter,
            }),
    {
        let delegate = match (&self.options, self.delegate_ptr) {
            (Options::Xnnpack(_), Some(delegate_ptr)) => Some(OwnedDelegate::Xnnpack(delegate_ptr)),
            (Options::External(_), Some(delegate_ptr)) => {
                Some(OwnedDelegate::External(delegate_ptr))
            },
            _ => None,
        };
        Teardown::DeleteInterpreter { interpreter_ptr: self.interpreter_ptr, delegate }
    }

    /// Returns the options.
    pub fn options(&self) -> (options: &Options)
        ensures
            *options == self@.options,
    {
        &self.options
    }
}

/// An interpreter consists of the parts that it was put together from.
pub broadcast proof fn assembled_view<'a>(
    model: &'a Model,
    options: Options,
    interpreter_ptr: usize,
    delegate_ptr: Option<usize>,
)
    ensures
        #[trigger] Interpreter::assembled(model, options, interpreter_ptr, delegate_ptr)@ == (
        InterpreterView {
            options,
            interpreter: interpreter_ptr,
            delegate: delegate_ptr,
            model: model.model_ptr,
        }),
{
}

} // verus!
