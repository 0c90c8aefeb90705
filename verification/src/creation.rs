//! Creating an interpreter.
use crate::error::{Error, ErrorKind};
use crate::interpreter::{Interpreter, Options};
use crate::model::Model;
use crate::operation::{Operation, Step};
use crate::runtime::{Call, CallView, Reply};
use vstd::prelude::*;

verus! {

/// The number of threads that leaves the choice to the runtime.
pub const THREADS_CHOSEN_BY_RUNTIME: i32 = -1;

/// The delegate that an interpreter is to run on.
#[derive(Debug)]
pub enum DelegateSource {
    /// XNNPACK, with the given number of threads. A number that is not positive leaves the
    /// delegate's own default in place.
    Xnnpack(i32),
    /// The delegate in the library at the given path.
    External(String),
}

impl DelegateSource {
    /// The number of threads that the interpreter itself is to use.
    pub open spec fn num_threads(&self) -> i32 {
        match *self {
            DelegateSource::Xnnpack(thread_count) => thread_count,
            DelegateSource::External(_) => THREADS_CHOSEN_BY_RUNTIME,
        }
    }

    /// The call that creates the delegate.
    pub open spec fn create_call(&self) -> CallView<u8> {
        match *self {
            DelegateSource::Xnnpack(thread_count) => CallView::XnnpackDelegateCreate {
                thread_count: if thread_count > 0 {
                    Some(thread_count)
                } else {
                    None
                },
            },
            DelegateSource::External(path) => CallView::ExternalDelegateCreate { path: path@ },
        }
    }
}

/// The operation that creates a delegate and adds it to an options object. It gives the address
/// of the delegate, which is null where the runtime could not create one.
#[derive(Debug)]
pub struct ConfigureDelegate {
    /// The address of the options object.
    pub options_ptr: usize,
    /// The delegate to create.
    pub source: DelegateSource,
    /// How far the operation has come.
    pub stage: ConfigureStage,
}

/// The call that a [`ConfigureDelegate`] waits for.
#[derive(Debug, Clone, Copy)]
pub enum ConfigureStage {
    /// The delegate is created.
    Create,
    /// The delegate is added to the options object.
    Add {
        /// The address of the delegate.
        delegate_ptr: usize,
    },
}

impl ConfigureDelegate {
    /// Configuring a delegate, before the first call.
    pub open spec fn start(options_ptr: usize, source: DelegateSource) -> ConfigureDelegate {
        ConfigureDelegate { options_ptr, source, stage: ConfigureStage::Create }
    }
}

impl Operation for ConfigureDelegate {
    type Elem = u8;

    type Output = usize;

    open spec fn pending(&self) -> CallView<u8> {
        match self.stage {
            ConfigureStage::Create => self.source.create_call(),
            ConfigureStage::Add { delegate_ptr } => CallView::OptionsAddDelegate {
                options: self.options_ptr,
                delegate: delegate_ptr,
            },
        }
    }

    open spec fn next(&self, reply: Reply) -> Step<ConfigureDelegate, usize> {
        match (self.stage, reply) {
            (ConfigureStage::Create, Reply::Address(delegate_ptr)) => Step::Next(
                ConfigureDelegate { stage: ConfigureStage::Add { delegate_ptr }, ..*self },
            ),
            (ConfigureStage::Add { delegate_ptr }, Reply::Done) => Step::Done(delegate_ptr),
            _ => Step::Next(*self),
        }
    }

    open spec fn remaining(&self) -> nat {
        match self.stage {
            ConfigureStage::Create => 2,
            ConfigureStage::Add { .. } => 1,
        }
    }

    proof fn reply_advances(&self, reply: Reply) {
    }

    fn call(&self) -> (call: Call<'_, u8>) {
        match self.stage {
            ConfigureStage::Create => match &self.source {
                DelegateSource::Xnnpack(thread_count) => Call::XnnpackDelegateCreate {
                    thread_count: if *thread_count > 0 {
                        Some(*thread_count)
                    } else {
                        None
                    },
                },
                DelegateSource::External(path) => Call::ExternalDelegateCreate {
                    path: path.as_str(),
                },
            },
            ConfigureStage::Add { delegate_ptr } => Call::OptionsAddDelegate {
                options: self.options_ptr,
                delegate: delegate_ptr,
            },
        }
    }

    fn step(self, reply: Reply) -> (step: Step<ConfigureDelegate, usize>) {
        match (self.stage, reply) {
            (ConfigureStage::Create, Reply::Address(delegate_ptr)) => Step::Next(
                ConfigureDelegate {
                    options_ptr: self.options_ptr,
                    source: self.source,
                    stage: ConfigureStage::Add { delegate_ptr },
                },
            ),
            (ConfigureStage::Add { delegate_ptr }, Reply::Done) => Step::Done(delegate_ptr),
            _ => Step::Next(self),
        }
    }
}

/// The operation that creates an interpreter.
#[derive(Debug)]
pub struct Creation<'a> {
    /// The model that the interpreter is made from.
    pub model: &'a Model,
    /// The configuration of the interpreter.
    pub options: Options,
    /// How far the operation has come.
    pub stage: CreationStage,
}

/// The call that a [`Creation`] waits for.
#[derive(Debug)]
pub enum CreationStage {
    /// The options object is created.
    CreateOptions,
    /// The number of threads is set.
    SetNumThreads {
        /// The address of the options object.
        options_ptr: usize,
        /// The delegate to create next.
        source: DelegateSource,
    },
    /// The delegate is created and added to the options object.
    Configure(ConfigureDelegate),
    /// The interpreter is created.
    CreateInterpreter {
        /// The address of the options object.
        options_ptr: usize,
        /// The address of the delegate, where there is one.
        delegate_ptr: Option<usize>,
    },
    /// The options object is deleted.
    DeleteOptions {
        /// The address of the options object.
        options_ptr: usize,
        /// The address of the delegate, where there is one.
        delegate_ptr: Option<usize>,
        /// The address of the interpreter; null where it could not be created.
        interpreter_ptr: usize,
    },
}

impl<'a> Creation<'a> {
    /// Creating an interpreter, before the first call.
    pub open spec fn start(model: &'a Model, options: Options) -> Creation<'a> {
        Creation { model, options, stage: CreationStage::CreateOptions }
    }

    /// This creation, at another stage.
    pub open spec fn at(&self, stage: CreationStage) -> Creation<'a> {
        Creation { stage, ..*self }
    }

    /// What follows the creation of the options object at the given address.
    pub open spec fn after_options(&self, options_ptr: usize) -> CreationStage {
        match self.options {
            Options::Default => CreationStage::CreateInterpreter {
                options_ptr,
                delegate_ptr: None,
            },
            Options::Xnnpack(thread_count) => CreationStage::SetNumThreads {
                options_ptr,
                source: DelegateSource::Xnnpack(thread_count),
            },
            Options::External(path) => CreationStage::SetNumThreads {
                options_ptr,
                source: DelegateSource::External(path),
            },
        }
    }

    /// What the creation gives once the options object is deleted.
    pub open spec fn created(
        &self,
        delegate_ptr: Option<usize>,
        interpreter_ptr: usize,
    ) -> Result<Interpreter<'a>, Error> {
        if interpreter_ptr == 0 {
            Err(Error { kind: ErrorKind::FailedToCreateInterpreter })
        } else {
            Ok(Interpreter::assembled(self.model, self.options, interpreter_ptr, delegate_ptr))
        }
    }
}

impl<'a> Operation for Creation<'a> {
    type Elem = u8;

    type Output = Result<Interpreter<'a>, Error>;

    open spec fn pending(&self) -> CallView<u8> {
        match self.stage {
            CreationStage::CreateOptions => CallView::OptionsCreate,
            CreationStage::SetNumThreads { options_ptr, source } => CallView::OptionsSetNumThreads {
                options: options_ptr,
                num_threads: source.num_threads(),
            },
            CreationStage::Configure(configure) => configure.pending(),
            CreationStage::CreateInterpreter { options_ptr, .. } => CallView::InterpreterCreate {
                model: self.model.model_ptr,
                options: options_ptr,
            },
            CreationStage::DeleteOptions { options_ptr, .. } => CallView::OptionsDelete {
                options: options_ptr,
            },
        }
    }

    open spec fn next(&self, reply: Reply) -> Step<Creation<'a>, Result<Interpreter<'a>, Error>> {
        match (self.stage, reply) {
            (CreationStage::CreateOptions, Reply::Address(options_ptr)) => {
                if options_ptr == 0 {
                    Step::Done(Err(Error { kind: ErrorKind::FailedToCreateInterpreter }))
                } else {
                    Step::Next(self.at(self.after_options(options_ptr)))
                }
            },
            (CreationStage::SetNumThreads { options_ptr, source }, Reply::Done) => Step::Next(
                self.at(CreationStage::Configure(ConfigureDelegate::start(options_ptr, source))),
            ),
            (CreationStage::Configure(configure), _) => match configure.next(reply) {
                Step::Next(configure1) => Step::Next(self.at(CreationStage::Configure(configure1))),
                Step::Done(delegate_ptr) => Step::Next(
                    self.at(
                        CreationStage::CreateInterpreter {
                            options_ptr: configure.options_ptr,
                            delegate_ptr: Some(delegate_ptr),
                        },
                    ),
                ),
            },
            (
                CreationStage::CreateInterpreter { options_ptr, delegate_ptr },
                Reply::Address(interpreter_ptr),
            ) => Step::Next(
                self.at(
                    CreationStage::DeleteOptions { options_ptr, delegate_ptr, interpreter_ptr },
                ),
            ),
            (
                CreationStage::DeleteOptions { delegate_ptr, interpreter_ptr, .. },
                Reply::Done,
            ) => Step::Done(self.created(delegate_ptr, interpreter_ptr)),
            _ => Step::Next(*self),
        }
    }

    open spec fn remaining(&self) -> nat {
        match self.stage {
            CreationStage::CreateOptions => match self.options {
                Options::Default => 3,
                _ => 6,
            },
            CreationStage::SetNumThreads { .. } => 5,
            CreationStage::Configure(configure) => configure.remaining() + 2,
            CreationStage::CreateInterpreter { .. } => 2,
            CreationStage::DeleteOptions { .. } => 1,
        }
    }

    proof fn reply_advances(&self, reply: Reply) {
    }

    fn call(&self) -> (call: Call<'_, u8>) {
        match &self.stage {
            CreationStage::CreateOptions => Call::OptionsCreate,
            CreationStage::SetNumThreads { options_ptr, source } => Call::OptionsSetNumThreads {
                options: *options_ptr,
                num_threads: match source {
                    DelegateSource::Xnnpack(thread_count) => *thread_count,
                    DelegateSource::External(_) => THREADS_CHOSEN_BY_RUNTIME,
                },
            },
            CreationStage::Configure(configure) => configure.call(),
            CreationStage::CreateInterpreter { options_ptr, .. } => Call::InterpreterCreate {
                model: self.model.model_ptr,
                options: *options_ptr,
            },
            CreationStage::DeleteOptions { options_ptr, .. } => Call::OptionsDelete {
                options: *options_ptr,
            },
        }
    }

    fn step(self, reply: Reply) -> (step: Step<Creation<'a>, Result<Interpreter<'a>, Error>>) {
        let Creation { model, options, stage } = self;
        let stage = match (stage, reply) {
            (CreationStage::CreateOptions, Reply::Address(options_ptr)) => {
                if options_ptr == 0 {
                    return Step::Done(Err(Error::new(ErrorKind::FailedToCreateInterpreter)));
                }
                match &options {
                    Options::Default => CreationStage::CreateInterpreter {
                        options_ptr,
                        delegate_ptr: None,
                    },
                    Options::Xnnpack(thread_count) => CreationStage::SetNumThreads {
                        options_ptr,
                        source: DelegateSource::Xnnpack(*thread_count),
                    },
                    Options::External(path) => CreationStage::SetNumThreads {
                        options_ptr,
                        source: DelegateSource::External(path.clone()),
                    },
                }
            },
            (CreationStage::SetNumThreads { options_ptr, source }, Reply::Done) => {
                CreationStage::Configure(
                    ConfigureDelegate { options_ptr, source, stage: ConfigureStage::Create },
                )
            },
            (CreationStage::Configure(configure), reply) => {
                let options_ptr: usize = configure.options_ptr;
                match configure.step(reply) {
                    Step::Next(configure) => CreationStage::Configure(configure),
                    Step::Done(delegate_ptr) => CreationStage::CreateInterpreter {
                        options_ptr,
                        delegate_ptr: Some(delegate_ptr),
                    },
                }
            },
            (
                CreationStage::CreateInterpreter { options_ptr, delegate_ptr },
                Reply::Address(interpreter_ptr),
            ) => CreationStage::DeleteOptions { options_ptr, delegate_ptr, interpreter_ptr },
            (
                CreationStage::DeleteOptions { delegate_ptr, interpreter_ptr, .. },
                Reply::Done,
            ) => {
                return Step::Done(if interpreter_ptr == 0 {
                    Err(Error::new(ErrorKind::FailedToCreateInterpreter))
                } else {
                    Ok(Interpreter::assemble(model, options, interpreter_ptr, delegate_ptr))
                });
            },
            (stage, _) => stage,
        };
        Step::Next(Creation { model, options, stage })
    }
}

} // verus!
