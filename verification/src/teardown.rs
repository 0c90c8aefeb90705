//! Deleting an interpreter.
use crate::interpreter::InterpreterView;
use crate::operation::{Operation, Step};
use crate::runtime::{Call, CallView, Reply};
use vstd::prelude::*;

verus! {

/// A delegate that is to be deleted, by the kind that it was created as.
#[derive(Debug, Clone, Copy)]
pub enum OwnedDelegate {
    /// An XNNPACK delegate, at this address.
    Xnnpack(usize),
    /// An external delegate, at this address.
    External(usize),
}

impl OwnedDelegate {
    /// The call that deletes the delegate.
    pub open spec fn delete_call(self) -> CallView<u8> {
        match self {
            OwnedDelegate::Xnnpack(delegate) => CallView::XnnpackDelegateDelete { delegate },
            OwnedDelegate::External(delegate) => CallView::ExternalDelegateDelete { delegate },
        }
    }
}

/// The operation that deletes an interpreter and then its delegate.
#[derive(Debug, Clone, Copy)]
pub enum Teardown {
    /// The interpreter is deleted.
    DeleteInterpreter {
        /// The address of the interpreter.
        interpreter_ptr: usize,
        /// The delegate to delete next, where there is one.
        delegate: Option<OwnedDelegate>,
    },
    /// The delegate is deleted.
    DeleteDelegate(OwnedDelegate),
}

impl Teardown {
    /// Deleting an interpreter, before the first call.
    pub open spec fn start(interpreter: InterpreterView) -> Teardown {
        Teardown::DeleteInterpreter {
            interpreter_ptr: interpreter.interpreter,
            delegate: interpreter.owned_delegate(),
        }
    }
}

impl Operation for Teardown {
    type Elem = u8;

    type Output = ();

    open spec fn pending(&self) -> CallView<u8> {
        match *self {
            Teardown::DeleteInterpreter { interpreter_ptr, .. } => CallView::InterpreterDelete {
                interpreter: interpreter_ptr,
            },
            Teardown::DeleteDelegate(delegate) => delegate.delete_call(),
        }
    }

    open spec fn next(&self, reply: Reply) -> Step<Teardown, ()> {
        match (*self, reply) {
            (Teardown::DeleteInterpreter { delegate: Some(delegate), .. }, Reply::Done) => {
                Step::Next(Teardown::DeleteDelegate(delegate))
            },
            (_, Reply::Done) => Step::Done(()),
            _ => Step::Next(*self),
        }
    }

    open spec fn remaining(&self) -> nat {
        match *self {
            Teardown::DeleteInterpreter { delegate: Some(_), .. } => 2,
            _ => 1,
        }
    }

    proof fn reply_advances(&self, reply: Reply) {
    }

    fn call(&self) -> (call: Call<'_, u8>) {
        match *self {
            Teardown::DeleteInterpreter { interpreter_ptr, .. } => Call::InterpreterDelete {
                interpreter: interpreter_ptr,
            },
            Teardown::DeleteDelegate(OwnedDelegate::Xnnpack(delegate)) => {
                Call::XnnpackDelegateDelete { delegate }
            },
            Teardown::DeleteDelegate(OwnedDelegate::External(delegate)) => {
                Call::ExternalDelegateDelete { delegate }
            },
        }
    }

    fn step(self, reply: Reply) -> (step: Step<Teardown, ()>) {
        match (self, reply) {
            (Teardown::DeleteInterpreter { delegate: Some(delegate), .. }, Reply::Done) => {
                Step::Next(Teardown::DeleteDelegate(delegate))
            },
            (_, Reply::Done) => Step::Done(()),
            _ => Step::Next(self),
        }
    }
}

} // verus!
