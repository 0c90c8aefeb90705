//! Commands to an interpreter that only succeed or fail.
use crate::error::{Error, ErrorKind};
use crate::operation::{Operation, Step};
use crate::runtime::{Call, CallView, Reply, STATUS_OK};
use vstd::prelude::*;

verus! {

/// Success for the status [`STATUS_OK`], and an error of the given category for any other.
pub open spec fn outcome_of(status: u32, failure: ErrorKind) -> Result<(), Error> {
    if status == STATUS_OK {
        Ok(())
    } else {
        Err(Error { kind: failure })
    }
}

/// Turns a status of the runtime into a result, with the given category for a failure.
pub fn check_status(status: u32, failure: ErrorKind) -> (outcome: Result<(), Error>)
    ensures
        outcome == outcome_of(status, failure),
        status == 0 ==> outcome is Ok,
        status != 0 ==> outcome == Err::<(), Error>(Error { kind: failure }),
{
    if status == STATUS_OK {
        Ok(())
    } else {
        Err(Error::new(failure))
    }
}

/// What a [`Command`] has the interpreter do.
#[derive(Debug, Clone, Copy, PartialEq, Eq, Structural)]
pub enum CommandKind {
    /// Perform inference.
    Invoke,
    /// Allocate memory for the tensors.
    AllocateTensors,
}

impl CommandKind {
    /// The category of the error with which the command fails.
    pub open spec fn failure(self) -> ErrorKind {
        match self {
            CommandKind::Invoke => ErrorKind::AllocateTensorsRequired,
            CommandKind::AllocateTensors => ErrorKind::FailedToAllocateTensors,
        }
    }
}

/// The operation that gives an interpreter a command.
#[derive(Debug, Clone, Copy)]
pub struct Command {
    /// The address of the interpreter.
    pub interpreter_ptr: usize,
    /// The command.
    pub kind: CommandKind,
}

impl Operation for Command {
    type Elem = u8;

    type Output = Result<(), Error>;

    open spec fn pending(&self) -> CallView<u8> {
        match self.kind {
            CommandKind::Invoke => CallView::Invoke { interpreter: self.interpreter_ptr },
            CommandKind::AllocateTensors => CallView::AllocateTensors {
                interpreter: self.interpreter_ptr,
            },
        }
    }

    open spec fn next(&self, reply: Reply) -> Step<Command, Result<(), Error>> {
        match reply {
            Reply::Status(status) => Step::Done(outcome_of(status, self.kind.failure())),
            _ => Step::Next(*self),
        }
    }

    open spec fn remaining(&self) -> nat {
        1
    }

    proof fn reply_advances(&self, reply: Reply) {
    }

    fn call(&self) -> (call: Call<'_, u8>) {
        match self.kind {
            CommandKind::Invoke => Call::Invoke { interpreter: self.interpreter_ptr },
            CommandKind::AllocateTensors => Call::AllocateTensors {
                interpreter: self.interpreter_ptr,
            },
        }
    }

    fn step(self, reply: Reply) -> (step: Step<Command, Result<(), Error>>) {
        match reply {
            Reply::Status(status) => {
                let failure = match self.kind {
                    CommandKind::Invoke => ErrorKind::AllocateTensorsRequired,
                    CommandKind::AllocateTensors => ErrorKind::FailedToAllocateTensors,
                };
                Step::Done(check_status(status, failure))
            },
            _ => Step::Next(self),
        }
    }
}

} // verus!
