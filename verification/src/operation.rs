//! Operations: what an interpreter does, as a sequence of calls into the runtime.
//!
//! An operation names the call that it waits for. Whoever runs it makes that call and hands the
//! reply back, until the operation is over:
//!
//! ```text
//! loop {
//!     let reply = make(operation.call());
//!     match operation.step(reply) {
//!         Step::Next(next) => operation = next,
//!         Step::Done(output) => return output,
//!     }
//! }
//! ```
use crate::runtime::{Call, CallView, Reply};
use vstd::prelude::*;

verus! {

/// Where an operation stands after a reply.
#[derive(Debug)]
pub enum Step<O, R> {
    /// There is another call to make.
    Next(O),
    /// The operation is over, with this output.
    Done(R),
}

/// A sequence of calls into the runtime, each of which may depend on the replies before it.
pub trait Operation: Sized {
    /// The element type of the buffer that the operation hands to the runtime.
    type Elem;

    /// What the operation gives in the end.
    type Output;

    /// The call that the operation waits for.
    spec fn pending(&self) -> CallView<Self::Elem>;

    /// Where the operation stands after the given reply.
    spec fn next(&self, reply: Reply) -> Step<Self, Self::Output>;

    /// A bound on the number of calls that are still to be made.
    spec fn remaining(&self) -> nat;

    /// A reply that answers the pending call brings the operation closer to its end. Any other
    /// reply leaves it where it stands.
    proof fn reply_advances(&self, reply: Reply)
        ensures
            0 < self.remaining(),
            reply.answers(self.pending()) ==> (self.next(reply) matches Step::Next(op)
                ==> op.remaining() < self.remaining()),
            !reply.answers(self.pending()) ==> self.next(reply) == Step::<Self, Self::Output>::Next(
                *self,
            ),
    ;

    /// Returns the call that the operation waits for.
    fn call(&self) -> (call: Call<'_, Self::Elem>)
        ensures
            call@ == self.pending(),
    ;

    /// Takes the reply to the pending call.
    fn step(self, reply: Reply) -> (step: Step<Self, Self::Output>)
        ensures
            step == self.next(reply),
    ;
}

/// What comes of an operation: the calls that it makes, and its output once it is over.
#[verifier::ext_equal]
pub ghost struct Run<T, R> {
    /// The calls, in order. Where there is no output yet, the last one is not answered.
    pub calls: Seq<CallView<T>>,
    /// The output.
    pub output: Option<R>,
}

/// The run of an operation on the given replies, in order.
pub open spec fn run<O: Operation>(op: O, replies: Seq<Reply>) -> Run<O::Elem, O::Output>
    decreases replies.len(),
{
    if replies.len() == 0 {
        Run { calls: seq![op.pending()], output: None }
    } else {
        match op.next(replies.first()) {
            Step::Done(output) => Run { calls: seq![op.pending()], output: Some(output) },
            Step::Next(op1) => {
                let rest = run(op1, replies.drop_first());
                Run { calls: seq![op.pending()] + rest.calls, output: rest.output }
            },
        }
    }
}

/// Whether each of the replies answers the call that the operation then waits for, and none is
/// left over.
pub open spec fn answered<O: Operation>(op: O, replies: Seq<Reply>) -> bool
    decreases replies.len(),
{
    replies.len() > 0 ==> {
        &&& replies.first().answers(op.pending())
        &&& match op.next(replies.first()) {
            Step::Done(_) => replies.len() == 1,
            Step::Next(op1) => answered(op1, replies.drop_first()),
        }
    }
}

/// Every operation ends: it makes at most [`Operation::remaining`] calls, and once that many are
/// answered it has given its output. Until then each answer is followed by one more call.
pub proof fn operation_ends<O: Operation>(op: O, replies: Seq<Reply>)
    requires
        answered(op, replies),
    ensures
        replies.len() <= op.remaining(),
        replies.len() == op.remaining() ==> run(op, replies).output is Some,
        run(op, replies).output is Some ==> run(op, replies).calls.len() == replies.len(),
        run(op, replies).output is None ==> run(op, replies).calls.len() == replies.len() + 1,
    decreases replies.len(),
{
    op.reply_advances(replies.first());
    if replies.len() > 0 {
        match op.next(replies.first()) {
            Step::Done(_) => {},
            Step::Next(op1) => {
                operation_ends(op1, replies.drop_first());
                op1.reply_advances(replies.first());
            },
        }
    }
}

} // verus!
