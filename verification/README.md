# tflitec

An interpreter for TensorFlow Lite models, with its decisions verified by Verus.

The library in `src/` decides which calls into the TensorFlow Lite C runtime an interpreter makes,
with which arguments and in which order, and what their replies come to. Each thing that an
interpreter does is an `Operation`: it names the call that it waits for and takes the reply, until
it is over. The crate in `app/` makes the calls.

- `runtime`: the calls and the replies.
- `operation`: what an operation is, and what its run is.
- `interpreter`: the interpreter and its options; its methods give the operations.
- `creation`, `access`, `command`, `teardown`: the operations.
- `laws`: what holds of the operations as a whole, whatever the runtime replies.
- `error`, `model`, `tensor`: the values that the operations work on.
