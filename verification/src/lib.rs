//! The decisions of a TensorFlow Lite interpreter: which calls into the runtime it makes, in which
//! order, and what their replies come to.
pub mod access;
pub mod behaviour;
pub mod command;
pub mod creation;
pub mod error;
pub mod interpreter;
pub mod laws;
pub mod model;
pub mod operation;
pub mod runtime;
pub mod teardown;
pub mod tensor;
