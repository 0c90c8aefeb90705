use std::fmt::Debug;
use tflitec::access::{check_index, dims_to_c_ints, Side};
use tflitec::command::check_status;
use tflitec::error::{Error, ErrorKind};
use tflitec::interpreter::{Interpreter, Options};
use tflitec::model::Model;
use tflitec::operation::{Operation, Step};
use tflitec::runtime::{count_to_usize, usize_to_c_int, Reply, STATUS_OK};
use tflitec::tensor::{Shape, Tensor};

/// Runs an operation on the given replies, of which it has to take all. Gives the calls that it
/// made, as text, and its output.
fn script<O: Operation>(operation: O, replies: Vec<Reply>) -> (Vec<String>, O::Output)
where
    O::Elem: Debug,
{
    let mut calls = Vec::new();
    let mut operation = operation;
    let mut left = replies.len();
    for reply in replies {
        calls.push(format!("{:?}", operation.call()));
        left -= 1;
        match operation.step(reply) {
            Step::Next(next) => operation = next,
            Step::Done(output) => {
                assert_eq!(left, 0);
                return (calls, output);
            }
        }
    }
    panic!("the operation is not over after {:?}", calls);
}

fn create(model: &Model, options: Options) -> Interpreter<'_> {
    let replies = if options == Options::Default {
        vec![Reply::Address(16), Reply::Address(48), Reply::Done]
    } else {
        vec![
            Reply::Address(16),
            Reply::Done,
            Reply::Address(32),
            Reply::Done,
            Reply::Address(48),
            Reply::Done,
        ]
    };
    script(Interpreter::new(model, options), replies).1.ok().unwrap()
}

#[test]
fn creation_without_a_delegate() {
    let model = Model { model_ptr: 8 };
    let (calls, interpreter) = script(
        Interpreter::new(&model, Options::Default),
        vec![Reply::Address(16), Reply::Address(48), Reply::Done],
    );
    assert_eq!(
        calls,
        vec![
            "OptionsCreate",
            "InterpreterCreate { model: 8, options: 16 }",
            "OptionsDelete { options: 16 }",
        ]
    );
    assert_eq!(interpreter.ok().unwrap().options(), &Options::Default);
}

#[test]
fn creation_with_xnnpack() {
    let model = Model { model_ptr: 8 };
    for (threads, thread_count) in
        vec![(4, "Some(4)"), (1, "Some(1)"), (0, "None"), (-1, "None"), (-7, "None")]
    {
        let (calls, interpreter) = script(
            Interpreter::new(&model, Options::Xnnpack(threads)),
            vec![
                Reply::Address(16),
                Reply::Done,
                Reply::Address(32),
                Reply::Done,
                Reply::Address(48),
                Reply::Done,
            ],
        );
        assert_eq!(
            calls,
            vec![
                "OptionsCreate".to_string(),
                format!("OptionsSetNumThreads {{ options: 16, num_threads: {} }}", threads),
                format!("XnnpackDelegateCreate {{ thread_count: {} }}", thread_count),
                "OptionsAddDelegate { options: 16, delegate: 32 }".to_string(),
                "InterpreterCreate { model: 8, options: 16 }".to_string(),
                "OptionsDelete { options: 16 }".to_string(),
            ]
        );
        assert_eq!(interpreter.ok().unwrap().options(), &Options::Xnnpack(threads));
    }
}

#[test]
fn creation_with_an_external_delegate() {
    let model = Model { model_ptr: 8 };
    let options = Options::External("libedgetpu.so.1".to_string());
    let (calls, interpreter) = script(
        Interpreter::new(&model, options.clone()),
        vec![
            Reply::Address(16),
            Reply::Done,
            Reply::Address(32),
            Reply::Done,
            Reply::Address(48),
            Reply::Done,
        ],
    );
    assert_eq!(
        calls,
        vec![
            "OptionsCreate",
            "OptionsSetNumThreads { options: 16, num_threads: -1 }",
            "ExternalDelegateCreate { path: \"libedgetpu.so.1\" }",
            "OptionsAddDelegate { options: 16, delegate: 32 }",
            "InterpreterCreate { model: 8, options: 16 }",
            "OptionsDelete { options: 16 }",
        ]
    );
    assert_eq!(interpreter.ok().unwrap().options(), &options);
}

#[test]
fn creation_fails_without_an_options_object() {
    let model = Model { model_ptr: 8 };
    let (calls, interpreter) =
        script(Interpreter::new(&model, Options::Xnnpack(2)), vec![Reply::Address(0)]);
    assert_eq!(calls, vec!["OptionsCreate"]);
    assert_eq!(interpreter.err().unwrap().kind(), ErrorKind::FailedToCreateInterpreter);
}

#[test]
fn creation_fails_without_an_interpreter() {
    let model = Model { model_ptr: 8 };
    let (calls, interpreter) = script(
        Interpreter::new(&model, Options::Default),
        vec![Reply::Address(16), Reply::Address(0), Reply::Done],
    );
    assert_eq!(calls.last().unwrap(), "OptionsDelete { options: 16 }");
    assert_eq!(interpreter.err().unwrap().kind(), ErrorKind::FailedToCreateInterpreter);
}

#[test]
fn a_null_delegate_is_added_and_kept() {
    let model = Model { model_ptr: 8 };
    let (calls, interpreter) = script(
        Interpreter::new(&model, Options::Xnnpack(2)),
        vec![
            Reply::Address(16),
            Reply::Done,
            Reply::Address(0),
            Reply::Done,
            Reply::Address(48),
            Reply::Done,
        ],
    );
    assert_eq!(calls[3], "OptionsAddDelegate { options: 16, delegate: 0 }");
    let (calls, ()) = script(interpreter.ok().unwrap().drop(), vec![Reply::Done, Reply::Done]);
    assert_eq!(calls[1], "XnnpackDelegateDelete { delegate: 0 }");
}

#[test]
fn configuring_a_delegate() {
    let (calls, delegate) = script(
        Interpreter::configure_xnnpack(16, 3),
        vec![Reply::Address(32), Reply::Done],
    );
    assert_eq!(
        calls,
        vec![
            "XnnpackDelegateCreate { thread_count: Some(3) }",
            "OptionsAddDelegate { options: 16, delegate: 32 }",
        ]
    );
    assert_eq!(delegate, 32);
    let (calls, delegate) = script(
        Interpreter::configure_external_delegate(16, "d.so".to_string()),
        vec![Reply::Address(32), Reply::Done],
    );
    assert_eq!(calls[0], "ExternalDelegateCreate { path: \"d.so\" }");
    assert_eq!(delegate, 32);
}

#[test]
fn the_interpreter_is_deleted_before_its_delegate() {
    let model = Model { model_ptr: 8 };
    let (calls, ()) = script(create(&model, Options::Default).drop(), vec![Reply::Done]);
    assert_eq!(calls, vec!["InterpreterDelete { interpreter: 48 }"]);
    let (calls, ()) =
        script(create(&model, Options::Xnnpack(2)).drop(), vec![Reply::Done, Reply::Done]);
    assert_eq!(
        calls,
        vec![
            "InterpreterDelete { interpreter: 48 }",
            "XnnpackDelegateDelete { delegate: 32 }",
        ]
    );
    let (calls, ()) = script(
        create(&model, Options::External("d.so".to_string())).drop(),
        vec![Reply::Done, Reply::Done],
    );
    assert_eq!(
        calls,
        vec![
            "InterpreterDelete { interpreter: 48 }",
            "ExternalDelegateDelete { delegate: 32 }",
        ]
    );
}

#[test]
fn counting_tensors() {
    let model = Model { model_ptr: 8 };
    let interpreter = create(&model, Options::Default);
    let (calls, count) = script(interpreter.input_tensor_count(), vec![Reply::Count(3)]);
    assert_eq!(calls, vec!["InputTensorCount { interpreter: 48 }"]);
    assert_eq!(count, 3);
    let (calls, count) = script(interpreter.output_tensor_count(), vec![Reply::Count(0)]);
    assert_eq!(calls, vec!["OutputTensorCount { interpreter: 48 }"]);
    assert_eq!(count, 0);
}

#[test]
fn a_command_succeeds_where_the_runtime_does() {
    let model = Model { model_ptr: 8 };
    let interpreter = create(&model, Options::Default);
    let (calls, outcome) = script(interpreter.invoke(), vec![Reply::Status(STATUS_OK)]);
    assert_eq!(calls, vec!["Invoke { interpreter: 48 }"]);
    assert_eq!(outcome, Ok(()));
    let (_, outcome) = script(interpreter.invoke(), vec![Reply::Status(1)]);
    assert_eq!(outcome, Err(Error::new(ErrorKind::AllocateTensorsRequired)));
    let (calls, outcome) = script(interpreter.allocate_tensors(), vec![Reply::Status(STATUS_OK)]);
    assert_eq!(calls, vec!["AllocateTensors { interpreter: 48 }"]);
    assert_eq!(outcome, Ok(()));
    let (_, outcome) = script(interpreter.allocate_tensors(), vec![Reply::Status(2)]);
    assert_eq!(outcome, Err(Error::new(ErrorKind::FailedToAllocateTensors)));
}

#[test]
fn fetching_the_last_tensor() {
    let model = Model { model_ptr: 8 };
    let interpreter = create(&model, Options::Default);
    let tensor = Tensor { tensor_ptr: 64, shape: Shape::new(vec![2, 3]) };
    let (calls, fetched) = script(
        interpreter.input(2),
        vec![Reply::Count(3), Reply::Address(64), Reply::Tensor(Ok(tensor))],
    );
    assert_eq!(
        calls,
        vec![
            "InputTensorCount { interpreter: 48 }",
            "InputTensor { interpreter: 48, index: 2 }",
            "ReadTensor { tensor: 64 }",
        ]
    );
    assert_eq!(fetched.ok().unwrap().shape(), &Shape::new(vec![2, 3]));
}

#[test]
fn fetching_past_the_last_tensor() {
    let model = Model { model_ptr: 8 };
    let interpreter = create(&model, Options::Default);
    let (calls, fetched) = script(interpreter.input(3), vec![Reply::Count(3)]);
    assert_eq!(calls, vec!["InputTensorCount { interpreter: 48 }"]);
    assert_eq!(fetched.err().unwrap().kind(), ErrorKind::InvalidTensorIndex(3, 2));
    let (calls, fetched) = script(interpreter.output(usize::MAX), vec![Reply::Count(1)]);
    assert_eq!(calls, vec!["OutputTensorCount { interpreter: 48 }"]);
    assert_eq!(fetched.err().unwrap().kind(), ErrorKind::InvalidTensorIndex(usize::MAX, 0));
}

#[test]
fn an_unread_tensor_is_explained() {
    let model = Model { model_ptr: 8 };
    let interpreter = create(&model, Options::Default);
    let unread = || {
        vec![
            Reply::Count(1),
            Reply::Address(64),
            Reply::Tensor(Err(Error::new(ErrorKind::ReadTensorError))),
        ]
    };
    let (_, fetched) = script(interpreter.input(0), unread());
    assert_eq!(fetched.err().unwrap().kind(), ErrorKind::AllocateTensorsRequired);
    let (calls, fetched) = script(interpreter.output(0), unread());
    assert_eq!(calls[1], "OutputTensor { interpreter: 48, index: 0 }");
    assert_eq!(fetched.err().unwrap().kind(), ErrorKind::InvokeInterpreterRequired);
}

#[test]
fn other_errors_of_reading_are_handed_on() {
    let other = Error::new(ErrorKind::InvalidTensorDataCount(1, 2));
    assert_eq!(Side::Input.explain(Err(other)).err(), Some(other));
    assert_eq!(Side::Output.explain(Err(other)).err(), Some(other));
}

#[test]
fn resizing_an_input() {
    let model = Model { model_ptr: 8 };
    let interpreter = create(&model, Options::Default);
    let (calls, outcome) = script(
        interpreter.resize_input(1, Shape::new(vec![10, 8, 8, 3])),
        vec![Reply::Count(2), Reply::Status(STATUS_OK)],
    );
    assert_eq!(
        calls,
        vec![
            "InputTensorCount { interpreter: 48 }",
            "ResizeInputTensor { interpreter: 48, index: 1, dims: [10, 8, 8, 3], dims_size: 4 }",
        ]
    );
    assert_eq!(outcome, Ok(()));
    let (_, outcome) = script(
        interpreter.resize_input(1, Shape::new(Vec::new())),
        vec![Reply::Count(2), Reply::Status(1)],
    );
    assert_eq!(outcome, Err(Error::new(ErrorKind::FailedToResizeInputTensor(1))));
    let (calls, outcome) =
        script(interpreter.resize_input(2, Shape::new(vec![1])), vec![Reply::Count(2)]);
    assert_eq!(calls.len(), 1);
    assert_eq!(outcome, Err(Error::new(ErrorKind::InvalidTensorIndex(2, 1))));
}

#[test]
fn a_shape_that_the_runtime_cannot_take_is_not_requested() {
    let model = Model { model_ptr: 8 };
    let interpreter = create(&model, Options::Default);
    for dimension in vec![4294967297, 0x8000_0000, usize::MAX] {
        for shape in vec![vec![dimension, 8, 8, 3], vec![1, 8, 8, dimension]] {
            let (calls, outcome) =
                script(interpreter.resize_input(0, Shape::new(shape)), vec![Reply::Count(1)]);
            assert_eq!(calls, vec!["InputTensorCount { interpreter: 48 }"]);
            assert_eq!(outcome, Err(Error::new(ErrorKind::FailedToResizeInputTensor(0))));
        }
    }
    let (_, outcome) = script(
        interpreter.resize_input(1, Shape::new(vec![4294967297])),
        vec![Reply::Count(1)],
    );
    assert_eq!(outcome, Err(Error::new(ErrorKind::InvalidTensorIndex(1, 0))));
}

#[test]
fn the_largest_dimension_is_requested_as_it_is() {
    assert_eq!(dims_to_c_ints(&vec![0x7fff_ffff, 0, 1]), Some(vec![0x7fff_ffff, 0, 1]));
    assert_eq!(dims_to_c_ints(&vec![0x7fff_ffff, 0x8000_0000]), None);
    assert_eq!(dims_to_c_ints(&vec![]), Some(vec![]));
}

#[test]
fn copying_elements_is_copying_their_bytes() {
    let model = Model { model_ptr: 8 };
    let interpreter = create(&model, Options::Default);
    for byte_size in vec![8, 7] {
        let replies = || {
            let mut replies = vec![Reply::Count(1), Reply::Address(64), Reply::ByteSize(byte_size)];
            if byte_size == 8 {
                replies.push(Reply::Status(STATUS_OK));
            }
            replies
        };
        let elements = script(interpreter.copy(&[1u32, 2], 0), replies());
        let bytes = script(interpreter.copy_bytes(&[1, 0, 0, 0, 2, 0, 0, 0], 0), replies());
        assert_eq!(elements.1, bytes.1);
        assert_eq!(elements.0.len(), bytes.0.len());
        assert_eq!(elements.0[..3], bytes.0[..3]);
    }
}

#[test]
fn copying_elements() {
    let model = Model { model_ptr: 8 };
    let interpreter = create(&model, Options::Default);
    let data = [1.5f32, 2.5];
    let (calls, outcome) = script(
        interpreter.copy(&data, 0),
        vec![
            Reply::Count(1),
            Reply::Address(64),
            Reply::ByteSize(8),
            Reply::Status(STATUS_OK),
        ],
    );
    assert_eq!(
        calls,
        vec![
            "InputTensorCount { interpreter: 48 }",
            "InputTensor { interpreter: 48, index: 0 }",
            "TensorByteSize { tensor: 64 }",
            "TensorCopyFromBuffer { tensor: 64, data: [1.5, 2.5], byte_count: 8 }",
        ]
    );
    assert_eq!(outcome, Ok(()));
}

#[test]
fn copying_bytes() {
    let model = Model { model_ptr: 8 };
    let interpreter = create(&model, Options::Default);
    let replies = || {
        vec![Reply::Count(1), Reply::Address(64), Reply::ByteSize(3), Reply::Status(STATUS_OK)]
    };
    let bytes = script(interpreter.copy_bytes(&[7, 8, 9], 0), replies());
    assert_eq!(bytes.0[3], "TensorCopyFromBuffer { tensor: 64, data: [7, 8, 9], byte_count: 3 }");
    assert_eq!(bytes, script(interpreter.copy(&[7u8, 8, 9], 0), replies()));
}

#[test]
fn data_of_another_size_is_not_copied() {
    let model = Model { model_ptr: 8 };
    let interpreter = create(&model, Options::Default);
    let (calls, outcome) = script(
        interpreter.copy(&[1u32, 2, 3], 0),
        vec![Reply::Count(1), Reply::Address(64), Reply::ByteSize(8)],
    );
    assert_eq!(calls.len(), 3);
    assert_eq!(outcome, Err(Error::new(ErrorKind::InvalidTensorDataCount(12, 8))));
}

#[test]
fn copying_can_fail() {
    let model = Model { model_ptr: 8 };
    let interpreter = create(&model, Options::Default);
    let (_, outcome) = script(
        interpreter.copy(&[1u64], 0),
        vec![Reply::Count(1), Reply::Address(64), Reply::ByteSize(8), Reply::Status(1)],
    );
    assert_eq!(outcome, Err(Error::new(ErrorKind::FailedToCopyDataToInputTensor)));
    let (calls, outcome) = script(interpreter.copy(&[1u64], 5), vec![Reply::Count(1)]);
    assert_eq!(calls.len(), 1);
    assert_eq!(outcome, Err(Error::new(ErrorKind::InvalidTensorIndex(5, 0))));
}

#[test]
fn a_reply_of_another_kind_changes_nothing() {
    let model = Model { model_ptr: 8 };
    let interpreter = create(&model, Options::Default);
    let (calls, outcome) = script(
        interpreter.invoke(),
        vec![Reply::Done, Reply::Count(0), Reply::Status(STATUS_OK)],
    );
    assert_eq!(calls, vec!["Invoke { interpreter: 48 }"; 3]);
    assert_eq!(outcome, Ok(()));
}

#[test]
fn index_check() {
    assert_eq!(check_index(0, 1), Ok(()));
    assert_eq!(check_index(1, 1), Err(Error::new(ErrorKind::InvalidTensorIndex(1, 0))));
    assert_eq!(check_index(4, 5), Ok(()));
    assert_eq!(check_index(5, 5), Err(Error::new(ErrorKind::InvalidTensorIndex(5, 4))));
}

#[test]
fn no_index_is_valid_where_there_is_no_tensor() {
    assert_eq!(check_index(0, 0), Err(Error::new(ErrorKind::InvalidTensorIndex(0, 0))));
    assert_eq!(check_index(9, 0), Err(Error::new(ErrorKind::InvalidTensorIndex(9, 0))));
}

#[test]
fn status_check() {
    assert_eq!(check_status(0, ErrorKind::FailedToAllocateTensors), Ok(()));
    assert_eq!(
        check_status(1, ErrorKind::FailedToAllocateTensors),
        Err(Error::new(ErrorKind::FailedToAllocateTensors))
    );
}

#[test]
fn integers_cross_the_border_as_casts_do() {
    for count in vec![0, 1, i32::MAX, -1, i32::MIN] {
        assert_eq!(count_to_usize(count), count as usize);
    }
    for value in vec![0, 1, 0x7fff_ffff, 0x8000_0000, 0xffff_ffff, usize::MAX] {
        assert_eq!(usize_to_c_int(value), value as i32);
    }
}
