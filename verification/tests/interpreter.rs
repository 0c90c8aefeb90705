use tflitec::error::{Error, ErrorKind};
use tflitec::interpreter::{Interpreter, Options};
use tflitec::model::Model;
use tflitec::operation::{Operation, Step};
use tflitec::runtime::{Call, Reply, STATUS_OK};
use tflitec::tensor::{Shape, Tensor};

const STATUS_ERROR: u32 = 1;
const INPUT_TENSOR: usize = 1000;
const OUTPUT_TENSOR: usize = 2000;

/// A runtime with one interpreter, which has one input and one output of the same shape. Invoking
/// it multiplies the input by three.
struct Runtime {
    element_size: usize,
    dims: Vec<usize>,
    allocated: bool,
    invoked: bool,
    input: Vec<f64>,
    output: Vec<f64>,
    objects: Vec<usize>,
    delegates: Vec<String>,
}

impl Runtime {
    fn new(element_size: usize, dims: Vec<usize>) -> Runtime {
        Runtime {
            element_size,
            dims,
            allocated: false,
            invoked: false,
            input: Vec::new(),
            output: Vec::new(),
            objects: Vec::new(),
            delegates: Vec::new(),
        }
    }

    fn create(&mut self) -> Reply {
        let address = 16 * (self.objects.len() + 1);
        self.objects.push(address);
        Reply::Address(address)
    }

    fn delete(&mut self, address: usize) -> Reply {
        for object in self.objects.iter_mut() {
            if *object == address {
                *object = 0;
                return Reply::Done;
            }
        }
        panic!("no object at {}", address);
    }

    fn living_objects(&self) -> usize {
        self.objects.iter().filter(|object| **object != 0).count()
    }

    fn elements(&self) -> usize {
        self.dims.iter().product()
    }

    fn make<T: Copy + Into<f64>>(&mut self, call: Call<'_, T>) -> Reply {
        match call {
            Call::OptionsCreate | Call::InterpreterCreate { .. } => self.create(),
            Call::XnnpackDelegateCreate { thread_count } => {
                self.delegates.push(format!("xnnpack {:?}", thread_count));
                self.create()
            }
            Call::ExternalDelegateCreate { path } => {
                self.delegates.push(format!("external {}", path));
                self.create()
            }
            Call::OptionsSetNumThreads { .. } | Call::OptionsAddDelegate { .. } => Reply::Done,
            Call::OptionsDelete { options } => self.delete(options),
            Call::InterpreterDelete { interpreter } => self.delete(interpreter),
            Call::XnnpackDelegateDelete { delegate } => self.delete(delegate),
            Call::ExternalDelegateDelete { delegate } => self.delete(delegate),
            Call::InputTensorCount { .. } | Call::OutputTensorCount { .. } => Reply::Count(1),
            Call::InputTensor { index, .. } => {
                assert_eq!(index, 0);
                Reply::Address(INPUT_TENSOR)
            }
            Call::OutputTensor { index, .. } => {
                assert_eq!(index, 0);
                Reply::Address(OUTPUT_TENSOR)
            }
            Call::ReadTensor { tensor } => {
                let readable = if tensor == INPUT_TENSOR { self.allocated } else { self.invoked };
                Reply::Tensor(if readable {
                    Ok(Tensor { tensor_ptr: tensor, shape: Shape::new(self.dims.clone()) })
                } else {
                    Err(Error::new(ErrorKind::ReadTensorError))
                })
            }
            Call::ResizeInputTensor { index, dims, dims_size, .. } => {
                assert_eq!(index, 0);
                assert_eq!(dims.len() as i32, dims_size);
                self.dims = dims.iter().map(|dim| *dim as usize).collect();
                self.allocated = false;
                Reply::Status(STATUS_OK)
            }
            Call::AllocateTensors { .. } => {
                self.allocated = true;
                self.input = vec![0.0; self.elements()];
                Reply::Status(STATUS_OK)
            }
            Call::TensorByteSize { tensor } => {
                assert_eq!(tensor, INPUT_TENSOR);
                Reply::ByteSize(self.elements() * self.element_size)
            }
            Call::TensorCopyFromBuffer { tensor, data, byte_count } => {
                assert_eq!(tensor, INPUT_TENSOR);
                assert_eq!(byte_count, self.elements() * self.element_size);
                self.input = data.iter().map(|element| (*element).into()).collect();
                Reply::Status(STATUS_OK)
            }
            Call::Invoke { .. } => {
                if !self.allocated {
                    return Reply::Status(STATUS_ERROR);
                }
                self.output = self.input.iter().map(|element| element * 3.0).collect();
                self.invoked = true;
                Reply::Status(STATUS_OK)
            }
        }
    }

    fn run<O: Operation>(&mut self, operation: O) -> O::Output
    where
        O::Elem: Copy + Into<f64>,
    {
        let mut operation = operation;
        loop {
            let reply = self.make(operation.call());
            match operation.step(reply) {
                Step::Next(next) => operation = next,
                Step::Done(output) => return output,
            }
        }
    }
}

fn as_f32(elements: &[f64]) -> Vec<f32> {
    elements.iter().map(|element| *element as f32).collect()
}

#[test]
fn test_interpreter_input_output_count() {
    let mut runtime = Runtime::new(4, vec![1, 8, 8, 3]);
    let model = Model { model_ptr: 8 };
    let interpreter =
        runtime.run(Interpreter::new(&model, Options::Default)).expect("Cannot create interpreter");
    assert_eq!(runtime.run(interpreter.input_tensor_count()), 1);
    assert_eq!(runtime.run(interpreter.output_tensor_count()), 1);
}

#[test]
fn test_interpreter_get_input_tensor() {
    let mut runtime = Runtime::new(4, vec![1, 8, 8, 3]);
    let model = Model { model_ptr: 8 };
    let interpreter =
        runtime.run(Interpreter::new(&model, Options::Default)).expect("Cannot create interpreter!");

    let invalid_tensor = runtime.run(interpreter.input(1));
    assert!(invalid_tensor.is_err());
    let err = invalid_tensor.err().unwrap();
    assert_eq!(ErrorKind::InvalidTensorIndex(1, 0), err.kind());

    let invalid_tensor = runtime.run(interpreter.input(0));
    assert!(invalid_tensor.is_err());
    let err = invalid_tensor.err().unwrap();
    assert_eq!(ErrorKind::AllocateTensorsRequired, err.kind());

    runtime.run(interpreter.allocate_tensors()).unwrap();
    let valid_tensor = runtime.run(interpreter.input(0));
    assert!(valid_tensor.is_ok());
    let tensor = valid_tensor.ok().unwrap();
    assert_eq!(tensor.shape().dimensions(), &vec![1, 8, 8, 3])
}

#[test]
fn test_interpreter_allocate_tensors() {
    let mut runtime = Runtime::new(4, vec![1, 8, 8, 3]);
    let model = Model { model_ptr: 8 };
    let interpreter =
        runtime.run(Interpreter::new(&model, Options::Default)).expect("Cannot create interpreter!");

    runtime
        .run(interpreter.resize_input(0, Shape::new(vec![10, 8, 8, 3])))
        .expect("Resize failed");
    runtime.run(interpreter.allocate_tensors()).expect("Cannot allocate tensors");
    let tensor = runtime.run(interpreter.input(0)).unwrap();
    assert_eq!(tensor.shape().dimensions(), &vec![10, 8, 8, 3])
}

#[test]
fn test_interpreter_copy_input() {
    let mut runtime = Runtime::new(4, vec![1, 8, 8, 3]);
    let model = Model { model_ptr: 8 };
    let interpreter =
        runtime.run(Interpreter::new(&model, Options::Default)).expect("Cannot create interpreter!");

    runtime
        .run(interpreter.resize_input(0, Shape::new(vec![10, 8, 8, 3])))
        .expect("Resize failed");
    runtime.run(interpreter.allocate_tensors()).expect("Cannot allocate tensors");
    let tensor = runtime.run(interpreter.input(0)).unwrap();
    assert_eq!(tensor.tensor_ptr, INPUT_TENSOR);
    let data = (0..1920).map(|x| x as f32).collect::<Vec<f32>>();
    assert!(runtime.run(interpreter.copy(&data[..], 0)).is_ok());
    assert_eq!(data, as_f32(&runtime.input));
}

#[test]
fn test_interpreter_invoke() {
    let mut runtime = Runtime::new(4, vec![1, 8, 8, 3]);
    let model = Model { model_ptr: 8 };
    let interpreter =
        runtime.run(Interpreter::new(&model, Options::Default)).expect("Cannot create interpreter!");

    runtime
        .run(interpreter.resize_input(0, Shape::new(vec![10, 8, 8, 3])))
        .expect("Resize failed");
    runtime.run(interpreter.allocate_tensors()).expect("Cannot allocate tensors");

    let data = (0..1920).map(|x| x as f32).collect::<Vec<f32>>();
    assert!(runtime.run(interpreter.copy(&data[..], 0)).is_ok());
    assert!(runtime.run(interpreter.invoke()).is_ok());
    let expected: Vec<f32> = data.iter().map(|e| e * 3.0).collect();
    let output_tensor = runtime.run(interpreter.output(0)).unwrap();
    assert_eq!(output_tensor.shape().dimensions(), &vec![10, 8, 8, 3]);
    assert_eq!(output_tensor.tensor_ptr, OUTPUT_TENSOR);
    let output_vector = as_f32(&runtime.output);
    assert_eq!(expected, output_vector);
}

#[test]
fn test_interpreter_invoke_xnnpack() {
    let options = Options::Xnnpack(2);
    let mut runtime = Runtime::new(4, vec![1, 8, 8, 3]);
    let model = Model { model_ptr: 8 };
    let interpreter =
        runtime.run(Interpreter::new(&model, options)).expect("Cannot create interpreter!");
    assert_eq!(runtime.delegates, vec!["xnnpack Some(2)"]);

    runtime
        .run(interpreter.resize_input(0, Shape::new(vec![10, 8, 8, 3])))
        .expect("Resize failed");
    runtime.run(interpreter.allocate_tensors()).expect("Cannot allocate tensors");

    let data = (0..1920).map(|x| x as f32).collect::<Vec<f32>>();
    assert!(runtime.run(interpreter.copy(&data[..], 0)).is_ok());
    assert!(runtime.run(interpreter.invoke()).is_ok());
    let expected: Vec<f32> = data.iter().map(|e| e * 3.0).collect();
    let output_tensor = runtime.run(interpreter.output(0)).unwrap();
    assert_eq!(output_tensor.shape().dimensions(), &vec![10, 8, 8, 3]);
    let output_vector = as_f32(&runtime.output);
    assert_eq!(expected, output_vector);
}

#[test]
fn test_interpreter_invoke_edge_tpu() {
    let options = Options::External("libedgetpu.so.1".to_string());
    let mut runtime = Runtime::new(1, vec![1, 224, 224, 3]);
    let model = Model { model_ptr: 8 };
    let interpreter =
        runtime.run(Interpreter::new(&model, options)).expect("Cannot create interpreter");
    assert_eq!(runtime.delegates, vec!["external libedgetpu.so.1"]);
    runtime
        .run(interpreter.resize_input(0, Shape::new(vec![1, 224, 224, 3])))
        .expect("Resize failed");
    runtime.run(interpreter.allocate_tensors()).expect("Cannot allocate tensors");
    let data = [1u8; 150528];
    assert!(runtime.run(interpreter.copy(&data, 0)).is_ok());
    assert!(runtime.run(interpreter.invoke()).is_ok());
}

#[test]
fn nothing_outlives_an_interpreter() {
    for options in vec![
        Options::Default,
        Options::Xnnpack(2),
        Options::External("libedgetpu.so.1".to_string()),
    ] {
        let mut runtime = Runtime::new(4, vec![1, 8, 8, 3]);
        let model = Model { model_ptr: 8 };
        let created = if options == Options::Default { 2 } else { 3 };
        let interpreter = runtime.run(Interpreter::new(&model, options.clone())).ok().unwrap();
        assert_eq!(interpreter.options(), &options);
        assert_eq!(runtime.objects.len(), created);
        assert_eq!(runtime.living_objects(), created - 1);
        runtime.run(interpreter.drop());
        assert_eq!(runtime.living_objects(), 0);
    }
}

#[test]
fn an_output_needs_an_invocation() {
    let mut runtime = Runtime::new(4, vec![1, 8, 8, 3]);
    let model = Model { model_ptr: 8 };
    let interpreter = runtime.run(Interpreter::new(&model, Options::Default)).ok().unwrap();
    let early = runtime.run(interpreter.invoke());
    assert_eq!(early.err().unwrap().kind(), ErrorKind::AllocateTensorsRequired);
    runtime.run(interpreter.allocate_tensors()).unwrap();
    let early = runtime.run(interpreter.output(0));
    assert_eq!(early.err().unwrap().kind(), ErrorKind::InvokeInterpreterRequired);
    runtime.run(interpreter.invoke()).unwrap();
    assert!(runtime.run(interpreter.output(0)).is_ok());
}
