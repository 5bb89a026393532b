use onnxsim::error::{CODE_INVALID_ARGUMENT, CODE_PARSE_FAILED, CODE_SIMPLIFICATION_FAILED};
use onnxsim::{
    advance, begin_simplify_bytes, begin_simplify_file, CallState, NativeArgs, NativeCall,
    NativeEvent, Operation, OnnxSimError, Output, Request, SimplifyOptions, Step,
};

fn no_args() -> NativeArgs {
    NativeArgs {
        skip_optimizers: None,
        skip_count: 0,
        constant_folding: 0,
        shape_inference: 0,
        tensor_size_threshold: 0,
    }
}

/// Drives a call against a native side that answers each operation with
/// the event given for it, and records the operations asked for.
fn drive(
    begun: (CallState, Step),
    returned: NativeEvent,
    diagnostic: Option<String>,
    copied: Vec<u8>,
) -> (Vec<NativeCall>, Result<Output, OnnxSimError>) {
    let (mut state, mut step) = begun;
    let mut calls = Vec::new();
    loop {
        let call = match step {
            Step::Done(result) => {
                assert_eq!(state, CallState::Finished);
                return (calls, result);
            }
            Step::Call(call) => call,
        };
        let event = match &call {
            NativeCall::InitEnv => NativeEvent::EnvReady,
            NativeCall::Simplify(_) => returned.clone(),
            NativeCall::GetLastError => NativeEvent::LastError(diagnostic.clone()),
            NativeCall::CopyOutput => NativeEvent::Copied(copied.clone()),
            NativeCall::FreeBuffer => NativeEvent::Released,
        };
        calls.push(call);
        assert!(calls.len() < 10);
        let next = advance(state, event);
        state = next.0;
        step = next.1;
    }
}

#[test]
fn invalid_model_bytes_are_reported_as_parse_failed() {
    let invalid_model = b"not a valid onnx model".to_vec();
    let begun = begin_simplify_bytes(invalid_model.clone(), SimplifyOptions::default());
    let (calls, result) = drive(
        begun,
        NativeEvent::BytesReturned { code: CODE_PARSE_FAILED, output_is_null: true, output_len: 0 },
        Some(String::from("Failed to parse model")),
        vec![],
    );
    assert_eq!(
        calls,
        vec![
            NativeCall::InitEnv,
            NativeCall::Simplify(Request::Bytes { model: invalid_model, args: no_args() }),
            NativeCall::GetLastError,
        ]
    );
    assert!(result.is_err());
    match result {
        Err(OnnxSimError::ParseFailed(message)) => assert_eq!(message, "Failed to parse model"),
        _ => panic!("Expected ParseFailed error"),
    }
}

#[test]
fn a_missing_input_file_never_succeeds() {
    for code in [CODE_PARSE_FAILED, CODE_INVALID_ARGUMENT, 77] {
        let begun = begin_simplify_file(
            Some("/tmp/nonexistent.onnx"),
            Some("/tmp/output.onnx"),
            SimplifyOptions::default(),
        );
        let (calls, result) =
            drive(begun, NativeEvent::FileReturned { code }, None, vec![]);
        assert_eq!(calls.len(), 3);
        assert_eq!(calls[0], NativeCall::InitEnv);
        assert_eq!(
            calls[1],
            NativeCall::Simplify(Request::File {
                in_path: b"/tmp/nonexistent.onnx\0".to_vec(),
                out_path: b"/tmp/output.onnx\0".to_vec(),
                args: no_args(),
            })
        );
        assert_eq!(calls[2], NativeCall::GetLastError);
        assert!(result.is_err());
        let expected = String::from("Unknown error");
        if code == CODE_PARSE_FAILED {
            assert_eq!(result, Err(OnnxSimError::ParseFailed(expected)));
        } else if code == CODE_INVALID_ARGUMENT {
            assert_eq!(result, Err(OnnxSimError::InvalidArgument(expected)));
        } else {
            assert_eq!(result, Err(OnnxSimError::Internal(expected)));
        }
    }
}

#[test]
fn a_successful_call_copies_then_releases_once() {
    let options = SimplifyOptions::new()
        .with_skip_optimizers(vec![String::from("fuse_bn")])
        .with_shape_inference(true)
        .with_tensor_size_threshold(1024);
    let begun = begin_simplify_bytes(vec![8, 7], options);
    let (calls, result) = drive(
        begun,
        NativeEvent::BytesReturned { code: 0, output_is_null: false, output_len: 3 },
        None,
        vec![8, 7, 18],
    );
    let args = NativeArgs {
        skip_optimizers: Some(vec![b"fuse_bn\0".to_vec()]),
        skip_count: 1,
        constant_folding: 0,
        shape_inference: 1,
        tensor_size_threshold: 1024,
    };
    assert_eq!(
        calls,
        vec![
            NativeCall::InitEnv,
            NativeCall::Simplify(Request::Bytes { model: vec![8, 7], args }),
            NativeCall::CopyOutput,
            NativeCall::FreeBuffer,
        ]
    );
    assert_eq!(result, Ok(Output::Buffer(vec![8, 7, 18])));
}

#[test]
fn a_successful_file_call_asks_for_nothing_more() {
    let begun = begin_simplify_file(Some("in.onnx"), Some("out.onnx"), SimplifyOptions::new());
    let (calls, result) = drive(begun, NativeEvent::FileReturned { code: 0 }, None, vec![]);
    assert_eq!(calls.len(), 2);
    assert_eq!(result, Ok(Output::FileWritten));
}

#[test]
fn success_with_a_null_output_is_an_internal_error() {
    let begun = begin_simplify_bytes(vec![1], SimplifyOptions::new());
    let (calls, result) = drive(
        begun,
        NativeEvent::BytesReturned { code: 0, output_is_null: true, output_len: 5 },
        None,
        vec![],
    );
    assert_eq!(calls.len(), 2);
    assert!(!calls.contains(&NativeCall::FreeBuffer));
    assert_eq!(result, Err(OnnxSimError::Internal(String::from("Empty output"))));
}

#[test]
fn success_with_an_empty_output_releases_it_and_fails() {
    let begun = begin_simplify_bytes(vec![1], SimplifyOptions::new());
    let (calls, result) = drive(
        begun,
        NativeEvent::BytesReturned { code: 0, output_is_null: false, output_len: 0 },
        None,
        vec![],
    );
    assert_eq!(calls.len(), 3);
    assert_eq!(calls[2], NativeCall::FreeBuffer);
    assert_eq!(result, Err(OnnxSimError::Internal(String::from("Empty output"))));
}

#[test]
fn an_empty_copy_is_released_and_fails() {
    let begun = begin_simplify_bytes(vec![1], SimplifyOptions::new());
    let (calls, result) = drive(
        begun,
        NativeEvent::BytesReturned { code: 0, output_is_null: false, output_len: 4 },
        None,
        vec![],
    );
    assert_eq!(calls[2], NativeCall::CopyOutput);
    assert_eq!(calls[3], NativeCall::FreeBuffer);
    assert_eq!(calls.len(), 4);
    assert_eq!(result, Err(OnnxSimError::Internal(String::from("Empty output"))));
}

#[test]
fn a_failing_pass_is_reported_with_the_diagnostic() {
    let begun = begin_simplify_bytes(vec![1], SimplifyOptions::new());
    let (calls, result) = drive(
        begun,
        NativeEvent::BytesReturned {
            code: CODE_SIMPLIFICATION_FAILED,
            output_is_null: false,
            output_len: 9,
        },
        Some(String::from("pass diverged")),
        vec![0; 9],
    );
    assert_eq!(calls.len(), 3);
    assert_eq!(calls[2], NativeCall::GetLastError);
    assert_eq!(result, Err(OnnxSimError::SimplificationFailed(String::from("pass diverged"))));
}

#[test]
fn a_name_with_a_zero_byte_reaches_no_native_operation() {
    let options = SimplifyOptions::new().with_skip_optimizers(vec![String::from("a\0b")]);
    let expected = OnnxSimError::InvalidArgument(String::from(
        "nul byte found in provided data at position: 1",
    ));

    let (state, step) = begin_simplify_bytes(vec![1, 2, 3], options.clone());
    assert_eq!(state, CallState::Finished);
    assert_eq!(step, Step::Done(Err(expected.clone())));

    let (state, step) = begin_simplify_file(Some("in"), Some("out"), options);
    assert_eq!(state, CallState::Finished);
    assert_eq!(step, Step::Done(Err(expected)));
}

#[test]
fn paths_are_checked_before_the_skip_list() {
    let bad = SimplifyOptions::new().with_skip_optimizers(vec![String::from("\0")]);
    let message = |text: &str| Step::Done(Err(OnnxSimError::InvalidArgument(String::from(text))));

    let (state, step) = begin_simplify_file(None, None, bad.clone());
    assert_eq!(state, CallState::Finished);
    assert_eq!(step, message("Invalid UTF-8 in input path"));

    let (_, step) = begin_simplify_file(Some("in"), None, bad.clone());
    assert_eq!(step, message("Invalid UTF-8 in output path"));

    let (_, step) = begin_simplify_file(Some("i\0n"), None, bad.clone());
    assert_eq!(step, message("nul byte found in provided data at position: 1"));

    let (_, step) = begin_simplify_file(Some("in"), Some("out\0"), bad.clone());
    assert_eq!(step, message("nul byte found in provided data at position: 3"));

    let (_, step) = begin_simplify_file(Some("in"), Some("out"), bad);
    assert_eq!(step, message("nul byte found in provided data at position: 0"));
}

#[test]
fn a_call_begins_by_preparing_the_environment() {
    let (state, step) = begin_simplify_bytes(vec![4, 2], SimplifyOptions::new());
    assert_eq!(step, Step::Call(NativeCall::InitEnv));
    assert_eq!(
        state,
        CallState::Initializing(Request::Bytes { model: vec![4, 2], args: no_args() })
    );
    let (state, step) = advance(state, NativeEvent::EnvReady);
    assert_eq!(state, CallState::Invoked(Operation::Bytes));
    assert_eq!(
        step,
        Step::Call(NativeCall::Simplify(Request::Bytes { model: vec![4, 2], args: no_args() }))
    );

    let (state, _) = begin_simplify_file(Some("a"), Some("b"), SimplifyOptions::new());
    let (state, _) = advance(state, NativeEvent::EnvReady);
    assert_eq!(state, CallState::Invoked(Operation::File));
}

#[test]
fn an_event_nobody_waited_for_ends_the_call() {
    let unexpected = || Step::Done(Err(OnnxSimError::Internal(String::from("Unexpected native event"))));
    let (state, _) = begin_simplify_bytes(vec![], SimplifyOptions::new());
    assert_eq!(advance(state, NativeEvent::Released), (CallState::Finished, unexpected()));
    assert_eq!(
        advance(CallState::Invoked(Operation::Bytes), NativeEvent::FileReturned { code: 0 }),
        (CallState::Finished, unexpected())
    );
    assert_eq!(
        advance(CallState::Invoked(Operation::File), NativeEvent::EnvReady),
        (CallState::Finished, unexpected())
    );
    assert_eq!(
        advance(CallState::ReadingDiagnostic(2), NativeEvent::Released),
        (CallState::Finished, unexpected())
    );
    assert_eq!(
        advance(CallState::Releasing(Ok(vec![1])), NativeEvent::EnvReady),
        (CallState::Finished, unexpected())
    );
    assert_eq!(
        advance(CallState::Finished, NativeEvent::EnvReady),
        (CallState::Finished, unexpected())
    );
}

#[test]
fn a_buffer_being_copied_is_released_whatever_is_reported() {
    let (state, step) = advance(CallState::Copying, NativeEvent::EnvReady);
    assert_eq!(step, Step::Call(NativeCall::FreeBuffer));
    assert_eq!(
        state,
        CallState::Releasing(Err(OnnxSimError::Internal(String::from("Unexpected native event"))))
    );
    let (state, step) = advance(state, NativeEvent::Released);
    assert_eq!(state, CallState::Finished);
    assert_eq!(
        step,
        Step::Done(Err(OnnxSimError::Internal(String::from("Unexpected native event"))))
    );
}
