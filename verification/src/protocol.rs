//! The order of the native operations of one simplification.
//!
//! The bridge itself cannot reach the native side. It decides: a call is
//! begun with `begin_simplify_bytes` or `begin_simplify_file`, which say
//! what to do first; whoever drives the call performs that native
//! operation, reports what came back as a `NativeEvent`, and `advance`
//! says what to do next, until a step is `Done`.
//!
//! The native diagnostic is process-wide and overwritten by every failing
//! call. The driver must hold one process-wide lock from the first step of
//! a call to its last, so that the diagnostic it reads belongs to the call
//! that failed.

use vstd::prelude::*;
use vstd::string::*;
use crate::error::{
    diagnostic_text,
    error_from_code,
    kind_of_raw,
    ErrorKind,
    NativeResultCode,
    OnnxSimError,
    CODE_SUCCESS,
};
use crate::marshal::{
    all_representable,
    c_string,
    first_rejected,
    marshal_options,
    marshal_text,
    rejection_message,
    representable,
    NativeArgs,
};
use crate::options::SimplifyOptions;

verus! {

/// The text of a path, where it is valid UTF-8.
pub open spec fn path_view(path: Option<&str>) -> Option<Seq<char>> {
    match path {
        Some(text) => Some(text@),
        None => None,
    }
}

/// The two native entry points that simplify.
#[derive(Debug, Clone, Copy, PartialEq, Eq, Structural)]
pub enum Operation {
    Bytes,
    File,
}

/// What is handed to a native entry point.
#[derive(Debug, Clone, PartialEq, Eq)]
pub enum Request {
    /// Bytes to bytes: the serialized model with these arguments.
    Bytes { model: Vec<u8>, args: NativeArgs },
    /// File to file: the two nul-terminated paths with these arguments.
    File { in_path: Vec<u8>, out_path: Vec<u8>, args: NativeArgs },
}

/// One native operation.
#[derive(Debug, Clone, PartialEq, Eq)]
pub enum NativeCall {
    /// Prepare the native environment.
    InitEnv,
    /// Invoke the entry point of the request.
    Simplify(Request),
    /// Read the process-wide diagnostic.
    GetLastError,
    /// Copy the native output buffer into managed memory.
    CopyOutput,
    /// Release the native output buffer.
    FreeBuffer,
}

/// What a native operation gave back.
#[derive(Debug, Clone, PartialEq, Eq)]
pub enum NativeEvent {
    /// The environment is prepared.
    EnvReady,
    /// The bytes-to-bytes entry point returned.
    BytesReturned { code: i32, output_is_null: bool, output_len: usize },
    /// The file-to-file entry point returned.
    FileReturned { code: i32 },
    /// The diagnostic was read; `None` is a null diagnostic pointer.
    LastError(Option<String>),
    /// The output buffer was copied.
    Copied(Vec<u8>),
    /// The output buffer was released.
    Released,
}

/// What a finished call hands to its caller.
#[derive(Debug, Clone, PartialEq, Eq)]
pub enum Output {
    /// The simplified model.
    Buffer(Vec<u8>),
    /// The simplified model was written to the output path.
    FileWritten,
}

/// What the driver does next.
#[derive(Debug, PartialEq, Eq)]
pub enum Step {
    /// Perform this native operation and report what came back.
    Call(NativeCall),
    /// The call is over with this result.
    Done(Result<Output, OnnxSimError>),
}

/// Where one call stands.
#[derive(Debug, PartialEq, Eq)]
pub enum CallState {
    /// The environment is being prepared; the request waits.
    Initializing(Request),
    /// The entry point was invoked.
    Invoked(Operation),
    /// The entry point failed with this code; the diagnostic is being read.
    ReadingDiagnostic(i32),
    /// The output buffer is being copied.
    Copying,
    /// The output buffer is being released; the result waits.
    Releasing(Result<Vec<u8>, OnnxSimError>),
    /// The call is over.
    Finished,
}

impl Request {
    /// The entry point this request is for.
    pub open spec fn operation(self) -> Operation {
        match self {
            Request::Bytes { .. } => Operation::Bytes,
            Request::File { .. } => Operation::File,
        }
    }

    /// The arguments of this request.
    pub open spec fn args(self) -> NativeArgs {
        match self {
            Request::Bytes { args, .. } => args,
            Request::File { args, .. } => args,
        }
    }
}

impl Step {
    /// Whether this step can be taken in a call for the entry point
    /// `operation`: a bytes-to-bytes call ends with a buffer and never
    /// with a written file, and a file-to-file call neither copies nor
    /// releases nor hands out a buffer.
    pub open spec fn fits(self, operation: Operation) -> bool {
        match self {
            Step::Call(NativeCall::Simplify(request)) => request.operation() == operation,
            Step::Call(NativeCall::CopyOutput) => operation == Operation::Bytes,
            Step::Call(NativeCall::FreeBuffer) => operation == Operation::Bytes,
            Step::Done(Ok(Output::Buffer(_))) => operation == Operation::Bytes,
            Step::Done(Ok(Output::FileWritten)) => operation == Operation::File,
            _ => true,
        }
    }

    /// Whether this step ends the call with an error of the given kind and
    /// message.
    pub open spec fn fails_with(self, kind: ErrorKind, message: Seq<char>) -> bool {
        match self {
            Step::Done(Err(e)) => e.is(kind, message),
            _ => false,
        }
    }
}

impl CallState {
    /// What holds of every state a call can reach: a waiting request has
    /// well-formed arguments, and a copy that waits for the release is not
    /// empty.
    pub open spec fn wf(self) -> bool {
        match self {
            CallState::Initializing(request) => request.args().wf(),
            CallState::Releasing(Ok(bytes)) => bytes@.len() > 0,
            _ => true,
        }
    }

    /// Whether `step` is what a call in this state has asked for: each
    /// state waits for the outcome of one native operation, and a
    /// finished call for none.
    pub open spec fn awaits(self, step: Step) -> bool {
        match self {
            CallState::Initializing(_) => step == Step::Call(NativeCall::InitEnv),
            CallState::Invoked(operation) => step matches Step::Call(NativeCall::Simplify(request))
                && request.operation() == operation,
            CallState::ReadingDiagnostic(_) => step == Step::Call(NativeCall::GetLastError),
            CallState::Copying => step == Step::Call(NativeCall::CopyOutput),
            CallState::Releasing(_) => step == Step::Call(NativeCall::FreeBuffer),
            CallState::Finished => step is Done,
        }
    }

    /// Whether a call for the entry point `operation` can be in this
    /// state: only a bytes-to-bytes call has an output buffer to copy and
    /// to release.
    pub open spec fn serves(self, operation: Operation) -> bool {
        match self {
            CallState::Initializing(request) => request.operation() == operation,
            CallState::Invoked(invoked) => invoked == operation,
            CallState::Copying => operation == Operation::Bytes,
            CallState::Releasing(_) => operation == Operation::Bytes,
            _ => true,
        }
    }

    /// The most native operations a call in this state still waits for,
    /// the one it has asked for included.
    pub open spec fn remaining(self) -> nat {
        match self {
            CallState::Initializing(_) => 4,
            CallState::Invoked(_) => 3,
            CallState::Copying => 2,
            CallState::ReadingDiagnostic(_) => 1,
            CallState::Releasing(_) => 1,
            CallState::Finished => 0,
        }
    }
}

/// Whether a waiting result is handed out as `step`.
pub open spec fn hands_out(waiting: Result<Vec<u8>, OnnxSimError>, step: Step) -> bool {
    match waiting {
        Ok(bytes) => step == Step::Done(Ok(Output::Buffer(bytes))),
        Err(e) => step == Step::Done(Err(e)),
    }
}

/// Whether `next` and `step` end the call for an event that the state did
/// not wait for.
pub open spec fn violates(next: CallState, step: Step) -> bool {
    next == CallState::Finished && step.fails_with(
        ErrorKind::Internal,
        "Unexpected native event"@,
    )
}

/// The transition relation: whether a call in `state` that is told `event`
/// goes on in `next` with `step`.
pub open spec fn advances(state: CallState, event: NativeEvent, next: CallState, step: Step) -> bool {
    match (state, event) {
        (CallState::Initializing(request), NativeEvent::EnvReady) => {
            &&& next == CallState::Invoked(request.operation())
            &&& step == Step::Call(NativeCall::Simplify(request))
        },
        (
            CallState::Invoked(Operation::Bytes),
            NativeEvent::BytesReturned { code, output_is_null, output_len },
        ) => {
            if code != CODE_SUCCESS {
                &&& next == CallState::ReadingDiagnostic(code)
                &&& step == Step::Call(NativeCall::GetLastError)
            } else if output_is_null {
                &&& next == CallState::Finished
                &&& step.fails_with(ErrorKind::Internal, "Empty output"@)
            } else if output_len == 0 {
                &&& next matches CallState::Releasing(Err(e))
                &&& e.is(ErrorKind::Internal, "Empty output"@)
                &&& step == Step::Call(NativeCall::FreeBuffer)
            } else {
                &&& next == CallState::Copying
                &&& step == Step::Call(NativeCall::CopyOutput)
            }
        },
        (CallState::Invoked(Operation::File), NativeEvent::FileReturned { code }) => {
            if code != CODE_SUCCESS {
                &&& next == CallState::ReadingDiagnostic(code)
                &&& step == Step::Call(NativeCall::GetLastError)
            } else {
                &&& next == CallState::Finished
                &&& step == Step::Done(Ok(Output::FileWritten))
            }
        },
        (CallState::ReadingDiagnostic(code), NativeEvent::LastError(diagnostic)) => {
            &&& next == CallState::Finished
            &&& step.fails_with(kind_of_raw(code), diagnostic_text(diagnostic))
        },
        (CallState::Copying, NativeEvent::Copied(bytes)) => {
            &&& step == Step::Call(NativeCall::FreeBuffer)
            &&& if bytes@.len() != 0 {
                next == CallState::Releasing(Ok(bytes))
            } else {
                &&& next matches CallState::Releasing(Err(e))
                &&& e.is(ErrorKind::Internal, "Empty output"@)
            }
        },
        (CallState::Copying, _) => {
            &&& step == Step::Call(NativeCall::FreeBuffer)
            &&& next matches CallState::Releasing(Err(e))
            &&& e.is(ErrorKind::Internal, "Unexpected native event"@)
        },
        (CallState::Releasing(waiting), NativeEvent::Released) => {
            &&& next == CallState::Finished
            &&& hands_out(waiting, step)
        },
        _ => violates(next, step),
    }
}

/// The message for the first thing that keeps a file-to-file call from
/// being made, looked for in this order: the input path, the output path,
/// the skip list. `None` for a path means that it is not valid UTF-8.
pub open spec fn file_rejection(
    in_path: Option<Seq<char>>,
    out_path: Option<Seq<char>>,
    names: Seq<Seq<char>>,
) -> Option<Seq<char>> {
    if in_path is None {
        Some("Invalid UTF-8 in input path"@)
    } else if !representable(in_path->0) {
        Some(rejection_message(in_path->0))
    } else if out_path is None {
        Some("Invalid UTF-8 in output path"@)
    } else if !representable(out_path->0) {
        Some(rejection_message(out_path->0))
    } else if !all_representable(names) {
        Some(rejection_message(first_rejected(names)))
    } else {
        None
    }
}

/// Whether a bytes-to-bytes call on `model` with `options` begins in
/// `state` with `step`.
pub open spec fn begins_bytes(
    model: Vec<u8>,
    options: SimplifyOptions,
    state: CallState,
    step: Step,
) -> bool {
    if all_representable(options.skip_names()) {
        &&& step == Step::Call(NativeCall::InitEnv)
        &&& state matches CallState::Initializing(Request::Bytes { model: m, args })
        &&& m == model
        &&& args.carries(options)
        &&& args.wf()
    } else {
        &&& state == CallState::Finished
        &&& step.fails_with(
            ErrorKind::InvalidArgument,
            rejection_message(first_rejected(options.skip_names())),
        )
    }
}

/// Whether a file-to-file call with these paths and `options` begins in
/// `state` with `step`.
pub open spec fn begins_file(
    in_path: Option<Seq<char>>,
    out_path: Option<Seq<char>>,
    options: SimplifyOptions,
    state: CallState,
    step: Step,
) -> bool {
    match file_rejection(in_path, out_path, options.skip_names()) {
        Some(message) => {
            &&& state == CallState::Finished
            &&& step.fails_with(ErrorKind::InvalidArgument, message)
        },
        None => {
            &&& step == Step::Call(NativeCall::InitEnv)
            &&& state matches CallState::Initializing(Request::File { in_path: i, out_path: o, args })
            &&& i@ == c_string(in_path->0)
            &&& o@ == c_string(out_path->0)
            &&& args.carries(options)
            &&& args.wf()
        },
    }
}

fn rejected(e: OnnxSimError) -> (r: (CallState, Step))
    ensures
        r.0 == CallState::Finished,
        r.1 == Step::Done(Err(e)),
{
    (CallState::Finished, Step::Done(Err(e)))
}

fn internal(message: &str) -> (e: OnnxSimError)
    ensures
        e.is(ErrorKind::Internal, message@),
{
    OnnxSimError::Internal(String::from_str(message))
}

fn violation() -> (r: (CallState, Step))
    ensures
        violates(r.0, r.1),
{
    rejected(internal("Unexpected native event"))
}

/// Begins a bytes-to-bytes simplification of a serialized model. The
/// model is handed to the native side as it is: the bridge does not look
/// into it.
///
/// The options are marshaled first. Where a name of the skip list cannot
/// be nul-terminated the call is over at once with `InvalidArgument`, and
/// no native operation is asked for. Otherwise the first step prepares
/// the native environment.
pub fn begin_simplify_bytes(model: Vec<u8>, options: SimplifyOptions) -> (r: (CallState, Step))
    ensures
        begins_bytes(model, options, r.0, r.1),
        r.0.wf(),
        r.0.awaits(r.1),
{
    match marshal_options(&options) {
        Ok(args) => (
            CallState::Initializing(Request::Bytes { model, args }),
            Step::Call(NativeCall::InitEnv),
        ),
        Err(e) => rejected(e),
    }
}

/// Begins a file-to-file simplification. A path is `None` where it is not
/// valid UTF-8.
///
/// The input path, the output path and the options are marshaled first,
/// in this order. The first that cannot be marshaled ends the call at
/// once with `InvalidArgument`, and no native operation is asked for.
/// Otherwise the first step prepares the native environment.
pub fn begin_simplify_file(
    in_path: Option<&str>,
    out_path: Option<&str>,
    options: SimplifyOptions,
) -> (r: (CallState, Step))
    ensures
        begins_file(path_view(in_path), path_view(out_path), options, r.0, r.1),
        r.0.wf(),
        r.0.awaits(r.1),
{
    let in_text = match in_path {
        Some(text) => text,
        None => {
            return rejected(OnnxSimError::InvalidArgument(String::from_str("Invalid UTF-8 in input path")));
        },
    };
    let in_bytes = match marshal_text(in_text) {
        Ok(bytes) => bytes,
        Err(e) => {
            return rejected(e);
        },
    };
    let out_text = match out_path {
        Some(text) => text,
        None => {
            return rejected(OnnxSimError::InvalidArgument(String::from_str("Invalid UTF-8 in output path")));
        },
    };
    let out_bytes = match marshal_text(out_text) {
        Ok(bytes) => bytes,
        Err(e) => {
            return rejected(e);
        },
    };
    match marshal_options(&options) {
        Ok(args) => (
            CallState::Initializing(Request::File { in_path: in_bytes, out_path: out_bytes, args }),
            Step::Call(NativeCall::InitEnv),
        ),
        Err(e) => rejected(e),
    }
}

/// What to do after a native entry point returned `code`: read the
/// diagnostic where it failed.
fn after_failure(code: i32) -> (r: (CallState, Step))
    ensures
        r.0 == CallState::ReadingDiagnostic(code),
        r.1 == Step::Call(NativeCall::GetLastError),
{
    (CallState::ReadingDiagnostic(code), Step::Call(NativeCall::GetLastError))
}

/// Says what a call in `state` does after `event`.
///
/// A failing code is followed by one read of the diagnostic, and the error
/// is made of the two. A success of the bytes-to-bytes entry point with a
/// null or empty output is an internal error, and so is an empty copy. An
/// output buffer that is not
/// null is released once, after it was copied, whatever else happens. An
/// event that the state did not wait for ends the call with an internal
/// error.
pub fn advance(state: CallState, event: NativeEvent) -> (r: (CallState, Step))
    ensures
        advances(state, event, r.0, r.1),
        state.wf() ==> r.0.wf(),
        r.0.awaits(r.1),
{
    match state {
        CallState::Initializing(request) => match event {
            NativeEvent::EnvReady => {
                let operation = match &request {
                    Request::Bytes { .. } => Operation::Bytes,
                    Request::File { .. } => Operation::File,
                };
                (CallState::Invoked(operation), Step::Call(NativeCall::Simplify(request)))
            },
            _ => violation(),
        },
        CallState::Invoked(Operation::Bytes) => match event {
            NativeEvent::BytesReturned { code, output_is_null, output_len } => {
                if !NativeResultCode::from_raw(code).is_success() {
                    after_failure(code)
                } else if output_is_null {
                    rejected(internal("Empty output"))
                } else if output_len == 0 {
                    (
                        CallState::Releasing(Err(internal("Empty output"))),
                        Step::Call(NativeCall::FreeBuffer),
                    )
                } else {
                    (CallState::Copying, Step::Call(NativeCall::CopyOutput))
                }
            },
            _ => violation(),
        },
        CallState::Invoked(Operation::File) => match event {
            NativeEvent::FileReturned { code } => {
                if !NativeResultCode::from_raw(code).is_success() {
                    after_failure(code)
                } else {
                    (CallState::Finished, Step::Done(Ok(Output::FileWritten)))
                }
            },
            _ => violation(),
        },
        CallState::ReadingDiagnostic(code) => match event {
            NativeEvent::LastError(diagnostic) => rejected(error_from_code(code, diagnostic)),
            _ => violation(),
        },
        CallState::Copying => {
            let waiting = match event {
                NativeEvent::Copied(bytes) => {
                    if bytes.len() != 0 {
                        Ok(bytes)
                    } else {
                        Err(internal("Empty output"))
                    }
                },
                _ => Err(internal("Unexpected native event")),
            };
            (CallState::Releasing(waiting), Step::Call(NativeCall::FreeBuffer))
        },
        CallState::Releasing(waiting) => match event {
            NativeEvent::Released => {
                let step = match waiting {
                    Ok(bytes) => Step::Done(Ok(Output::Buffer(bytes))),
                    Err(e) => Step::Done(Err(e)),
                };
                (CallState::Finished, step)
            },
            _ => violation(),
        },
        CallState::Finished => violation(),
    }
}

/// A skip list with a name that cannot be nul-terminated ends either kind
/// of call at once with `InvalidArgument`: the first step is no native
/// operation, and the call is finished.
pub proof fn lemma_rejected_names_reach_no_native_call(
    model: Vec<u8>,
    in_path: Option<Seq<char>>,
    out_path: Option<Seq<char>>,
    options: SimplifyOptions,
    state: CallState,
    step: Step,
)
    requires
        !all_representable(options.skip_names()),
        begins_bytes(model, options, state, step) || begins_file(in_path, out_path, options, state, step),
    ensures
        state == CallState::Finished,
        !(step is Call),
        step matches Step::Done(Err(e)) && e.spec_kind() == ErrorKind::InvalidArgument,
{
}

/// A call that begins with a native operation begins by preparing the
/// environment, and holds back a request for the entry point it was begun
/// for.
pub proof fn lemma_call_begins_with_init(
    model: Vec<u8>,
    in_path: Option<Seq<char>>,
    out_path: Option<Seq<char>>,
    options: SimplifyOptions,
    state: CallState,
    step: Step,
)
    requires
        begins_bytes(model, options, state, step) || begins_file(in_path, out_path, options, state, step),
        step is Call,
    ensures
        step == Step::Call(NativeCall::InitEnv),
        state is Initializing,
        state.wf(),
{
}

/// The entry point is invoked only right after the environment was
/// prepared, and with the request that the call was begun with.
pub proof fn lemma_entry_point_follows_init(
    state: CallState,
    event: NativeEvent,
    next: CallState,
    step: Step,
    request: Request,
)
    requires
        advances(state, event, next, step),
        step == Step::Call(NativeCall::Simplify(request)),
    ensures
        state == CallState::Initializing(request),
        event == NativeEvent::EnvReady,
        next == CallState::Invoked(request.operation()),
{
}

/// A finished call stays finished: whatever it is told, it asks for no
/// native operation.
pub proof fn lemma_finished_is_final(event: NativeEvent, next: CallState, step: Step)
    requires
        advances(CallState::Finished, event, next, step),
    ensures
        next == CallState::Finished,
        step is Done,
{
}

/// The diagnostic is read only right after an entry point returned a
/// failing code, and the code is kept for the error.
pub proof fn lemma_diagnostic_read_follows_failure(
    state: CallState,
    event: NativeEvent,
    next: CallState,
    step: Step,
)
    requires
        advances(state, event, next, step),
        step == Step::Call(NativeCall::GetLastError),
    ensures
        state is Invoked,
        match event {
            NativeEvent::BytesReturned { code, .. } => code != CODE_SUCCESS
                && next == CallState::ReadingDiagnostic(code),
            NativeEvent::FileReturned { code } => code != CODE_SUCCESS && next
                == CallState::ReadingDiagnostic(code),
            _ => false,
        },
{
}

/// A failing code never ends in success: after the diagnostic is read the
/// call is over with the error that the code maps to.
pub proof fn lemma_failure_is_reported(
    code: i32,
    event: NativeEvent,
    next: CallState,
    step: Step,
)
    requires
        advances(CallState::ReadingDiagnostic(code), event, next, step),
    ensures
        next == CallState::Finished,
        step matches Step::Done(Err(e)) && (event is LastError ==> e.spec_kind() == kind_of_raw(
            code,
        )),
{
}

/// The output buffer is released at most once: the release is asked for
/// only on the way into `Releasing`, and a call that is releasing asks
/// for nothing more.
pub proof fn lemma_buffer_released_at_most_once(
    state: CallState,
    event: NativeEvent,
    next: CallState,
    step: Step,
)
    requires
        advances(state, event, next, step),
    ensures
        step == Step::Call(NativeCall::FreeBuffer) ==> next is Releasing && !(state is Releasing),
        state is Releasing ==> next == CallState::Finished && step is Done,
{
}

/// A null output pointer is never released: the release follows either a
/// copy or a success that came with a pointer that is not null.
pub proof fn lemma_null_buffer_not_released(
    state: CallState,
    event: NativeEvent,
    next: CallState,
    step: Step,
)
    requires
        advances(state, event, next, step),
        step == Step::Call(NativeCall::FreeBuffer),
    ensures
        match state {
            CallState::Copying => true,
            CallState::Invoked(Operation::Bytes) => match event {
                NativeEvent::BytesReturned { code, output_is_null, .. } => code == CODE_SUCCESS
                    && !output_is_null,
                _ => false,
            },
            _ => false,
        },
{
}

/// An output buffer that was obtained is on its way to the release: a
/// success with a pointer that is not null leads to the release at once,
/// where the buffer is empty, or to the copy.
pub proof fn lemma_obtained_buffer_is_copied_or_released(
    output_len: usize,
    next: CallState,
    step: Step,
)
    requires
        advances(
            CallState::Invoked(Operation::Bytes),
            NativeEvent::BytesReturned { code: CODE_SUCCESS, output_is_null: false, output_len },
            next,
            step,
        ),
    ensures
        output_len == 0 ==> step == Step::Call(NativeCall::FreeBuffer) && next is Releasing,
        output_len != 0 ==> step == Step::Call(NativeCall::CopyOutput) && next
            == CallState::Copying,
{
}

/// The copy leads to the release, whatever is reported of it.
pub proof fn lemma_copied_buffer_is_released(event: NativeEvent, next: CallState, step: Step)
    requires
        advances(CallState::Copying, event, next, step),
    ensures
        step == Step::Call(NativeCall::FreeBuffer),
        next is Releasing,
{
}

/// Every step keeps the state well formed.
pub proof fn lemma_advance_keeps_wf(
    state: CallState,
    event: NativeEvent,
    next: CallState,
    step: Step,
)
    requires
        state.wf(),
        advances(state, event, next, step),
    ensures
        next.wf(),
{
}

/// A call that ends in success with a buffer hands out a buffer that is
/// not empty.
pub proof fn lemma_successful_output_not_empty(
    state: CallState,
    event: NativeEvent,
    next: CallState,
    step: Step,
)
    requires
        state.wf(),
        advances(state, event, next, step),
    ensures
        step matches Step::Done(Ok(Output::Buffer(bytes))) ==> bytes@.len() > 0,
{
}

/// The environment is prepared at the beginning of a call and never again
/// during it: no step after the first asks for it.
pub proof fn lemma_init_is_asked_for_first(
    state: CallState,
    event: NativeEvent,
    next: CallState,
    step: Step,
)
    requires
        advances(state, event, next, step),
    ensures
        step != Step::Call(NativeCall::InitEnv),
        !(next is Initializing),
{
}

/// A call stays with the entry point it was begun for. So a bytes-to-bytes
/// call never ends with a written file, and in a file-to-file call no
/// buffer is copied, released or handed out.
pub proof fn lemma_call_keeps_its_operation(
    operation: Operation,
    state: CallState,
    event: NativeEvent,
    next: CallState,
    step: Step,
)
    requires
        state.serves(operation),
        advances(state, event, next, step),
    ensures
        next.serves(operation),
        step.fits(operation),
{
}

/// A call begins in a state of the entry point it is begun for.
pub proof fn lemma_call_begins_for_its_operation(
    model: Vec<u8>,
    in_path: Option<Seq<char>>,
    out_path: Option<Seq<char>>,
    options: SimplifyOptions,
    state: CallState,
    step: Step,
)
    ensures
        begins_bytes(model, options, state, step) ==> state.serves(Operation::Bytes) && step.fits(
            Operation::Bytes,
        ),
        begins_file(in_path, out_path, options, state, step) ==> state.serves(Operation::File)
            && step.fits(Operation::File),
{
}

/// After every step the state waits for what the step asks for. So a call
/// is finished exactly when its step is `Done`.
pub proof fn lemma_state_awaits_step(
    state: CallState,
    event: NativeEvent,
    next: CallState,
    step: Step,
)
    requires
        advances(state, event, next, step),
    ensures
        next.awaits(step),
        next == CallState::Finished <==> step is Done,
{
}

/// Every step brings a call nearer to its end: a call is over after at
/// most four native operations.
pub proof fn lemma_advance_makes_progress(
    state: CallState,
    event: NativeEvent,
    next: CallState,
    step: Step,
)
    requires
        advances(state, event, next, step),
    ensures
        state != CallState::Finished ==> next.remaining() < state.remaining(),
        next.remaining() <= 3,
{
}

/// Whether a call that is told `events` one after the other goes through
/// `states` and `steps`, the first of each being what it began with.
pub open spec fn follows(
    states: Seq<CallState>,
    steps: Seq<Step>,
    events: Seq<NativeEvent>,
) -> bool {
    &&& states.len() == events.len() + 1
    &&& steps.len() == events.len() + 1
    &&& states[0].awaits(steps[0])
    &&& forall|i: int|
        0 <= i < events.len() ==> advances(states[i], #[trigger] events[i], states[i + 1], steps[i + 1])
}

/// Once a call has asked for the release of the output buffer, it asks
/// for no native operation again: over a whole call the buffer is released
/// at most once, and nothing is read from it afterwards.
pub proof fn lemma_nothing_follows_the_release(
    states: Seq<CallState>,
    steps: Seq<Step>,
    events: Seq<NativeEvent>,
    i: int,
    j: int,
)
    requires
        follows(states, steps, events),
        0 <= i < j < steps.len(),
        steps[i] == Step::Call(NativeCall::FreeBuffer),
    ensures
        steps[j] is Done,
        states[j] == CallState::Finished,
    decreases j - i,
{
    assert(states[i] is Releasing) by {
        if i > 0 {
            assert(advances(states[i - 1], events[i - 1], states[i], steps[i]));
        }
    }
    if j == i + 1 {
        assert(advances(states[i], events[i], states[j], steps[j]));
    } else {
        lemma_nothing_follows_the_release(states, steps, events, i, j - 1);
        assert(advances(states[j - 1], events[j - 1], states[j], steps[j]));
    }
}

/// A call that is over stays over: after a `Done` every later step is a
/// `Done` too.
pub proof fn lemma_nothing_follows_the_end(
    states: Seq<CallState>,
    steps: Seq<Step>,
    events: Seq<NativeEvent>,
    i: int,
    j: int,
)
    requires
        follows(states, steps, events),
        0 <= i <= j < steps.len(),
        steps[i] is Done,
    ensures
        steps[j] is Done,
        states[j] == CallState::Finished,
    decreases j - i,
{
    if j == i {
        if i > 0 {
            assert(advances(states[i - 1], events[i - 1], states[i], steps[i]));
        }
    } else {
        lemma_nothing_follows_the_end(states, steps, events, i, j - 1);
        assert(advances(states[j - 1], events[j - 1], states[j], steps[j]));
    }
}

/// A call asks for at most four native operations: whatever it is told,
/// its fifth step, if it gets that far, is a `Done`.
pub proof fn lemma_call_ends_within_four_operations(
    states: Seq<CallState>,
    steps: Seq<Step>,
    events: Seq<NativeEvent>,
    k: int,
)
    requires
        follows(states, steps, events),
        0 <= k < steps.len(),
    ensures
        states[k] == CallState::Finished || states[k].remaining() + k <= 4,
        k >= 4 ==> steps[k] is Done,
    decreases k,
{
    if k > 0 {
        lemma_call_ends_within_four_operations(states, steps, events, k - 1);
        assert(advances(states[k - 1], events[k - 1], states[k], steps[k]));
    }
}

} // verus!
