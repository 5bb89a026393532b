//! Native result codes and diagnostics as typed errors.

use vstd::prelude::*;
use vstd::string::*;

verus! {

// The result codes of the native enumeration, in the order in which it
// declares them. They are compared by name only.

/// Code the native entry points return on success.
pub const CODE_SUCCESS: i32 = 0;

/// Code for an argument the native side rejected.
pub const CODE_INVALID_ARGUMENT: i32 = 1;

/// Code for an input model that could not be deserialized.
pub const CODE_PARSE_FAILED: i32 = 2;

/// Code for an output model that could not be serialized.
pub const CODE_SERIALIZE_FAILED: i32 = 3;

/// Code for a simplification pass that failed.
pub const CODE_SIMPLIFICATION_FAILED: i32 = 4;

/// The five kinds of failure an operation can report.
#[derive(Debug, Clone, Copy, PartialEq, Eq, Structural)]
pub enum ErrorKind {
    InvalidArgument,
    ParseFailed,
    SerializeFailed,
    SimplificationFailed,
    Internal,
}

/// A native result code, read symbolically.
#[derive(Debug, Clone, Copy, PartialEq, Eq, Structural)]
pub enum NativeResultCode {
    Success,
    InvalidArgument,
    ParseFailed,
    SerializeFailed,
    SimplificationFailed,
    /// A code the bridge does not know; the raw value is kept.
    Unrecognized(i32),
}

/// Error of a simplification operation: a kind and a descriptive message.
#[derive(Debug, Clone, PartialEq, Eq)]
pub enum OnnxSimError {
    InvalidArgument(String),
    ParseFailed(String),
    SerializeFailed(String),
    SimplificationFailed(String),
    Internal(String),
}

/// The symbolic reading of a raw code.
pub open spec fn code_of_raw(raw: i32) -> NativeResultCode {
    if raw == CODE_SUCCESS {
        NativeResultCode::Success
    } else if raw == CODE_INVALID_ARGUMENT {
        NativeResultCode::InvalidArgument
    } else if raw == CODE_PARSE_FAILED {
        NativeResultCode::ParseFailed
    } else if raw == CODE_SERIALIZE_FAILED {
        NativeResultCode::SerializeFailed
    } else if raw == CODE_SIMPLIFICATION_FAILED {
        NativeResultCode::SimplificationFailed
    } else {
        NativeResultCode::Unrecognized(raw)
    }
}

/// The kind a failing raw code is reported as; a code that is not known
/// is an internal error.
pub open spec fn kind_of_raw(raw: i32) -> ErrorKind {
    code_of_raw(raw).spec_error_kind()
}

/// The message for a diagnostic read from the native side, where `None`
/// stands for a null diagnostic pointer.
pub open spec fn diagnostic_text(diagnostic: Option<String>) -> Seq<char> {
    match diagnostic {
        Some(text) => text@,
        None => "Unknown error"@,
    }
}

/// The text that `describe` puts before the message of each kind.
pub open spec fn kind_prefix(kind: ErrorKind) -> Seq<char> {
    match kind {
        ErrorKind::InvalidArgument => "Invalid argument: "@,
        ErrorKind::ParseFailed => "Failed to parse model protobuf: "@,
        ErrorKind::SerializeFailed => "Failed to serialize model protobuf: "@,
        ErrorKind::SimplificationFailed => "Simplification failed: "@,
        ErrorKind::Internal => "Internal error: "@,
    }
}

impl NativeResultCode {
    /// Reads a raw code as returned by a native entry point.
    pub fn from_raw(raw: i32) -> (code: Self)
        ensures
            code == code_of_raw(raw),
    {
        if raw == CODE_SUCCESS {
            NativeResultCode::Success
        } else if raw == CODE_INVALID_ARGUMENT {
            NativeResultCode::InvalidArgument
        } else if raw == CODE_PARSE_FAILED {
            NativeResultCode::ParseFailed
        } else if raw == CODE_SERIALIZE_FAILED {
            NativeResultCode::SerializeFailed
        } else if raw == CODE_SIMPLIFICATION_FAILED {
            NativeResultCode::SimplificationFailed
        } else {
            NativeResultCode::Unrecognized(raw)
        }
    }

    /// The raw value this code stands for.
    pub open spec fn raw_value(self) -> i32 {
        match self {
            NativeResultCode::Success => CODE_SUCCESS,
            NativeResultCode::InvalidArgument => CODE_INVALID_ARGUMENT,
            NativeResultCode::ParseFailed => CODE_PARSE_FAILED,
            NativeResultCode::SerializeFailed => CODE_SERIALIZE_FAILED,
            NativeResultCode::SimplificationFailed => CODE_SIMPLIFICATION_FAILED,
            NativeResultCode::Unrecognized(raw) => raw,
        }
    }

    /// The kind of error this code is reported as, where it is the code of
    /// a failed call.
    pub open spec fn spec_error_kind(self) -> ErrorKind {
        match self {
            NativeResultCode::InvalidArgument => ErrorKind::InvalidArgument,
            NativeResultCode::ParseFailed => ErrorKind::ParseFailed,
            NativeResultCode::SerializeFailed => ErrorKind::SerializeFailed,
            NativeResultCode::SimplificationFailed => ErrorKind::SimplificationFailed,
            _ => ErrorKind::Internal,
        }
    }

    #[verifier::when_used_as_spec(spec_error_kind)]
    pub fn error_kind(self) -> (kind: ErrorKind)
        ensures
            kind == self.spec_error_kind(),
    {
        match self {
            NativeResultCode::InvalidArgument => ErrorKind::InvalidArgument,
            NativeResultCode::ParseFailed => ErrorKind::ParseFailed,
            NativeResultCode::SerializeFailed => ErrorKind::SerializeFailed,
            NativeResultCode::SimplificationFailed => ErrorKind::SimplificationFailed,
            _ => ErrorKind::Internal,
        }
    }

    /// Whether this is the success code.
    pub fn is_success(&self) -> (r: bool)
        ensures
            r == (*self == NativeResultCode::Success),
    {
        match self {
            NativeResultCode::Success => true,
            _ => false,
        }
    }
}

impl OnnxSimError {
    /// The kind of this error.
    pub open spec fn spec_kind(&self) -> ErrorKind {
        match self {
            OnnxSimError::InvalidArgument(_) => ErrorKind::InvalidArgument,
            OnnxSimError::ParseFailed(_) => ErrorKind::ParseFailed,
            OnnxSimError::SerializeFailed(_) => ErrorKind::SerializeFailed,
            OnnxSimError::SimplificationFailed(_) => ErrorKind::SimplificationFailed,
            OnnxSimError::Internal(_) => ErrorKind::Internal,
        }
    }

    /// The message this error carries.
    pub open spec fn spec_message(&self) -> Seq<char> {
        match self {
            OnnxSimError::InvalidArgument(m) => m@,
            OnnxSimError::ParseFailed(m) => m@,
            OnnxSimError::SerializeFailed(m) => m@,
            OnnxSimError::SimplificationFailed(m) => m@,
            OnnxSimError::Internal(m) => m@,
        }
    }

    /// Whether this error has the given kind and message.
    pub open spec fn is(&self, kind: ErrorKind, message: Seq<char>) -> bool {
        self.spec_kind() == kind && self.spec_message() == message
    }

    /// An error of the given kind with the given message.
    pub fn new(kind: ErrorKind, message: String) -> (e: Self)
        ensures
            e.is(kind, message@),
    {
        match kind {
            ErrorKind::InvalidArgument => OnnxSimError::InvalidArgument(message),
            ErrorKind::ParseFailed => OnnxSimError::ParseFailed(message),
            ErrorKind::SerializeFailed => OnnxSimError::SerializeFailed(message),
            ErrorKind::SimplificationFailed => OnnxSimError::SimplificationFailed(message),
            ErrorKind::Internal => OnnxSimError::Internal(message),
        }
    }

    #[verifier::when_used_as_spec(spec_kind)]
    pub fn kind(&self) -> (k: ErrorKind)
        ensures
            k == self.spec_kind(),
    {
        match self {
            OnnxSimError::InvalidArgument(_) => ErrorKind::InvalidArgument,
            OnnxSimError::ParseFailed(_) => ErrorKind::ParseFailed,
            OnnxSimError::SerializeFailed(_) => ErrorKind::SerializeFailed,
            OnnxSimError::SimplificationFailed(_) => ErrorKind::SimplificationFailed,
            OnnxSimError::Internal(_) => ErrorKind::Internal,
        }
    }

    pub fn message(&self) -> (m: &String)
        ensures
            m@ == self.spec_message(),
    {
        match self {
            OnnxSimError::InvalidArgument(m) => m,
            OnnxSimError::ParseFailed(m) => m,
            OnnxSimError::SerializeFailed(m) => m,
            OnnxSimError::SimplificationFailed(m) => m,
            OnnxSimError::Internal(m) => m,
        }
    }

    /// The error as one line of text: what kind of failure it is, then the
    /// message.
    pub fn describe(&self) -> (text: String)
        ensures
            text@ == kind_prefix(self.spec_kind()) + self.spec_message(),
    {
        let prefix = match self {
            OnnxSimError::InvalidArgument(_) => "Invalid argument: ",
            OnnxSimError::ParseFailed(_) => "Failed to parse model protobuf: ",
            OnnxSimError::SerializeFailed(_) => "Failed to serialize model protobuf: ",
            OnnxSimError::SimplificationFailed(_) => "Simplification failed: ",
            OnnxSimError::Internal(_) => "Internal error: ",
        };
        String::from_str(prefix).concat(self.message().as_str())
    }
}

impl From<OnnxSimError> for String {
    /// The error as text, as `describe` gives it.
    fn from(err: OnnxSimError) -> (text: String)
        ensures
            text@ == kind_prefix(err.spec_kind()) + err.spec_message(),
    {
        err.describe()
    }
}

impl vstd::std_specs::convert::FromSpecImpl<OnnxSimError> for String {
    /// Nothing is claimed through `from_spec`: what is known of a `String`
    /// is its text, and `from` states the text itself.
    open spec fn obeys_from_spec() -> bool {
        false
    }

    open spec fn from_spec(err: OnnxSimError) -> String {
        vstd::pervasive::arbitrary()
    }
}

/// The message for a diagnostic read right after a failing native call;
/// a null diagnostic yields the fixed fallback text.
pub fn last_error_message(diagnostic: Option<String>) -> (message: String)
    ensures
        message@ == diagnostic_text(diagnostic),
{
    match diagnostic {
        Some(text) => text,
        None => String::from_str("Unknown error"),
    }
}

/// The error for a failing raw code and the diagnostic read after it.
pub fn error_from_code(raw: i32, diagnostic: Option<String>) -> (e: OnnxSimError)
    ensures
        e.is(kind_of_raw(raw), diagnostic_text(diagnostic)),
{
    OnnxSimError::new(NativeResultCode::from_raw(raw).error_kind(), last_error_message(diagnostic))
}

/// Every raw code has exactly one reading, and the reading gives the raw
/// code back.
pub proof fn lemma_code_reading_is_faithful(raw: i32)
    ensures
        code_of_raw(raw).raw_value() == raw,
        code_of_raw(raw) == NativeResultCode::Success <==> raw == CODE_SUCCESS,
{
}

/// Each of the four named failure codes has a kind of its own, no two of
/// them share one, and every other failing code is an internal error.
pub proof fn lemma_kinds_are_one_to_one(a: i32, b: i32)
    requires
        a != CODE_SUCCESS,
        b != CODE_SUCCESS,
    ensures
        kind_of_raw(a) != ErrorKind::Internal && kind_of_raw(a) == kind_of_raw(b) ==> a == b,
        kind_of_raw(a) == ErrorKind::Internal <==> code_of_raw(a) is Unrecognized,
{
}

} // verus!
