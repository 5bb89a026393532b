//! Bridge between managed callers and a native model-simplification engine.
//!
//! The crate holds everything the bridge decides: how options are marshaled
//! into the layout the native entry points expect, how native result codes
//! and diagnostics become typed errors, and in which order the native
//! operations of one simplification are issued.

pub mod error;
pub mod marshal;
pub mod options;
pub mod protocol;

pub use error::{ErrorKind, NativeResultCode, OnnxSimError};
pub use marshal::{marshal_options, NativeArgs};
pub use options::SimplifyOptions;
pub use protocol::{
    advance, begin_simplify_bytes, begin_simplify_file, CallState, NativeCall, NativeEvent,
    Operation, Output, Request, Step,
};
