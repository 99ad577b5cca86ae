//! The error taxonomy shared by the registry and the boundary layer, and the
//! numeric status codes that cross the boundary.

use vstd::prelude::*;
use vstd::string::StringExecFns;

verus! {

/// Status code for a successful boundary call.
pub const ERR_SUCCESS: i32 = 0;

/// Status code for a boundary call issued before the runtime was initialized.
pub const ERR_NOT_INITIALIZED: i32 = 1;

/// Status code for a call to a method name with no registered handler.
pub const ERR_UNKNOWN_METHOD: i32 = 2;

/// Status code for a malformed method name or a missing required pointer.
pub const ERR_PARSE_ERROR: i32 = 3;

/// Status code for a handler-reported missing resource.
pub const ERR_NOT_FOUND: i32 = 4;

/// Status code for a handler-reported serialization failure.
pub const ERR_SERIALIZATION: i32 = 5;

/// Status code for an input payload over the size cap.
pub const ERR_TOO_LARGE: i32 = 6;

/// Status code for an internal failure (null output slot, allocation failure,
/// or a handler-reported internal error).
pub const ERR_INTERNAL: i32 = 99;

/// The closed set of failure kinds, without their context strings.
///
/// Each kind maps to exactly one status code; no code is shared by two kinds.
#[derive(Clone, Copy, Debug, PartialEq, Eq, Structural)]
pub enum ErrorKind {
    UnknownMethod,
    NotFound,
    ParseError,
    SerializationError,
    Internal,
    TooLarge,
}

/// A failure reported on the internal call path: a kind from the closed
/// taxonomy together with a human-readable context string for diagnostics.
///
/// The boundary layer discards the context string and keeps only the status
/// code derived from the kind.
#[derive(Debug, Clone)]
pub enum RpcError {
    /// Method not found in the registry.
    UnknownMethod(String),
    /// Resource not found (reported by a handler).
    NotFound(String),
    /// Failed to parse input.
    ParseError(String),
    /// Failed to serialize output.
    SerializationError(String),
    /// Internal error.
    Internal(String),
    /// Input payload over the size cap.
    TooLarge(String),
}

/// The status code that a failure of the given kind produces at the boundary.
pub open spec fn status_of(kind: ErrorKind) -> int {
    match kind {
        ErrorKind::UnknownMethod => ERR_UNKNOWN_METHOD as int,
        ErrorKind::NotFound => ERR_NOT_FOUND as int,
        ErrorKind::ParseError => ERR_PARSE_ERROR as int,
        ErrorKind::SerializationError => ERR_SERIALIZATION as int,
        ErrorKind::Internal => ERR_INTERNAL as int,
        ErrorKind::TooLarge => ERR_TOO_LARGE as int,
    }
}

impl RpcError {
    /// The kind of this error, without its context string.
    pub open spec fn kind(self) -> ErrorKind {
        match self {
            RpcError::UnknownMethod(_) => ErrorKind::UnknownMethod,
            RpcError::NotFound(_) => ErrorKind::NotFound,
            RpcError::ParseError(_) => ErrorKind::ParseError,
            RpcError::SerializationError(_) => ErrorKind::SerializationError,
            RpcError::Internal(_) => ErrorKind::Internal,
            RpcError::TooLarge(_) => ErrorKind::TooLarge,
        }
    }

    /// The context string carried by this error.
    pub open spec fn context(self) -> Seq<char> {
        match self {
            RpcError::UnknownMethod(s) => s@,
            RpcError::NotFound(s) => s@,
            RpcError::ParseError(s) => s@,
            RpcError::SerializationError(s) => s@,
            RpcError::Internal(s) => s@,
            RpcError::TooLarge(s) => s@,
        }
    }

    /// The kind of this error, as a value.
    pub fn error_kind(&self) -> (kind: ErrorKind)
        ensures
            kind == self.kind(),
    {
        match self {
            RpcError::UnknownMethod(_) => ErrorKind::UnknownMethod,
            RpcError::NotFound(_) => ErrorKind::NotFound,
            RpcError::ParseError(_) => ErrorKind::ParseError,
            RpcError::SerializationError(_) => ErrorKind::SerializationError,
            RpcError::Internal(_) => ErrorKind::Internal,
            RpcError::TooLarge(_) => ErrorKind::TooLarge,
        }
    }

    /// The text of this error's description: a label for the kind, then the
    /// context string.
    pub open spec fn describe_spec(self) -> Seq<char> {
        match self {
            RpcError::UnknownMethod(s) => "Unknown method: "@ + s@,
            RpcError::NotFound(s) => "Not found: "@ + s@,
            RpcError::ParseError(s) => "Parse error: "@ + s@,
            RpcError::SerializationError(s) => "Serialization error: "@ + s@,
            RpcError::Internal(s) => "Internal error: "@ + s@,
            RpcError::TooLarge(s) => "Input too large: "@ + s@,
        }
    }

    /// A human-readable description of this error for diagnostics.
    pub fn describe(&self) -> (s: String)
        ensures
            s@ == self.describe_spec(),
    {
        match self {
            RpcError::UnknownMethod(m) => String::from_str("Unknown method: ").concat(
                m.as_str(),
            ),
            RpcError::NotFound(m) => String::from_str("Not found: ").concat(m.as_str()),
            RpcError::ParseError(m) => String::from_str("Parse error: ").concat(m.as_str()),
            RpcError::SerializationError(m) => String::from_str("Serialization error: ").concat(
                m.as_str(),
            ),
            RpcError::Internal(m) => String::from_str("Internal error: ").concat(m.as_str()),
            RpcError::TooLarge(m) => String::from_str("Input too large: ").concat(m.as_str()),
        }
    }

    /// The status code that this error produces at the boundary.
    pub fn status_code(&self) -> (code: i32)
        ensures
            code as int == status_of(self.kind()),
    {
        match self {
            RpcError::UnknownMethod(_) => ERR_UNKNOWN_METHOD,
            RpcError::NotFound(_) => ERR_NOT_FOUND,
            RpcError::ParseError(_) => ERR_PARSE_ERROR,
            RpcError::SerializationError(_) => ERR_SERIALIZATION,
            RpcError::Internal(_) => ERR_INTERNAL,
            RpcError::TooLarge(_) => ERR_TOO_LARGE,
        }
    }
}

} // verus!
