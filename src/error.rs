//! The failures that a call reports to its caller.

use vstd::prelude::*;

verus! {

/// Why a call did not produce a result.
#[derive(Debug, PartialEq, Eq)]
pub enum BridgeError {
    /// The backend could not be started; the session stays stopped.
    ProcessSpawnFailed { reason: String },
    /// The stream closed and the backend was seen to have exited, with its
    /// exit status where the platform gives one.
    ProcessExited { status: Option<i32> },
    /// The stream closed while the backend was not seen to have exited.
    EmptyResponse,
    /// A line came back that is not a readable response.
    MalformedResponse,
    /// A response came back for another request than the one just sent.
    ResponseIdMismatch { expected: u64, found: u64 },
    /// The backend refused the handshake.
    HandshakeFailed { code: i64, message: String },
    /// The backend reported a failure of the operation.
    ToolInvocationError { code: i64, message: String },
    /// The text of a result envelope is not a JSON document.
    EnvelopeDecodeError,
    /// The response held neither a result nor an error.
    EmptyToolResponse,
}

} // verus!
