//! Status codes carried by replies, and the error type of a call.

use vstd::prelude::*;

verus! {

/// The call succeeded; the body holds the result.
pub const SUCCESS: i32 = 0;

/// The controller gave up on the operation before it finished.
pub const TIMEOUT: i32 = 100;

/// The controller refused the request as malformed.
pub const BAD_REQUEST: i32 = 400;

/// The controller failed internally.
pub const INTERNAL_SERVER_ERROR: i32 = 500;

/// The controller declined to perform the operation.
pub const SERVER_REFUSED: i32 = 501;

/// A mode or state transition on the controller failed.
pub const STATE_TRANSITION_FAILED: i32 = 502;

/// The operation is still running: not a final status.
pub const INVALID: i32 = -1;

/// Why a call did not produce a result.
#[derive(Debug, Clone, PartialEq, Eq)]
pub enum RpcError {
    /// The request could not be built or published, or the controller answered
    /// with the bad-request status.
    BadRequest(String),
    /// No final reply arrived before the deadline; carries the timeout that was used.
    Timeout { timeout_ms: u64 },
    /// The controller reported that the operation timed out on its side.
    RemoteTimeout(String),
    /// The controller reported an internal failure.
    InternalServerError(String),
    /// The controller refused the operation.
    ServerRefused(String),
    /// The controller could not complete a state transition.
    StateTransitionFailed(String),
    /// Any other failure status, with the status kept as it came.
    RequestFailed { status: i32, message: String },
    /// The status was success but the body could not be decoded.
    Malformed { status: i32, message: String },
    /// Reading from the response stream failed.
    ReceiveFailed(String),
    /// The transport could not be set up, or no subscriber was discovered in time.
    InitializationFailed(String),
}

impl RpcError {
    /// The error that a terminal status with the given message stands for.
    pub open spec fn from_status_spec(status: i32, message: String) -> RpcError {
        if status == TIMEOUT {
            RpcError::RemoteTimeout(message)
        } else if status == BAD_REQUEST {
            RpcError::BadRequest(message)
        } else if status == INTERNAL_SERVER_ERROR {
            RpcError::InternalServerError(message)
        } else if status == SERVER_REFUSED {
            RpcError::ServerRefused(message)
        } else if status == STATE_TRANSITION_FAILED {
            RpcError::StateTransitionFailed(message)
        } else {
            RpcError::RequestFailed { status, message }
        }
    }

    /// The status code that an error carries, where it stands for one.
    pub open spec fn status_code_spec(&self) -> Option<i32> {
        match self {
            RpcError::RemoteTimeout(_) => Some(TIMEOUT),
            RpcError::BadRequest(_) => Some(BAD_REQUEST),
            RpcError::InternalServerError(_) => Some(INTERNAL_SERVER_ERROR),
            RpcError::ServerRefused(_) => Some(SERVER_REFUSED),
            RpcError::StateTransitionFailed(_) => Some(STATE_TRANSITION_FAILED),
            RpcError::RequestFailed { status, .. } => Some(*status),
            RpcError::Malformed { status, .. } => Some(*status),
            _ => None,
        }
    }

    /// The message that an error carries, where it carries one.
    pub open spec fn message_spec(&self) -> Option<Seq<char>> {
        match self {
            RpcError::BadRequest(m) => Some(m@),
            RpcError::RemoteTimeout(m) => Some(m@),
            RpcError::InternalServerError(m) => Some(m@),
            RpcError::ServerRefused(m) => Some(m@),
            RpcError::StateTransitionFailed(m) => Some(m@),
            RpcError::RequestFailed { message, .. } => Some(message@),
            RpcError::Malformed { message, .. } => Some(message@),
            RpcError::ReceiveFailed(m) => Some(m@),
            RpcError::InitializationFailed(m) => Some(m@),
            RpcError::Timeout { .. } => None,
        }
    }

    /// Maps a terminal status and its message to a typed error. Never fails:
    /// a code outside the known ones becomes `RequestFailed` with the code kept.
    pub fn from_status_code(status: i32, message: String) -> (r: RpcError)
        ensures
            r == Self::from_status_spec(status, message),
    {
        if status == TIMEOUT {
            RpcError::RemoteTimeout(message)
        } else if status == BAD_REQUEST {
            RpcError::BadRequest(message)
        } else if status == INTERNAL_SERVER_ERROR {
            RpcError::InternalServerError(message)
        } else if status == SERVER_REFUSED {
            RpcError::ServerRefused(message)
        } else if status == STATE_TRANSITION_FAILED {
            RpcError::StateTransitionFailed(message)
        } else {
            RpcError::RequestFailed { status, message }
        }
    }

    /// The status code that this error stands for, if any.
    pub fn status_code(&self) -> (r: Option<i32>)
        ensures
            r == self.status_code_spec(),
    {
        match self {
            RpcError::RemoteTimeout(_) => Some(TIMEOUT),
            RpcError::BadRequest(_) => Some(BAD_REQUEST),
            RpcError::InternalServerError(_) => Some(INTERNAL_SERVER_ERROR),
            RpcError::ServerRefused(_) => Some(SERVER_REFUSED),
            RpcError::StateTransitionFailed(_) => Some(STATE_TRANSITION_FAILED),
            RpcError::RequestFailed { status, .. } => Some(*status),
            RpcError::Malformed { status, .. } => Some(*status),
            _ => None,
        }
    }
}

/// Every status code, known or not, maps to an error that keeps both the code
/// and the message it came with.
pub proof fn lemma_status_mapping_total(status: i32, message: String)
    ensures
        RpcError::from_status_spec(status, message).status_code_spec() == Some(status),
        RpcError::from_status_spec(status, message).message_spec() == Some(message@),
{
}

} // verus!
