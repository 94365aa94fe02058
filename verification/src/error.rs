use vstd::prelude::*;

verus! {

/// Errors of the OpenCode SDK.
#[derive(Debug)]
pub enum OpencodeError {
    /// The client configuration cannot be used.
    InvalidConfig(String),
    /// The server answered with a non-success HTTP status.
    Http { status: u16, body: String },
    /// The request could not be sent or its answer not read.
    Network(String),
    /// A body could not be encoded or decoded as JSON.
    Json(String),
    /// A local I/O operation failed.
    Io(String),
    /// The server did not become ready, or answer, in time.
    ServerTimeout { timeout_ms: u64 },
    /// The event stream ended.
    StreamClosed,
    /// The server reported a state that ends the operation.
    State(String),
}

impl OpencodeError {
    /// Whether the server reported that the resource does not exist.
    pub fn is_not_found(&self) -> (r: bool)
        ensures
            r == (*self matches OpencodeError::Http { status, .. } && status == 404),
    {
        match self {
            OpencodeError::Http { status, .. } => *status == 404,
            _ => false,
        }
    }
}

} // verus!
