use vstd::prelude::*;

verus! {

/// Why a chat request got no relayed response.
pub enum GatewayError {
    /// The command could not be enqueued: the queue is closed. Holds the queue's reason.
    QueueUnavailable(String),
    /// The reply channel closed before a reply arrived.
    WorkerUnreachable,
    /// The upstream could not be reached. Holds the transport's reason.
    UpstreamUnreachable(String),
    /// The upstream answered, but its body could not be read. Holds the reason.
    UpstreamBodyReadError(String),
    /// A header value derived from the upstream response is not a valid header value.
    HeaderConstructionError,
}

impl GatewayError {
    /// The human-readable message reported to the caller.
    pub open spec fn message_spec(&self) -> Seq<char> {
        match self {
            GatewayError::QueueUnavailable(d) => "Failed to send command to worker: "@ + d@,
            GatewayError::WorkerUnreachable => "Worker response channel closed"@,
            GatewayError::UpstreamUnreachable(d) => "Worker failed to handle request: Upstream request failed: "@
                + d@,
            GatewayError::UpstreamBodyReadError(
                d,
            ) => "Worker failed to handle request: Failed to read response bytes: "@ + d@,
            GatewayError::HeaderConstructionError => "Worker failed to handle request: invalid header value"@,
        }
    }

    pub fn message(&self) -> (r: String)
        ensures
            r@ == self.message_spec(),
    {
        match self {
            GatewayError::QueueUnavailable(d) => String::from_str(
                "Failed to send command to worker: ",
            ).concat(d.as_str()),
            GatewayError::WorkerUnreachable => String::from_str("Worker response channel closed"),
            GatewayError::UpstreamUnreachable(d) => String::from_str(
                "Worker failed to handle request: Upstream request failed: ",
            ).concat(d.as_str()),
            GatewayError::UpstreamBodyReadError(d) => String::from_str(
                "Worker failed to handle request: Failed to read response bytes: ",
            ).concat(d.as_str()),
            GatewayError::HeaderConstructionError => String::from_str(
                "Worker failed to handle request: invalid header value",
            ),
        }
    }

    /// The HTTP status every error is reported with: internal server error.
    pub fn status(&self) -> (r: u16)
        ensures
            r == 500,
    {
        500
    }
}

/// What the endpoint makes of the reply channel: the worker's result, or
/// `WorkerUnreachable` when the channel closed with no reply.
pub fn settle_reply<T>(reply: Option<Result<T, GatewayError>>) -> (r: Result<T, GatewayError>)
    ensures
        reply is None ==> r == Err::<T, GatewayError>(GatewayError::WorkerUnreachable),
        reply matches Some(x) ==> r == x,
{
    match reply {
        Some(x) => x,
        None => Err(GatewayError::WorkerUnreachable),
    }
}

} // verus!
