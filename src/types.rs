use vstd::prelude::*;

use crate::errors::GatewayError;

verus! {

/// One message of a chat: who speaks and what is said.
pub struct Message {
    pub role: String,
    pub content: String,
}

/// A chat-completion request, forwarded to the upstream as it was received.
pub struct ChatReq {
    pub model: String,
    pub messages: Vec<Message>,
    pub stream: bool,
    pub max_tokens: Option<u32>,
}

/// The error body returned to a caller whose request failed.
pub struct ErrResp {
    pub error: String,
}

impl ErrResp {
    /// The error body reporting `e`.
    pub fn from_error(e: &GatewayError) -> (r: ErrResp)
        ensures
            r.error@ == e.message_spec(),
    {
        ErrResp { error: e.message() }
    }
}

} // verus!
