use vstd::prelude::*;

verus! {

/// The part of a chat request that the server's rules read. The two
/// real-valued sampling parameters of a request (temperature and top-p)
/// travel beside it in the transport form of the request.
#[derive(Debug, Clone)]
pub struct ChatRequest {
    pub prompt: String,
    pub max_tokens: Option<usize>,
    pub stream: Option<bool>,
}

/// The answer to a chat request that is not streamed.
#[derive(Debug, Clone)]
pub struct ChatResponse {
    pub response: String,
    pub tokens_generated: usize,
    pub finish_reason: String,
}

/// One event of a streamed answer.
#[derive(Debug, Clone)]
pub struct StreamChunk {
    pub delta: String,
    pub finish_reason: Option<String>,
}

/// The answer to a health probe.
#[derive(Debug, Clone)]
pub struct HealthResponse {
    pub status: String,
    pub model_loaded: bool,
    pub uptime_seconds: u64,
}

/// The body of an error answer.
#[derive(Debug, Clone)]
pub struct ErrorResponse {
    pub error: String,
    pub code: u16,
}

} // verus!
