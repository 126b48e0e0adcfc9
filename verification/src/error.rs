use vstd::prelude::*;
use vstd::std_specs::convert::FromSpecImpl;
use vstd::string::*;

verus! {

#[verifier::external_type_specification]
#[verifier::external_body]
pub struct ExIoError(std::io::Error);

#[verifier::external_type_specification]
#[verifier::external_body]
pub struct ExAnyhowError(anyhow::Error);

/// Every failure the runner reports, to the terminal or as an HTTP answer.
#[derive(Debug)]
pub enum LlmError {
    ModelLoadError(String),
    InferenceError(String),
    ConfigError(String),
    ValidationError(String),
    RateLimitExceeded,
    Timeout,
    InternalError(String),
    Io(std::io::Error),
    Other(anyhow::Error),
}

/// The result of an operation of the runner.
pub type Result<T> = std::result::Result<T, LlmError>;

/// The HTTP status by which each kind of failure is answered.
pub open spec fn spec_status_code(e: LlmError) -> u16 {
    match e {
        LlmError::ValidationError(_) => 400,
        LlmError::RateLimitExceeded => 429,
        LlmError::Timeout => 408,
        LlmError::ModelLoadError(_) => 503,
        LlmError::ConfigError(_) => 503,
        _ => 500,
    }
}

/// The text by which a failure that carries a detail is described:
/// a fixed prefix for its kind followed by the detail.
pub open spec fn spec_detail_message(e: LlmError) -> Option<Seq<char>> {
    match e {
        LlmError::ModelLoadError(s) => Some("Model loading failed: "@ + s@),
        LlmError::InferenceError(s) => Some("Inference failed: "@ + s@),
        LlmError::ConfigError(s) => Some("Configuration error: "@ + s@),
        LlmError::ValidationError(s) => Some("Validation error: "@ + s@),
        LlmError::RateLimitExceeded => Some("Rate limit exceeded"@),
        LlmError::Timeout => Some("Request timeout"@),
        LlmError::InternalError(s) => Some("Internal server error: "@ + s@),
        _ => None,
    }
}

/// The status of a failure depends on its kind alone, whatever the detail
/// it carries: an invalid request is answered 400, a refused rate 429, a
/// timeout 408, a model that could not be loaded or a bad configuration
/// 503, and any other failure 500.
pub proof fn lemma_status_by_kind(e: LlmError, code: u16)
    requires
        code == spec_status_code(e),
    ensures
        e is ValidationError ==> code == 400,
        e is RateLimitExceeded ==> code == 429,
        e is Timeout ==> code == 408,
        e is ModelLoadError ==> code == 503,
        e is ConfigError ==> code == 503,
        e is InferenceError ==> code == 500,
        e is InternalError ==> code == 500,
        e is Io ==> code == 500,
        e is Other ==> code == 500,
        forall|d: String, f: String|
            #[trigger] spec_status_code(LlmError::ModelLoadError(d)) == #[trigger] spec_status_code(
                LlmError::ConfigError(f),
            ),
{
}

impl LlmError {
    /// HTTP status code for this error.
    pub fn status_code(&self) -> (code: u16)
        ensures
            code == spec_status_code(*self),
    {
        match self {
            LlmError::ValidationError(_) => 400,
            LlmError::RateLimitExceeded => 429,
            LlmError::Timeout => 408,
            LlmError::ModelLoadError(_) | LlmError::ConfigError(_) => 503,
            _ => 500,
        }
    }

    /// The human-readable description of this error. An I/O error or a
    /// wrapped foreign error is described by its own `Display` text.
    pub fn to_message(&self) -> (msg: String)
        ensures
            spec_detail_message(*self) matches Some(m) ==> msg@ == m,
            self matches LlmError::Io(e) ==> to_string_from_display_ensures::<std::io::Error>(e, msg),
            self matches LlmError::Other(e) ==> to_string_from_display_ensures::<anyhow::Error>(e, msg),
    {
        match self {
            LlmError::ModelLoadError(s) => prefixed("Model loading failed: ", s),
            LlmError::InferenceError(s) => prefixed("Inference failed: ", s),
            LlmError::ConfigError(s) => prefixed("Configuration error: ", s),
            LlmError::ValidationError(s) => prefixed("Validation error: ", s),
            LlmError::RateLimitExceeded => String::from_str("Rate limit exceeded"),
            LlmError::Timeout => String::from_str("Request timeout"),
            LlmError::InternalError(s) => prefixed("Internal server error: ", s),
            LlmError::Io(e) => e.to_string(),
            LlmError::Other(e) => e.to_string(),
        }
    }
}

/// `prefix` followed by `detail`.
pub fn prefixed(prefix: &str, detail: &String) -> (s: String)
    ensures
        s@ == prefix@ + detail@,
{
    let mut s = String::from_str(prefix);
    s.append(detail.as_str());
    s
}

impl From<std::io::Error> for LlmError {
    fn from(e: std::io::Error) -> (r: Self) {
        LlmError::Io(e)
    }
}

impl FromSpecImpl<std::io::Error> for LlmError {
    open spec fn obeys_from_spec() -> bool {
        true
    }

    open spec fn from_spec(v: std::io::Error) -> Self {
        LlmError::Io(v)
    }
}

impl From<anyhow::Error> for LlmError {
    fn from(e: anyhow::Error) -> (r: Self) {
        LlmError::Other(e)
    }
}

impl FromSpecImpl<anyhow::Error> for LlmError {
    open spec fn obeys_from_spec() -> bool {
        true
    }

    open spec fn from_spec(v: anyhow::Error) -> Self {
        LlmError::Other(v)
    }
}

} // verus!
