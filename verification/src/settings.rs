use vstd::prelude::*;
use vstd::string::*;

verus! {

/// Application settings, read from the configuration files and the
/// environment by the binary and handed to the library as plain values.
#[derive(Debug, Clone)]
pub struct Settings {
    pub server: ServerSettings,
    pub model: ModelSettings,
    pub inference: InferenceSettings,
    pub security: SecuritySettings,
}

/// Where and how long the HTTP server listens.
#[derive(Debug, Clone)]
pub struct ServerSettings {
    pub host: String,
    pub port: u16,
    pub timeout_seconds: u64,
}

/// Which model is loaded and how.
#[derive(Debug, Clone)]
pub struct ModelSettings {
    /// Path of the GGUF model file.
    pub path: String,
    pub context_size: u32,
    pub gpu_layers: i32,
}

/// Sampling parameters. The three real-valued parameters are carried as the
/// IEEE-754 single-precision bit patterns of their values.
#[derive(Debug, Clone)]
pub struct InferenceSettings {
    pub max_tokens: usize,
    pub temperature_bits: u32,
    pub top_p_bits: u32,
    pub repeat_penalty_bits: u32,
}

/// Limits that protect the server.
#[derive(Debug, Clone)]
pub struct SecuritySettings {
    pub rate_limit_per_minute: u32,
    pub max_prompt_length: usize,
    pub max_concurrent_requests: usize,
}

pub fn default_host() -> (s: String)
    ensures
        s@ == "127.0.0.1"@,
{
    String::from_str("127.0.0.1")
}

pub fn default_port() -> (p: u16)
    ensures
        p == 8080,
{
    8080
}

pub fn default_timeout() -> (t: u64)
    ensures
        t == 300,
{
    300
}

pub fn default_context_size() -> (n: u32)
    ensures
        n == 2048,
{
    2048
}

pub fn default_gpu_layers() -> (n: i32)
    ensures
        n == 0,
{
    0
}

pub fn default_max_tokens() -> (n: usize)
    ensures
        n == 256,
{
    256
}

/// Bit pattern of the single-precision value nearest to 0.7.
pub fn default_temperature() -> (b: u32)
    ensures
        b == 0x3F33_3333,
{
    0x3F33_3333
}

/// Bit pattern of the single-precision value nearest to 0.9.
pub fn default_top_p() -> (b: u32)
    ensures
        b == 0x3F66_6666,
{
    0x3F66_6666
}

/// Bit pattern of the single-precision value nearest to 1.1.
pub fn default_repeat_penalty() -> (b: u32)
    ensures
        b == 0x3F8C_CCCD,
{
    0x3F8C_CCCD
}

pub fn default_rate_limit() -> (n: u32)
    ensures
        n == 60,
{
    60
}

pub fn default_max_prompt_length() -> (n: usize)
    ensures
        n == 4096,
{
    4096
}

pub fn default_max_concurrent_requests() -> (n: usize)
    ensures
        n == 10,
{
    10
}

/// The settings used when nothing is configured.
pub open spec fn is_default_settings(s: Settings) -> bool {
    &&& s.server.host@ == "127.0.0.1"@
    &&& s.server.port == 8080
    &&& s.server.timeout_seconds == 300
    &&& s.model.path@ == "./models/model.gguf"@
    &&& s.model.context_size == 2048
    &&& s.model.gpu_layers == 0
    &&& s.inference.max_tokens == 256
    &&& s.inference.temperature_bits == 0x3F33_3333
    &&& s.inference.top_p_bits == 0x3F66_6666
    &&& s.inference.repeat_penalty_bits == 0x3F8C_CCCD
    &&& s.security.rate_limit_per_minute == 60
    &&& s.security.max_prompt_length == 4096
    &&& s.security.max_concurrent_requests == 10
}

impl Default for Settings {
    fn default() -> (s: Self)
        ensures
            is_default_settings(s),
    {
        Settings {
            server: ServerSettings {
                host: default_host(),
                port: default_port(),
                timeout_seconds: default_timeout(),
            },
            model: ModelSettings {
                path: String::from_str("./models/model.gguf"),
                context_size: default_context_size(),
                gpu_layers: default_gpu_layers(),
            },
            inference: InferenceSettings {
                max_tokens: default_max_tokens(),
                temperature_bits: default_temperature(),
                top_p_bits: default_top_p(),
                repeat_penalty_bits: default_repeat_penalty(),
            },
            security: SecuritySettings {
                rate_limit_per_minute: default_rate_limit(),
                max_prompt_length: default_max_prompt_length(),
                max_concurrent_requests: default_max_concurrent_requests(),
            },
        }
    }
}

} // verus!
