use vstd::prelude::*;

verus! {

/// The command line of the runner.
#[derive(Debug, Clone)]
pub struct Config {
    /// Path to the GGUF model file.
    pub model_path: String,
    /// An initial prompt to start the conversation with.
    pub prompt: Option<String>,
    /// Number of tokens to generate per turn.
    pub max_tokens: usize,
    /// Number of layers offloaded to the GPU.
    pub n_gpu_layers: i32,
    /// Serve the HTTP API instead of chatting on the terminal.
    pub server_mode: bool,
}

} // verus!
