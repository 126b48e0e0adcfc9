use llm_runner_rs::api::handlers::{validation_failure, ApiError};
use llm_runner_rs::api::models::ChatRequest;
use llm_runner_rs::cli::{classify_input, CliInput};
use llm_runner_rs::engine::{prompt_slot, select_prompt, Conversation, Generation, GenerationStep};
use llm_runner_rs::error::LlmError;
use llm_runner_rs::service::{chat_response, health_response, stream_chunks, LlmService};
use llm_runner_rs::settings::{self, Settings};
use llm_runner_rs::text::count_words;

fn request(prompt: &str, max_tokens: Option<usize>, stream: Option<bool>) -> ChatRequest {
    ChatRequest { prompt: prompt.to_string(), max_tokens, stream }
}

#[test]
fn status_codes_of_every_kind() {
    assert_eq!(LlmError::ModelLoadError("m".into()).status_code(), 503);
    assert_eq!(LlmError::ConfigError("c".into()).status_code(), 503);
    assert_eq!(LlmError::InferenceError("i".into()).status_code(), 500);
    assert_eq!(LlmError::InternalError("x".into()).status_code(), 500);
    let io = std::io::Error::new(std::io::ErrorKind::Other, "disk");
    assert_eq!(LlmError::Io(io).status_code(), 500);
    assert_eq!(LlmError::Other(anyhow::Error::msg("boom")).status_code(), 500);
}

#[test]
fn messages_of_every_kind() {
    assert_eq!(LlmError::ModelLoadError("m".into()).to_message(), "Model loading failed: m");
    assert_eq!(LlmError::InferenceError("i".into()).to_message(), "Inference failed: i");
    assert_eq!(LlmError::ConfigError("c".into()).to_message(), "Configuration error: c");
    assert_eq!(LlmError::ValidationError("v".into()).to_message(), "Validation error: v");
    assert_eq!(LlmError::RateLimitExceeded.to_message(), "Rate limit exceeded");
    assert_eq!(LlmError::Timeout.to_message(), "Request timeout");
    assert_eq!(LlmError::InternalError("x".into()).to_message(), "Internal server error: x");
    let io = std::io::Error::new(std::io::ErrorKind::Other, "disk");
    assert_eq!(LlmError::Io(io).to_message(), "disk");
    assert_eq!(LlmError::Other(anyhow::Error::msg("boom")).to_message(), "boom");
}

#[test]
fn io_error_converts() {
    let e: LlmError = std::io::Error::new(std::io::ErrorKind::Other, "x").into();
    assert!(matches!(e, LlmError::Io(_)));
    let e: LlmError = anyhow::Error::msg("y").into();
    assert!(matches!(e, LlmError::Other(_)));
}

#[test]
fn error_response_carries_status_and_text() {
    let r = ApiError::from(LlmError::ValidationError("bad".into())).error_response();
    assert_eq!(r.code, 400);
    assert_eq!(r.error, "Validation error: bad");
    let r = ApiError(LlmError::RateLimitExceeded).error_response();
    assert_eq!(r.code, 429);
    assert_eq!(r.error, "Rate limit exceeded");
    let r = ApiError(LlmError::ModelLoadError("gone".into())).error_response();
    assert_eq!(r.code, 503);
    let r = ApiError(LlmError::InternalError("x".into())).error_response();
    assert_eq!(r.code, 500);
}

#[test]
fn valid_requests_pass() {
    assert!(request("hello", None, None).validate().is_ok());
    assert!(request("h", Some(1), None).validate().is_ok());
    assert!(request(&"a".repeat(4096), Some(2048), None).validate().is_ok());
    // Characters, not bytes, are counted.
    assert!(request(&"é".repeat(4096), None, None).validate().is_ok());
}

#[test]
fn empty_prompt_is_refused() {
    let e = request("", None, None).validate().unwrap_err();
    let failure = validation_failure(&e);
    match failure {
        LlmError::ValidationError(text) => {
            assert_eq!(text, "Prompt must be between 1 and 4096 characters")
        }
        _ => panic!("not a validation error"),
    }
    let answer = ApiError::from(validation_failure(&e)).error_response();
    assert_eq!(answer.code, 400);
    assert_eq!(answer.error, "Validation error: Prompt must be between 1 and 4096 characters");
}

#[test]
fn long_prompt_is_refused() {
    let e = request(&"é".repeat(4097), None, None).validate().unwrap_err();
    assert!(e.errors().contains_key("prompt"));
    assert_eq!(e.errors().len(), 1);
}

#[test]
fn token_budget_out_of_range_is_refused() {
    let e = request("hi", Some(0), None).validate().unwrap_err();
    match validation_failure(&e) {
        LlmError::ValidationError(text) => {
            assert_eq!(text, "max_tokens must be between 1 and 2048")
        }
        _ => panic!("not a validation error"),
    }
    let e = request("hi", Some(2049), None).validate().unwrap_err();
    assert!(e.errors().contains_key("max_tokens"));
}

#[test]
fn both_rules_broken_records_both() {
    let e = request("", Some(5000), None).validate().unwrap_err();
    assert_eq!(e.errors().len(), 2);
    let text = match validation_failure(&e) {
        LlmError::ValidationError(t) => t,
        _ => panic!("not a validation error"),
    };
    assert_eq!(
        text,
        "Prompt must be between 1 and 4096 characters\nmax_tokens must be between 1 and 2048"
    );
}

#[test]
fn streaming_is_opt_in() {
    assert!(!request("a", None, None).wants_stream());
    assert!(!request("a", None, Some(false)).wants_stream());
    assert!(request("a", None, Some(true)).wants_stream());
}

#[test]
fn words_are_counted() {
    assert_eq!(count_words(""), 0);
    assert_eq!(count_words("   "), 0);
    assert_eq!(count_words("one"), 1);
    assert_eq!(count_words("  one \t two\nthree  "), 3);
    assert_eq!(count_words("a\u{3000}b"), 2);
}

#[test]
fn chat_answer_echoes_prompt() {
    let r = chat_response("hello world", 256);
    assert_eq!(r.response, "Response to: hello world");
    assert_eq!(r.tokens_generated, 4);
    assert_eq!(r.finish_reason, "stop");
}

#[test]
fn chat_answer_keeps_to_budget() {
    let r = chat_response("a b c d e", 1);
    assert_eq!(r.response, "Response ");
    assert_eq!(r.tokens_generated, 1);
    let r = chat_response("a b c d e", 3);
    assert_eq!(r.response, "Response to: a ");
    assert_eq!(r.tokens_generated, 3);
    let r = chat_response("a b c d e", 0);
    assert_eq!(r.response, "");
    assert_eq!(r.tokens_generated, 0);
    let r = chat_response("a b c d e", 7);
    assert_eq!(r.response, "Response to: a b c d e");
    assert_eq!(r.tokens_generated, 7);
    assert_eq!(r.finish_reason, "stop");
}

#[test]
fn service_answer_keeps_to_request_budget() {
    let service = LlmService::new(Settings::default());
    let r = service.chat(&request("a b c d e", Some(1), None));
    assert!(r.tokens_generated <= 1);
    assert_eq!(r.response, "Response ");
    let events = service.chat_stream(&request("a b c d e", Some(2), Some(true)));
    let joined: String = events.iter().map(|e| e.delta.as_str()).collect();
    assert_eq!(joined, "Response to: ");
}

#[test]
fn stream_cuts_into_ten_character_pieces() {
    let text = "abcdefghijklmnopqrstuvwxy";
    let events = stream_chunks(text);
    assert_eq!(events.len(), 4);
    assert_eq!(events[0].delta, "abcdefghij");
    assert_eq!(events[1].delta, "klmnopqrst");
    assert_eq!(events[2].delta, "uvwxy");
    assert!(events[..3].iter().all(|e| e.finish_reason.is_none()));
    assert_eq!(events[3].delta, "");
    assert_eq!(events[3].finish_reason.as_deref(), Some("stop"));
    let joined: String = events.iter().map(|e| e.delta.as_str()).collect();
    assert_eq!(joined, text);
}

#[test]
fn stream_counts_characters_not_bytes() {
    let text = "ああああああああああい";
    let events = stream_chunks(text);
    assert_eq!(events.len(), 3);
    assert_eq!(events[0].delta, "ああああああああああ");
    assert_eq!(events[1].delta, "い");
}

#[test]
fn empty_stream_is_only_the_end() {
    let events = stream_chunks("");
    assert_eq!(events.len(), 1);
    assert_eq!(events[0].finish_reason.as_deref(), Some("stop"));
}

#[test]
fn health_is_reported() {
    let h = health_response(42);
    assert_eq!(h.status, "healthy");
    assert!(h.model_loaded);
    assert_eq!(h.uptime_seconds, 42);
}

#[test]
fn service_answers() {
    let service = LlmService::new(Settings::default());
    assert_eq!(service.get_settings().security.max_concurrent_requests, 10);
    assert_eq!(service.semaphore().available_permits(), 10);
    let h = service.health_check();
    assert_eq!(h.status, "healthy");
    assert!(h.model_loaded);
    let req = request("hi there", None, Some(true));
    let r = service.chat(&req);
    assert_eq!(r.response, "Response to: hi there");
    assert_eq!(r.tokens_generated, 4);
    let events = service.chat_stream(&req);
    let joined: String = events.iter().map(|e| e.delta.as_str()).collect();
    assert_eq!(joined, r.response);
    assert_eq!(events.len(), 4);
}

#[test]
fn default_settings_in_full() {
    let s = Settings::default();
    assert_eq!(s.server.timeout_seconds, 300);
    assert_eq!(s.model.path, "./models/model.gguf");
    assert_eq!(s.model.context_size, 2048);
    assert_eq!(s.model.gpu_layers, 0);
    assert_eq!(f32::from_bits(s.inference.temperature_bits), 0.7f32);
    assert_eq!(f32::from_bits(s.inference.top_p_bits), 0.9f32);
    assert_eq!(f32::from_bits(s.inference.repeat_penalty_bits), 1.1f32);
    assert_eq!(s.security.rate_limit_per_minute, 60);
    assert_eq!(s.security.max_prompt_length, 4096);
    assert_eq!(s.security.max_concurrent_requests, 10);
    assert_eq!(settings::default_host(), "127.0.0.1");
    assert_eq!(settings::default_port(), 8080);
}

#[test]
fn conversation_records_turns() {
    let mut c = Conversation::new();
    assert_eq!(c.len(), 0);
    c.push_user("hi");
    c.push_assistant("hello");
    let m = c.messages();
    assert_eq!(m.len(), 2);
    assert_eq!(m[0].role, "user");
    assert_eq!(m[0].content, "hi");
    assert_eq!(m[1].role, "assistant");
    assert_eq!(m[1].content, "hello");
}

#[test]
fn prompt_falls_back_to_input() {
    assert_eq!(select_prompt(Some("<t>hi</t>".to_string()), "hi"), "<t>hi</t>");
    assert_eq!(select_prompt(None, "hi"), "hi");
}

#[test]
fn only_last_prompt_token_has_logits() {
    assert_eq!(prompt_slot(0, 3), (0, false));
    assert_eq!(prompt_slot(1, 3), (1, false));
    assert_eq!(prompt_slot(2, 3), (2, true));
    assert_eq!(prompt_slot(0, 1), (0, true));
}

#[test]
fn generation_respects_budget_and_end() {
    let mut g = Generation::new(2, 7, 99);
    assert_eq!(g.next_step(), GenerationStep::Sample);
    assert!(!g.is_end(5));
    assert!(g.is_end(99));
    assert_eq!(g.accept_piece("Hel"), 7);
    g.token_done();
    assert_eq!(g.next_step(), GenerationStep::Sample);
    assert_eq!(g.accept_piece("lo"), 8);
    g.token_done();
    assert_eq!(g.next_step(), GenerationStep::Done);
    assert_eq!(g.generated_tokens(), 2);
    assert_eq!(g.position(), 9);
    assert_eq!(g.into_text(), "Hello");
}

#[test]
fn zero_budget_generates_nothing() {
    let g = Generation::new(0, 3, 1);
    assert_eq!(g.next_step(), GenerationStep::Done);
}

#[test]
fn terminal_input_is_classified() {
    assert_eq!(classify_input("exit\n"), CliInput::Quit);
    assert_eq!(classify_input("  QUIT  "), CliInput::Quit);
    assert_eq!(classify_input("ExIt"), CliInput::Quit);
    assert_eq!(classify_input("\n"), CliInput::Skip);
    assert_eq!(classify_input(""), CliInput::Skip);
    assert_eq!(classify_input("  hello there \n"), CliInput::Message("hello there".to_string()));
    assert_eq!(classify_input("exits"), CliInput::Message("exits".to_string()));
    assert_eq!(classify_input("\t a b \u{3000}"), CliInput::Message("a b".to_string()));
    assert_eq!(classify_input("qUIT"), CliInput::Quit);
    assert_eq!(classify_input("quiz"), CliInput::Message("quiz".to_string()));
}

#[test]
fn failure_lists_messages_in_field_order() {
    let mut errors = validator::ValidationErrors::new();
    errors.add(
        "top_p",
        validator::ValidationError::new("range").with_message("top_p must be between 0.0 and 1.0".into()),
    );
    errors.add(
        "prompt",
        validator::ValidationError::new("length")
            .with_message("Prompt must be between 1 and 4096 characters".into()),
    );
    match validation_failure(&errors) {
        LlmError::ValidationError(text) => assert_eq!(
            text,
            "Prompt must be between 1 and 4096 characters\ntop_p must be between 0.0 and 1.0"
        ),
        _ => panic!("not a validation error"),
    }
}
