use cognitord::config::{
    validate_config, AnthropicConfig, Config, ConfigError, DaemonConfig, DsrsConfig,
    ProcessingConfig,
};
use cognitord::process::{
    assemble_response, check_input, process_input, render_output, ProcessError, ProcessRequest,
};
use cognitord::protocol::{error_response, handle_request, interactive_step, DaemonReply, InteractiveStep};
use cognitord::text::{decimal_text, first_chars, is_blank, same_text, starts_with, trim_text};
use cognitord::tokens::estimate_token_count;

/// Joins a key prefix and body, so that no whole key stands in the source.
fn key(prefix: &str, body: &str) -> String {
    [prefix, body].concat()
}

fn sample_config(api_key: &str, base_url: &str, timeout_seconds: u64) -> Config {
    Config {
        anthropic: AnthropicConfig {
            api_key: api_key.to_string(),
            base_url: base_url.to_string(),
            model: "sonnet-3-model-20240229".to_string(),
            max_tokens: 1000,
            timeout_seconds,
        },
        daemon: DaemonConfig {
            log_level: "info".to_string(),
            timeout_seconds: 30,
            max_input_size: 1048576,
            max_retries: 3,
            retry_delay_ms: 1000,
        },
        dsrs: DsrsConfig {
            enable_context: true,
            enable_system_prompt: true,
            max_context_length: 8000,
            retry_attempts: 3,
        },
    }
}

fn processing(enable_context: bool, enable_system_prompt: bool, max_context_length: usize, max_input_size: usize) -> ProcessingConfig {
    ProcessingConfig {
        dsrs: DsrsConfig { enable_context, enable_system_prompt, max_context_length, retry_attempts: 3 },
        model: "model-3".to_string(),
        max_input_size,
    }
}

fn request(input: &str, context: Option<&str>, system_prompt: Option<&str>, request_id: Option<&str>) -> ProcessRequest {
    ProcessRequest {
        input: input.to_string(),
        context: context.map(|c| c.to_string()),
        system_prompt: system_prompt.map(|s| s.to_string()),
        request_id: request_id.map(|r| r.to_string()),
    }
}

fn is_uuid_v4_shape(s: &str) -> bool {
    let c: Vec<char> = s.chars().collect();
    c.len() == 36
        && c.iter().enumerate().all(|(i, ch)| {
            if i == 8 || i == 13 || i == 18 || i == 23 {
                *ch == '-'
            } else {
                ch.is_ascii_digit() || ('a'..='f').contains(ch)
            }
        })
        && c[14] == '4'
        && "89ab".contains(c[19])
}

#[test]
fn token_estimate_counts_bytes() {
    assert_eq!(estimate_token_count("a"), 1);
    assert_eq!(estimate_token_count("abcde"), 2);
    // "é" is two bytes, "日本" six.
    assert_eq!(estimate_token_count("é"), 1);
    assert_eq!(estimate_token_count("日本"), 2);
    assert_eq!(estimate_token_count("日本語"), 3);
}

#[test]
fn valid_config_passes() {
    assert_eq!(validate_config(&sample_config(&key("sk-", "abcdefghij0123456789"), "https://api.anthropic.com", 30)), Ok(()));
    assert_eq!(validate_config(&sample_config(&key("sk-", "ABCDEFGHIJ0123456789xyz"), "http://localhost", 1)), Ok(()));
}

#[test]
fn sample_key_is_refused_as_too_short() {
    assert_eq!(validate_config(&sample_config("sk-test-key-12345", "https://api.anthropic.com", 30)), Err(ConfigError::ApiKeyFormat));
}

#[test]
fn config_errors_each_variant() {
    assert_eq!(validate_config(&sample_config(&key("pk-", "abcdefghij0123456789"), "https://x", 30)), Err(ConfigError::ApiKeyFormat));
    assert_eq!(validate_config(&sample_config(&key("sk-", "abcdefghij012345678"), "https://x", 30)), Err(ConfigError::ApiKeyFormat));
    assert_eq!(validate_config(&sample_config(&key("sk-", "abcdefghij-123456789"), "https://x", 30)), Err(ConfigError::ApiKeyCharacters));
    // 23 bytes, but only 21 characters: the byte length passes, the characters do not.
    assert_eq!(validate_config(&sample_config(&key("sk-", "ééabcdefghijklmnop"), "https://x", 30)), Err(ConfigError::ApiKeyCharacters));
    assert_eq!(validate_config(&sample_config(&key("sk-", "abcdefghij0123456789"), "ftp://x", 30)), Err(ConfigError::BaseUrl));
    assert_eq!(validate_config(&sample_config(&key("sk-", "abcdefghij0123456789"), "https://x", 0)), Err(ConfigError::ZeroTimeout));
}

#[test]
fn config_error_messages() {
    assert_eq!(ConfigError::ApiKeyFormat.message(), "[E003] Invalid API key format: must start with 'sk-' and be at least 23 characters");
    assert_eq!(ConfigError::ApiKeyCharacters.message(), "[E003] Invalid API key format: must contain only alphanumeric characters after 'sk-'");
    assert_eq!(ConfigError::BaseUrl.message(), "Invalid base URL");
    assert_eq!(ConfigError::ZeroTimeout.message(), "Timeout must be greater than 0");
}

#[test]
fn processing_config_is_extracted() {
    let c = sample_config(&key("sk-", "abcdefghij0123456789"), "https://x", 30);
    let p = c.to_processing_config();
    assert_eq!(p.dsrs, c.dsrs);
    assert_eq!(p.model, "sonnet-3-model-20240229");
    assert_eq!(p.max_input_size, 1048576);
}

#[test]
fn output_with_context_and_system_prompt() {
    let r = request("Summarize", Some("Long article text here..."), Some("Be concise"), Some("test-123"));
    let out = render_output(&r, &processing(true, true, 4, 100));
    assert_eq!(out, "Processed: Summarize\nContext: Long\nSystem: Be concise\nModel: model-3");
    let out = render_output(&r, &processing(false, false, 4, 100));
    assert_eq!(out, "Processed: Summarize\nModel: model-3");
    let out = render_output(&r, &processing(true, false, 100, 100));
    assert_eq!(out, "Processed: Summarize\nContext: Long article text here...\nModel: model-3");
}

#[test]
fn context_is_cut_by_characters() {
    let r = request("x", Some("日本語テキスト"), None, None);
    let out = render_output(&r, &processing(true, true, 2, 100));
    assert_eq!(out, "Processed: x\nContext: 日本\nModel: model-3");
}

#[test]
fn processed_response_with_request_id() {
    let r = request("Hello, world!", None, None, Some("req-1"));
    let resp = process_input(&r, &processing(true, true, 8000, 1048576)).ok().unwrap();
    assert_eq!(resp.output, "Processed: Hello, world!\nModel: model-3");
    assert_eq!(resp.request_id, "req-1");
    // 13 bytes of input, 40 bytes of output.
    assert_eq!(resp.usage.input_tokens, 4);
    assert_eq!(resp.usage.output_tokens, 10);
    assert_eq!(resp.usage.total_tokens, 14);
    assert!(resp.timestamp.ends_with("+00:00"));
    assert!(resp.timestamp.len() >= 25);
}

#[test]
fn processed_response_gets_fresh_request_id() {
    let r = request("Hello", None, None, None);
    let a = process_input(&r, &processing(true, true, 8000, 1048576)).ok().unwrap();
    let b = process_input(&r, &processing(true, true, 8000, 1048576)).ok().unwrap();
    assert!(is_uuid_v4_shape(&a.request_id));
    assert!(is_uuid_v4_shape(&b.request_id));
    assert_ne!(a.request_id, b.request_id);
}

#[test]
fn empty_input_is_refused() {
    for input in ["", "   ", "\t\n", "\u{3000}\u{85}"] {
        let r = request(input, None, None, Some("x"));
        let e = process_input(&r, &processing(true, true, 8000, 1048576)).err().unwrap();
        assert_eq!(e, ProcessError::EmptyInput);
        assert_eq!(e.message(), "[E001] Input cannot be empty");
    }
}

#[test]
fn oversized_input_is_refused() {
    let r = request("abcdef", None, None, None);
    let e = process_input(&r, &processing(true, true, 8000, 5)).err().unwrap();
    assert_eq!(e, ProcessError::InputTooLarge { max_input_size: 5 });
    assert_eq!(e.message(), "[E002] Input exceeds maximum size of 5 bytes");
    assert_eq!(check_input("abcde", 5), Ok(()));
    // Three characters, six bytes.
    assert_eq!(check_input("日本", 5), Err(ProcessError::InputTooLarge { max_input_size: 5 }));
    assert_eq!(ProcessError::InputTooLarge { max_input_size: 1048576 }.message(), "[E002] Input exceeds maximum size of 1048576 bytes");
}

#[test]
fn assembled_usage_adds_up() {
    let resp = assemble_response("abcd", "abcdefghi".to_string(), "id".to_string(), "t".to_string(), 7);
    assert_eq!(resp.usage.input_tokens, 1);
    assert_eq!(resp.usage.output_tokens, 3);
    assert_eq!(resp.usage.total_tokens, 4);
    assert_eq!(resp.duration_ms, 7);
    assert_eq!(resp.request_id, "id");
    assert_eq!(resp.timestamp, "t");
}

#[test]
fn daemon_reply_for_refused_request() {
    let r = request("  ", None, None, Some("abc"));
    match handle_request(&r, &processing(true, true, 8000, 100)) {
        DaemonReply::Failure(e) => {
            assert_eq!(e.error.code, "INTERNAL_ERROR");
            assert_eq!(e.error.message, "[E001] Input cannot be empty");
            assert!(e.request_id.is_none());
            assert!(e.timestamp.ends_with("+00:00"));
        }
        DaemonReply::Response(_) => panic!("blank input must be refused"),
    }
    let r = request("hi", None, None, Some("abc"));
    match handle_request(&r, &processing(true, true, 8000, 100)) {
        DaemonReply::Response(resp) => assert_eq!(resp.request_id, "abc"),
        DaemonReply::Failure(_) => panic!("input must be accepted"),
    }
}

#[test]
fn error_response_fields() {
    let e = error_response("boom".to_string(), "2024-01-01T00:00:00+00:00".to_string());
    assert_eq!(e.error.code, "INTERNAL_ERROR");
    assert_eq!(e.error.message, "boom");
    assert!(e.request_id.is_none());
    assert_eq!(e.timestamp, "2024-01-01T00:00:00+00:00");
}

#[test]
fn interactive_steps() {
    assert!(matches!(interactive_step("\n", false), InteractiveStep::Skip));
    assert!(matches!(interactive_step("  exit \n", false), InteractiveStep::Quit));
    assert!(matches!(interactive_step("quit\n", false), InteractiveStep::Quit));
    assert!(matches!(interactive_step("", true), InteractiveStep::Quit));
    match interactive_step("  {\"input\": \"Hello\"}\n", false) {
        InteractiveStep::Process(t) => assert_eq!(t, "{\"input\": \"Hello\"}"),
        _ => panic!("line must be processed"),
    }
    match interactive_step("exit now", false) {
        InteractiveStep::Process(t) => assert_eq!(t, "exit now"),
        _ => panic!("line must be processed"),
    }
}

#[test]
fn text_helpers() {
    assert_eq!(trim_text("  a b \t\n"), "a b");
    assert_eq!(trim_text("\u{2003}x\u{a0}"), "x");
    assert_eq!(trim_text(" \n "), "");
    assert!(is_blank(""));
    assert!(is_blank(" \u{2028}"));
    assert!(!is_blank(" a "));
    assert!(starts_with("sk-abc", "sk-"));
    assert!(!starts_with("s", "sk-"));
    assert!(starts_with("anything", ""));
    assert!(same_text("exit", "exit"));
    assert!(!same_text("exit", "exits"));
    assert_eq!(first_chars("héllo", 2), "hé");
    assert_eq!(first_chars("hi", 10), "hi");
    assert_eq!(decimal_text(0), "0");
    assert_eq!(decimal_text(7), "7");
    assert_eq!(decimal_text(1048576), "1048576");
    assert_eq!(decimal_text(usize::MAX), usize::MAX.to_string());
}
