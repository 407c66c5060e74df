use vstd::prelude::*;

use crate::text::{char_list, is_ascii_alnum, is_ascii_alnum_char, starts_with};
use crate::tokens::utf8_len;
use vstd::utf8::{is_ascii_chars, is_ascii_chars_encode_utf8};

verus! {

/// Settings of the Anthropic endpoint that the daemon talks to.
pub struct AnthropicConfig {
    pub api_key: String,
    pub base_url: String,
    pub model: String,
    pub max_tokens: u32,
    pub timeout_seconds: u64,
}

/// Settings of the daemon itself.
pub struct DaemonConfig {
    pub log_level: String,
    pub timeout_seconds: u64,
    /// Largest accepted request input, in bytes.
    pub max_input_size: usize,
    pub max_retries: u32,
    pub retry_delay_ms: u64,
}

/// Settings of the DSRs processing step.
#[derive(Debug, Clone, Copy, PartialEq, Eq, Structural)]
pub struct DsrsConfig {
    pub enable_context: bool,
    pub enable_system_prompt: bool,
    /// Largest number of context characters that go into the output.
    pub max_context_length: usize,
    pub retry_attempts: u32,
}

/// The configuration file's settings that the library's logic reads.
pub struct Config {
    pub anthropic: AnthropicConfig,
    pub daemon: DaemonConfig,
    pub dsrs: DsrsConfig,
}

/// Configuration subset needed for input processing.
pub struct ProcessingConfig {
    /// DSRs-specific settings
    pub dsrs: DsrsConfig,
    /// Model identifier for processing
    pub model: String,
    /// Maximum input size in bytes
    pub max_input_size: usize,
}

impl Config {
    /// Extract the processing-relevant configuration subset.
    pub fn to_processing_config(&self) -> (p: ProcessingConfig)
        ensures
            p.dsrs == self.dsrs,
            p.model@ == self.anthropic.model@,
            p.max_input_size == self.daemon.max_input_size,
    {
        ProcessingConfig {
            dsrs: DsrsConfig {
                enable_context: self.dsrs.enable_context,
                enable_system_prompt: self.dsrs.enable_system_prompt,
                max_context_length: self.dsrs.max_context_length,
                retry_attempts: self.dsrs.retry_attempts,
            },
            model: self.anthropic.model.clone(),
            max_input_size: self.daemon.max_input_size,
        }
    }
}

/// Why a configuration was refused.
#[derive(Debug, Clone, Copy, PartialEq, Eq, Structural)]
pub enum ConfigError {
    /// The API key does not start with `sk-` or is shorter than 23 bytes.
    ApiKeyFormat,
    /// The API key holds something other than ASCII letters and digits after `sk-`.
    ApiKeyCharacters,
    /// The base URL does not start with `http`.
    BaseUrl,
    /// The request timeout is zero.
    ZeroTimeout,
}

/// The text of a configuration error, as the daemon reports it.
pub open spec fn config_error_text(e: ConfigError) -> Seq<char> {
    match e {
        ConfigError::ApiKeyFormat =>
            "[E003] Invalid API key format: must start with 'sk-' and be at least 23 characters"@,
        ConfigError::ApiKeyCharacters =>
            "[E003] Invalid API key format: must contain only alphanumeric characters after 'sk-'"@,
        ConfigError::BaseUrl => "Invalid base URL"@,
        ConfigError::ZeroTimeout => "Timeout must be greater than 0"@,
    }
}

impl ConfigError {
    /// The text of this error.
    pub fn message(&self) -> (m: String)
        ensures
            m@ == config_error_text(*self),
    {
        match self {
            ConfigError::ApiKeyFormat => String::from_str(
                "[E003] Invalid API key format: must start with 'sk-' and be at least 23 characters",
            ),
            ConfigError::ApiKeyCharacters => String::from_str(
                "[E003] Invalid API key format: must contain only alphanumeric characters after 'sk-'",
            ),
            ConfigError::BaseUrl => String::from_str("Invalid base URL"),
            ConfigError::ZeroTimeout => String::from_str("Timeout must be greater than 0"),
        }
    }
}

/// Every character of `key` from index 3 on is an ASCII letter or digit.
pub open spec fn alnum_after_prefix(key: Seq<char>) -> bool {
    forall|i: int| 3 <= i < key.len() ==> is_ascii_alnum(#[trigger] key[i])
}

/// What checking a configuration gives: the first check that fails, in the
/// order API key prefix and byte length, API key characters, base URL,
/// timeout.
pub open spec fn config_verdict(
    api_key: Seq<char>,
    base_url: Seq<char>,
    timeout_seconds: u64,
) -> Result<(), ConfigError> {
    if !"sk-"@.is_prefix_of(api_key) || utf8_len(api_key) < 23 {
        Err(ConfigError::ApiKeyFormat)
    } else if !alnum_after_prefix(api_key) {
        Err(ConfigError::ApiKeyCharacters)
    } else if !"http"@.is_prefix_of(base_url) {
        Err(ConfigError::BaseUrl)
    } else if timeout_seconds == 0 {
        Err(ConfigError::ZeroTimeout)
    } else {
        Ok(())
    }
}

fn alnum_after_prefix_exec(key: &str) -> (b: bool)
    ensures
        b == alnum_after_prefix(key@),
{
    let v = char_list(key);
    let mut i: usize = 3;
    while i < v.len()
        invariant
            v@ == key@,
            3 <= i,
            forall|k: int| 3 <= k < i && k < v@.len() ==> is_ascii_alnum(#[trigger] v@[k]),
        decreases v.len() - i,
    {
        if !is_ascii_alnum_char(v[i]) {
            return false;
        }
        i = i + 1;
    }
    true
}

/// Checks the settings of a loaded configuration: the API key, the base URL
/// and the request timeout.
pub fn validate_config(config: &Config) -> (r: Result<(), ConfigError>)
    ensures
        r == config_verdict(
            config.anthropic.api_key@,
            config.anthropic.base_url@,
            config.anthropic.timeout_seconds,
        ),
{
    let api_key = config.anthropic.api_key.as_str();
    if !starts_with(api_key, "sk-") || api_key.as_bytes().len() < 23 {
        return Err(ConfigError::ApiKeyFormat);
    }
    if !alnum_after_prefix_exec(api_key) {
        return Err(ConfigError::ApiKeyCharacters);
    }
    if !starts_with(config.anthropic.base_url.as_str(), "http") {
        return Err(ConfigError::BaseUrl);
    }
    if config.anthropic.timeout_seconds == 0 {
        return Err(ConfigError::ZeroTimeout);
    }
    Ok(())
}

/// An API key passes both key checks exactly when it is `sk-` followed by at
/// least twenty ASCII letters and digits.
pub proof fn lemma_api_key_shape(api_key: Seq<char>)
    ensures
        ("sk-"@.is_prefix_of(api_key) && utf8_len(api_key) >= 23 && alnum_after_prefix(api_key))
            <==> ("sk-"@.is_prefix_of(api_key) && api_key.len() - 3 >= 20 && alnum_after_prefix(
            api_key,
        )),
{
    reveal_strlit("sk-");
    if "sk-"@.is_prefix_of(api_key) && alnum_after_prefix(api_key) {
        assert forall|i: int| 0 <= i < api_key.len() implies '\0' <= #[trigger] api_key[i]
            <= '\u{7f}' by {
            if i < 3 {
                assert(api_key[i] == "sk-"@[i]);
            } else {
                assert(is_ascii_alnum(api_key[i]));
            }
        }
        assert(is_ascii_chars(api_key));
        is_ascii_chars_encode_utf8(api_key);
    }
}

/// The configuration checks accept exactly the settings whose API key is
/// `sk-` followed by at least twenty ASCII letters and digits, whose base URL
/// starts with `http` and whose timeout is not zero; and each refusal names a
/// setting that really fails, after every earlier setting has passed.
pub proof fn lemma_config_acceptance(api_key: Seq<char>, base_url: Seq<char>, timeout_seconds: u64)
    ensures
        config_verdict(api_key, base_url, timeout_seconds) is Ok <==> ("sk-"@.is_prefix_of(api_key)
            && api_key.len() >= 23 && alnum_after_prefix(api_key) && "http"@.is_prefix_of(base_url)
            && timeout_seconds != 0),
        config_verdict(api_key, base_url, timeout_seconds) == Err::<(), ConfigError>(
            ConfigError::ApiKeyFormat,
        ) ==> !"sk-"@.is_prefix_of(api_key) || api_key.len() < 23 || !alnum_after_prefix(api_key),
        config_verdict(api_key, base_url, timeout_seconds) == Err::<(), ConfigError>(
            ConfigError::ApiKeyCharacters,
        ) ==> "sk-"@.is_prefix_of(api_key) && exists|i: int|
            3 <= i < api_key.len() && !is_ascii_alnum(#[trigger] api_key[i]),
        config_verdict(api_key, base_url, timeout_seconds) == Err::<(), ConfigError>(
            ConfigError::BaseUrl,
        ) ==> "sk-"@.is_prefix_of(api_key) && api_key.len() >= 23 && alnum_after_prefix(api_key)
            && !"http"@.is_prefix_of(base_url),
        config_verdict(api_key, base_url, timeout_seconds) == Err::<(), ConfigError>(
            ConfigError::ZeroTimeout,
        ) ==> "sk-"@.is_prefix_of(api_key) && api_key.len() >= 23 && alnum_after_prefix(api_key)
            && "http"@.is_prefix_of(base_url) && timeout_seconds == 0,
{
    lemma_api_key_shape(api_key);
}

} // verus!
