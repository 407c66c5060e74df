use vstd::prelude::*;

use crate::config::{DsrsConfig, ProcessingConfig};
use crate::outside::{
    elapsed_since, fresh_request_id, is_utc_stamp, is_uuid_v4_text, start_timer, utc_timestamp,
    whole_millis,
};
use crate::text::{all_white, decimal, decimal_text, first_chars, is_blank};
use crate::tokens::{estimate_token_count, token_estimate, utf8_len};

verus! {

/// Request payload for processing input through the daemon.
pub struct ProcessRequest {
    /// The input text to be processed
    pub input: String,
    /// Optional context to include in processing
    pub context: Option<String>,
    /// Optional system prompt to guide processing
    pub system_prompt: Option<String>,
    /// Optional request ID for tracking (auto-generated if not provided)
    pub request_id: Option<String>,
}

/// Token usage statistics for a request.
#[derive(Debug, Clone, Copy, PartialEq, Eq, Structural)]
pub struct UsageStats {
    /// Number of tokens in the input
    pub input_tokens: u32,
    /// Number of tokens in the output
    pub output_tokens: u32,
    /// Total tokens used (input + output)
    pub total_tokens: u32,
}

/// Response payload returned after processing.
pub struct ProcessResponse {
    /// The processed output text
    pub output: String,
    /// Token usage statistics for this request
    pub usage: UsageStats,
    /// Unique identifier for this request
    pub request_id: String,
    /// ISO 8601 timestamp when response was generated
    pub timestamp: String,
    /// Processing duration in milliseconds
    pub duration_ms: u64,
}

/// Why a request was refused.
#[derive(Debug, Clone, Copy, PartialEq, Eq, Structural)]
pub enum ProcessError {
    /// The input is empty or holds only white space.
    EmptyInput,
    /// The input is longer, in bytes, than the configured maximum.
    InputTooLarge { max_input_size: usize },
}

/// The text of a processing error, as the daemon reports it.
pub open spec fn process_error_text(e: ProcessError) -> Seq<char> {
    match e {
        ProcessError::EmptyInput => "[E001] Input cannot be empty"@,
        ProcessError::InputTooLarge { max_input_size } => "[E002] Input exceeds maximum size of "@
            + decimal(max_input_size as nat) + " bytes"@,
    }
}

impl ProcessError {
    /// The text of this error.
    pub fn message(&self) -> (m: String)
        ensures
            m@ == process_error_text(*self),
    {
        match self {
            ProcessError::EmptyInput => String::from_str("[E001] Input cannot be empty"),
            ProcessError::InputTooLarge { max_input_size } => {
                let mut m = String::from_str("[E002] Input exceeds maximum size of ");
                let n = decimal_text(*max_input_size);
                m.append(n.as_str());
                m.append(" bytes");
                m
            },
        }
    }
}

/// The views of an optional text.
pub open spec fn opt_view(o: Option<String>) -> Option<Seq<char>> {
    match o {
        Some(s) => Some(s@),
        None => None,
    }
}

/// Whether a request input is accepted: it must hold something other than
/// white space, and be at most `max_input_size` bytes long.
pub open spec fn input_verdict(input: Seq<char>, max_input_size: usize) -> Result<(), ProcessError> {
    if all_white(input) {
        Err(ProcessError::EmptyInput)
    } else if utf8_len(input) > max_input_size {
        Err(ProcessError::InputTooLarge { max_input_size })
    } else {
        Ok(())
    }
}

/// The output text of a request: the input, then the context cut to
/// `max_context_length` characters (where context is enabled and given), then
/// the system prompt (where enabled and given), then the model.
pub open spec fn rendered_output(
    input: Seq<char>,
    context: Option<Seq<char>>,
    system_prompt: Option<Seq<char>>,
    dsrs: DsrsConfig,
    model: Seq<char>,
) -> Seq<char> {
    let base = "Processed: "@ + input;
    let with_context = match context {
        Some(c) if dsrs.enable_context => {
            let n = if dsrs.max_context_length < c.len() {
                dsrs.max_context_length as int
            } else {
                c.len() as int
            };
            base + "\nContext: "@ + c.take(n)
        },
        _ => base,
    };
    let with_system = match system_prompt {
        Some(p) if dsrs.enable_system_prompt => with_context + "\nSystem: "@ + p,
        _ => with_context,
    };
    with_system + "\nModel: "@ + model
}

/// The output text of `request` under `config`.
pub open spec fn request_output(request: ProcessRequest, config: ProcessingConfig) -> Seq<char> {
    rendered_output(
        request.input@,
        opt_view(request.context),
        opt_view(request.system_prompt),
        config.dsrs,
        config.model@,
    )
}

/// The usage statistics of a request whose input and output are given.
pub open spec fn usage_of(input: Seq<char>, output: Seq<char>) -> UsageStats {
    let i = token_estimate(utf8_len(input));
    let o = token_estimate(utf8_len(output));
    UsageStats { input_tokens: i as u32, output_tokens: o as u32, total_tokens: (i + o) as u32 }
}

/// The token counts of a request and its output add up without overflow.
pub open spec fn usage_fits(request: ProcessRequest, config: ProcessingConfig) -> bool {
    token_estimate(utf8_len(request.input@)) + token_estimate(
        utf8_len(request_output(request, config)),
    ) <= u32::MAX
}

/// Builds the output text of a request.
pub fn render_output(request: &ProcessRequest, config: &ProcessingConfig) -> (out: String)
    ensures
        out@ == request_output(*request, *config),
{
    let mut output = String::from_str("Processed: ");
    output.append(request.input.as_str());
    if config.dsrs.enable_context {
        match &request.context {
            Some(context) => {
                let truncated = first_chars(context.as_str(), config.dsrs.max_context_length);
                output.append("\nContext: ");
                output.append(truncated);
            },
            None => {},
        }
    }
    if config.dsrs.enable_system_prompt {
        match &request.system_prompt {
            Some(system_prompt) => {
                output.append("\nSystem: ");
                output.append(system_prompt.as_str());
            },
            None => {},
        }
    }
    output.append("\nModel: ");
    output.append(config.model.as_str());
    output
}

/// Checks a request input against the configured limits.
pub fn check_input(input: &str, max_input_size: usize) -> (r: Result<(), ProcessError>)
    ensures
        r == input_verdict(input@, max_input_size),
{
    if is_blank(input) {
        return Err(ProcessError::EmptyInput);
    }
    if input.as_bytes().len() > max_input_size {
        return Err(ProcessError::InputTooLarge { max_input_size });
    }
    Ok(())
}

/// Puts together the response to an accepted request, given its output
/// text and the request ID, timestamp and processing time that go into it.
pub fn assemble_response(
    input: &str,
    output: String,
    request_id: String,
    timestamp: String,
    duration_ms: u64,
) -> (resp: ProcessResponse)
    requires
        token_estimate(utf8_len(input@)) + token_estimate(utf8_len(output@)) <= u32::MAX,
    ensures
        resp.output@ == output@,
        resp.usage == usage_of(input@, output@),
        resp.request_id@ == request_id@,
        resp.timestamp@ == timestamp@,
        resp.duration_ms == duration_ms,
{
    let input_tokens = estimate_token_count(input);
    let output_tokens = estimate_token_count(output.as_str());
    ProcessResponse {
        output,
        usage: UsageStats { input_tokens, output_tokens, total_tokens: input_tokens + output_tokens },
        request_id,
        timestamp,
        duration_ms,
    }
}

/// Processes a request: checks its input, then answers it with the rendered
/// output, token usage, its own request ID (or a fresh random one), the time
/// and the processing duration.
pub fn process_input(request: &ProcessRequest, config: &ProcessingConfig) -> (r: Result<
    ProcessResponse,
    ProcessError,
>)
    requires
        input_verdict(request.input@, config.max_input_size) is Ok ==> usage_fits(
            *request,
            *config,
        ),
    ensures
        r is Ok <==> input_verdict(request.input@, config.max_input_size) is Ok,
        r is Err ==> input_verdict(request.input@, config.max_input_size) == Err::<(), ProcessError>(
            r->Err_0,
        ),
        r is Ok ==> ({
            let resp = r->Ok_0;
            &&& resp.output@ == request_output(*request, *config)
            &&& resp.usage == usage_of(request.input@, resp.output@)
            &&& request.request_id is Some ==> resp.request_id@ == request.request_id->0@
            &&& request.request_id is None ==> is_uuid_v4_text(resp.request_id@)
            &&& is_utc_stamp(resp.timestamp@)
        }),
{
    match check_input(request.input.as_str(), config.max_input_size) {
        Err(e) => return Err(e),
        Ok(()) => {},
    }
    let request_id = match &request.request_id {
        Some(id) => id.clone(),
        None => fresh_request_id(),
    };
    let start_time = start_timer();
    let output = render_output(request, config);
    let elapsed = elapsed_since(&start_time);
    let millis = whole_millis(&elapsed);
    let duration_ms = millis as u64;
    let timestamp = utc_timestamp();
    Ok(assemble_response(request.input.as_str(), output, request_id, timestamp, duration_ms))
}

/// Total token usage is the sum of input and output usage, whenever the two
/// add up without overflow.
pub proof fn lemma_total_is_sum(input: Seq<char>, output: Seq<char>)
    requires
        token_estimate(utf8_len(input)) + token_estimate(utf8_len(output)) <= u32::MAX,
    ensures
        usage_of(input, output).total_tokens == usage_of(input, output).input_tokens + usage_of(
            input,
            output,
        ).output_tokens,
{
}

/// The output of a request starts with `Processed: ` and the input, and ends
/// with the model line; the context it quotes is at most
/// `max_context_length` characters of the request's context.
pub proof fn lemma_output_frame(
    input: Seq<char>,
    context: Option<Seq<char>>,
    system_prompt: Option<Seq<char>>,
    dsrs: DsrsConfig,
    model: Seq<char>,
)
    ensures
        ("Processed: "@ + input).is_prefix_of(
            rendered_output(input, context, system_prompt, dsrs, model),
        ),
        ("\nModel: "@ + model).is_suffix_of(
            rendered_output(input, context, system_prompt, dsrs, model),
        ),
        (!dsrs.enable_context || context is None) && (!dsrs.enable_system_prompt
            || system_prompt is None) ==> rendered_output(input, context, system_prompt, dsrs, model)
            == "Processed: "@ + input + "\nModel: "@ + model,
{
    let base = "Processed: "@ + input;
    let out = rendered_output(input, context, system_prompt, dsrs, model);
    let with_context = match context {
        Some(c) if dsrs.enable_context => {
            let n = if dsrs.max_context_length < c.len() {
                dsrs.max_context_length as int
            } else {
                c.len() as int
            };
            base + "\nContext: "@ + c.take(n)
        },
        _ => base,
    };
    let with_system = match system_prompt {
        Some(p) if dsrs.enable_system_prompt => with_context + "\nSystem: "@ + p,
        _ => with_context,
    };
    assert(out == with_system + ("\nModel: "@ + model));
    assert(base =~= with_context.subrange(0, base.len() as int));
    assert(with_context =~= with_system.subrange(0, with_context.len() as int));
    assert(base =~= out.subrange(0, base.len() as int));
    assert(("\nModel: "@ + model) =~= out.subrange(
        out.len() - ("\nModel: "@ + model).len(),
        out.len() as int,
    ));
}

/// Number of context characters that the output quotes: the whole context,
/// or its first `max_context_length` characters if it is longer.
pub open spec fn quoted_context_len(c: Seq<char>, max_context_length: usize) -> int {
    if max_context_length < c.len() {
        max_context_length as int
    } else {
        c.len() as int
    }
}

/// What each setting contributes to the output, independently of the others:
/// an enabled and given system prompt always sits just before the model line,
/// whether or not any context is shown; an enabled and given context always
/// follows the input, cut to `max_context_length` characters; a disabled
/// part leaves the output as if the request had none; and the length of the
/// output is the sum of the parts that are shown.
pub proof fn lemma_output_sections(
    input: Seq<char>,
    context: Option<Seq<char>>,
    system_prompt: Option<Seq<char>>,
    dsrs: DsrsConfig,
    model: Seq<char>,
)
    ensures
        system_prompt is Some && dsrs.enable_system_prompt ==> ("\nSystem: "@ + system_prompt->0
            + "\nModel: "@ + model).is_suffix_of(
            rendered_output(input, context, system_prompt, dsrs, model),
        ),
        context is Some && dsrs.enable_context ==> ("Processed: "@ + input + "\nContext: "@
            + context->0.take(quoted_context_len(context->0, dsrs.max_context_length))).is_prefix_of(
            rendered_output(input, context, system_prompt, dsrs, model),
        ),
        !dsrs.enable_system_prompt ==> rendered_output(input, context, system_prompt, dsrs, model)
            == rendered_output(input, context, None, dsrs, model),
        !dsrs.enable_context ==> rendered_output(input, context, system_prompt, dsrs, model)
            == rendered_output(input, None, system_prompt, dsrs, model),
        rendered_output(input, context, system_prompt, dsrs, model).len() == 11 + input.len()
            + (if context is Some && dsrs.enable_context {
            10 + quoted_context_len(context->0, dsrs.max_context_length)
        } else {
            0
        }) + (if system_prompt is Some && dsrs.enable_system_prompt {
            9 + system_prompt->0.len()
        } else {
            0
        }) + 8 + model.len(),
{
    reveal_strlit("Processed: ");
    reveal_strlit("\nContext: ");
    reveal_strlit("\nSystem: ");
    reveal_strlit("\nModel: ");
    let out = rendered_output(input, context, system_prompt, dsrs, model);
    let head = "Processed: "@ + input;
    let shown = match context {
        Some(c) if dsrs.enable_context => head + "\nContext: "@ + c.take(
            quoted_context_len(c, dsrs.max_context_length),
        ),
        _ => head,
    };
    let tail = match system_prompt {
        Some(p) if dsrs.enable_system_prompt => "\nSystem: "@ + p + "\nModel: "@ + model,
        _ => "\nModel: "@ + model,
    };
    assert(out =~= shown + tail);
    assert(tail =~= out.subrange(out.len() - tail.len(), out.len() as int));
    assert(shown =~= out.subrange(0, shown.len() as int));
    assert(rendered_output(input, context, None, dsrs, model) =~= shown + ("\nModel: "@ + model));
    assert(rendered_output(input, None, system_prompt, dsrs, model) =~= head + tail);
}

} // verus!
