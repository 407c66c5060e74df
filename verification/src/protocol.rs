use vstd::prelude::*;

use crate::config::ProcessingConfig;
use crate::outside::{is_utc_stamp, is_uuid_v4_text, utc_timestamp};
use crate::process::{
    input_verdict, process_error_text, process_input, request_output, usage_fits, usage_of,
    ProcessRequest, ProcessResponse,
};
use crate::text::{same_text, trim_text, trimmed};

verus! {

/// Detailed error information.
pub struct ErrorDetails {
    /// Error code for programmatic handling
    pub code: String,
    /// Human-readable error message
    pub message: String,
}

/// Error response returned when processing fails.
pub struct ErrorResponse {
    /// Detailed error information
    pub error: ErrorDetails,
    /// Request ID if available
    pub request_id: Option<String>,
    /// ISO 8601 timestamp when error occurred
    pub timestamp: String,
}

/// The error response that the daemon sends for a failed line, given the
/// failure's text and the time.
pub fn error_response(message: String, timestamp: String) -> (e: ErrorResponse)
    ensures
        e.error.code@ == "INTERNAL_ERROR"@,
        e.error.message@ == message@,
        e.request_id is None,
        e.timestamp@ == timestamp@,
{
    ErrorResponse {
        error: ErrorDetails { code: String::from_str("INTERNAL_ERROR"), message },
        request_id: None,
        timestamp,
    }
}

/// The error response for a failed line, stamped with the current time.
pub fn internal_error(message: String) -> (e: ErrorResponse)
    ensures
        e.error.code@ == "INTERNAL_ERROR"@,
        e.error.message@ == message@,
        e.request_id is None,
        is_utc_stamp(e.timestamp@),
{
    error_response(message, utc_timestamp())
}

/// What the daemon writes back for one request line.
pub enum DaemonReply {
    /// The request was processed.
    Response(ProcessResponse),
    /// The request was refused.
    Failure(ErrorResponse),
}

/// Answers one parsed request line of the daemon protocol: the processed
/// response, or an `INTERNAL_ERROR` response that carries the refusal's text.
pub fn handle_request(request: &ProcessRequest, config: &ProcessingConfig) -> (reply: DaemonReply)
    requires
        input_verdict(request.input@, config.max_input_size) is Ok ==> usage_fits(
            *request,
            *config,
        ),
    ensures
        reply is Response <==> input_verdict(request.input@, config.max_input_size) is Ok,
        reply matches DaemonReply::Response(resp) ==> {
            &&& resp.output@ == request_output(*request, *config)
            &&& resp.usage == usage_of(request.input@, resp.output@)
            &&& request.request_id is Some ==> resp.request_id@ == request.request_id->0@
            &&& request.request_id is None ==> is_uuid_v4_text(resp.request_id@)
            &&& is_utc_stamp(resp.timestamp@)
        },
        reply matches DaemonReply::Failure(e) ==> {
            &&& e.error.code@ == "INTERNAL_ERROR"@
            &&& input_verdict(request.input@, config.max_input_size) matches Err(err)
                && e.error.message@ == process_error_text(err)
            &&& e.request_id is None
            &&& is_utc_stamp(e.timestamp@)
        },
{
    match process_input(request, config) {
        Ok(resp) => DaemonReply::Response(resp),
        Err(err) => DaemonReply::Failure(internal_error(err.message())),
    }
}

/// What the interactive mode does with one line it has read.
pub enum InteractiveStep {
    /// The line is blank: prompt again.
    Skip,
    /// The user asked to leave, or input has ended.
    Quit,
    /// Process this request text (the line, trimmed).
    Process(String),
}

/// Decides what the interactive mode does with a line: blank lines are
/// skipped, `exit` and `quit` end the session, as does the end of input
/// (which the prompt offers as Ctrl+D); anything else is processed, trimmed.
pub fn interactive_step(line: &str, end_of_input: bool) -> (step: InteractiveStep)
    ensures
        end_of_input ==> step is Quit,
        !end_of_input && trimmed(line@).len() == 0 ==> step is Skip,
        !end_of_input && trimmed(line@).len() != 0 ==> (step is Quit <==> (trimmed(line@)
            == "exit"@ || trimmed(line@) == "quit"@)),
        !end_of_input && trimmed(line@).len() != 0 && trimmed(line@) != "exit"@ && trimmed(line@)
            != "quit"@ ==> step is Process,
        step matches InteractiveStep::Process(t) ==> t@ == trimmed(line@),
{
    if end_of_input {
        return InteractiveStep::Quit;
    }
    let t = trim_text(line);
    if t.unicode_len() == 0 {
        return InteractiveStep::Skip;
    }
    if same_text(t, "exit") || same_text(t, "quit") {
        return InteractiveStep::Quit;
    }
    InteractiveStep::Process(String::from_str(t))
}

} // verus!
