use vstd::prelude::*;
use crate::error::{AiError, Unavailable};
use crate::registry::AdvancedAI;
use crate::text::{count_words, word_count};

verus! {

/// Seconds a generation request may take.
pub const GENERATE_TIMEOUT_SECS: u64 = 30;

/// Seconds a listing request may take.
pub const LIST_TIMEOUT_SECS: u64 = 5;

/// The most tokens a generation request asks for.
pub const MAX_TOKENS: u64 = 512;

/// The listing endpoint of the local inference server.
pub const TAGS_URL: &'static str = "http://localhost:11434/api/tags";

/// The confidence given to every answer, in hundredths: a fixed heuristic, not a
/// value the model reports.
pub const CONFIDENCE_PERCENT: u32 = 85;

/// The answer of a model, with timing and confidence.
#[derive(Debug)]
pub struct LlamaResponse {
    pub text: String,
    /// Words in the prompt: an estimate of tokens, not a tokenization.
    pub tokens_used: usize,
    pub processing_time_ms: u64,
    /// Confidence in hundredths, at most 100.
    pub confidence_percent: u32,
}

/// One generation request to send: which model, where, and with what prompt.
#[derive(Debug)]
pub struct GenerateRequest {
    pub model: String,
    pub endpoint: String,
    pub prompt: String,
}

/// What came back from one generation request.
#[derive(Debug)]
pub enum Reply {
    /// The request did not reach the server, for this reason.
    Unreachable(String),
    /// The server answered with a non-success status: its code and its displayed form.
    Rejected(u16, String),
    /// The server answered with success, but the body could not be decoded, for this reason.
    Undecodable(String),
    /// The server answered with success; the response text field, if the body had one.
    Answered(Option<String>),
}

/// The request for `prompt` to the model registered as `model`, or why there is none.
pub open spec fn prepared(ai: AdvancedAI, prompt: Seq<char>, model: Seq<char>, r: Result<GenerateRequest, AiError>) -> bool {
    match ai.config_of(model) {
        None => r matches Err(AiError::ModelUnavailable { model: m, reason: Unavailable::NotConfigured }) && m@ == model,
        Some(c) => match c.api_endpoint {
            None => r matches Err(AiError::ModelUnavailable { model: m, reason: Unavailable::NoEndpoint }) && m@ == model,
            Some(e) => r matches Ok(q) && q.model@ == model && q.endpoint@ == e@ && q.prompt@ == prompt,
        },
    }
}

/// The result that a reply gives for a request sent `elapsed_ms` milliseconds ago.
pub open spec fn answered(q: GenerateRequest, reply: Reply, elapsed_ms: u64, r: Result<LlamaResponse, AiError>) -> bool {
    match reply {
        Reply::Unreachable(cause) =>
            r matches Err(AiError::Connection { endpoint, cause: c }) && endpoint@ == q.endpoint@ && c@ == cause@,
        Reply::Rejected(code, text) =>
            r matches Err(AiError::ModelUnavailable { model, reason: Unavailable::Status(c, t) })
                && model@ == q.model@ && c == code && t@ == text@,
        Reply::Undecodable(cause) => r matches Err(AiError::Undecodable { cause: c }) && c@ == cause@,
        Reply::Answered(text) => r matches Ok(resp) && {
            &&& resp.text@ == match text { Some(t) => t@, None => "No response"@ }
            &&& resp.tokens_used == word_count(q.prompt@)
            &&& resp.processing_time_ms == elapsed_ms
            &&& resp.confidence_percent == CONFIDENCE_PERCENT
        },
    }
}

impl AdvancedAI {
    /// The request that asks the model registered as `model` for `prompt`. An
    /// identifier that is not registered, or has no endpoint, gives
    /// `ModelUnavailable` and no request, so nothing is sent.
    pub fn prepare_query(&self, prompt: &str, model: &str) -> (r: Result<GenerateRequest, AiError>)
        requires
            self.wf(),
        ensures
            prepared(*self, prompt@, model@, r),
            r is Ok <==> (self.config_of(model@) matches Some(c) && c.api_endpoint is Some),
    {
        match self.lookup(model) {
            None => Err(AiError::ModelUnavailable { model: String::from_str(model), reason: Unavailable::NotConfigured }),
            Some(config) => match &config.api_endpoint {
                None => Err(AiError::ModelUnavailable { model: String::from_str(model), reason: Unavailable::NoEndpoint }),
                Some(endpoint) => Ok(GenerateRequest {
                    model: String::from_str(model),
                    endpoint: endpoint.clone(),
                    prompt: String::from_str(prompt),
                }),
            },
        }
    }
}

/// The outcome of request `q`, given what came back and how long it took.
pub fn finish_query(q: &GenerateRequest, reply: Reply, elapsed_ms: u64) -> (r: Result<LlamaResponse, AiError>)
    ensures
        answered(*q, reply, elapsed_ms, r),
        r matches Ok(resp) ==> resp.confidence_percent <= 100,
{
    match reply {
        Reply::Unreachable(cause) => Err(AiError::Connection { endpoint: q.endpoint.clone(), cause }),
        Reply::Rejected(code, text) => Err(AiError::ModelUnavailable { model: q.model.clone(), reason: Unavailable::Status(code, text) }),
        Reply::Undecodable(cause) => Err(AiError::Undecodable { cause }),
        Reply::Answered(text) => {
            let text = match text {
                Some(t) => t,
                None => String::from_str("No response"),
            };
            Ok(LlamaResponse {
                text,
                tokens_used: count_words(q.prompt.as_str()),
                processing_time_ms: elapsed_ms,
                confidence_percent: CONFIDENCE_PERCENT,
            })
        },
    }
}

} // verus!
