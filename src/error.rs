use vstd::prelude::*;

verus! {

/// Why a model could not be used.
#[derive(Debug)]
pub enum Unavailable {
    /// The identifier is not in the registry.
    NotConfigured,
    /// The registry entry has no endpoint.
    NoEndpoint,
    /// The server answered with a non-success HTTP status: its code, and the status
    /// as the HTTP layer displays it ("404 Not Found").
    Status(u16, String),
}

/// A failure of one request to the inference server, or of the model listing.
#[derive(Debug)]
pub enum AiError {
    /// The server could not be reached at `endpoint`.
    Connection { endpoint: String, cause: String },
    /// The server or the registry cannot serve `model`.
    ModelUnavailable { model: String, reason: Unavailable },
    /// The server answered with success, but its body could not be decoded, for this reason.
    Undecodable { cause: String },
    /// The listing API could not be reached.
    ListingUnreachable { cause: String },
    /// The listing API answered with a non-success HTTP status: its code and its
    /// displayed form.
    ListingStatus { status: u16, text: String },
    /// The listing API answered with a body that could not be decoded, for this reason.
    ListingUndecodable { cause: String },
    /// The listing API answered with a body that holds no model array.
    MalformedListing,
}

/// One failed try of the fallback: the model and what went wrong.
#[derive(Debug)]
pub struct Attempt {
    pub model: String,
    pub cause: AiError,
}

/// Every candidate model failed; the attempts in the order they were made.
#[derive(Debug)]
pub struct AllModelsFailedError {
    pub attempts: Vec<Attempt>,
}

/// The text shown for an error.
pub open spec fn message_of(e: AiError) -> Seq<char> {
    match e {
        AiError::Connection { endpoint, cause } =>
            "Failed to connect to Ollama at "@ + endpoint@ + ": "@ + cause@
                + ". Make sure Ollama is running with 'ollama serve'"@,
        AiError::ModelUnavailable { model, reason } => match reason {
            Unavailable::Status(_, text) =>
                "Ollama returned error status: "@ + text@ + ". Model '"@ + model@
                    + "' may not be available. Try 'ollama pull "@ + model@ + "'"@,
            _ =>
                "Model '"@ + model@ + "' not configured. Available models can be checked with 'ollama list'"@,
        },
        AiError::Undecodable { cause } => cause@,
        AiError::ListingUnreachable { cause } =>
            "Ollama connection failed: "@ + cause@ + ". Ensure Ollama is running with 'ollama serve'"@,
        AiError::ListingStatus { text, .. } => "Ollama returned status: "@ + text@,
        AiError::ListingUndecodable { cause } => "Failed to parse Ollama response: "@ + cause@,
        AiError::MalformedListing => "Invalid Ollama response format"@,
    }
}

/// The text that describes the last attempt, empty when nothing was tried.
pub open spec fn last_error_of(attempts: Seq<Attempt>) -> Seq<char> {
    if attempts.len() == 0 {
        Seq::empty()
    } else {
        "Model '"@ + attempts.last().model@ + "' failed: "@ + message_of(attempts.last().cause)
    }
}

/// The text shown when every candidate failed, with the steps that fix it.
pub open spec fn exhausted_message_of(attempts: Seq<Attempt>) -> Seq<char> {
    "❌ Ollama AI models not available. Last error: "@ + last_error_of(attempts)
        + "\n\n🔧 To fix this:\n1. Install Ollama from https://ollama.ai\n2. Run: ollama serve\n3. Pull models: ollama pull llama3\n4. Restart this application\n\n💡 The chat works in demo mode without AI models."@
}

/// The text shown when every candidate of a persona chat failed.
pub open spec fn persona_failure_of(attempts: Seq<Attempt>) -> Seq<char> {
    "All Llama models failed. Last error: "@ + last_error_of(attempts)
        + ". Please ensure Ollama is running and models are available."@
}

impl AiError {
    /// The text shown for this error.
    pub fn message(&self) -> (r: String)
        ensures
            r@ == message_of(*self),
    {
        match self {
            AiError::Connection { endpoint, cause } => {
                let mut s = String::from_str("Failed to connect to Ollama at ");
                s.append(endpoint.as_str());
                s.append(": ");
                s.append(cause.as_str());
                s.append(". Make sure Ollama is running with 'ollama serve'");
                s
            },
            AiError::ModelUnavailable { model, reason } => match reason {
                Unavailable::Status(_, text) => {
                    let mut s = String::from_str("Ollama returned error status: ");
                    s.append(text.as_str());
                    s.append(". Model '");
                    s.append(model.as_str());
                    s.append("' may not be available. Try 'ollama pull ");
                    s.append(model.as_str());
                    s.append("'");
                    s
                },
                _ => {
                    let mut s = String::from_str("Model '");
                    s.append(model.as_str());
                    s.append("' not configured. Available models can be checked with 'ollama list'");
                    s
                },
            },
            AiError::Undecodable { cause } => cause.clone(),
            AiError::ListingUnreachable { cause } => {
                let mut s = String::from_str("Ollama connection failed: ");
                s.append(cause.as_str());
                s.append(". Ensure Ollama is running with 'ollama serve'");
                s
            },
            AiError::ListingStatus { text, .. } => {
                let mut s = String::from_str("Ollama returned status: ");
                s.append(text.as_str());
                s
            },
            AiError::ListingUndecodable { cause } => {
                let mut s = String::from_str("Failed to parse Ollama response: ");
                s.append(cause.as_str());
                s
            },
            AiError::MalformedListing => String::from_str("Invalid Ollama response format"),
        }
    }
}

impl AllModelsFailedError {
    /// The text that describes the last attempt, empty when nothing was tried.
    pub fn last_error(&self) -> (r: String)
        ensures
            r@ == last_error_of(self.attempts@),
    {
        let n = self.attempts.len();
        if n == 0 {
            String::new()
        } else {
            let last = &self.attempts[n - 1];
            let mut s = String::from_str("Model '");
            s.append(last.model.as_str());
            s.append("' failed: ");
            let cause = last.cause.message();
            s.append(cause.as_str());
            s
        }
    }

    /// The text shown to the user: the last error and the steps that fix it.
    pub fn message(&self) -> (r: String)
        ensures
            r@ == exhausted_message_of(self.attempts@),
    {
        let mut s = String::from_str("❌ Ollama AI models not available. Last error: ");
        let last = self.last_error();
        s.append(last.as_str());
        s.append("\n\n🔧 To fix this:\n1. Install Ollama from https://ollama.ai\n2. Run: ollama serve\n3. Pull models: ollama pull llama3\n4. Restart this application\n\n💡 The chat works in demo mode without AI models.");
        s
    }

    /// The text shown when every candidate of a persona chat failed.
    pub fn persona_message(&self) -> (r: String)
        ensures
            r@ == persona_failure_of(self.attempts@),
    {
        let mut s = String::from_str("All Llama models failed. Last error: ");
        let last = self.last_error();
        s.append(last.as_str());
        s.append(". Please ensure Ollama is running and models are available.");
        s
    }
}

} // verus!
