use vstd::prelude::*;
use crate::error::AiError;
use crate::fallback::{default_candidates, default_candidates_spec};
use crate::inference::{prepared, GenerateRequest};
use crate::prompt::{rag_prompt, rag_prompt_of};
use crate::audio::{audio_prompt, audio_prompt_of};
use crate::registry::AdvancedAI;

verus! {

/// The one model that answers retrieval-augmented queries.
pub const RAG_MODEL: &'static str = "llama3-8b";

/// The one model that answers audio analysis requests.
pub const AUDIO_MODEL: &'static str = "mixtral-8x7b";

impl AdvancedAI {
    /// The request that asks the retrieval model for `query` over `docs`.
    pub fn rag_request(&self, query: &str, docs: &Vec<String>) -> (r: Result<GenerateRequest, AiError>)
        requires
            self.wf(),
        ensures
            prepared(*self, rag_prompt_of(query@, docs@), RAG_MODEL@, r),
    {
        let prompt = rag_prompt(query, docs);
        self.prepare_query(prompt.as_str(), RAG_MODEL)
    }

    /// The request that asks the analysis model about a signal's statistics.
    pub fn audio_request(
        &self,
        average: &str,
        peak: &str,
        crossings: usize,
        samples: usize,
        metadata: &str,
    ) -> (r: Result<GenerateRequest, AiError>)
        requires
            self.wf(),
        ensures
            prepared(*self, audio_prompt_of(average@, peak@, crossings as nat, samples as nat, metadata@), AUDIO_MODEL@, r),
    {
        let prompt = audio_prompt(average, peak, crossings, samples, metadata);
        self.prepare_query(prompt.as_str(), AUDIO_MODEL)
    }
}

/// How a persona chat is answered.
pub enum ChatRoute {
    /// A retrieval-augmented query over these documents.
    Retrieval(Vec<String>),
    /// Fallback over these candidate models.
    Fallback(Vec<String>),
}

/// The route of a persona chat: retrieval when the caller asked for the advanced
/// model and gave documents, else fallback over the default candidates.
pub fn chat_route(use_advanced_model: Option<bool>, context_documents: Option<Vec<String>>) -> (r: ChatRoute)
    ensures
        use_advanced_model == Some(true) && context_documents is Some
            ==> r == ChatRoute::Retrieval(context_documents->Some_0),
        !(use_advanced_model == Some(true) && context_documents is Some)
            ==> (r matches ChatRoute::Fallback(c) && c@.map_values(|s: String| s@) == default_candidates_spec()),
{
    let advanced = match use_advanced_model {
        Some(b) => b,
        None => false,
    };
    match context_documents {
        Some(docs) => {
            if advanced {
                ChatRoute::Retrieval(docs)
            } else {
                ChatRoute::Fallback(default_candidates())
            }
        },
        None => ChatRoute::Fallback(default_candidates()),
    }
}

} // verus!
