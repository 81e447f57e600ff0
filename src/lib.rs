//! A resilience layer in front of a local language-model inference server: a
//! registry of known models, the decisions of a single generation request, an
//! ordered fallback over candidate models, and the prompts that feed them.
//! Network I/O stays with the caller, which hands the outcomes back in.
use vstd::prelude::*;

pub mod text;
pub mod error;
pub mod registry;
pub mod inference;
pub mod fallback;
pub mod prompt;
pub mod audio;
pub mod operations;

pub use error::{AiError, AllModelsFailedError, Attempt, Unavailable};
pub use fallback::{Action, Fallback};
pub use inference::{GenerateRequest, LlamaResponse, Reply};
pub use prompt::RAGContext;
pub use registry::{AdvancedAI, Family, ListingReply, ModelConfig};
