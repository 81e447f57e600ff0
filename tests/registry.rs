use llm_fallback::registry::{
    available_models, classify, classify_lowered, config_for_lowered, configs_for_names, finish_listing, model_names,
    ListingReply, GENERATE_URL,
};
use llm_fallback::{AdvancedAI, AiError, Family, GenerateRequest, Reply, Unavailable};
use llm_fallback::inference::finish_query;

#[test]
fn catalog_lookup_finds_registered_models() {
    let ai = AdvancedAI::new();
    let c = ai.lookup("llama3-8b").expect("registered");
    assert_eq!(c.name, "Llama 3 8B");
    assert_eq!(c.model_type, "llama");
    assert_eq!(c.api_endpoint.as_deref(), Some(GENERATE_URL));
    assert!(c.local_path.is_none());
    assert!(c.enabled);
    let big = ai.lookup("llama3-70b").expect("registered");
    assert!(!big.enabled);
    assert_eq!(ai.lookup("mixtral-8x7b").unwrap().model_type, "mistral");
    assert_eq!(ai.lookup("mixtral-8x7b").unwrap().name, "Mixtral 8x7B");
    assert_eq!(ai.lookup("mistral-7b").unwrap().name, "Mistral 7B");
}

#[test]
fn unregistered_model_gives_unavailable_without_request() {
    let ai = AdvancedAI::new();
    assert!(ai.lookup("gpt-4").is_none());
    match ai.prepare_query("hello", "gpt-4") {
        Err(AiError::ModelUnavailable { model, reason: Unavailable::NotConfigured }) => assert_eq!(model, "gpt-4"),
        _ => panic!("expected ModelUnavailable"),
    }
}

#[test]
fn registered_model_gives_request() {
    let ai = AdvancedAI::new();
    let q = ai.prepare_query("say hi", "mistral-7b").ok().expect("request");
    assert_eq!(q.model, "mistral-7b");
    assert_eq!(q.endpoint, GENERATE_URL);
    assert_eq!(q.prompt, "say hi");
}

#[test]
fn list_enabled_skips_disabled_entries() {
    let ai = AdvancedAI::new();
    let enabled = ai.list_enabled();
    assert_eq!(enabled.len(), 3);
    assert!(enabled.iter().all(|c| c.enabled));
    let names: Vec<&str> = enabled.iter().map(|c| c.name.as_str()).collect();
    assert_eq!(names, vec!["Llama 3 8B", "Mixtral 8x7B", "Mistral 7B"]);
}

#[test]
fn classification_by_keyword_priority() {
    assert_eq!(classify_lowered("llama3.2:1b"), Family::Llama);
    assert_eq!(classify_lowered("mixtral:8x7b"), Family::Mistral);
    assert_eq!(classify_lowered("mistral"), Family::Mistral);
    assert_eq!(classify_lowered("gemma:2b"), Family::Gemma);
    assert_eq!(classify_lowered("phi3"), Family::Other);
    assert_eq!(classify_lowered("llama-mistral-mix"), Family::Llama);
    assert_eq!(classify_lowered(""), Family::Other);
}

#[test]
fn classification_ignores_case() {
    assert_eq!(classify("LLaMA3:8B"), Family::Llama);
    assert_eq!(classify("MixTral"), Family::Mistral);
    assert_eq!(classify("GEMMA"), Family::Gemma);
    assert_eq!(classify("Phi3"), Family::Other);
}

#[test]
fn listed_config_names_and_tags() {
    let c = config_for_lowered("Gemma:2B", "gemma:2b");
    assert_eq!(c.name, "Gemma (Gemma:2B)");
    assert_eq!(c.model_type, "gemma");
    assert!(c.enabled);
    let o = config_for_lowered("phi3", "phi3");
    assert_eq!(o.name, "phi3");
    assert_eq!(o.model_type, "other");
}

#[test]
fn listing_adds_rag_entry_after_models() {
    let names = vec!["llama3:8b".to_string(), "Mistral:7b".to_string(), "phi3".to_string()];
    let r = configs_for_names(&names);
    assert_eq!(r.len(), 4);
    assert_eq!(r[0].name, "Llama (llama3:8b)");
    assert_eq!(r[0].model_type, "llama");
    assert_eq!(r[1].name, "Mistral (Mistral:7b)");
    assert_eq!(r[1].model_type, "mistral");
    assert_eq!(r[2].name, "phi3");
    assert_eq!(r[2].model_type, "other");
    assert_eq!(r[3].name, "RAG Search");
    assert_eq!(r[3].model_type, "rag");
    assert!(r.iter().all(|c| c.api_endpoint.as_deref() == Some(GENERATE_URL)));
}

#[test]
fn empty_listing_has_no_rag_entry() {
    assert!(configs_for_names(&Vec::new()).is_empty());
}

#[test]
fn listing_failure_yields_empty_list() {
    let failed = Err(AiError::Connection { endpoint: "http://localhost:11434/api/tags".to_string(), cause: "refused".to_string() });
    assert!(available_models(failed).is_empty());
    assert!(available_models(Err(AiError::MalformedListing)).is_empty());
    assert_eq!(available_models(Ok(vec!["gemma".to_string()])).len(), 2);
}

#[test]
fn model_names_from_listing() {
    assert!(matches!(model_names(None), Err(AiError::MalformedListing)));
    let got = model_names(Some(vec![Some("a".to_string()), None, Some("b".to_string())])).ok().unwrap();
    assert_eq!(got, vec!["a".to_string(), "b".to_string()]);
    assert!(model_names(Some(Vec::new())).ok().unwrap().is_empty());
}

fn request() -> GenerateRequest {
    GenerateRequest {
        model: "llama3".to_string(),
        endpoint: GENERATE_URL.to_string(),
        prompt: "count these  four\twords".to_string(),
    }
}

#[test]
fn answered_reply_gives_response() {
    let r = finish_query(&request(), Reply::Answered(Some("hi".to_string())), 42).ok().unwrap();
    assert_eq!(r.text, "hi");
    assert_eq!(r.tokens_used, 4);
    assert_eq!(r.processing_time_ms, 42);
    assert_eq!(r.confidence_percent, 85);
}

#[test]
fn missing_response_field_is_placeholder() {
    let r = finish_query(&request(), Reply::Answered(None), 0).ok().unwrap();
    assert_eq!(r.text, "No response");
}

#[test]
fn token_estimate_counts_words() {
    let mut q = request();
    q.prompt = "  one two\nthree ".to_string();
    assert_eq!(finish_query(&q, Reply::Answered(None), 0).ok().unwrap().tokens_used, 3);
    q.prompt = "a\u{3000}b\u{a0}c\u{2028}".to_string();
    assert_eq!(finish_query(&q, Reply::Answered(None), 0).ok().unwrap().tokens_used, 3);
    q.prompt = String::new();
    assert_eq!(finish_query(&q, Reply::Answered(None), 0).ok().unwrap().tokens_used, 0);
}

#[test]
fn unreachable_reply_is_connection_error() {
    match finish_query(&request(), Reply::Unreachable("refused".to_string()), 3) {
        Err(AiError::Connection { endpoint, cause }) => {
            assert_eq!(endpoint, GENERATE_URL);
            assert_eq!(cause, "refused");
        }
        _ => panic!("expected Connection"),
    }
}

#[test]
fn rejected_reply_is_unavailable_with_status() {
    match finish_query(&request(), Reply::Rejected(404, "404 Not Found".to_string()), 3) {
        Err(AiError::ModelUnavailable { model, reason: Unavailable::Status(404, text) }) => {
            assert_eq!(model, "llama3");
            assert_eq!(text, "404 Not Found");
        }
        _ => panic!("expected ModelUnavailable"),
    }
}

#[test]
fn undecodable_body_is_its_own_error() {
    match finish_query(&request(), Reply::Undecodable("expected value".to_string()), 3) {
        Err(e @ AiError::Undecodable { .. }) => assert_eq!(e.message(), "expected value"),
        _ => panic!("expected Undecodable"),
    }
}

#[test]
fn every_catalog_tag_is_a_family() {
    let ai = AdvancedAI::new();
    for id in ["llama3-8b", "llama3-70b", "mixtral-8x7b", "mistral-7b"] {
        let tag = ai.lookup(id).unwrap().model_type.clone();
        assert!(["llama", "mistral", "gemma", "other", "rag"].contains(&tag.as_str()));
    }
}

#[test]
fn listing_replies() {
    match finish_listing(ListingReply::Unreachable("refused".to_string())) {
        Err(e @ AiError::ListingUnreachable { .. }) => assert_eq!(
            e.message(),
            "Ollama connection failed: refused. Ensure Ollama is running with 'ollama serve'"
        ),
        _ => panic!("expected ListingUnreachable"),
    }
    match finish_listing(ListingReply::Rejected(500, "500 Internal Server Error".to_string())) {
        Err(e @ AiError::ListingStatus { status: 500, .. }) => {
            assert_eq!(e.message(), "Ollama returned status: 500 Internal Server Error")
        }
        _ => panic!("expected ListingStatus"),
    }
    match finish_listing(ListingReply::Undecodable("eof".to_string())) {
        Err(e @ AiError::ListingUndecodable { .. }) => assert_eq!(e.message(), "Failed to parse Ollama response: eof"),
        _ => panic!("expected ListingUndecodable"),
    }
    assert!(matches!(finish_listing(ListingReply::Decoded(None)), Err(AiError::MalformedListing)));
    let names = finish_listing(ListingReply::Decoded(Some(vec![Some("gemma:2b".to_string()), None]))).ok().unwrap();
    assert_eq!(names, vec!["gemma:2b".to_string()]);
}
