use llm_fallback::fallback::{candidates_for, default_candidates};
use llm_fallback::operations::{chat_route, ChatRoute};
use llm_fallback::{Action, AiError, Fallback, LlamaResponse, Unavailable};

fn answer(text: &str) -> LlamaResponse {
    LlamaResponse { text: text.to_string(), tokens_used: 1, processing_time_ms: 5, confidence_percent: 85 }
}

fn missing(model: &str) -> AiError {
    AiError::ModelUnavailable { model: model.to_string(), reason: Unavailable::Status(404, "404 Not Found".to_string()) }
}

fn names(v: &[&str]) -> Vec<String> {
    v.iter().map(|s| s.to_string()).collect()
}

#[test]
fn first_success_wins_after_failures() {
    let mut f = Fallback::new(names(&["a", "b", "c", "d"]));
    let mut asked = Vec::new();
    loop {
        match f.next_action() {
            Action::Query(m) => {
                asked.push(m.clone());
                if m == "c" {
                    f.feed(Ok(answer("from c")));
                } else {
                    f.feed(Err(missing(&m)));
                }
            }
            Action::Done | Action::Exhausted => break,
        }
    };
    assert!(matches!(f.next_action(), Action::Done));
    assert_eq!(asked, names(&["a", "b", "c"]));
    assert_eq!(f.attempts().len(), 2);
    assert_eq!(f.attempts()[0].model, "a");
    assert_eq!(f.attempts()[1].model, "b");
    assert_eq!(f.into_result().ok().expect("answer").text, "from c");
}

#[test]
fn first_candidate_success_records_nothing() {
    let mut f = Fallback::new(names(&["x", "y"]));
    assert!(matches!(f.next_action(), Action::Query(ref m) if m == "x"));
    f.feed(Ok(answer("ok")));
    assert!(matches!(f.next_action(), Action::Done));
    assert!(f.attempts().is_empty());
    assert_eq!(f.into_result().ok().unwrap().text, "ok");
}

#[test]
fn all_failing_candidates_exhaust() {
    let mut f = Fallback::new(names(&["a", "b", "c"]));
    let mut asked = 0;
    loop {
        match f.next_action() {
            Action::Query(m) => {
                asked += 1;
                f.feed(Err(missing(&m)));
            }
            Action::Done => panic!("nothing should answer"),
            Action::Exhausted => break,
        }
    }
    assert_eq!(asked, 3);
    assert!(matches!(f.next_action(), Action::Exhausted));
    let err = f.into_result().err().unwrap();
    let models: Vec<&str> = err.attempts.iter().map(|a| a.model.as_str()).collect();
    assert_eq!(models, vec!["a", "b", "c"]);
}

#[test]
fn empty_candidate_list_exhausts_at_once() {
    let mut f = Fallback::new(Vec::new());
    assert!(matches!(f.next_action(), Action::Exhausted));
    let err = f.into_result().err().unwrap();
    assert!(err.attempts.is_empty());
    assert!(err.last_error().is_empty());
}

#[test]
fn finished_fallback_ignores_more_outcomes() {
    let mut f = Fallback::new(names(&["a", "b"]));
    f.feed(Ok(answer("first")));
    f.feed(Err(missing("b")));
    assert!(matches!(f.next_action(), Action::Done));
    assert!(matches!(f.next_action(), Action::Done));
    assert!(f.attempts().is_empty());
    assert_eq!(f.into_result().ok().unwrap().text, "first");
}

#[test]
fn default_candidate_order() {
    assert_eq!(
        default_candidates(),
        names(&["llama3.2:1b", "llama3.2", "llama3:8b", "llama3", "llama3-8b", "llama2:7b", "llama2", "llama"])
    );
    assert_eq!(candidates_for(Some("phi3".to_string())), names(&["phi3"]));
    assert_eq!(candidates_for(None), default_candidates());
}

#[test]
fn exhausted_message_gives_remediation() {
    let mut f = Fallback::new(names(&["llama3"]));
    f.feed(Err(AiError::Connection { endpoint: "http://h/api/generate".to_string(), cause: "refused".to_string() }));
    let err = f.into_result().err().unwrap();
    assert_eq!(
        err.persona_message(),
        "All Llama models failed. Last error: Model 'llama3' failed: Failed to connect to Ollama at http://h/api/generate: refused. Make sure Ollama is running with 'ollama serve'. Please ensure Ollama is running and models are available."
    );
    let msg = err.message();
    assert!(msg.contains(
        "Last error: Model 'llama3' failed: Failed to connect to Ollama at http://h/api/generate: refused. Make sure Ollama is running with 'ollama serve'"
    ));
    assert!(msg.contains("2. Run: ollama serve"));
    assert!(msg.contains("3. Pull models: ollama pull llama3"));
}

#[test]
fn error_messages() {
    assert_eq!(
        missing("llama3").message(),
        "Ollama returned error status: 404 Not Found. Model 'llama3' may not be available. Try 'ollama pull llama3'"
    );
    let nc = AiError::ModelUnavailable { model: "gpt".to_string(), reason: Unavailable::NotConfigured };
    assert_eq!(nc.message(), "Model 'gpt' not configured. Available models can be checked with 'ollama list'");
    let st = AiError::ListingStatus { status: 500, text: "500 Internal Server Error".to_string() };
    assert_eq!(st.message(), "Ollama returned status: 500 Internal Server Error");
    assert_eq!(AiError::MalformedListing.message(), "Invalid Ollama response format");
}

#[test]
fn chat_route_choice() {
    let docs = names(&["d1"]);
    assert!(matches!(chat_route(Some(true), Some(docs.clone())), ChatRoute::Retrieval(ref d) if *d == docs));
    assert!(matches!(chat_route(Some(false), Some(docs.clone())), ChatRoute::Fallback(ref c) if *c == default_candidates()));
    assert!(matches!(chat_route(None, Some(docs)), ChatRoute::Fallback(_)));
    assert!(matches!(chat_route(Some(true), None), ChatRoute::Fallback(ref c) if c.len() == 8));
}
