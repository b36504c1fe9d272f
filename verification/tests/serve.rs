use conduit::backend::{backend_reply, Backend, BackendOutcome};
use conduit::config::{ProviderConfig, RateLimitConfig};
use conduit::guard::Guard;
use conduit::network::{error_response, ChatMessage, InferenceRequest, InferenceResponse};
use conduit::serve::{RequestPlan, StreamPlan};

fn request(content: &str) -> InferenceRequest {
    InferenceRequest {
        model: "llama-3".to_string(),
        messages: vec![ChatMessage { role: "user".to_string(), content: content.to_string() }],
        stream: Some(true),
        access_key: Some("tutu".to_string()),
    }
}

fn provider() -> ProviderConfig {
    let mut config = ProviderConfig::empty();
    config.local_llm = Some("http://127.0.0.1:11434/v1/".to_string());
    config
}

fn answered(plan: RequestPlan) -> InferenceResponse {
    match plan {
        RequestPlan::Answer(response) => response,
        RequestPlan::Forward { .. } => panic!("forwarded"),
    }
}

fn refused(plan: StreamPlan) -> String {
    match plan {
        StreamPlan::Refuse(bytes) => String::from_utf8(bytes).unwrap(),
        StreamPlan::Forward { .. } => panic!("forwarded"),
    }
}

#[test]
fn backend_address_has_one_slash() {
    let mut config = provider();
    let plain = Backend {
        url: "http://127.0.0.1:11434/v1/chat/completions".to_string(),
        authorization: None,
    };
    assert_eq!(config.backend(), Some(plain.clone()));
    config.local_llm = Some("http://127.0.0.1:11434/v1".to_string());
    assert_eq!(config.backend(), Some(plain.clone()));
    config.local_llm = Some("http://127.0.0.1:11434/v1///".to_string());
    assert_eq!(config.backend(), Some(plain));
    config.local_llm = None;
    assert_eq!(config.backend(), None);
}

#[test]
fn backend_gets_its_own_key() {
    let mut config = provider();
    config.local_llm_api_key = Some("downstream".to_string());
    config.access_key = Some("tutu".to_string());
    assert_eq!(config.backend().unwrap().authorization, Some("Bearer downstream".to_string()));
}

#[test]
fn forwards_what_passes() {
    let mut guard = Guard::new(provider());
    match guard.serve_request(request("hello"), 0) {
        RequestPlan::Forward { backend, request: sent } => {
            assert_eq!(backend.url, "http://127.0.0.1:11434/v1/chat/completions");
            assert_eq!(sent, request("hello"));
        }
        RequestPlan::Answer(_) => panic!("refused"),
    }
    match guard.serve_stream(request("hello"), 0) {
        StreamPlan::Forward { backend, request: sent } => {
            assert_eq!(backend.url, "http://127.0.0.1:11434/v1/chat/completions");
            assert_eq!(sent, request("hello"));
        }
        StreamPlan::Refuse(_) => panic!("refused"),
    }
}

#[test]
fn node_without_backend_says_so() {
    let mut guard = Guard::new(ProviderConfig::empty());
    let text = "Provider has no compute backend configured.";
    assert_eq!(answered(guard.serve_request(request("hello"), 0)), error_response(text.to_string()));
    assert_eq!(
        refused(guard.serve_stream(request("hello"), 0)),
        format!("data: {{\"error\": \"{}\"}}\n\n", text)
    );
}

#[test]
fn refusals_are_told_on_both_ways() {
    let mut config = provider();
    config.rate_limit = Some(RateLimitConfig { requests_per_minute: 1 });
    config.max_context = Some(3);
    let mut guard = Guard::new(config.clone());
    assert_eq!(
        answered(guard.serve_request_when(request("long"), true, 0)),
        error_response("Provider max context exceeded. Received 4, Max 3".to_string())
    );
    assert_eq!(
        refused(guard.serve_stream_when(request("hi"), true, 1)),
        "data: {\"error\": \"Provider rate limit exceeded.\"}\n\n"
    );
    assert_eq!(
        answered(guard.serve_request_when(request("hi"), false, 1)),
        error_response("Provider is currently outside of usage hours.".to_string())
    );
    config.access_key = Some("other".to_string());
    let mut guard = Guard::new(config);
    assert_eq!(
        refused(guard.serve_stream_when(request("hi"), true, 1)),
        "data: {\"error\": \"Invalid or missing access key\"}\n\n"
    );
}

#[test]
fn backend_outcomes_are_answered() {
    assert_eq!(
        backend_reply(BackendOutcome::Unreachable("connection refused".to_string())),
        error_response("Backend Error: connection refused".to_string())
    );
    assert_eq!(
        backend_reply(BackendOutcome::Unreadable),
        error_response("Invalid response from backend".to_string())
    );
    let response = InferenceResponse { id: "1".to_string(), choices: vec![] };
    assert_eq!(backend_reply(BackendOutcome::Answered(response.clone())), response);
}
