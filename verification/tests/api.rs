use conduit::api::{
    chat_completions_finish, chat_completions_route, chat_completions_start,
    chat_completions_start_when, chat_completions_stream, completions, list_models_finish,
    list_models_start, Answer, AppState, Body, Chat, ChatRoute, ChatStart, ListStart, Lookup,
    ModelData, ModelQuery, ModelsResponse, Reply,
};
use conduit::config::{ProviderConfig, RateLimitConfig};
use conduit::guard::Guard;
use conduit::network::{error_response, ChatMessage, InferenceRequest, InferenceResponse};
use conduit::serve::{RequestPlan, StreamPlan};

fn node(key: Option<&str>) -> ProviderConfig {
    let mut config = ProviderConfig::empty();
    config.access_key = key.map(|k| k.to_string());
    config
}

fn payload(stream: Option<bool>) -> InferenceRequest {
    InferenceRequest {
        model: "llama-3".to_string(),
        messages: vec![ChatMessage {
            role: "user".to_string(),
            content: "What is the capital of France?".to_string(),
        }],
        stream,
        access_key: Some("from the body".to_string()),
    }
}

fn bearer(key: &str) -> Option<Vec<u8>> {
    Some(format!("Bearer {}", key).into_bytes())
}

fn error(status: u16, text: &str) -> Reply {
    Reply { status, body: Body::Error(text.to_string()) }
}

fn responded(start: ChatStart) -> Reply {
    match start {
        ChatStart::Respond(reply) => reply,
        ChatStart::Lookup { .. } => panic!("went on"),
    }
}

#[test]
fn every_door_asks_for_the_key() {
    let config = node(Some("tutu"));
    let state = AppState::new((), &config);
    let mut guard = Guard::new(config);
    let denied = error(401, "Invalid or missing access key");
    for header in [None, bearer("other"), Some(b"tutu".to_vec())] {
        match list_models_start(&state, &header, ModelQuery { model: None }) {
            ListStart::Respond(reply) => assert_eq!(reply, denied),
            ListStart::Lookup(_) => panic!("went on"),
        }
        assert_eq!(completions(&state, &header), denied);
        let start = chat_completions_start(&state, &mut guard, &header, payload(None), 0);
        assert_eq!(responded(start), denied);
    }
    assert!(guard.log.is_empty());
}

#[test]
fn right_key_is_let_in() {
    let config = node(Some("tutu"));
    let state = AppState::new((), &config);
    let mut guard = Guard::new(config);
    let start = chat_completions_start(&state, &mut guard, &bearer("tutu"), payload(None), 0);
    match start {
        ChatStart::Lookup { model, chat } => {
            assert_eq!(model, "llama-3");
            assert_eq!(chat.request.access_key, Some("tutu".to_string()));
            assert_eq!(chat.request.messages, payload(None).messages);
            assert_eq!(chat.request.stream, None);
        }
        ChatStart::Respond(_) => panic!("refused"),
    }
}

#[test]
fn key_of_the_body_is_replaced_by_the_one_shown() {
    let config = node(None);
    let state = AppState::new((), &config);
    let mut guard = Guard::new(config);
    match chat_completions_start(&state, &mut guard, &None, payload(None), 0) {
        ChatStart::Lookup { chat, .. } => assert_eq!(chat.request.access_key, None),
        ChatStart::Respond(_) => panic!("refused"),
    }
}

#[test]
fn shown_key_opens_the_provider() {
    let config = node(None);
    let state = AppState::new((), &config);
    let mut guard = Guard::new(config);
    let start = chat_completions_start(&state, &mut guard, &bearer("theirs"), payload(None), 0);
    let chat = match start {
        ChatStart::Lookup { chat, .. } => chat,
        ChatStart::Respond(_) => panic!("refused"),
    };
    let request = match chat_completions_route(chat, Lookup::Found(vec!["peer".to_string()])) {
        ChatRoute::Ask { request, .. } => request,
        _ => panic!("not asked"),
    };
    let mut theirs = node(Some("theirs"));
    theirs.local_llm = Some("http://localhost/v1".to_string());
    let mut provider = Guard::new(theirs);
    assert!(matches!(
        provider.serve_request(request.clone(), 0),
        RequestPlan::Forward { .. }
    ));
    let mut stranger = Guard::new(node(Some("another")));
    match stranger.serve_request(request, 0) {
        RequestPlan::Answer(response) => {
            assert_eq!(response, error_response("Invalid or missing access key".to_string()))
        }
        RequestPlan::Forward { .. } => panic!("forwarded"),
    }
}

#[test]
fn rules_bind_at_every_door() {
    let mut config = node(Some("k"));
    config.local_llm = Some("http://localhost/v1".to_string());
    config.rate_limit = Some(RateLimitConfig { requests_per_minute: 3 });
    let state = AppState::new((), &config);
    let mut guard = Guard::new(config);
    let mut from_peer = payload(None);
    from_peer.access_key = Some("k".to_string());

    assert!(matches!(
        guard.serve_request_when(from_peer.clone(), true, 0),
        RequestPlan::Forward { .. }
    ));
    assert!(matches!(
        guard.serve_stream_when(from_peer.clone(), true, 1),
        StreamPlan::Forward { .. }
    ));
    let start = chat_completions_start_when(
        &state,
        &mut guard,
        &bearer("k"),
        payload(None),
        true,
        2,
    );
    assert!(matches!(start, ChatStart::Lookup { .. }));
    assert_eq!(guard.log, vec![0, 1, 2]);

    let text = "Provider rate limit exceeded.";
    match guard.serve_request_when(from_peer.clone(), true, 3) {
        RequestPlan::Answer(response) => {
            assert_eq!(response, error_response(text.to_string()))
        }
        RequestPlan::Forward { .. } => panic!("forwarded"),
    }
    let event = format!("data: {{\"error\": \"{}\"}}\n\n", text);
    match guard.serve_stream_when(from_peer, true, 3) {
        StreamPlan::Refuse(bytes) => assert_eq!(bytes, event.as_bytes().to_vec()),
        StreamPlan::Forward { .. } => panic!("forwarded"),
    }
    let start = chat_completions_start_when(
        &state,
        &mut guard,
        &bearer("k"),
        payload(Some(false)),
        true,
        3,
    );
    assert_eq!(responded(start), error(200, text));
    let start = chat_completions_start_when(
        &state,
        &mut guard,
        &bearer("k"),
        payload(Some(true)),
        true,
        3,
    );
    assert_eq!(responded(start), Reply { status: 200, body: Body::Event(event) });
}

#[test]
fn closed_node_refuses_its_own_clients() {
    let config = node(None);
    let state = AppState::new((), &config);
    let mut guard = Guard::new(config);
    let start =
        chat_completions_start_when(&state, &mut guard, &None, payload(None), false, 0);
    assert_eq!(responded(start), error(200, "Provider is currently outside of usage hours."));
}

#[test]
fn lists_the_providers_of_a_model() {
    let state = AppState::new((), &node(None));
    let named = ModelQuery { model: Some("llama-3".to_string()) };
    match list_models_start(&state, &None, named) {
        ListStart::Lookup(model) => assert_eq!(model, "llama-3"),
        ListStart::Respond(_) => panic!("refused"),
    }
    match list_models_start(&state, &None, ModelQuery { model: None }) {
        ListStart::Lookup(model) => assert_eq!(model, "default-model"),
        ListStart::Respond(_) => panic!("refused"),
    }
    let entry = |id: &str| ModelData {
        id: id.to_string(),
        object: "model".to_string(),
        ready: true,
    };
    let found = Lookup::Found(vec!["A".to_string(), "B".to_string()]);
    assert_eq!(
        list_models_finish("llama-3", found),
        Reply {
            status: 200,
            body: Body::Models(ModelsResponse {
                object: "list".to_string(),
                data: vec![entry("llama-3-via-A"), entry("llama-3-via-B")],
            }),
        }
    );
}

#[test]
fn list_is_empty_without_providers() {
    for lookup in [Lookup::ChannelClosed, Lookup::NoAnswer, Lookup::Found(vec![])] {
        assert_eq!(
            list_models_finish("llama-3", lookup),
            Reply {
                status: 200,
                body: Body::Models(ModelsResponse { object: "list".to_string(), data: vec![] }),
            }
        );
    }
}

fn route(stream: Option<bool>, lookup: Lookup) -> ChatRoute {
    chat_completions_route(Chat { request: payload(stream) }, lookup)
}

#[test]
fn chat_goes_to_the_first_provider() {
    let found = || Lookup::Found(vec!["A".to_string(), "B".to_string()]);
    for stream in [None, Some(false)] {
        match route(stream, found()) {
            ChatRoute::Ask { peer, request } => {
                assert_eq!(peer, "A");
                assert_eq!(request, payload(stream));
            }
            _ => panic!("not asked"),
        }
    }
    match route(Some(true), found()) {
        ChatRoute::Stream { peer, request } => {
            assert_eq!(peer, "A");
            assert_eq!(request, payload(Some(true)));
        }
        _ => panic!("not streamed"),
    }
}

#[test]
fn chat_without_providers_is_told_why() {
    let told = |lookup| match route(None, lookup) {
        ChatRoute::Respond(reply) => reply,
        _ => panic!("went on"),
    };
    assert_eq!(told(Lookup::ChannelClosed), error(200, "Network channel closed"));
    assert_eq!(told(Lookup::NoAnswer), error(200, "DHT query timed out or failed"));
    assert_eq!(
        told(Lookup::Found(vec![])),
        error(200, "No providers found for model llama-3")
    );
}

#[test]
fn chat_ends_with_what_the_network_brought() {
    let response = InferenceResponse { id: "1".to_string(), choices: vec![] };
    assert_eq!(
        chat_completions_finish(Answer::Settled(Some(response.clone()))),
        Reply { status: 200, body: Body::Inference(response) }
    );
    let failed = error(200, "Request timed out or failed");
    assert_eq!(chat_completions_finish(Answer::Settled(None)), failed);
    assert_eq!(chat_completions_finish(Answer::NoAnswer), failed);
    assert_eq!(
        chat_completions_finish(Answer::ChannelClosed),
        error(200, "Network channel closed")
    );
}

#[test]
fn stream_has_its_headers() {
    let reply = chat_completions_stream(true);
    let headers: Vec<(&str, &str)> =
        reply.headers().iter().map(|h| (h.name, h.value)).collect();
    assert_eq!(reply.body, Body::EventStream);
    assert_eq!(
        headers,
        vec![
            ("content-type", "text/event-stream"),
            ("cache-control", "no-cache"),
            ("connection", "keep-alive"),
        ]
    );
    assert_eq!(chat_completions_stream(false), error(200, "Network channel closed"));
    let json: Vec<(&str, &str)> =
        error(200, "x").headers().iter().map(|h| (h.name, h.value)).collect();
    assert_eq!(json, vec![("content-type", "application/json")]);
}

#[test]
fn old_completions_are_a_stub() {
    let state = AppState::new((), &node(Some("tutu")));
    assert_eq!(
        completions(&state, &bearer("tutu")),
        error(
            200,
            "/v1/completions is a stub and not implemented yet. Use /v1/chat/completions."
        )
    );
}
