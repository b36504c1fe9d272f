use conduit::network::{InferenceRequest, InferenceResponse};
use conduit::peers::parse_peer;
use conduit::router::{
    route_command, route_request, route_stream, CommandAction, NetworkCommand, Router,
};

const PEER: &str = "QmYyQSo1c1Ym7orWxLYvCrM2EmxFTANf8wXmmE7DWjhx5N";

type Command = NetworkCommand<u8, u16, u32>;
type Action = CommandAction<u8, u16, u32>;

fn request() -> InferenceRequest {
    InferenceRequest {
        model: "llama-3".to_string(),
        messages: vec![],
        stream: None,
        access_key: None,
    }
}

#[test]
fn looks_up_a_model_by_its_key() {
    let command: Command =
        NetworkCommand::GetProviders { model: "llama-3".to_string(), responder: 1 };
    match route_command(Some(command)) {
        CommandAction::Lookup { key, responder } => {
            assert_eq!(key, b"llama-3".to_vec());
            assert_eq!(responder, 1);
        }
        _ => panic!("no lookup"),
    }
}

#[test]
fn sends_to_a_peer() {
    let command: Command = NetworkCommand::SendInferenceRequest {
        peer: PEER.to_string(),
        request: request(),
        responder: 2,
    };
    match route_command(Some(command)) {
        CommandAction::Send { peer, request: sent, responder } => {
            assert_eq!(Some(peer), parse_peer(PEER));
            assert_eq!(sent, request());
            assert_eq!(responder, 2);
        }
        _ => panic!("not sent"),
    }
}

#[test]
fn opens_a_stream_to_a_peer() {
    let command: Command = NetworkCommand::OpenInferenceStream {
        peer: PEER.to_string(),
        request: request(),
        chunk_tx: 3,
    };
    match route_command(Some(command)) {
        CommandAction::OpenStream { peer, request: sent, chunk_tx } => {
            assert_eq!(Some(peer), parse_peer(PEER));
            assert_eq!(sent, request());
            assert_eq!(chunk_tx, 3);
        }
        _ => panic!("not opened"),
    }
}

#[test]
fn peer_that_is_none_gets_nothing() {
    let send: Command = NetworkCommand::SendInferenceRequest {
        peer: "nobody".to_string(),
        request: request(),
        responder: 2,
    };
    assert!(matches!(route_command(Some(send)), CommandAction::Unsendable { responder: 2 }));
    let open: Command = NetworkCommand::OpenInferenceStream {
        peer: "nobody".to_string(),
        request: request(),
        chunk_tx: 3,
    };
    assert!(matches!(route_command(Some(open)), CommandAction::Unopenable { chunk_tx: 3 }));
}

#[test]
fn routes_by_the_id_that_was_read() {
    let sent: Action = route_request(Some(vec![9]), request(), 2);
    assert!(matches!(sent, CommandAction::Send { peer, .. } if peer == vec![9]));
    let none: Action = route_request(None, request(), 2);
    assert!(matches!(none, CommandAction::Unsendable { responder: 2 }));
    let opened: Action = route_stream(Some(vec![9]), request(), 3);
    assert!(matches!(opened, CommandAction::OpenStream { peer, .. } if peer == vec![9]));
    let closed: Action = route_stream(None, request(), 3);
    assert!(matches!(closed, CommandAction::Unopenable { chunk_tx: 3 }));
}

#[test]
fn stops_when_the_api_is_gone() {
    let none: Option<Command> = None;
    assert!(matches!(route_command(none), CommandAction::Shutdown));
}

#[test]
fn each_lookup_is_answered_once() {
    let mut router: Router<&str, u16> = Router::new();
    router.query_started(1, "first");
    router.query_started(2, "second");
    let id = parse_peer(PEER).unwrap();
    assert_eq!(router.providers_found(2, &vec![id.clone()]), Some(("second", vec![PEER.to_string()])));
    assert_eq!(router.providers_found(2, &vec![id]), None);
    assert_eq!(router.providers_failed(1), Some(("first", vec![])));
    assert_eq!(router.providers_failed(1), None);
    assert_eq!(router.query_settled(3, vec![]), None);
}

#[test]
fn each_request_is_answered_once() {
    let mut router: Router<u8, &str> = Router::new();
    router.request_sent(7, "asker");
    let response = InferenceResponse { id: "1".to_string(), choices: vec![] };
    assert_eq!(router.request_settled(8, Some(response.clone())), None);
    assert_eq!(
        router.request_settled(7, Some(response.clone())),
        Some(("asker", Some(response)))
    );
    assert_eq!(router.request_settled(7, None), None);
    router.request_sent(7, "again");
    assert_eq!(router.request_settled(7, None), Some(("again", None)));
}

#[test]
fn provider_that_was_found_can_be_asked() {
    let mut router: Router<u8, u16> = Router::new();
    router.query_started(1, 1);
    let id = parse_peer(PEER).unwrap();
    let (_, found) = router.providers_found(1, &vec![id.clone()]).unwrap();
    let command: Command = NetworkCommand::SendInferenceRequest {
        peer: found[0].clone(),
        request: request(),
        responder: 2,
    };
    match route_command(Some(command)) {
        CommandAction::Send { peer, .. } => assert_eq!(peer, id),
        _ => panic!("not sent"),
    }
}
