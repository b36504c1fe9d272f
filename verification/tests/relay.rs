use conduit::relay::{
    body_step, consumer_step, error_frame, provider_step, BodyStep, ConsumerAction, ConsumerEvent,
    ProviderAction, ProviderEvent,
};

#[test]
fn error_frame_is_a_server_sent_event() {
    assert_eq!(error_frame("why"), "data: {\"error\": \"why\"}\n\n");
}

#[test]
fn provider_waits_for_a_request() {
    assert_eq!(provider_step(ProviderEvent::RequestRead(10)), ProviderAction::ParseRequest(10));
    assert_eq!(provider_step(ProviderEvent::RequestRead(0)), ProviderAction::GiveUp);
    assert_eq!(provider_step(ProviderEvent::RequestReadFailed), ProviderAction::GiveUp);
}

#[test]
fn provider_relays_its_backend() {
    assert_eq!(provider_step(ProviderEvent::Responded), ProviderAction::ReadChunk);
    assert_eq!(
        provider_step(ProviderEvent::Chunk(vec![1, 2])),
        ProviderAction::Write(vec![1, 2])
    );
    assert_eq!(provider_step(ProviderEvent::Written), ProviderAction::ReadChunk);
    assert_eq!(provider_step(ProviderEvent::WriteFailed), ProviderAction::Close);
    assert_eq!(provider_step(ProviderEvent::ChunksOver), ProviderAction::Close);
    assert_eq!(
        provider_step(ProviderEvent::Unreachable("refused".to_string())),
        ProviderAction::WriteLast(b"data: {\"error\": \"Backend Error: refused\"}\n\n".to_vec())
    );
}

#[test]
fn consumer_relays_the_provider() {
    assert_eq!(consumer_step(ConsumerEvent::Opened), ConsumerAction::WriteRequest);
    assert_eq!(consumer_step(ConsumerEvent::RequestWritten), ConsumerAction::ReadMore);
    assert_eq!(consumer_step(ConsumerEvent::Read(vec![7])), ConsumerAction::Deliver(vec![7]));
    assert_eq!(consumer_step(ConsumerEvent::Delivered), ConsumerAction::ReadMore);
    assert_eq!(consumer_step(ConsumerEvent::Read(vec![])), ConsumerAction::Stop);
    assert_eq!(consumer_step(ConsumerEvent::ClientGone), ConsumerAction::Stop);
}

#[test]
fn consumer_tells_of_failures() {
    assert_eq!(
        consumer_step(ConsumerEvent::OpenFailed),
        ConsumerAction::DeliverError("Stream failed".to_string())
    );
    assert_eq!(
        consumer_step(ConsumerEvent::RequestWriteFailed("gone".to_string())),
        ConsumerAction::DeliverError("gone".to_string())
    );
    assert_eq!(
        consumer_step(ConsumerEvent::ReadFailed("reset".to_string())),
        ConsumerAction::DeliverError("reset".to_string())
    );
}

#[test]
fn body_ends_with_an_error() {
    assert_eq!(body_step(Some(Ok(vec![1]))), BodyStep::Yield(vec![1]));
    assert_eq!(
        body_step(Some(Err("Stream failed".to_string()))),
        BodyStep::YieldLast(b"data: {\"error\": \"Stream error: Stream failed\"}\n\n".to_vec())
    );
    assert_eq!(body_step(None), BodyStep::End);
}

#[test]
fn client_gets_the_bytes_of_the_backend() {
    let mut wire: Vec<u8> = Vec::new();
    for chunk in [vec![1u8, 2, 3], vec![4], vec![5, 6, 7, 8]] {
        match provider_step(ProviderEvent::Chunk(chunk)) {
            ProviderAction::Write(bytes) => wire.extend(bytes),
            _ => panic!("not written"),
        }
    }
    let mut body: Vec<u8> = Vec::new();
    for piece in wire.chunks(3) {
        let item = match consumer_step(ConsumerEvent::Read(piece.to_vec())) {
            ConsumerAction::Deliver(bytes) => Some(Ok(bytes)),
            _ => panic!("not delivered"),
        };
        match body_step(item) {
            BodyStep::Yield(bytes) => body.extend(bytes),
            _ => panic!("not sent"),
        }
    }
    assert_eq!(body, vec![1, 2, 3, 4, 5, 6, 7, 8]);
}

#[test]
fn client_of_a_broken_stream_gets_what_came_before() {
    let items = [Some(Ok(vec![1, 2])), Some(Ok(vec![3])), Some(Err("reset".to_string()))];
    let mut body: Vec<u8> = Vec::new();
    let mut over = false;
    for item in items {
        assert!(!over);
        match body_step(item) {
            BodyStep::Yield(bytes) => body.extend(bytes),
            BodyStep::YieldLast(bytes) => {
                body.extend(bytes);
                over = true;
            }
            BodyStep::End => over = true,
        }
    }
    let mut expected = vec![1, 2, 3];
    expected.extend_from_slice(b"data: {\"error\": \"Stream error: reset\"}\n\n");
    assert!(over);
    assert_eq!(body, expected);
}
