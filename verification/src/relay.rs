//! The streams of tokens: from a provider's backend to the peer that asked, from
//! there to the local API, and on to the client.

use crate::backend::unreachable_text;
use crate::text::join;
use vstd::prelude::*;
use vstd::string::*;
use vstd::utf8::encode_utf8;

verus! {

/// How many bytes a request on a stream has at most.
pub const REQUEST_BYTES: usize = 8192;

/// How many seconds a peer has to send the request on a stream that it opened.
pub const REQUEST_SECONDS: u64 = 10;

/// How many bytes of a provider's stream are read at once.
pub const CHUNK_BYTES: usize = 4096;

/// The server-sent event that tells a client of a stream what went wrong.
pub open spec fn error_event(text: Seq<char>) -> Seq<char> {
    "data: {\"error\": \""@ + text + "\"}\n\n"@
}

/// Makes the server-sent event that tells a client of a stream what went wrong.
pub fn error_frame(text: &str) -> (frame: String)
    ensures
        frame@ == error_event(text@),
{
    let mut frame = join("data: {\"error\": \"", text);
    frame.append("\"}\n\n");
    frame
}

/// The bytes of the server-sent event that tells what went wrong.
pub open spec fn error_event_bytes(text: Seq<char>) -> Seq<u8> {
    encode_utf8(error_event(text))
}

/// Makes the bytes of the server-sent event that tells what went wrong.
pub fn error_frame_bytes(text: &str) -> (bytes: Vec<u8>)
    ensures
        bytes@ == error_event_bytes(text@),
{
    error_frame(text).as_str().as_bytes_vec()
}

/// What happens on a stream that a peer opened to this node.
pub enum ProviderEvent {
    /// So many bytes of the request were read.
    RequestRead(usize),
    /// No request came in time, or reading it failed.
    RequestReadFailed,
    /// The backend could not be reached, for the reason that the text tells.
    Unreachable(String),
    /// The backend answers.
    Responded,
    /// The backend sent some bytes.
    Chunk(Vec<u8>),
    /// The backend sent its last byte, or its connection broke.
    ChunksOver,
    /// The peer took what was written.
    Written,
    /// The peer is gone.
    WriteFailed,
}

/// What a node does next on a stream that a peer opened to it.
#[derive(Debug, PartialEq, Eq)]
pub enum ProviderAction {
    /// Read the request from the first so many bytes.
    ParseRequest(usize),
    /// Drop the stream without a word.
    GiveUp,
    /// Wait for the next bytes of the backend.
    ReadChunk,
    /// Write these bytes to the peer.
    Write(Vec<u8>),
    /// Write these bytes to the peer and close the stream.
    WriteLast(Vec<u8>),
    /// Close the stream.
    Close,
}

/// Whether an action is the one that an event on a peer's stream asks for.
pub open spec fn provider_acts(event: ProviderEvent, action: ProviderAction) -> bool {
    match event {
        ProviderEvent::RequestRead(n) => if n > 0 {
            action == ProviderAction::ParseRequest(n)
        } else {
            action == ProviderAction::GiveUp
        },
        ProviderEvent::RequestReadFailed => action == ProviderAction::GiveUp,
        ProviderEvent::Unreachable(reason) => action matches ProviderAction::WriteLast(bytes)
            && bytes@ == error_event_bytes(unreachable_text(reason@)),
        ProviderEvent::Responded => action == ProviderAction::ReadChunk,
        ProviderEvent::Chunk(bytes) => action == ProviderAction::Write(bytes),
        ProviderEvent::ChunksOver => action == ProviderAction::Close,
        ProviderEvent::Written => action == ProviderAction::ReadChunk,
        ProviderEvent::WriteFailed => action == ProviderAction::Close,
    }
}

/// Decides what to do after an event on a peer's stream.
pub fn provider_step(event: ProviderEvent) -> (action: ProviderAction)
    ensures
        provider_acts(event, action),
{
    match event {
        ProviderEvent::RequestRead(n) => if n > 0 {
            ProviderAction::ParseRequest(n)
        } else {
            ProviderAction::GiveUp
        },
        ProviderEvent::RequestReadFailed => ProviderAction::GiveUp,
        ProviderEvent::Unreachable(reason) => {
            let text = join("Backend Error: ", reason.as_str());
            ProviderAction::WriteLast(error_frame_bytes(text.as_str()))
        },
        ProviderEvent::Responded => ProviderAction::ReadChunk,
        ProviderEvent::Chunk(bytes) => ProviderAction::Write(bytes),
        ProviderEvent::ChunksOver => ProviderAction::Close,
        ProviderEvent::Written => ProviderAction::ReadChunk,
        ProviderEvent::WriteFailed => ProviderAction::Close,
    }
}

/// What happens on a stream that this node opens to a provider.
pub enum ConsumerEvent {
    /// The stream is open.
    Opened,
    /// The stream could not be opened.
    OpenFailed,
    /// The provider took the request.
    RequestWritten,
    /// The request could not be written, for the reason that the text tells.
    RequestWriteFailed(String),
    /// The provider sent these bytes; none at the end of the stream.
    Read(Vec<u8>),
    /// Reading failed, for the reason that the text tells.
    ReadFailed(String),
    /// The local API took what was handed to it.
    Delivered,
    /// The client of the local API is gone.
    ClientGone,
}

/// What a node does next on a stream that it opens to a provider.
#[derive(Debug, PartialEq, Eq)]
pub enum ConsumerAction {
    /// Write the request to the provider.
    WriteRequest,
    /// Wait for the next bytes of the provider.
    ReadMore,
    /// Hand these bytes to the local API.
    Deliver(Vec<u8>),
    /// Hand this error to the local API and stop.
    DeliverError(String),
    /// Stop.
    Stop,
}

/// Whether an action is the one that an event on a stream to a provider asks for.
pub open spec fn consumer_acts(event: ConsumerEvent, action: ConsumerAction) -> bool {
    match event {
        ConsumerEvent::Opened => action == ConsumerAction::WriteRequest,
        ConsumerEvent::OpenFailed => action matches ConsumerAction::DeliverError(text) && text@
            == "Stream failed"@,
        ConsumerEvent::RequestWritten => action == ConsumerAction::ReadMore,
        ConsumerEvent::RequestWriteFailed(reason) => action == ConsumerAction::DeliverError(reason),
        ConsumerEvent::Read(bytes) => if bytes@.len() == 0 {
            action == ConsumerAction::Stop
        } else {
            action == ConsumerAction::Deliver(bytes)
        },
        ConsumerEvent::ReadFailed(reason) => action == ConsumerAction::DeliverError(reason),
        ConsumerEvent::Delivered => action == ConsumerAction::ReadMore,
        ConsumerEvent::ClientGone => action == ConsumerAction::Stop,
    }
}

/// Decides what to do after an event on a stream to a provider.
pub fn consumer_step(event: ConsumerEvent) -> (action: ConsumerAction)
    ensures
        consumer_acts(event, action),
{
    match event {
        ConsumerEvent::Opened => ConsumerAction::WriteRequest,
        ConsumerEvent::OpenFailed => ConsumerAction::DeliverError("Stream failed".to_owned()),
        ConsumerEvent::RequestWritten => ConsumerAction::ReadMore,
        ConsumerEvent::RequestWriteFailed(reason) => ConsumerAction::DeliverError(reason),
        ConsumerEvent::Read(bytes) => if bytes.len() == 0 {
            ConsumerAction::Stop
        } else {
            ConsumerAction::Deliver(bytes)
        },
        ConsumerEvent::ReadFailed(reason) => ConsumerAction::DeliverError(reason),
        ConsumerEvent::Delivered => ConsumerAction::ReadMore,
        ConsumerEvent::ClientGone => ConsumerAction::Stop,
    }
}

/// What the local API sends next to the client of a stream.
#[derive(Debug, PartialEq, Eq)]
pub enum BodyStep {
    /// These bytes, and more may follow.
    Yield(Vec<u8>),
    /// These bytes, and the stream ends.
    YieldLast(Vec<u8>),
    /// The stream ends.
    End,
}

/// What the client of a stream is told when it breaks.
pub open spec fn stream_error_text(reason: Seq<char>) -> Seq<char> {
    "Stream error: "@ + reason
}

/// Whether a step is the one that the next item from the provider's stream asks for.
pub open spec fn body_follows(item: Option<Result<Vec<u8>, String>>, step: BodyStep) -> bool {
    match item {
        Some(Ok(bytes)) => step == BodyStep::Yield(bytes),
        Some(Err(reason)) => step matches BodyStep::YieldLast(bytes) && bytes@
            == error_event_bytes(stream_error_text(reason@)),
        None => step == BodyStep::End,
    }
}

/// Decides what to send to the client of a stream, from the next item of the provider's
/// stream. No item means that no more will come.
pub fn body_step(item: Option<Result<Vec<u8>, String>>) -> (step: BodyStep)
    ensures
        body_follows(item, step),
{
    match item {
        Some(Ok(bytes)) => BodyStep::Yield(bytes),
        Some(Err(reason)) => {
            let text = join("Stream error: ", reason.as_str());
            BodyStep::YieldLast(error_frame_bytes(text.as_str()))
        },
        None => BodyStep::End,
    }
}

/// The bytes that the backend sent in the course of some events.
pub open spec fn chunk_bytes(events: Seq<ProviderEvent>) -> Seq<u8>
    decreases events.len(),
{
    if events.len() == 0 {
        Seq::empty()
    } else {
        chunk_bytes(events.drop_last()) + match events.last() {
            ProviderEvent::Chunk(bytes) => bytes@,
            _ => Seq::empty(),
        }
    }
}

/// The bytes that a provider wrote to its peer in the course of some actions.
pub open spec fn written_bytes(actions: Seq<ProviderAction>) -> Seq<u8>
    decreases actions.len(),
{
    if actions.len() == 0 {
        Seq::empty()
    } else {
        written_bytes(actions.drop_last()) + match actions.last() {
            ProviderAction::Write(bytes) => bytes@,
            ProviderAction::WriteLast(bytes) => bytes@,
            _ => Seq::empty(),
        }
    }
}

/// The bytes that a node read from a provider in the course of some events.
pub open spec fn read_bytes(events: Seq<ConsumerEvent>) -> Seq<u8>
    decreases events.len(),
{
    if events.len() == 0 {
        Seq::empty()
    } else {
        read_bytes(events.drop_last()) + match events.last() {
            ConsumerEvent::Read(bytes) => bytes@,
            _ => Seq::empty(),
        }
    }
}

/// The bytes that were handed to the local API in the course of some actions.
pub open spec fn delivered_bytes(actions: Seq<ConsumerAction>) -> Seq<u8>
    decreases actions.len(),
{
    if actions.len() == 0 {
        Seq::empty()
    } else {
        delivered_bytes(actions.drop_last()) + match actions.last() {
            ConsumerAction::Deliver(bytes) => bytes@,
            _ => Seq::empty(),
        }
    }
}

/// The bytes that the local API got as items of the provider's stream.
pub open spec fn item_bytes(items: Seq<Option<Result<Vec<u8>, String>>>) -> Seq<u8>
    decreases items.len(),
{
    if items.len() == 0 {
        Seq::empty()
    } else {
        item_bytes(items.drop_last()) + match items.last() {
            Some(Ok(bytes)) => bytes@,
            _ => Seq::empty(),
        }
    }
}

/// The bytes that the client of a stream gets in the course of some steps.
pub open spec fn sent_bytes(steps: Seq<BodyStep>) -> Seq<u8>
    decreases steps.len(),
{
    if steps.len() == 0 {
        Seq::empty()
    } else {
        sent_bytes(steps.drop_last()) + match steps.last() {
            BodyStep::Yield(bytes) => bytes@,
            BodyStep::YieldLast(bytes) => bytes@,
            BodyStep::End => Seq::empty(),
        }
    }
}

/// A provider writes to its peer the bytes that its backend sends, in their order,
/// and no others, as long as the backend can be reached.
pub proof fn provider_is_faithful(events: Seq<ProviderEvent>, actions: Seq<ProviderAction>)
    requires
        events.len() == actions.len(),
        forall|i: int| 0 <= i < events.len() ==> provider_acts(#[trigger] events[i], actions[i]),
        forall|i: int| 0 <= i < events.len() ==> !(#[trigger] events[i] is Unreachable),
    ensures
        written_bytes(actions) == chunk_bytes(events),
    decreases events.len(),
{
    if events.len() > 0 {
        let rest = events.drop_last();
        assert forall|i: int| 0 <= i < rest.len() implies provider_acts(
            #[trigger] rest[i],
            actions.drop_last()[i],
        ) && !(rest[i] is Unreachable) by {
            assert(rest[i] == events[i]);
        }
        provider_is_faithful(rest, actions.drop_last());
        assert(provider_acts(events[events.len() - 1], actions[actions.len() - 1]));
    }
}

/// A node hands to its local API the bytes that it reads from a provider, in their
/// order, and no others.
pub proof fn consumer_is_faithful(events: Seq<ConsumerEvent>, actions: Seq<ConsumerAction>)
    requires
        events.len() == actions.len(),
        forall|i: int| 0 <= i < events.len() ==> consumer_acts(#[trigger] events[i], actions[i]),
    ensures
        delivered_bytes(actions) == read_bytes(events),
    decreases events.len(),
{
    if events.len() > 0 {
        let rest = events.drop_last();
        assert forall|i: int| 0 <= i < rest.len() implies consumer_acts(
            #[trigger] rest[i],
            actions.drop_last()[i],
        ) by {
            assert(rest[i] == events[i]);
        }
        consumer_is_faithful(rest, actions.drop_last());
        assert(consumer_acts(events[events.len() - 1], actions[actions.len() - 1]));
        assert(delivered_bytes(actions) =~= read_bytes(events));
    }
}

/// The local API sends to its client the bytes that it gets from the provider's
/// stream, in their order, and no others, as long as the stream does not break.
pub proof fn body_is_faithful(items: Seq<Option<Result<Vec<u8>, String>>>, steps: Seq<BodyStep>)
    requires
        items.len() == steps.len(),
        forall|i: int| 0 <= i < items.len() ==> body_follows(#[trigger] items[i], steps[i]),
        forall|i: int| 0 <= i < items.len() ==> !(#[trigger] items[i] matches Some(Err(_))),
    ensures
        sent_bytes(steps) == item_bytes(items),
    decreases items.len(),
{
    if items.len() > 0 {
        let rest = items.drop_last();
        assert forall|i: int| 0 <= i < rest.len() implies body_follows(
            #[trigger] rest[i],
            steps.drop_last()[i],
        ) && !(rest[i] matches Some(Err(_))) by {
            assert(rest[i] == items[i]);
        }
        body_is_faithful(rest, steps.drop_last());
        assert(body_follows(items[items.len() - 1], steps[steps.len() - 1]));
        assert(!(items[items.len() - 1] matches Some(Err(_))));
    }
}

/// Over a connection that carries bytes unchanged, and a channel that carries items
/// unchanged, a client gets from a stream that does not break the bytes that the
/// provider's backend sends.
pub proof fn stream_is_faithful(
    backend: Seq<ProviderEvent>,
    written: Seq<ProviderAction>,
    reads: Seq<ConsumerEvent>,
    delivered: Seq<ConsumerAction>,
    items: Seq<Option<Result<Vec<u8>, String>>>,
    steps: Seq<BodyStep>,
)
    requires
        backend.len() == written.len(),
        reads.len() == delivered.len(),
        items.len() == steps.len(),
        forall|i: int| 0 <= i < backend.len() ==> provider_acts(#[trigger] backend[i], written[i]),
        forall|i: int| 0 <= i < reads.len() ==> consumer_acts(#[trigger] reads[i], delivered[i]),
        forall|i: int| 0 <= i < items.len() ==> body_follows(#[trigger] items[i], steps[i]),
        forall|i: int| 0 <= i < backend.len() ==> !(#[trigger] backend[i] is Unreachable),
        forall|i: int| 0 <= i < items.len() ==> !(#[trigger] items[i] matches Some(Err(_))),
        read_bytes(reads) == written_bytes(written),
        item_bytes(items) == delivered_bytes(delivered),
    ensures
        sent_bytes(steps) == chunk_bytes(backend),
{
    provider_is_faithful(backend, written);
    consumer_is_faithful(reads, delivered);
    body_is_faithful(items, steps);
}

/// When the backend cannot be reached, the peer gets what was sent before, and then the event
/// that tells why.
pub proof fn unreachable_backend_is_told(
    events: Seq<ProviderEvent>,
    actions: Seq<ProviderAction>,
    reason: String,
)
    requires
        events.len() == actions.len() > 0,
        forall|i: int| 0 <= i < events.len() ==> provider_acts(#[trigger] events[i], actions[i]),
        forall|i: int| 0 <= i < events.len() - 1 ==> !(#[trigger] events[i] is Unreachable),
        events.last() == ProviderEvent::Unreachable(reason),
    ensures
        written_bytes(actions) == chunk_bytes(events.drop_last()) + error_event_bytes(
            unreachable_text(reason@),
        ),
{
    let rest = events.drop_last();
    assert forall|i: int| 0 <= i < rest.len() implies provider_acts(
        #[trigger] rest[i],
        actions.drop_last()[i],
    ) && !(rest[i] is Unreachable) by {
        assert(rest[i] == events[i]);
    }
    provider_is_faithful(rest, actions.drop_last());
    assert(provider_acts(events[events.len() - 1], actions[actions.len() - 1]));
}

/// When the provider's stream breaks, the client gets the bytes from before the break, and
/// then, at the end of its stream, the event that tells why.
pub proof fn broken_body_tells_why(
    items: Seq<Option<Result<Vec<u8>, String>>>,
    steps: Seq<BodyStep>,
    reason: String,
)
    requires
        items.len() == steps.len() > 0,
        forall|i: int| 0 <= i < items.len() ==> body_follows(#[trigger] items[i], steps[i]),
        forall|i: int| 0 <= i < items.len() - 1 ==> !(#[trigger] items[i] matches Some(Err(_))),
        items.last() == Some(Err::<Vec<u8>, String>(reason)),
    ensures
        sent_bytes(steps) == item_bytes(items.drop_last()) + error_event_bytes(
            stream_error_text(reason@),
        ),
        steps.last() is YieldLast,
{
    let rest = items.drop_last();
    assert forall|i: int| 0 <= i < rest.len() implies body_follows(
        #[trigger] rest[i],
        steps.drop_last()[i],
    ) && !(rest[i] matches Some(Err(_))) by {
        assert(rest[i] == items[i]);
    }
    body_is_faithful(rest, steps.drop_last());
    assert(body_follows(items[items.len() - 1], steps[steps.len() - 1]));
}

/// Where the connection to a provider breaks, having carried a first part of what the
/// provider wrote, the client gets a first part of what the provider's backend sent, and then
/// the event that tells why.
pub proof fn broken_stream_is_faithful(
    backend: Seq<ProviderEvent>,
    written: Seq<ProviderAction>,
    reads: Seq<ConsumerEvent>,
    delivered: Seq<ConsumerAction>,
    items: Seq<Option<Result<Vec<u8>, String>>>,
    steps: Seq<BodyStep>,
    reason: String,
)
    requires
        backend.len() == written.len(),
        reads.len() == delivered.len(),
        items.len() == steps.len() > 0,
        forall|i: int| 0 <= i < backend.len() ==> provider_acts(#[trigger] backend[i], written[i]),
        forall|i: int| 0 <= i < reads.len() ==> consumer_acts(#[trigger] reads[i], delivered[i]),
        forall|i: int| 0 <= i < items.len() ==> body_follows(#[trigger] items[i], steps[i]),
        forall|i: int| 0 <= i < backend.len() ==> !(#[trigger] backend[i] is Unreachable),
        forall|i: int| 0 <= i < items.len() - 1 ==> !(#[trigger] items[i] matches Some(Err(_))),
        items.last() == Some(Err::<Vec<u8>, String>(reason)),
        read_bytes(reads).is_prefix_of(written_bytes(written)),
        item_bytes(items.drop_last()) == delivered_bytes(delivered),
    ensures
        read_bytes(reads).is_prefix_of(chunk_bytes(backend)),
        sent_bytes(steps) == read_bytes(reads) + error_event_bytes(stream_error_text(reason@)),
{
    provider_is_faithful(backend, written);
    consumer_is_faithful(reads, delivered);
    broken_body_tells_why(items, steps, reason);
}

/// An error on a stream is told in one server-sent event that holds the text as it is.
pub proof fn error_is_framed_as_an_event(text: &str, frame: String, bytes: Vec<u8>)
    requires
        call_ensures(error_frame, (text,), frame),
        call_ensures(error_frame_bytes, (text,), bytes),
    ensures
        frame@ == "data: {\"error\": \""@ + text@ + "\"}\n\n"@,
        bytes@ == encode_utf8(frame@),
{
}

/// A request of any length is read as far as it came, and a stream without one is given up.
pub proof fn request_on_a_stream_is_read(
    n: usize,
    came: ProviderAction,
    failed: ProviderAction,
)
    requires
        call_ensures(provider_step, (ProviderEvent::RequestRead(n),), came),
        call_ensures(provider_step, (ProviderEvent::RequestReadFailed,), failed),
    ensures
        n > 0 ==> came == ProviderAction::ParseRequest(n),
        n == 0 ==> came is GiveUp,
        failed is GiveUp,
{
}

/// A provider passes on each piece of its backend as it is, goes on after it as long as the
/// peer takes it, and closes the stream when no more comes or the peer is gone.
pub proof fn provider_passes_on_each_piece(
    bytes: Vec<u8>,
    responded: ProviderAction,
    piece: ProviderAction,
    taken: ProviderAction,
    over: ProviderAction,
    gone: ProviderAction,
)
    requires
        call_ensures(provider_step, (ProviderEvent::Responded,), responded),
        call_ensures(provider_step, (ProviderEvent::Chunk(bytes),), piece),
        call_ensures(provider_step, (ProviderEvent::Written,), taken),
        call_ensures(provider_step, (ProviderEvent::ChunksOver,), over),
        call_ensures(provider_step, (ProviderEvent::WriteFailed,), gone),
    ensures
        responded is ReadChunk,
        piece matches ProviderAction::Write(out) && out@ == bytes@,
        taken is ReadChunk,
        over is Close,
        gone is Close,
{
}

/// A peer whose provider cannot reach its backend gets one last event that tells why.
pub proof fn provider_tells_of_an_unreachable_backend(reason: String, action: ProviderAction)
    requires
        call_ensures(provider_step, (ProviderEvent::Unreachable(reason),), action),
    ensures
        action matches ProviderAction::WriteLast(bytes) && bytes@ == encode_utf8(
            "data: {\"error\": \""@ + ("Backend Error: "@ + reason@) + "\"}\n\n"@,
        ),
{
}

/// A node that opened a stream writes its request, then hands on each piece of the provider
/// as it is and reads on as long as the client takes it. It stops at the end of the stream or
/// when the client is gone.
pub proof fn consumer_hands_on_each_piece(
    bytes: Vec<u8>,
    opened: ConsumerAction,
    asked: ConsumerAction,
    piece: ConsumerAction,
    taken: ConsumerAction,
    gone: ConsumerAction,
)
    requires
        call_ensures(consumer_step, (ConsumerEvent::Opened,), opened),
        call_ensures(consumer_step, (ConsumerEvent::RequestWritten,), asked),
        call_ensures(consumer_step, (ConsumerEvent::Read(bytes),), piece),
        call_ensures(consumer_step, (ConsumerEvent::Delivered,), taken),
        call_ensures(consumer_step, (ConsumerEvent::ClientGone,), gone),
    ensures
        opened is WriteRequest,
        asked is ReadMore,
        bytes@.len() == 0 ==> piece is Stop,
        bytes@.len() > 0 ==> (piece matches ConsumerAction::Deliver(out) && out@ == bytes@),
        taken is ReadMore,
        gone is Stop,
{
}

/// Where a stream to a provider fails, the local API gets the reason as it is.
pub proof fn consumer_tells_of_a_failed_stream(
    reason: String,
    unopened: ConsumerAction,
    unwritten: ConsumerAction,
    unread: ConsumerAction,
)
    requires
        call_ensures(consumer_step, (ConsumerEvent::OpenFailed,), unopened),
        call_ensures(consumer_step, (ConsumerEvent::RequestWriteFailed(reason),), unwritten),
        call_ensures(consumer_step, (ConsumerEvent::ReadFailed(reason),), unread),
    ensures
        unopened matches ConsumerAction::DeliverError(text) && text@ == "Stream failed"@,
        unwritten matches ConsumerAction::DeliverError(text) && text@ == reason@,
        unread matches ConsumerAction::DeliverError(text) && text@ == reason@,
{
}

/// A client gets each piece of its stream as it is, with more to follow. A broken stream ends
/// with one event that tells why, and a stream that is over ends without a word.
pub proof fn client_gets_each_piece(
    bytes: Vec<u8>,
    reason: String,
    piece: BodyStep,
    broken: BodyStep,
    over: BodyStep,
)
    requires
        call_ensures(body_step, (Some(Ok::<Vec<u8>, String>(bytes)),), piece),
        call_ensures(body_step, (Some(Err::<Vec<u8>, String>(reason)),), broken),
        call_ensures(body_step, (None::<Result<Vec<u8>, String>>,), over),
    ensures
        piece matches BodyStep::Yield(out) && out@ == bytes@,
        broken matches BodyStep::YieldLast(out) && out@ == encode_utf8(
            "data: {\"error\": \""@ + ("Stream error: "@ + reason@) + "\"}\n\n"@,
        ),
        over is End,
{
}

/// A peer has ten seconds for a request of up to 8192 bytes, and a stream is read in pieces
/// of up to 4096.
pub proof fn streams_have_their_bounds()
    ensures
        REQUEST_SECONDS == 10,
        REQUEST_BYTES == 8192,
        CHUNK_BYTES == 4096,
{
}

} // verus!
