//! The local API: what a client is answered, and what is asked of the network for it.
//!
//! A handler runs in steps. Each step decides what is asked of the network next, or what
//! the client is answered; what the network brought is the argument of the next step.

use crate::auth::{bearer_key, opt_bytes, provided_key};
use crate::clock::TimeOfDay;
use crate::config::{open_at, ProviderConfig};
use crate::guard::{judge, key_allows, key_fits, refusal_text, Guard, Refusal, Verdict};
use crate::network::{response_is_seen_whole, InferenceRequest, InferenceResponse, Request};
use crate::relay::{error_event, error_frame};
use crate::text::{join, opt_text, texts};
use vstd::prelude::*;
use vstd::string::*;

verus! {

/// How many seconds a client waits for the providers of a model.
pub const LOOKUP_SECONDS: u64 = 5;

/// How many seconds a client waits for a response.
pub const RESPONSE_SECONDS: u64 = 30;

/// How many pieces of a stream wait for a slow client.
pub const STREAM_BACKLOG: usize = 128;

/// What the local API holds: the channel to the network, of type `T`, the key that it asks
/// its clients for, and the key that it shows to the backend.
#[derive(Clone)]
pub struct AppState<T> {
    pub network_tx: T,
    pub access_key: Option<String>,
    pub local_llm_api_key: Option<String>,
}

/// The list of models that a client gets.
#[derive(Debug, Clone, PartialEq, Eq)]
pub struct ModelsResponse {
    pub object: String,
    pub data: Vec<ModelData>,
}

/// A model that a provider offers.
#[derive(Debug, Clone, PartialEq, Eq)]
pub struct ModelData {
    pub id: String,
    pub object: String,
    pub ready: bool,
}

/// Which model a client asks after.
#[derive(Debug, Clone, PartialEq, Eq)]
pub struct ModelQuery {
    pub model: Option<String>,
}

/// What a client is answered.
#[derive(Debug, PartialEq, Eq)]
pub struct Reply {
    pub status: u16,
    pub body: Body,
}

/// The body of an answer.
#[derive(Debug, PartialEq, Eq)]
pub enum Body {
    /// A JSON object with the text under `error`.
    Error(String),
    /// A list of models, as JSON.
    Models(ModelsResponse),
    /// The response of a model, as JSON.
    Inference(InferenceResponse),
    /// One server-sent event, and the stream is over.
    Event(String),
    /// The provider's stream of server-sent events.
    EventStream,
}

/// A body as its texts. A list of models is given by their ids.
pub enum Content {
    Error(Seq<char>),
    Models(Seq<Seq<char>>),
    Inference(crate::network::Response),
    Event(Seq<char>),
    EventStream,
}

/// Whether an entry is one of a model that a provider offers, under the id `id`.
pub open spec fn is_entry(entry: ModelData, id: Seq<char>) -> bool {
    entry.id@ == id && entry.object@ == "model"@ && entry.ready
}

/// Whether a list holds exactly the models with these ids, in this order.
pub open spec fn lists(response: ModelsResponse, ids: Seq<Seq<char>>) -> bool {
    &&& response.object@ == "list"@
    &&& response.data@.len() == ids.len()
    &&& forall|i: int| 0 <= i < ids.len() ==> is_entry(#[trigger] response.data@[i], ids[i])
}

/// Whether a reply has this status and this content.
pub open spec fn replies(reply: Reply, status: u16, content: Content) -> bool {
    &&& reply.status == status
    &&& match content {
        Content::Error(text) => reply.body matches Body::Error(told) && told@ == text,
        Content::Models(ids) => reply.body matches Body::Models(response) && lists(response, ids),
        Content::Inference(response) => reply.body matches Body::Inference(told) && told@
            == response,
        Content::Event(text) => reply.body matches Body::Event(told) && told@ == text,
        Content::EventStream => reply.body is EventStream,
    }
}

/// A header of an answer.
pub struct Header {
    pub name: &'static str,
    pub value: &'static str,
}

/// The headers that an answer with this body has.
pub open spec fn headers_of(body: Body) -> Seq<(Seq<char>, Seq<char>)> {
    match body {
        Body::EventStream => seq![
            ("content-type"@, "text/event-stream"@),
            ("cache-control"@, "no-cache"@),
            ("connection"@, "keep-alive"@),
        ],
        Body::Event(_) => seq![("content-type"@, "text/event-stream"@)],
        _ => seq![("content-type"@, "application/json"@)],
    }
}

impl Reply {
    fn error(status: u16, text: &str) -> (reply: Reply)
        ensures
            replies(reply, status, Content::Error(text@)),
    {
        Reply { status, body: Body::Error(text.to_owned()) }
    }

    /// The headers of the answer.
    pub fn headers(&self) -> (headers: Vec<Header>)
        ensures
            headers@.map_values(|h: Header| (h.name@, h.value@)) == headers_of(self.body),
    {
        let mut headers: Vec<Header> = Vec::new();
        match &self.body {
            Body::EventStream => {
                headers.push(Header { name: "content-type", value: "text/event-stream" });
                headers.push(Header { name: "cache-control", value: "no-cache" });
                headers.push(Header { name: "connection", value: "keep-alive" });
            },
            Body::Event(_) => {
                headers.push(Header { name: "content-type", value: "text/event-stream" });
            },
            _ => {
                headers.push(Header { name: "content-type", value: "application/json" });
            },
        }
        assert(headers@.map_values(|h: Header| (h.name@, h.value@)) =~= headers_of(self.body));
        headers
    }
}

/// What the network brought to a lookup of providers.
pub enum Lookup {
    /// The network part of the node is gone.
    ChannelClosed,
    /// No answer came in time.
    NoAnswer,
    /// These peers provide the model.
    Found(Vec<String>),
}

/// What the network brought to a request.
pub enum Answer {
    /// The network part of the node is gone.
    ChannelClosed,
    /// No answer came in time.
    NoAnswer,
    /// The peer responded, or it turned out that it will not.
    Settled(Option<InferenceResponse>),
}

/// The answer to a client that shows the wrong key, or none.
pub open spec fn unauthorized(reply: Reply) -> bool {
    replies(reply, 401, Content::Error("Invalid or missing access key"@))
}

impl<T> AppState<T> {
    /// The state of the local API of a node with this configuration: it asks its clients for
    /// the key that the node asks its peers for.
    pub fn new(network_tx: T, provider: &ProviderConfig) -> (state: AppState<T>)
        ensures
            state.network_tx == network_tx,
            opt_text(state.access_key) == provider@.access_key,
            opt_text(state.local_llm_api_key) == provider@.local_llm_api_key,
    {
        AppState {
            network_tx,
            access_key: provider.access_key.clone(),
            local_llm_api_key: provider.local_llm_api_key.clone(),
        }
    }

    /// Whether a client that sends this `Authorization` header may use the API.
    pub fn authorizes(&self, header: &Option<Vec<u8>>) -> (r: bool)
        ensures
            r == key_fits(opt_text(self.access_key), bearer_key(opt_bytes(*header))),
    {
        key_allows(&self.access_key, &provided_key(header))
    }
}

/// How a request for the list of models begins.
pub enum ListStart {
    /// Answer this.
    Respond(Reply),
    /// Look up the providers of this model.
    Lookup(String),
}

/// The model that a client asks after.
pub open spec fn asked_model(query: ModelQuery) -> Seq<char> {
    match query.model {
        Some(model) => model@,
        None => "default-model"@,
    }
}

/// Begins to answer a request for the list of models.
pub fn list_models_start<T>(state: &AppState<T>, header: &Option<Vec<u8>>, query: ModelQuery) -> (start:
    ListStart)
    ensures
        if key_fits(opt_text(state.access_key), bearer_key(opt_bytes(*header))) {
            start matches ListStart::Lookup(model) && model@ == asked_model(query)
        } else {
            start matches ListStart::Respond(reply) && unauthorized(reply)
        },
{
    if !state.authorizes(header) {
        return ListStart::Respond(Reply::error(401, "Invalid or missing access key"));
    }
    ListStart::Lookup(
        match query.model {
            Some(model) => model,
            None => "default-model".to_owned(),
        },
    )
}

/// The id under which a model of a provider is listed.
pub open spec fn listed_id(model: Seq<char>, provider: Seq<char>) -> Seq<char> {
    model + "-via-"@ + provider
}

/// The ids under which a model of some providers is listed.
pub open spec fn listed_ids(model: Seq<char>, providers: Seq<Seq<char>>) -> Seq<Seq<char>> {
    providers.map_values(|provider: Seq<char>| listed_id(model, provider))
}

/// The ids that are listed when a lookup of a model went so.
pub open spec fn found_ids(model: Seq<char>, lookup: Lookup) -> Seq<Seq<char>> {
    match lookup {
        Lookup::Found(providers) => listed_ids(model, texts(providers@)),
        _ => Seq::empty(),
    }
}

/// Answers a request for the list of models from what the lookup brought: an entry for
/// each provider, and an empty list where it brought none.
pub fn list_models_finish(model: &str, lookup: Lookup) -> (reply: Reply)
    ensures
        replies(reply, 200, Content::Models(found_ids(model@, lookup))),
{
    let ghost ids = found_ids(model@, lookup);
    let mut data: Vec<ModelData> = Vec::new();
    match lookup {
        Lookup::Found(providers) => {
            let mut i: usize = 0;
            while i < providers.len()
                invariant
                    i <= providers.len(),
                    ids == listed_ids(model@, texts(providers@)),
                    data@.len() == i,
                    forall|k: int| 0 <= k < i ==> is_entry(#[trigger] data@[k], ids[k]),
                decreases providers.len() - i,
            {
                let id = join(join(model, "-via-").as_str(), providers[i].as_str());
                assert(id@ == ids[i as int]);
                data.push(ModelData { id, object: "model".to_owned(), ready: true });
                i = i + 1;
            }
        },
        _ => {},
    }
    Reply { status: 200, body: Body::Models(ModelsResponse { object: "list".to_owned(), data }) }
}

/// A chat that waits for the providers of its model.
pub struct Chat {
    pub request: InferenceRequest,
}

/// How a chat begins.
pub enum ChatStart {
    /// Answer this.
    Respond(Reply),
    /// Look up the providers of this model; then go on with the chat.
    Lookup { model: String, chat: Chat },
}

/// Whether a client wants its answer as a stream.
pub open spec fn wants_stream(request: Request) -> bool {
    request.stream == Some(true)
}

/// The request that goes to the network for a client: what the client asks, with the key
/// that it shows.
pub open spec fn forwarded(asked: Request, key: Option<Seq<char>>) -> Request {
    Request { access_key: key, ..asked }
}

/// What a refused client is answered: as a stream where it wants one.
pub open spec fn refusal_content(request: Request, text: Seq<char>) -> Content {
    if wants_stream(request) {
        Content::Event(error_event(text))
    } else {
        Content::Error(text)
    }
}

/// Whether a chat begins as it should, for a client that shows `key` to an API that asks
/// for `required`, when the guard finds `verdict`.
pub open spec fn begins(
    start: ChatStart,
    required: Option<Seq<char>>,
    key: Option<Seq<char>>,
    asked: Request,
    verdict: Verdict,
) -> bool {
    if !key_fits(required, key) {
        start matches ChatStart::Respond(reply) && unauthorized(reply)
    } else {
        match verdict.refusal {
            Some(refusal) => start matches ChatStart::Respond(reply) && replies(
                reply,
                200,
                refusal_content(asked, refusal_text(refusal)),
            ),
            None => start matches ChatStart::Lookup { model, chat } && model@ == asked.model
                && chat.request@ == forwarded(asked, key),
        }
    }
}

/// The log of the guard after a chat began.
pub open spec fn log_after(
    required: Option<Seq<char>>,
    key: Option<Seq<char>>,
    log: Seq<u128>,
    verdict: Verdict,
) -> Seq<u128> {
    if key_fits(required, key) {
        verdict.log
    } else {
        log
    }
}

/// Begins a chat that comes in at `now`, given whether the schedule has the node open. The
/// request passes the same guard as one that comes from a peer.
pub fn chat_completions_start_when<T>(
    state: &AppState<T>,
    guard: &mut Guard,
    header: &Option<Vec<u8>>,
    payload: InferenceRequest,
    open: bool,
    now: u128,
) -> (start: ChatStart)
    ensures
        final(guard).config == old(guard).config,
        ({
            let required = opt_text(state.access_key);
            let key = bearer_key(opt_bytes(*header));
            let verdict = judge(
                old(guard).config@,
                old(guard).log@,
                open,
                now,
                forwarded(payload@, key),
            );
            &&& begins(start, required, key, payload@, verdict)
            &&& final(guard).log@ == log_after(required, key, old(guard).log@, verdict)
        }),
{
    let key = provided_key(header);
    let allowed = key_allows(&state.access_key, &key);
    let request = InferenceRequest {
        model: payload.model,
        messages: payload.messages,
        stream: payload.stream,
        access_key: key,
    };
    if !allowed {
        return ChatStart::Respond(Reply::error(401, "Invalid or missing access key"));
    }
    match guard.validate_request_when(&request, open, now) {
        Some(refusal) => {
            let text = refusal.reason();
            match request.stream {
                Some(true) => ChatStart::Respond(
                    Reply { status: 200, body: Body::Event(error_frame(text.as_str())) },
                ),
                _ => ChatStart::Respond(Reply { status: 200, body: Body::Error(text) }),
            }
        },
        None => ChatStart::Lookup { model: request.model.clone(), chat: Chat { request } },
    }
}

/// Begins a chat that comes in at `now`, at the time of day that the machine's clock shows.
pub fn chat_completions_start<T>(
    state: &AppState<T>,
    guard: &mut Guard,
    header: &Option<Vec<u8>>,
    payload: InferenceRequest,
    now: u128,
) -> (start: ChatStart)
    ensures
        final(guard).config == old(guard).config,
        exists|time: TimeOfDay|
            {
                let open = #[trigger] open_at(old(guard).config@.hours, time);
                let required = opt_text(state.access_key);
                let key = bearer_key(opt_bytes(*header));
                let verdict = judge(
                    old(guard).config@,
                    old(guard).log@,
                    open,
                    now,
                    forwarded(payload@, key),
                );
                &&& time.well_formed()
                &&& begins(start, required, key, payload@, verdict)
                &&& final(guard).log@ == log_after(required, key, old(guard).log@, verdict)
            },
{
    let open = guard.config.is_within_schedule();
    chat_completions_start_when(state, guard, header, payload, open, now)
}

/// How a chat goes on.
pub enum ChatRoute {
    /// Answer this.
    Respond(Reply),
    /// Send the request to this peer and wait for the response.
    Ask { peer: String, request: InferenceRequest },
    /// Open a stream to this peer for the request.
    Stream { peer: String, request: InferenceRequest },
}

/// What a client is told when nobody provides the model.
pub open spec fn no_providers_text(model: Seq<char>) -> Seq<char> {
    "No providers found for model "@ + model
}

/// Whether a chat goes on as it should, when the lookup of its model's providers went so:
/// with the first of them.
pub open spec fn goes_on(route: ChatRoute, chat: Chat, lookup: Lookup) -> bool {
    match lookup {
        Lookup::ChannelClosed => route matches ChatRoute::Respond(reply) && replies(
            reply,
            200,
            Content::Error("Network channel closed"@),
        ),
        Lookup::NoAnswer => route matches ChatRoute::Respond(reply) && replies(
            reply,
            200,
            Content::Error("DHT query timed out or failed"@),
        ),
        Lookup::Found(providers) => if providers@.len() == 0 {
            route matches ChatRoute::Respond(reply) && replies(
                reply,
                200,
                Content::Error(no_providers_text(chat.request@.model)),
            )
        } else if wants_stream(chat.request@) {
            route matches ChatRoute::Stream { peer, request } && peer@ == providers@[0]@ && request
                == chat.request
        } else {
            route matches ChatRoute::Ask { peer, request } && peer@ == providers@[0]@ && request
                == chat.request
        },
    }
}

/// Goes on with a chat, from what the lookup of its model's providers brought.
pub fn chat_completions_route(chat: Chat, lookup: Lookup) -> (route: ChatRoute)
    ensures
        goes_on(route, chat, lookup),
{
    let request = chat.request;
    match lookup {
        Lookup::ChannelClosed => ChatRoute::Respond(Reply::error(200, "Network channel closed")),
        Lookup::NoAnswer => ChatRoute::Respond(Reply::error(200, "DHT query timed out or failed")),
        Lookup::Found(providers) => {
            if providers.len() == 0 {
                let text = join("No providers found for model ", request.model.as_str());
                return ChatRoute::Respond(Reply { status: 200, body: Body::Error(text) });
            }
            let peer = providers[0].clone();
            match request.stream {
                Some(true) => ChatRoute::Stream { peer, request },
                _ => ChatRoute::Ask { peer, request },
            }
        },
    }
}

/// Answers a client that wants a stream: with the stream, if the network took the command
/// to open it.
pub fn chat_completions_stream(sent: bool) -> (reply: Reply)
    ensures
        replies(
            reply,
            200,
            if sent {
                Content::EventStream
            } else {
                Content::Error("Network channel closed"@)
            },
        ),
{
    if sent {
        Reply { status: 200, body: Body::EventStream }
    } else {
        Reply::error(200, "Network channel closed")
    }
}

/// What a client that waits for one response is answered.
pub open spec fn answer_content(answer: Answer) -> Content {
    match answer {
        Answer::ChannelClosed => Content::Error("Network channel closed"@),
        Answer::Settled(Some(response)) => Content::Inference(response@),
        _ => Content::Error("Request timed out or failed"@),
    }
}

/// Answers a client that waits for one response, from what the network brought.
pub fn chat_completions_finish(answer: Answer) -> (reply: Reply)
    ensures
        replies(reply, 200, answer_content(answer)),
{
    match answer {
        Answer::ChannelClosed => Reply::error(200, "Network channel closed"),
        Answer::Settled(Some(response)) => Reply { status: 200, body: Body::Inference(response) },
        _ => Reply::error(200, "Request timed out or failed"),
    }
}

/// What a client of the old completions is told.
pub open spec fn stub_text() -> Seq<char> {
    "/v1/completions is a stub and not implemented yet. Use /v1/chat/completions."@
}

/// Answers a request for the old completions, which the node does not serve.
pub fn completions<T>(state: &AppState<T>, header: &Option<Vec<u8>>) -> (reply: Reply)
    ensures
        if key_fits(opt_text(state.access_key), bearer_key(opt_bytes(*header))) {
            replies(reply, 200, Content::Error(stub_text()))
        } else {
            unauthorized(reply)
        },
{
    if !state.authorizes(header) {
        return Reply::error(401, "Invalid or missing access key");
    }
    Reply::error(
        200,
        "/v1/completions is a stub and not implemented yet. Use /v1/chat/completions.",
    )
}

/// Whenever the network settles a chat with a response, the client gets that response with
/// the status 200: the same id and the same messages, in the same order.
pub proof fn client_gets_the_providers_response(response: InferenceResponse, reply: Reply)
    requires
        call_ensures(chat_completions_finish, (Answer::Settled(Some(response)),), reply),
    ensures
        reply.status == 200,
        reply.body matches Body::Inference(told) && {
            &&& told.id@ == response.id@
            &&& told.choices@.len() == response.choices@.len()
            &&& forall|i: int|
                0 <= i < told.choices@.len() ==> (#[trigger] told.choices@[i]).message.role@
                    == response.choices@[i].message.role@ && told.choices@[i].message.content@
                    == response.choices@[i].message.content@
        },
{
    if let Body::Inference(told) = reply.body {
        response_is_seen_whole(told, response);
    }
}

/// A client whose chat gets no response is told whether the network part of the node is gone
/// or the request came to nothing.
pub proof fn client_is_told_of_a_missing_response(answer: Answer, reply: Reply)
    requires
        call_ensures(chat_completions_finish, (answer,), reply),
        !(answer matches Answer::Settled(Some(_))),
    ensures
        reply.status == 200,
        reply.body matches Body::Error(text) && text@ == if answer is ChannelClosed {
            "Network channel closed"@
        } else {
            "Request timed out or failed"@
        },
{
}

/// A client that wants a stream gets it as soon as the network took the command to open it.
pub proof fn client_gets_the_stream(sent: bool, reply: Reply)
    requires
        call_ensures(chat_completions_stream, (sent,), reply),
    ensures
        reply.status == 200,
        sent <==> reply.body is EventStream,
        !sent ==> (reply.body matches Body::Error(text) && text@ == "Network channel closed"@),
{
}

/// A chat goes, as it is, to the first provider that was found, for a stream exactly if the
/// client wants one. It goes to nobody where none was found or the lookup failed, and the
/// client is told so.
pub proof fn chat_goes_to_the_first_provider(chat: Chat, lookup: Lookup, route: ChatRoute)
    requires
        call_ensures(chat_completions_route, (chat, lookup), route),
    ensures
        route is Respond <==> !(lookup matches Lookup::Found(providers) && providers@.len() > 0),
        route is Stream ==> chat.request.stream == Some(true),
        route is Ask ==> chat.request.stream != Some(true),
        route matches ChatRoute::Stream { peer, request } ==> request == chat.request && peer@
            == lookup->Found_0@[0]@,
        route matches ChatRoute::Ask { peer, request } ==> request == chat.request && peer@
            == lookup->Found_0@[0]@,
        route matches ChatRoute::Respond(reply) ==> reply.status == 200 && (
        reply.body matches Body::Error(text) && text@ == match lookup {
            Lookup::ChannelClosed => "Network channel closed"@,
            Lookup::NoAnswer => "DHT query timed out or failed"@,
            Lookup::Found(_) => "No providers found for model "@ + chat.request.model@,
        }),
{
}

/// A client may use the API exactly if no key is asked for, or its header shows the one that
/// is.
pub proof fn api_opens_to_its_key<T>(
    state: AppState<T>,
    header: Option<Vec<u8>>,
    key: Option<String>,
    r: bool,
)
    requires
        call_ensures(provided_key, (&header,), key),
        call_ensures(AppState::<T>::authorizes, (&state, &header), r),
    ensures
        state.access_key is None ==> r,
        state.access_key matches Some(required) ==> r == (key matches Some(shown) && shown@
            == required@),
{
}

/// The local API asks for the key of the node's configuration and shows the backend's key of
/// the same.
pub proof fn api_takes_the_keys_of_the_node<T>(
    network_tx: T,
    provider: ProviderConfig,
    state: AppState<T>,
)
    requires
        call_ensures(AppState::<T>::new, (network_tx, &provider), state),
    ensures
        state.network_tx == network_tx,
        state.access_key is Some <==> provider.access_key is Some,
        provider.access_key matches Some(key) ==> state.access_key->0@ == key@,
        state.local_llm_api_key is Some <==> provider.local_llm_api_key is Some,
        provider.local_llm_api_key matches Some(key) ==> state.local_llm_api_key->0@ == key@,
{
}

/// A chat whose client does not show the key of the node is answered with the status 401 and
/// leaves the count as it is. Any other is judged by the guard, with the key that the client
/// shows: a refused one is answered with the reason, as an event where the client wants a
/// stream, and one that passes goes on, as the client wrote it and with its key, to a lookup
/// of its model.
pub proof fn chat_begins_as_the_guard_finds<T>(
    state: AppState<T>,
    judging: &mut Guard,
    guard: &mut Guard,
    header: Option<Vec<u8>>,
    payload: InferenceRequest,
    open: bool,
    now: u128,
    key: Option<String>,
    allowed: bool,
    judged: InferenceRequest,
    refusal: Option<Refusal>,
    reason: String,
    start: ChatStart,
)
    requires
        old(judging).config == old(guard).config,
        old(judging).log@ == old(guard).log@,
        call_ensures(provided_key, (&header,), key),
        call_ensures(AppState::<T>::authorizes, (&state, &header), allowed),
        judged.model == payload.model,
        judged.messages == payload.messages,
        judged.stream == payload.stream,
        judged.access_key == key,
        call_ensures(Guard::validate_request_when, (judging, &judged, open, now), refusal),
        refusal matches Some(r) ==> call_ensures(Refusal::reason, (&r,), reason),
        call_ensures(
            chat_completions_start_when::<T>,
            (&state, guard, &header, payload, open, now),
            start,
        ),
    ensures
        final(guard).config == old(guard).config,
        final(guard).log@ == if allowed {
            final(judging).log@
        } else {
            old(guard).log@
        },
        start is Lookup <==> allowed && refusal is None,
        start matches ChatStart::Respond(reply) ==> {
            &&& !allowed ==> reply.status == 401 && (reply.body matches Body::Error(text) && text@
                == "Invalid or missing access key"@)
            &&& allowed ==> reply.status == 200
            &&& allowed && payload.stream == Some(true) ==> (reply.body matches Body::Event(event)
                && event@ == "data: {\"error\": \""@ + reason@ + "\"}\n\n"@)
            &&& allowed && payload.stream != Some(true) ==> (reply.body matches Body::Error(text)
                && text@ == reason@)
        },
        start matches ChatStart::Lookup { model, chat } ==> {
            &&& model@ == payload.model@
            &&& chat.request.model@ == payload.model@
            &&& chat.request.stream == payload.stream
            &&& chat.request.access_key is Some <==> key is Some
            &&& key matches Some(shown) ==> chat.request.access_key->0@ == shown@
            &&& chat.request.messages@.len() == payload.messages@.len()
            &&& forall|i: int|
                0 <= i < payload.messages@.len() ==> chat.request.messages@[i].role@ == (
                #[trigger] payload.messages@[i]).role@ && chat.request.messages@[i].content@
                    == payload.messages@[i].content@
        },
{
    assert(judged@ =~= forwarded(payload@, opt_text(key)));
    if let ChatStart::Lookup { model, chat } = start {
        assert(chat.request@ == forwarded(payload@, opt_text(key)));
        assert(chat.request@.messages == payload@.messages);
        assert(chat.request@.messages.len() == chat.request.messages@.len());
        assert(payload@.messages.len() == payload.messages@.len());
        assert forall|i: int| 0 <= i < payload.messages@.len() implies chat.request.messages@[i].role@
            == (#[trigger] payload.messages@[i]).role@ && chat.request.messages@[i].content@
            == payload.messages@[i].content@ by {
            assert(chat.request@.messages[i] == chat.request.messages@[i]@);
            assert(payload@.messages[i] == payload.messages@[i]@);
        }
    }
}

/// A request for the list of models of a client that shows the key leads to a lookup of the
/// model that it names, and of `default-model` where it names none. Any other is answered
/// with the status 401.
pub proof fn list_looks_up_the_named_model<T>(
    state: AppState<T>,
    header: Option<Vec<u8>>,
    query: ModelQuery,
    allowed: bool,
    start: ListStart,
)
    requires
        call_ensures(AppState::<T>::authorizes, (&state, &header), allowed),
        call_ensures(list_models_start::<T>, (&state, &header, query), start),
    ensures
        allowed <==> start is Lookup,
        start matches ListStart::Lookup(model) ==> model@ == match query.model {
            Some(named) => named@,
            None => "default-model"@,
        },
        start matches ListStart::Respond(reply) ==> reply.status == 401 && (
        reply.body matches Body::Error(text) && text@ == "Invalid or missing access key"@),
{
}

/// The list has one ready entry for each provider that was found, in their order, and none
/// where the lookup brought none. The id of an entry is the model, `-via-` and the provider.
pub proof fn list_has_an_entry_for_each_provider(model: &str, lookup: Lookup, reply: Reply)
    requires
        call_ensures(list_models_finish, (model, lookup), reply),
    ensures
        reply.status == 200,
        reply.body matches Body::Models(response) && {
            &&& response.object@ == "list"@
            &&& !(lookup is Found) ==> response.data@.len() == 0
            &&& lookup matches Lookup::Found(providers) ==> response.data@.len()
                == providers@.len() && forall|i: int|
                0 <= i < providers@.len() ==> {
                    &&& (#[trigger] response.data@[i]).id@ == model@ + "-via-"@ + providers@[i]@
                    &&& response.data@[i].object@ == "model"@
                    &&& response.data@[i].ready
                }
        },
{
    if let Lookup::Found(providers) = lookup {
        let ids = listed_ids(model@, texts(providers@));
        assert(ids.len() == providers@.len());
        assert forall|i: int| 0 <= i < providers@.len() implies #[trigger] ids[i] == model@
            + "-via-"@ + providers@[i]@ by {
            assert(texts(providers@)[i] == providers@[i]@);
        }
        if let Body::Models(response) = reply.body {
            assert forall|i: int| 0 <= i < providers@.len() implies {
                &&& (#[trigger] response.data@[i]).id@ == model@ + "-via-"@ + providers@[i]@
                &&& response.data@[i].object@ == "model"@
                &&& response.data@[i].ready
            } by {
                assert(is_entry(response.data@[i], ids[i]));
            }
        }
    }
}

/// A client of the old completions that shows the key is told that they are not served, and
/// any other is answered with the status 401.
pub proof fn old_completions_are_not_served<T>(
    state: AppState<T>,
    header: Option<Vec<u8>>,
    allowed: bool,
    reply: Reply,
)
    requires
        call_ensures(AppState::<T>::authorizes, (&state, &header), allowed),
        call_ensures(completions::<T>, (&state, &header), reply),
    ensures
        reply.status == if allowed {
            200u16
        } else {
            401u16
        },
        reply.body matches Body::Error(text) && text@ == if allowed {
            "/v1/completions is a stub and not implemented yet. Use /v1/chat/completions."@
        } else {
            "Invalid or missing access key"@
        },
{
}

/// The first header of an answer names the form of its body. An answer that goes on as a
/// stream is besides not to be cached, and its connection is kept; no other has more headers.
pub proof fn headers_name_the_form_of_the_body(reply: Reply, headers: Vec<Header>)
    requires
        call_ensures(Reply::headers, (&reply,), headers),
    ensures
        headers@.len() == if reply.body is EventStream {
            3nat
        } else {
            1nat
        },
        headers@[0].name@ == "content-type"@,
        headers@[0].value@ == if reply.body is EventStream || reply.body is Event {
            "text/event-stream"@
        } else {
            "application/json"@
        },
        reply.body is EventStream ==> {
            &&& headers@[1].name@ == "cache-control"@ && headers@[1].value@ == "no-cache"@
            &&& headers@[2].name@ == "connection"@ && headers@[2].value@ == "keep-alive"@
        },
{
    let pairs = headers@.map_values(|h: Header| (h.name@, h.value@));
    assert(pairs.len() == headers@.len());
    assert(pairs == headers_of(reply.body));
    assert(pairs[0] == (headers@[0].name@, headers@[0].value@));
    if reply.body is EventStream {
        assert(pairs[1] == (headers@[1].name@, headers@[1].value@));
        assert(pairs[2] == (headers@[2].name@, headers@[2].value@));
    }
}

/// The clock decides nothing of a chat but whether it comes in the hours: it begins as one in
/// the hours or as one out of them, and always as one in them where there is no schedule.
pub proof fn clock_decides_the_hours_of_a_chat<T>(
    state: AppState<T>,
    guard: &mut Guard,
    within: &mut Guard,
    without: &mut Guard,
    header: Option<Vec<u8>>,
    payload: InferenceRequest,
    now: u128,
    start: ChatStart,
    in_hours: ChatStart,
    out_of_hours: ChatStart,
)
    requires
        old(within).config == old(guard).config && old(within).log@ == old(guard).log@,
        old(without).config == old(guard).config && old(without).log@ == old(guard).log@,
        call_ensures(
            chat_completions_start::<T>,
            (&state, guard, &header, payload, now),
            start,
        ),
        call_ensures(
            chat_completions_start_when::<T>,
            (&state, within, &header, payload, true, now),
            in_hours,
        ),
        call_ensures(
            chat_completions_start_when::<T>,
            (&state, without, &header, payload, false, now),
            out_of_hours,
        ),
    ensures
        final(guard).config == old(guard).config,
        ({
            let like = |p: ChatStart, q: ChatStart|
                match (p, q) {
                    (ChatStart::Respond(a), ChatStart::Respond(b)) => a.status == b.status && (
                    match (a.body, b.body) {
                        (Body::Error(x), Body::Error(y)) => x@ == y@,
                        (Body::Event(x), Body::Event(y)) => x@ == y@,
                        _ => false,
                    }),
                    (
                        ChatStart::Lookup { model: a, chat: x },
                        ChatStart::Lookup { model: b, chat: y },
                    ) => a@ == b@ && x.request@ == y.request@,
                    _ => false,
                };
            &&& like(start, in_hours) && final(guard).log@ == final(within).log@ || like(
                start,
                out_of_hours,
            ) && final(guard).log@ == final(without).log@
            &&& old(guard).config.schedule is None ==> like(start, in_hours) && final(guard).log@
                == final(within).log@
        }),
{
}

/// A client waits five seconds for the providers of a model and thirty for a response, and a
/// stream runs ahead of it by no more than 128 pieces.
pub proof fn client_waits_no_longer()
    ensures
        LOOKUP_SECONDS == 5,
        RESPONSE_SECONDS == 30,
        STREAM_BACKLOG == 128,
{
}

} // verus!
