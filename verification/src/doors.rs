//! What holds of a request wherever it comes in: from a peer for one answer, from a peer for
//! a stream, or from a client of the local API.

use crate::api::{
    begins, forwarded, goes_on, log_after, refusal_content, replies, unauthorized, Chat, ChatRoute,
    ChatStart, Content, Lookup,
};
use crate::backend::backend_of;
use crate::config::Policy;
use crate::guard::{judge, key_fits, refusal_text, Refusal, Verdict};
use crate::network::{error_response_of, InferenceRequest, Request};
use crate::relay::error_event_bytes;
use crate::router::{carries_out, CommandAction, NetworkCommand};
use crate::serve::{answers, fate, streams, RequestPlan, StreamPlan};
use crate::startup::{announced, provider_is_found_under_its_models};
use vstd::prelude::*;

verus! {

/// The access key, the schedule, the rate limit and the longest conversation bind alike at
/// every door. The same request, at the same time and after the same requests, is refused at
/// one door exactly if it is refused at the others, for the same reason, and it is counted at
/// one exactly if it is counted at the others. Only the form of the refusal differs: a
/// response, a server-sent event, or an answer of the local API, which has the status 401
/// where the key does not fit.
pub proof fn rules_bind_alike_at_every_door(
    policy: Policy,
    log: Seq<u128>,
    open: bool,
    now: u128,
    asked: InferenceRequest,
    payload: Request,
    key: Option<Seq<char>>,
    plan: RequestPlan,
    stream_plan: StreamPlan,
    start: ChatStart,
)
    requires
        asked@ == forwarded(payload, key),
        answers(plan, fate(policy, judge(policy, log, open, now, asked@)), asked),
        streams(stream_plan, fate(policy, judge(policy, log, open, now, asked@)), asked),
        begins(
            start,
            policy.access_key,
            key,
            payload,
            judge(policy, log, open, now, forwarded(payload, key)),
        ),
    ensures
        ({
            let verdict = judge(policy, log, open, now, asked@);
            &&& log_after(policy.access_key, key, log, verdict) == verdict.log
            &&& match verdict.refusal {
                Some(refusal) => {
                    let text = refusal_text(refusal);
                    &&& plan matches RequestPlan::Answer(response)
                    &&& response@ == error_response_of(text)
                    &&& stream_plan matches StreamPlan::Refuse(bytes)
                    &&& bytes@ == error_event_bytes(text)
                    &&& start matches ChatStart::Respond(reply)
                    &&& if refusal == Refusal::AccessKey {
                        replies(reply, 401, Content::Error(text))
                    } else {
                        replies(reply, 200, refusal_content(payload, text))
                    }
                },
                None => {
                    &&& start is Lookup
                    &&& backend_of(policy) is Some ==> plan is Forward && stream_plan is Forward
                },
            }
        }),
{
}

/// A request that is turned away for its key or for the hour is not counted against the rate
/// limit.
pub proof fn turned_away_is_not_counted(
    policy: Policy,
    log: Seq<u128>,
    open: bool,
    now: u128,
    request: Request,
)
    ensures
        ({
            let verdict = judge(policy, log, open, now, request);
            verdict.refusal == Some(Refusal::AccessKey) || verdict.refusal == Some(
                Refusal::OutOfHours,
            ) ==> verdict.log == log
        }),
{
}

/// The key that a client shows to its own node is the key that the provider sees: the
/// provider turns the request away for its key exactly if it asks for another one.
pub proof fn shown_key_reaches_the_provider(
    required: Option<Seq<char>>,
    key: Option<Seq<char>>,
    payload: Request,
    verdict: Verdict,
    start: ChatStart,
    chat: Chat,
    lookup: Lookup,
    route: ChatRoute,
    provider: Policy,
    log: Seq<u128>,
    open: bool,
    now: u128,
)
    requires
        begins(start, required, key, payload, verdict),
        start matches ChatStart::Lookup { model: _, chat: c } && c == chat,
        goes_on(route, chat, lookup),
    ensures
        match route {
            ChatRoute::Ask { peer: _, request } => {
                &&& request@ == forwarded(payload, key)
                &&& judge(provider, log, open, now, request@).refusal == Some(Refusal::AccessKey)
                    <==> provider.access_key is Some && provider.access_key != key
            },
            ChatRoute::Stream { peer: _, request } => {
                &&& request@ == forwarded(payload, key)
                &&& judge(provider, log, open, now, request@).refusal == Some(Refusal::AccessKey)
                    <==> provider.access_key is Some && provider.access_key != key
            },
            ChatRoute::Respond(_) => true,
        },
{
}

/// A client that does not show the key of its node is answered with the status 401, and its
/// request reaches neither the network nor the count.
pub proof fn wrong_key_goes_nowhere(
    required: Seq<char>,
    key: Option<Seq<char>>,
    payload: Request,
    log: Seq<u128>,
    verdict: Verdict,
    start: ChatStart,
)
    requires
        key != Some(required),
        begins(start, Some(required), key, payload, verdict),
    ensures
        start matches ChatStart::Respond(reply) && unauthorized(reply),
        log_after(Some(required), key, log, verdict) == log,
        !key_fits(Some(required), key),
{
}

/// A chat looks for the providers of the very model that the client asked for: the key that
/// is looked up is among those that a node with a backend announces exactly if that node
/// serves the model.
pub proof fn chat_finds_who_serves_its_model<P, R, C>(
    required: Option<Seq<char>>,
    key: Option<Seq<char>>,
    payload: Request,
    verdict: Verdict,
    start: ChatStart,
    model: String,
    chat: Chat,
    responder: P,
    action: CommandAction<P, R, C>,
    base: Seq<char>,
    models: Seq<Seq<char>>,
)
    requires
        begins(start, required, key, payload, verdict),
        start == (ChatStart::Lookup { model, chat }),
        carries_out(Some(NetworkCommand::GetProviders { model, responder }), action),
    ensures
        action matches CommandAction::Lookup { key: sought, responder: waiting } && waiting
            == responder && (announced(Some(base), models).contains(sought@) <==> models.contains(
            payload.model,
        )),
{
    provider_is_found_under_its_models(base, models, payload.model);
}

} // verus!
