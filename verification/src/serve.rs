//! What a provider does with a request that a peer sends to it.

use crate::backend::{backend_of, Backend, Target};
use crate::clock::TimeOfDay;
use crate::config::{open_at, Policy, ProviderConfig};
use crate::guard::{judge, refusal_text, Guard, Refusal, Verdict};
use crate::network::{error_response, error_response_of, InferenceRequest, InferenceResponse};
use crate::relay::{error_event_bytes, error_frame_bytes};
use crate::text::opt_text;
use vstd::prelude::*;
use vstd::utf8::encode_utf8;

verus! {

/// What a peer is told by a node without a backend.
pub open spec fn no_backend_text() -> Seq<char> {
    "Provider has no compute backend configured."@
}

/// What becomes of a request: it is handed to the backend, or refused for the reason
/// that the text tells.
pub enum Fate {
    Forward(Target),
    Refuse(Seq<char>),
}

/// What becomes of a request on which the guard has found `verdict`.
pub open spec fn fate(policy: Policy, verdict: Verdict) -> Fate {
    match verdict.refusal {
        Some(refusal) => Fate::Refuse(refusal_text(refusal)),
        None => match backend_of(policy) {
            Some(target) => Fate::Forward(target),
            None => Fate::Refuse(no_backend_text()),
        },
    }
}

/// What a node does with a request for one answer.
pub enum RequestPlan {
    /// Answer with this response.
    Answer(InferenceResponse),
    /// Post the request to the backend.
    Forward { backend: Backend, request: InferenceRequest },
}

/// What a node does with a request for a stream.
pub enum StreamPlan {
    /// Write these bytes and close the stream.
    Refuse(Vec<u8>),
    /// Post the request to the backend.
    Forward { backend: Backend, request: InferenceRequest },
}

/// Whether a plan for one answer is what becomes of a request.
pub open spec fn answers(plan: RequestPlan, fate: Fate, asked: InferenceRequest) -> bool {
    match fate {
        Fate::Forward(target) => plan matches RequestPlan::Forward { backend, request } && backend@
            == target && request == asked,
        Fate::Refuse(text) => plan matches RequestPlan::Answer(response) && response@
            == error_response_of(text),
    }
}

/// Whether a plan for a stream is what becomes of a request.
pub open spec fn streams(plan: StreamPlan, fate: Fate, asked: InferenceRequest) -> bool {
    match fate {
        Fate::Forward(target) => plan matches StreamPlan::Forward { backend, request } && backend@
            == target && request == asked,
        Fate::Refuse(text) => plan matches StreamPlan::Refuse(bytes) && bytes@
            == error_event_bytes(text),
    }
}

impl Guard {
    /// Plans what to do with a peer's request that comes in at `now`, given whether the
    /// schedule has the node open.
    pub fn serve_request_when(&mut self, request: InferenceRequest, open: bool, now: u128) -> (plan:
        RequestPlan)
        ensures
            final(self).config == old(self).config,
            ({
                let verdict = judge(old(self).config@, old(self).log@, open, now, request@);
                &&& final(self).log@ == verdict.log
                &&& answers(plan, fate(old(self).config@, verdict), request)
            }),
    {
        match self.validate_request_when(&request, open, now) {
            Some(refusal) => RequestPlan::Answer(error_response(refusal.reason())),
            None => match self.config.backend() {
                Some(backend) => RequestPlan::Forward { backend, request },
                None => RequestPlan::Answer(
                    error_response("Provider has no compute backend configured.".to_owned()),
                ),
            },
        }
    }

    /// Plans what to do with a peer's request that comes in at `now`, at the time of day
    /// that the machine's clock shows.
    pub fn serve_request(&mut self, request: InferenceRequest, now: u128) -> (plan: RequestPlan)
        ensures
            final(self).config == old(self).config,
            exists|time: TimeOfDay|
                {
                    let open = #[trigger] open_at(old(self).config@.hours, time);
                    let verdict = judge(old(self).config@, old(self).log@, open, now, request@);
                    &&& time.well_formed()
                    &&& final(self).log@ == verdict.log
                    &&& answers(plan, fate(old(self).config@, verdict), request)
                },
    {
        let open = self.config.is_within_schedule();
        self.serve_request_when(request, open, now)
    }

    /// Plans what to do with the request on a stream that a peer opened, given whether
    /// the schedule has the node open.
    pub fn serve_stream_when(&mut self, request: InferenceRequest, open: bool, now: u128) -> (plan:
        StreamPlan)
        ensures
            final(self).config == old(self).config,
            ({
                let verdict = judge(old(self).config@, old(self).log@, open, now, request@);
                &&& final(self).log@ == verdict.log
                &&& streams(plan, fate(old(self).config@, verdict), request)
            }),
    {
        match self.validate_request_when(&request, open, now) {
            Some(refusal) => {
                let text = refusal.reason();
                StreamPlan::Refuse(error_frame_bytes(text.as_str()))
            },
            None => match self.config.backend() {
                Some(backend) => StreamPlan::Forward { backend, request },
                None => StreamPlan::Refuse(
                    error_frame_bytes("Provider has no compute backend configured."),
                ),
            },
        }
    }

    /// Plans what to do with the request on a stream that a peer opened, at the time of
    /// day that the machine's clock shows.
    pub fn serve_stream(&mut self, request: InferenceRequest, now: u128) -> (plan: StreamPlan)
        ensures
            final(self).config == old(self).config,
            exists|time: TimeOfDay|
                {
                    let open = #[trigger] open_at(old(self).config@.hours, time);
                    let verdict = judge(old(self).config@, old(self).log@, open, now, request@);
                    &&& time.well_formed()
                    &&& final(self).log@ == verdict.log
                    &&& streams(plan, fate(old(self).config@, verdict), request)
                },
    {
        let open = self.config.is_within_schedule();
        self.serve_stream_when(request, open, now)
    }
}

/// A request that the guard refuses never reaches the backend, whether it asks for one
/// answer or for a stream: the peer is told why.
pub proof fn refused_request_is_told_why(
    policy: Policy,
    verdict: Verdict,
    asked: InferenceRequest,
    plan: RequestPlan,
    stream_plan: StreamPlan,
)
    requires
        verdict.refusal is Some,
        answers(plan, fate(policy, verdict), asked),
        streams(stream_plan, fate(policy, verdict), asked),
    ensures
        plan matches RequestPlan::Answer(response) && response@ == error_response_of(
            refusal_text(verdict.refusal->0),
        ),
        stream_plan matches StreamPlan::Refuse(bytes) && bytes@ == error_event_bytes(
            refusal_text(verdict.refusal->0),
        ),
{
}

/// A peer's request is served as the guard finds it. A refused one is answered with an error
/// that names the reason and is never posted; one that passes is posted to the backend as it
/// came; and where there is no backend, the peer is told so. Either way the guard counts what
/// it counts.
pub proof fn peers_request_goes_as_the_guard_finds(
    judging: &mut Guard,
    serving: &mut Guard,
    request: InferenceRequest,
    open: bool,
    now: u128,
    refusal: Option<Refusal>,
    reason: String,
    backend: Option<Backend>,
    plan: RequestPlan,
)
    requires
        old(judging).config == old(serving).config,
        old(judging).log@ == old(serving).log@,
        call_ensures(Guard::validate_request_when, (judging, &request, open, now), refusal),
        refusal matches Some(r) ==> call_ensures(Refusal::reason, (&r,), reason),
        call_ensures(ProviderConfig::backend, (&old(serving).config,), backend),
        call_ensures(Guard::serve_request_when, (serving, request, open, now), plan),
    ensures
        final(serving).log@ == final(judging).log@,
        final(serving).config == old(serving).config,
        refusal is None && backend is Some <==> plan is Forward,
        plan matches RequestPlan::Forward { backend: to, request: posted } ==> posted == request
            && to.url@ == backend->0.url@ && opt_text(to.authorization) == opt_text(
            backend->0.authorization,
        ),
        plan matches RequestPlan::Answer(response) ==> {
            &&& response.id@ == "error"@
            &&& response.choices@.len() == 1
            &&& response.choices@[0].message.role@ == "system"@
            &&& response.choices@[0].message.content@ == if refusal is Some {
                reason@
            } else {
                "Provider has no compute backend configured."@
            }
        },
{
    if let RequestPlan::Answer(response) = plan {
        assert(response@.choices.len() == response.choices@.len());
        assert(response@.choices[0] == response.choices@[0].message@);
    }
}

/// The request on a peer's stream is served as the guard finds it, like one for one answer.
/// Only the form of a refusal differs: it is a server-sent event with the same reason.
pub proof fn peers_stream_goes_as_the_guard_finds(
    judging: &mut Guard,
    serving: &mut Guard,
    request: InferenceRequest,
    open: bool,
    now: u128,
    refusal: Option<Refusal>,
    reason: String,
    backend: Option<Backend>,
    plan: StreamPlan,
)
    requires
        old(judging).config == old(serving).config,
        old(judging).log@ == old(serving).log@,
        call_ensures(Guard::validate_request_when, (judging, &request, open, now), refusal),
        refusal matches Some(r) ==> call_ensures(Refusal::reason, (&r,), reason),
        call_ensures(ProviderConfig::backend, (&old(serving).config,), backend),
        call_ensures(Guard::serve_stream_when, (serving, request, open, now), plan),
    ensures
        final(serving).log@ == final(judging).log@,
        final(serving).config == old(serving).config,
        refusal is None && backend is Some <==> plan is Forward,
        plan matches StreamPlan::Forward { backend: to, request: posted } ==> posted == request
            && to.url@ == backend->0.url@ && opt_text(to.authorization) == opt_text(
            backend->0.authorization,
        ),
        plan matches StreamPlan::Refuse(bytes) ==> bytes@ == encode_utf8(
            "data: {\"error\": \""@ + (if refusal is Some {
                reason@
            } else {
                "Provider has no compute backend configured."@
            }) + "\"}\n\n"@,
        ),
{
}

/// The clock decides nothing of a peer's request but whether it comes in the hours: it is
/// served as one in the hours or as one out of them, and always as one in them where there is
/// no schedule.
pub proof fn clock_decides_the_hours_of_a_request(
    guard: &mut Guard,
    within: &mut Guard,
    without: &mut Guard,
    request: InferenceRequest,
    now: u128,
    plan: RequestPlan,
    in_hours: RequestPlan,
    out_of_hours: RequestPlan,
)
    requires
        old(within).config == old(guard).config && old(within).log@ == old(guard).log@,
        old(without).config == old(guard).config && old(without).log@ == old(guard).log@,
        call_ensures(Guard::serve_request, (guard, request, now), plan),
        call_ensures(Guard::serve_request_when, (within, request, true, now), in_hours),
        call_ensures(Guard::serve_request_when, (without, request, false, now), out_of_hours),
    ensures
        final(guard).config == old(guard).config,
        ({
            let like = |p: RequestPlan, q: RequestPlan|
                match (p, q) {
                    (RequestPlan::Answer(a), RequestPlan::Answer(b)) => a@ == b@,
                    (
                        RequestPlan::Forward { backend: a, request: x },
                        RequestPlan::Forward { backend: b, request: y },
                    ) => a@ == b@ && x == y,
                    _ => false,
                };
            &&& like(plan, in_hours) && final(guard).log@ == final(within).log@ || like(
                plan,
                out_of_hours,
            ) && final(guard).log@ == final(without).log@
            &&& old(guard).config.schedule is None ==> like(plan, in_hours) && final(guard).log@
                == final(within).log@
        }),
{
}

/// The clock decides nothing of a peer's stream but whether it comes in the hours, like for a
/// request for one answer.
pub proof fn clock_decides_the_hours_of_a_stream(
    guard: &mut Guard,
    within: &mut Guard,
    without: &mut Guard,
    request: InferenceRequest,
    now: u128,
    plan: StreamPlan,
    in_hours: StreamPlan,
    out_of_hours: StreamPlan,
)
    requires
        old(within).config == old(guard).config && old(within).log@ == old(guard).log@,
        old(without).config == old(guard).config && old(without).log@ == old(guard).log@,
        call_ensures(Guard::serve_stream, (guard, request, now), plan),
        call_ensures(Guard::serve_stream_when, (within, request, true, now), in_hours),
        call_ensures(Guard::serve_stream_when, (without, request, false, now), out_of_hours),
    ensures
        final(guard).config == old(guard).config,
        ({
            let like = |p: StreamPlan, q: StreamPlan|
                match (p, q) {
                    (StreamPlan::Refuse(a), StreamPlan::Refuse(b)) => a@ == b@,
                    (
                        StreamPlan::Forward { backend: a, request: x },
                        StreamPlan::Forward { backend: b, request: y },
                    ) => a@ == b@ && x == y,
                    _ => false,
                };
            &&& like(plan, in_hours) && final(guard).log@ == final(within).log@ || like(
                plan,
                out_of_hours,
            ) && final(guard).log@ == final(without).log@
            &&& old(guard).config.schedule is None ==> like(plan, in_hours) && final(guard).log@
                == final(within).log@
        }),
{
}

} // verus!
