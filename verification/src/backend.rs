//! The local model server that a provider hands requests to.

use crate::config::{Policy, ProviderConfig};
use crate::network::{
    error_response, error_response_of, response_is_seen_whole, InferenceResponse, Response,
};
use crate::text::{join, opt_text, trim_trailing, without_trailing};
use vstd::prelude::*;
use vstd::string::*;

verus! {

/// Where a request is posted, and the `Authorization` header that goes with it.
#[derive(Debug, Clone, PartialEq, Eq)]
pub struct Backend {
    pub url: String,
    pub authorization: Option<String>,
}

/// A backend as its texts.
pub struct Target {
    pub url: Seq<char>,
    pub authorization: Option<Seq<char>>,
}

impl View for Backend {
    type V = Target;

    open spec fn view(&self) -> Target {
        Target { url: self.url@, authorization: opt_text(self.authorization) }
    }
}

/// The address for chat completions under the base address of a model server.
pub open spec fn completions_url(base: Seq<char>) -> Seq<char> {
    without_trailing(base, '/') + "/chat/completions"@
}

/// The backend that a configuration names.
pub open spec fn backend_of(policy: Policy) -> Option<Target> {
    match policy.local_llm {
        Some(base) => Some(
            Target {
                url: completions_url(base),
                authorization: match policy.local_llm_api_key {
                    Some(key) => Some("Bearer "@ + key),
                    None => None,
                },
            },
        ),
        None => None,
    }
}

impl ProviderConfig {
    /// The backend that the configuration names.
    pub fn backend(&self) -> (backend: Option<Backend>)
        ensures
            backend_of(self@) == (match backend {
                Some(b) => Some(b@),
                None => None,
            }),
    {
        match &self.local_llm {
            Some(base) => {
                let url = join(trim_trailing(base.as_str(), '/'), "/chat/completions");
                let authorization = match &self.local_llm_api_key {
                    Some(key) => Some(join("Bearer ", key.as_str())),
                    None => None,
                };
                Some(Backend { url, authorization })
            },
            None => None,
        }
    }
}

/// How a post to the backend went.
pub enum BackendOutcome {
    /// It could not be reached, for the reason that the text tells.
    Unreachable(String),
    /// It answered something that is no response.
    Unreadable,
    /// It answered.
    Answered(InferenceResponse),
}

/// What a failed post to the backend is told as.
pub open spec fn unreachable_text(reason: Seq<char>) -> Seq<char> {
    "Backend Error: "@ + reason
}

/// What a peer is answered when the post to the backend went so.
pub open spec fn reply_of(outcome: BackendOutcome) -> Response {
    match outcome {
        BackendOutcome::Unreachable(reason) => error_response_of(unreachable_text(reason@)),
        BackendOutcome::Unreadable => error_response_of("Invalid response from backend"@),
        BackendOutcome::Answered(response) => response@,
    }
}

/// Makes the answer to a peer from how the post to the backend went.
pub fn backend_reply(outcome: BackendOutcome) -> (response: InferenceResponse)
    ensures
        response@ == reply_of(outcome),
{
    match outcome {
        BackendOutcome::Unreachable(reason) => error_response(
            join("Backend Error: ", reason.as_str()),
        ),
        BackendOutcome::Unreadable => error_response("Invalid response from backend".to_owned()),
        BackendOutcome::Answered(response) => response,
    }
}

/// Slashes at the end of a base address make no difference.
pub proof fn trailing_slash_is_ignored(base: Seq<char>)
    ensures
        completions_url(base.push('/')) == completions_url(base),
{
    assert(base.push('/').drop_last() =~= base);
}

/// Where the backend answered, the peer gets exactly that answer: the same id and the same
/// messages, in the same order.
pub proof fn peer_gets_the_backends_answer(answer: InferenceResponse, response: InferenceResponse)
    requires
        call_ensures(backend_reply, (BackendOutcome::Answered(answer),), response),
    ensures
        response.id@ == answer.id@,
        response.choices@.len() == answer.choices@.len(),
        forall|i: int|
            0 <= i < response.choices@.len() ==> (#[trigger] response.choices@[i]).message.role@
                == answer.choices@[i].message.role@ && response.choices@[i].message.content@
                == answer.choices@[i].message.content@,
{
    response_is_seen_whole(response, answer);
}

/// Where the backend could not be reached, or gave no readable answer, the peer gets an error
/// with one message of the system that says so, and why.
pub proof fn peer_is_told_of_a_failed_backend(
    reason: String,
    unreached: InferenceResponse,
    unread: InferenceResponse,
)
    requires
        call_ensures(backend_reply, (BackendOutcome::Unreachable(reason),), unreached),
        call_ensures(backend_reply, (BackendOutcome::Unreadable,), unread),
    ensures
        unreached.id@ == "error"@ && unread.id@ == "error"@,
        unreached.choices@.len() == 1 && unread.choices@.len() == 1,
        unreached.choices@[0].message.role@ == "system"@ && unread.choices@[0].message.role@
            == "system"@,
        unreached.choices@[0].message.content@ == "Backend Error: "@ + reason@,
        unread.choices@[0].message.content@ == "Invalid response from backend"@,
{
    assert(unreached@.choices.len() == unreached.choices@.len());
    assert(unreached@.choices[0] == unreached.choices@[0].message@);
    assert(unread@.choices.len() == unread.choices@.len());
    assert(unread@.choices[0] == unread.choices@[0].message@);
}

/// A node has a backend exactly if its configuration names one. Requests are posted to the
/// chat completions under the address that is named, less the slashes at its end, with the
/// backend's own key where the configuration has one, and with none where it has none.
pub proof fn backend_is_the_one_configured(
    config: ProviderConfig,
    base: &str,
    trimmed: &str,
    backend: Option<Backend>,
)
    requires
        config.local_llm matches Some(address) ==> base@ == address@,
        call_ensures(trim_trailing, (base, '/'), trimmed),
        call_ensures(ProviderConfig::backend, (&config,), backend),
    ensures
        backend is Some <==> config.local_llm is Some,
        backend matches Some(b) ==> b.url@ == trimmed@ + "/chat/completions"@,
        backend matches Some(b) ==> (b.authorization is Some
            <==> config.local_llm_api_key is Some),
        backend matches Some(b) ==> (config.local_llm_api_key matches Some(key) ==> (
        b.authorization matches Some(header) && header@ == "Bearer "@ + key@)),
{
    if backend is Some {
        assert(backend_of(config@) == Some(backend->0@));
    }
}

} // verus!
