//! The node's traffic with the network: what the local API asks of it, and who waits for
//! which answer.

use crate::network::{InferenceRequest, InferenceResponse};
use crate::peers::{
    id_bytes, model_key, parse_peer, peer_of_text, peer_texts, record_key, short_headers,
    write_peers,
};
use crate::text::texts;
use std::collections::HashMap;
use vstd::prelude::*;

verus! {

broadcast use vstd::std_specs::hash::group_hash_axioms;

/// What the local API asks of the network. `P` takes the providers of a model, `R` takes
/// a response, and `C` takes the pieces of a stream.
#[derive(Debug)]
pub enum NetworkCommand<P, R, C> {
    GetProviders { model: String, responder: P },
    SendInferenceRequest { peer: String, request: InferenceRequest, responder: R },
    OpenInferenceStream { peer: String, request: InferenceRequest, chunk_tx: C },
}

/// What the node does for a command.
pub enum CommandAction<P, R, C> {
    /// Look up the providers under this key; `responder` waits for them.
    Lookup { key: Vec<u8>, responder: P },
    /// Send the request to the peer with this id; `responder` waits for the response.
    Send { peer: Vec<u8>, request: InferenceRequest, responder: R },
    /// Tell `responder` that there is no response.
    Unsendable { responder: R },
    /// Open a stream to the peer with this id; `chunk_tx` takes its pieces.
    OpenStream { peer: Vec<u8>, request: InferenceRequest, chunk_tx: C },
    /// Let go of `chunk_tx`, which ends the client's stream.
    Unopenable { chunk_tx: C },
    /// Stop: no more commands will come.
    Shutdown,
}

/// Whether an action is the one that a command asks for.
pub open spec fn carries_out<P, R, C>(
    command: Option<NetworkCommand<P, R, C>>,
    action: CommandAction<P, R, C>,
) -> bool {
    match command {
        Some(NetworkCommand::GetProviders { model, responder }) => {
            &&& action matches CommandAction::Lookup { key, responder: waiting }
            &&& key@ == model_key(model@)
            &&& waiting == responder
        },
        Some(NetworkCommand::SendInferenceRequest { peer, request, responder }) => match peer_of_text(
            peer@,
        ) {
            Some(id) => {
                &&& action matches CommandAction::Send { peer: to, request: sent, responder: waiting }
                &&& to@ == id
                &&& sent == request
                &&& waiting == responder
            },
            None => action == CommandAction::<P, R, C>::Unsendable { responder },
        },
        Some(NetworkCommand::OpenInferenceStream { peer, request, chunk_tx }) => match peer_of_text(
            peer@,
        ) {
            Some(id) => {
                &&& action matches CommandAction::OpenStream { peer: to, request: sent, chunk_tx: tx }
                &&& to@ == id
                &&& sent == request
                &&& tx == chunk_tx
            },
            None => action == CommandAction::<P, R, C>::Unopenable { chunk_tx },
        },
        None => action == CommandAction::<P, R, C>::Shutdown,
    }
}

/// Decides what to do with a request for a peer, from the id that was read from the text
/// that names the peer.
pub fn route_request<P, R, C>(id: Option<Vec<u8>>, request: InferenceRequest, responder: R) -> (action:
    CommandAction<P, R, C>)
    ensures
        action == (match id {
            Some(peer) => CommandAction::<P, R, C>::Send { peer, request, responder },
            None => CommandAction::<P, R, C>::Unsendable { responder },
        }),
{
    match id {
        Some(peer) => CommandAction::Send { peer, request, responder },
        None => CommandAction::Unsendable { responder },
    }
}

/// Decides what to do with a request for a stream from a peer, from the id that was read
/// from the text that names the peer.
pub fn route_stream<P, R, C>(id: Option<Vec<u8>>, request: InferenceRequest, chunk_tx: C) -> (action:
    CommandAction<P, R, C>)
    ensures
        action == (match id {
            Some(peer) => CommandAction::<P, R, C>::OpenStream { peer, request, chunk_tx },
            None => CommandAction::<P, R, C>::Unopenable { chunk_tx },
        }),
{
    match id {
        Some(peer) => CommandAction::OpenStream { peer, request, chunk_tx },
        None => CommandAction::Unopenable { chunk_tx },
    }
}

/// Decides what to do for a command of the local API. No command means that the local API
/// is gone.
pub fn route_command<P, R, C>(command: Option<NetworkCommand<P, R, C>>) -> (action: CommandAction<
    P,
    R,
    C,
>)
    ensures
        carries_out(command, action),
{
    match command {
        Some(NetworkCommand::GetProviders { model, responder }) => CommandAction::Lookup {
            key: record_key(model.as_str()),
            responder,
        },
        Some(NetworkCommand::SendInferenceRequest { peer, request, responder }) => {
            route_request(parse_peer(peer.as_str()), request, responder)
        },
        Some(NetworkCommand::OpenInferenceStream { peer, request, chunk_tx }) => {
            route_stream(parse_peer(peer.as_str()), request, chunk_tx)
        },
        None => CommandAction::Shutdown,
    }
}

/// Those who wait for an answer from the network, under the number of what was asked.
pub struct Pending<V> {
    entries: HashMap<u64, V>,
}

impl<V> View for Pending<V> {
    type V = Map<u64, V>;

    closed spec fn view(&self) -> Map<u64, V> {
        self.entries@
    }
}

/// Who waits under `id`.
pub open spec fn waiting<V>(pending: Map<u64, V>, id: u64) -> Option<V> {
    if pending.contains_key(id) {
        Some(pending[id])
    } else {
        None
    }
}

impl<V> Pending<V> {
    /// Nobody waits.
    pub fn new() -> (pending: Pending<V>)
        ensures
            pending@ == Map::<u64, V>::empty(),
    {
        Pending { entries: HashMap::new() }
    }

    /// Lets `responder` wait under `id`, in place of whoever waited there.
    pub fn insert(&mut self, id: u64, responder: V)
        ensures
            final(self)@ == old(self)@.insert(id, responder),
    {
        self.entries.insert(id, responder);
    }

    /// Takes out who waits under `id`.
    pub fn remove(&mut self, id: u64) -> (responder: Option<V>)
        ensures
            final(self)@ == old(self)@.remove(id),
            responder == waiting(old(self)@, id),
    {
        let responder = self.entries.remove(&id);
        assert(self@ =~= old(self)@.remove(id));
        responder
    }
}

/// Who waits for providers, and who waits for responses.
pub struct Router<P, R> {
    pub queries: Pending<P>,
    pub requests: Pending<R>,
}

impl<P, R> Router<P, R> {
    /// Nobody waits.
    pub fn new() -> (router: Router<P, R>)
        ensures
            router.queries@ == Map::<u64, P>::empty(),
            router.requests@ == Map::<u64, R>::empty(),
    {
        Router { queries: Pending::new(), requests: Pending::new() }
    }

    /// A lookup was started under the number `id`, and `responder` waits for it.
    pub fn query_started(&mut self, id: u64, responder: P)
        ensures
            final(self).queries@ == old(self).queries@.insert(id, responder),
            final(self).requests@ == old(self).requests@,
    {
        self.queries.insert(id, responder);
    }

    /// The lookup `id` brought these providers. Gives who waits for them, if anyone still
    /// does, and the providers.
    pub fn query_settled(&mut self, id: u64, found: Vec<String>) -> (reply: Option<
        (P, Vec<String>),
    >)
        ensures
            final(self).queries@ == old(self).queries@.remove(id),
            final(self).requests@ == old(self).requests@,
            reply == (match waiting(old(self).queries@, id) {
                Some(responder) => Some((responder, found)),
                None => None,
            }),
    {
        match self.queries.remove(id) {
            Some(responder) => Some((responder, found)),
            None => None,
        }
    }

    /// The lookup `id` found the providers with these ids. Gives who waits for them, if
    /// anyone still does, and their texts, in the order in which they were found. Each text
    /// is read back as an id, and as the id of one of them where all the ids have short
    /// headers.
    pub fn providers_found(&mut self, id: u64, ids: &Vec<Vec<u8>>) -> (reply: Option<
        (P, Vec<String>),
    >)
        ensures
            final(self).queries@ == old(self).queries@.remove(id),
            final(self).requests@ == old(self).requests@,
            match waiting(old(self).queries@, id) {
                Some(responder) => reply matches Some((to, found)) && to == responder && texts(
                    found@,
                ) == peer_texts(id_bytes(ids@)),
                None => reply is None,
            },
            reply matches Some((to, found)) ==> forall|i: int|
                0 <= i < found@.len() ==> peer_of_text(#[trigger] found@[i]@) is Some,
            reply matches Some((to, found)) ==> short_headers(ids@) ==> forall|i: int|
                0 <= i < found@.len() ==> exists|j: int|
                    0 <= j < ids@.len() && peer_of_text(#[trigger] found@[i]@) == Some(
                        #[trigger] ids@[j]@,
                    ),
    {
        self.query_settled(id, write_peers(ids))
    }

    /// The lookup `id` failed. Gives who waits for it, if anyone still does, and no
    /// provider.
    pub fn providers_failed(&mut self, id: u64) -> (reply: Option<(P, Vec<String>)>)
        ensures
            final(self).queries@ == old(self).queries@.remove(id),
            final(self).requests@ == old(self).requests@,
            match waiting(old(self).queries@, id) {
                Some(responder) => reply matches Some((to, found)) && to == responder
                    && found@.len() == 0,
                None => reply is None,
            },
    {
        self.query_settled(id, Vec::new())
    }

    /// A request was sent under the number `id`, and `responder` waits for the response.
    pub fn request_sent(&mut self, id: u64, responder: R)
        ensures
            final(self).requests@ == old(self).requests@.insert(id, responder),
            final(self).queries@ == old(self).queries@,
    {
        self.requests.insert(id, responder);
    }

    /// The request `id` got a response, or failed. Gives who waits for it, if anyone still
    /// does, and the response.
    pub fn request_settled(&mut self, id: u64, response: Option<InferenceResponse>) -> (reply:
        Option<(R, Option<InferenceResponse>)>)
        ensures
            final(self).requests@ == old(self).requests@.remove(id),
            final(self).queries@ == old(self).queries@,
            reply == (match waiting(old(self).requests@, id) {
                Some(responder) => Some((responder, response)),
                None => None,
            }),
    {
        match self.requests.remove(id) {
            Some(responder) => Some((responder, response)),
            None => None,
        }
    }
}

/// What happens to those who wait: someone asks under a number, or the network settles
/// what was asked under it.
pub enum Happening<V> {
    Asked(u64, V),
    Settled(u64),
}

/// Those who still wait, and those who were answered, in the order of their answers.
pub struct Ledger<V> {
    pub pending: Map<u64, V>,
    pub answered: Seq<(u64, V)>,
}

/// What a course of happenings leaves where nobody waited before.
pub open spec fn ledger<V>(course: Seq<Happening<V>>) -> Ledger<V>
    decreases course.len(),
{
    if course.len() == 0 {
        Ledger { pending: Map::empty(), answered: Seq::empty() }
    } else {
        let before = ledger(course.drop_last());
        match course.last() {
            Happening::Asked(id, responder) => Ledger {
                pending: before.pending.insert(id, responder),
                answered: before.answered,
            },
            Happening::Settled(id) => Ledger {
                pending: before.pending.remove(id),
                answered: match waiting(before.pending, id) {
                    Some(responder) => before.answered.push((id, responder)),
                    None => before.answered,
                },
            },
        }
    }
}

/// Whether nobody asks under a number that was used before.
pub open spec fn fresh_numbers<V>(course: Seq<Happening<V>>) -> bool {
    forall|i: int, j: int|
        0 <= i < j < course.len() && #[trigger] course[i] is Asked && #[trigger] course[j] is Asked
            ==> course[i]->Asked_0 != course[j]->Asked_0
}

/// Everyone who is answered asked under that number, and, where no number is used twice,
/// nobody is answered twice.
pub proof fn each_asker_is_answered_once<V>(course: Seq<Happening<V>>)
    requires
        fresh_numbers(course),
    ensures
        forall|k: int|
            0 <= k < ledger(course).answered.len() ==> exists|i: int|
                0 <= i < course.len() && #[trigger] course[i] == Happening::Asked(
                    (#[trigger] ledger(course).answered[k]).0,
                    ledger(course).answered[k].1,
                ),
        forall|k: int, l: int|
            0 <= k < l < ledger(course).answered.len() ==> (#[trigger] ledger(
                course,
            ).answered[k]).0 != (#[trigger] ledger(course).answered[l]).0,
        forall|id: u64|
            #[trigger] ledger(course).pending.contains_key(id) ==> exists|i: int|
                0 <= i < course.len() && #[trigger] course[i] == Happening::Asked(
                    id,
                    ledger(course).pending[id],
                ),
        forall|id: u64, k: int|
            #![trigger ledger(course).pending.contains_key(id), ledger(course).answered[k]]
            ledger(course).pending.contains_key(id) && 0 <= k < ledger(course).answered.len()
                ==> ledger(course).answered[k].0 != id,
    decreases course.len(),
{
    if course.len() > 0 {
        let rest = course.drop_last();
        let n = course.len() - 1;
        assert forall|i: int, j: int|
            0 <= i < j < rest.len() && #[trigger] rest[i] is Asked
                && #[trigger] rest[j] is Asked implies rest[i]->Asked_0 != rest[j]->Asked_0 by {
            assert(rest[i] == course[i] && rest[j] == course[j]);
        }
        each_asker_is_answered_once(rest);
        let before = ledger(rest);
        let after = ledger(course);
        assert forall|k: int| 0 <= k < after.answered.len() implies exists|i: int|
            0 <= i < course.len() && #[trigger] course[i] == Happening::Asked(
                (#[trigger] after.answered[k]).0,
                after.answered[k].1,
            ) by {
            if k < before.answered.len() {
                assert(after.answered[k] == before.answered[k]);
                let i = choose|i: int|
                    0 <= i < rest.len() && #[trigger] rest[i] == Happening::Asked(
                        before.answered[k].0,
                        before.answered[k].1,
                    );
                assert(course[i] == rest[i]);
            } else {
                let id = after.answered[k].0;
                assert(before.pending.contains_key(id));
                let i = choose|i: int|
                    0 <= i < rest.len() && #[trigger] rest[i] == Happening::Asked(
                        id,
                        before.pending[id],
                    );
                assert(course[i] == rest[i]);
            }
        }
        assert forall|id: u64| #[trigger] after.pending.contains_key(id) implies exists|i: int|
            0 <= i < course.len() && #[trigger] course[i] == Happening::Asked(
                id,
                after.pending[id],
            ) by {
            if course[n] == Happening::Asked(id, after.pending[id]) {
            } else {
                assert(before.pending.contains_key(id));
                let i = choose|i: int|
                    0 <= i < rest.len() && #[trigger] rest[i] == Happening::Asked(
                        id,
                        before.pending[id],
                    );
                assert(course[i] == rest[i]);
            }
        }
        assert forall|id: u64, k: int|
            #![trigger after.pending.contains_key(id), after.answered[k]]
            after.pending.contains_key(id) && 0 <= k
                < after.answered.len() implies after.answered[k].0 != id by {
            if k < before.answered.len() {
                assert(after.answered[k] == before.answered[k]);
                if before.pending.contains_key(id) {
                } else {
                    let i = choose|i: int|
                        0 <= i < rest.len() && #[trigger] rest[i] == Happening::Asked(
                            before.answered[k].0,
                            before.answered[k].1,
                        );
                    assert(course[i] == rest[i]);
                    assert(course[n] is Asked);
                }
            }
        }
        assert forall|k: int, l: int|
            0 <= k < l < after.answered.len() implies (#[trigger] after.answered[k]).0 != (
        #[trigger] after.answered[l]).0 by {
            assert(after.answered[k] == before.answered[k]);
            if l < before.answered.len() {
                assert(after.answered[l] == before.answered[l]);
            } else {
                assert(before.pending.contains_key(after.answered[l].0));
            }
        }
    }
}

/// A request or a stream for a peer whose text stands for an id is handed to the peer with
/// that id. Every text that a lookup found stands for one.
pub proof fn found_provider_is_reached<P, R, C>(
    peer: String,
    id: Seq<u8>,
    request: InferenceRequest,
    responder: R,
    chunk_tx: C,
    sending: CommandAction<P, R, C>,
    opening: CommandAction<P, R, C>,
)
    requires
        peer_of_text(peer@) == Some(id),
        carries_out(
            Some(NetworkCommand::SendInferenceRequest { peer, request, responder }),
            sending,
        ),
        carries_out(Some(NetworkCommand::OpenInferenceStream { peer, request, chunk_tx }), opening),
    ensures
        sending matches CommandAction::Send { peer: to, request: sent, responder: waiting } && to@
            == id && sent == request && waiting == responder,
        opening matches CommandAction::OpenStream { peer: to, request: sent, chunk_tx: tx } && to@
            == id && sent == request && tx == chunk_tx,
{
}

/// A lookup is made under the name of the model in UTF-8, for the one who asked.
pub proof fn lookup_is_made_for_the_model<P, R, C>(
    model: String,
    responder: P,
    action: CommandAction<P, R, C>,
)
    requires
        call_ensures(
            route_command::<P, R, C>,
            (Some(NetworkCommand::<P, R, C>::GetProviders { model, responder }),),
            action,
        ),
    ensures
        action matches CommandAction::Lookup { key, responder: waiting } && key@
            == vstd::utf8::encode_utf8(model@) && waiting == responder,
{
}

/// A request goes, as it is, to the peer that the text names, and the one who asked waits for
/// the response. Where the text names no peer, the one who asked is told that there is none.
pub proof fn request_goes_to_the_named_peer<P, R, C>(
    peer: String,
    text: &str,
    id: Option<Vec<u8>>,
    request: InferenceRequest,
    responder: R,
    action: CommandAction<P, R, C>,
)
    requires
        text@ == peer@,
        call_ensures(parse_peer, (text,), id),
        call_ensures(
            route_command::<P, R, C>,
            (Some(NetworkCommand::<P, R, C>::SendInferenceRequest { peer, request, responder }),),
            action,
        ),
    ensures
        id matches Some(bytes) ==> (action matches CommandAction::Send {
            peer: to,
            request: sent,
            responder: waiting,
        } && to@ == bytes@ && sent == request && waiting == responder),
        id is None ==> (action matches CommandAction::Unsendable { responder: waiting } && waiting
            == responder),
{
}

/// A stream is opened to the peer that the text names, with the request as it is, for the one
/// who takes its pieces. Where the text names no peer, that one's stream ends.
pub proof fn stream_goes_to_the_named_peer<P, R, C>(
    peer: String,
    text: &str,
    id: Option<Vec<u8>>,
    request: InferenceRequest,
    chunk_tx: C,
    action: CommandAction<P, R, C>,
)
    requires
        text@ == peer@,
        call_ensures(parse_peer, (text,), id),
        call_ensures(
            route_command::<P, R, C>,
            (Some(NetworkCommand::<P, R, C>::OpenInferenceStream { peer, request, chunk_tx }),),
            action,
        ),
    ensures
        id matches Some(bytes) ==> (action matches CommandAction::OpenStream {
            peer: to,
            request: sent,
            chunk_tx: tx,
        } && to@ == bytes@ && sent == request && tx == chunk_tx),
        id is None ==> (action matches CommandAction::Unopenable { chunk_tx: tx } && tx
            == chunk_tx),
{
}

/// The node stops exactly when no more commands will come.
pub proof fn node_stops_when_commands_end<P, R, C>(
    command: Option<NetworkCommand<P, R, C>>,
    action: CommandAction<P, R, C>,
)
    requires
        call_ensures(route_command::<P, R, C>, (command,), action),
    ensures
        action is Shutdown <==> command is None,
{
}

/// What was read from the text of a peer decides alone where its request and its stream go.
pub proof fn read_id_decides<P, R, C>(
    id: Option<Vec<u8>>,
    request: InferenceRequest,
    responder: R,
    chunk_tx: C,
    sending: CommandAction<P, R, C>,
    opening: CommandAction<P, R, C>,
)
    requires
        call_ensures(route_request::<P, R, C>, (id, request, responder), sending),
        call_ensures(route_stream::<P, R, C>, (id, request, chunk_tx), opening),
    ensures
        id matches Some(bytes) ==> (sending matches CommandAction::Send {
            peer,
            request: sent,
            responder: waiting,
        } && peer@ == bytes@ && sent == request && waiting == responder),
        id matches Some(bytes) ==> (opening matches CommandAction::OpenStream {
            peer,
            request: sent,
            chunk_tx: tx,
        } && peer@ == bytes@ && sent == request && tx == chunk_tx),
        id is None ==> (sending matches CommandAction::Unsendable { responder: waiting } && waiting
            == responder),
        id is None ==> (opening matches CommandAction::Unopenable { chunk_tx: tx } && tx
            == chunk_tx),
{
}

/// The one who asked for a response gets the one that came under the same number, whatever it
/// is, and nobody gets it twice. Who waits under another number, and who waits for providers,
/// is left alone.
pub proof fn response_comes_to_who_asked<P, R>(
    asking: &mut Router<P, R>,
    settling: &mut Router<P, R>,
    again: &mut Router<P, R>,
    id: u64,
    other: u64,
    responder: R,
    response: Option<InferenceResponse>,
    late: Option<InferenceResponse>,
    reply: Option<(R, Option<InferenceResponse>)>,
    second: Option<(R, Option<InferenceResponse>)>,
)
    requires
        id != other,
        call_ensures(Router::<P, R>::request_sent, (asking, id, responder), ()),
        old(settling).requests@ == final(asking).requests@,
        old(settling).queries@ == final(asking).queries@,
        call_ensures(Router::<P, R>::request_settled, (settling, id, response), reply),
        old(again).requests@ == final(settling).requests@,
        call_ensures(Router::<P, R>::request_settled, (again, id, late), second),
    ensures
        reply == Some((responder, response)),
        second is None,
        final(settling).queries@ == old(asking).queries@,
        final(settling).requests@.contains_key(other) <==> old(asking).requests@.contains_key(
            other,
        ),
        old(asking).requests@.contains_key(other) ==> final(settling).requests@[other] == old(
            asking,
        ).requests@[other],
{
}

/// The one who asked for the providers of a model gets the texts of those that the lookup
/// under the same number found, and none where it failed; nobody is answered twice. Who waits
/// under another number, and who waits for a response, is left alone.
pub proof fn providers_come_to_who_asked<P, R>(
    asking: &mut Router<P, R>,
    finding: &mut Router<P, R>,
    failing: &mut Router<P, R>,
    again: &mut Router<P, R>,
    id: u64,
    other: u64,
    responder: P,
    ids: Vec<Vec<u8>>,
    texts: Vec<String>,
    found: Option<(P, Vec<String>)>,
    failed: Option<(P, Vec<String>)>,
    second: Option<(P, Vec<String>)>,
)
    requires
        id != other,
        call_ensures(Router::<P, R>::query_started, (asking, id, responder), ()),
        old(finding).queries@ == final(asking).queries@,
        old(finding).requests@ == final(asking).requests@,
        call_ensures(write_peers, (&ids,), texts),
        call_ensures(Router::<P, R>::providers_found, (finding, id, &ids), found),
        old(failing).queries@ == final(asking).queries@,
        call_ensures(Router::<P, R>::providers_failed, (failing, id), failed),
        old(again).queries@ == final(finding).queries@,
        call_ensures(Router::<P, R>::providers_failed, (again, id), second),
    ensures
        found matches Some((to, told)) && to == responder && told@.len() == texts@.len() && forall|
            i: int,
        |
            0 <= i < told@.len() ==> (#[trigger] told@[i])@ == texts@[i]@,
        failed matches Some((to, told)) && to == responder && told@.len() == 0,
        second is None,
        final(finding).requests@ == old(asking).requests@,
        final(finding).queries@.contains_key(other) <==> old(asking).queries@.contains_key(other),
        old(asking).queries@.contains_key(other) ==> final(finding).queries@[other] == old(
            asking,
        ).queries@[other],
{
    if let Some((to, told)) = found {
        let a = crate::text::texts(told@);
        let b = crate::text::texts(texts@);
        assert(a == b);
        assert(a.len() == told@.len() && b.len() == texts@.len());
        assert forall|i: int| 0 <= i < told@.len() implies (#[trigger] told@[i])@ == texts@[i]@ by {
            assert(a[i] == b[i]);
        }
    }
}

/// An answer under a number under which nobody waits goes to nobody and changes nothing.
pub proof fn unasked_answer_goes_nowhere<P, R>(
    queried: &mut Router<P, R>,
    requested: &mut Router<P, R>,
    id: u64,
    found: Vec<String>,
    response: Option<InferenceResponse>,
    providers: Option<(P, Vec<String>)>,
    reply: Option<(R, Option<InferenceResponse>)>,
)
    requires
        !old(queried).queries@.contains_key(id),
        !old(requested).requests@.contains_key(id),
        call_ensures(Router::<P, R>::query_settled, (queried, id, found), providers),
        call_ensures(Router::<P, R>::request_settled, (requested, id, response), reply),
    ensures
        providers is None && reply is None,
        final(queried).queries@ == old(queried).queries@,
        final(requested).requests@ == old(requested).requests@,
{
    assert(old(queried).queries@.remove(id) =~= old(queried).queries@);
    assert(old(requested).requests@.remove(id) =~= old(requested).requests@);
}

/// In a new router nobody waits.
pub proof fn nobody_waits_at_first<P, R>(router: Router<P, R>, id: u64)
    requires
        call_ensures(Router::<P, R>::new, (), router),
    ensures
        !router.queries@.contains_key(id),
        !router.requests@.contains_key(id),
{
}

} // verus!
