//! The messages that nodes exchange.

use crate::text::opt_text;
use vstd::prelude::*;

verus! {

/// One message of a conversation.
#[derive(Debug, Clone, PartialEq, Eq)]
pub struct ChatMessage {
    pub role: String,
    pub content: String,
}

/// A conversation that asks a model for its next message.
#[derive(Debug, Clone, PartialEq, Eq)]
pub struct InferenceRequest {
    pub model: String,
    pub messages: Vec<ChatMessage>,
    pub stream: Option<bool>,
    pub access_key: Option<String>,
}

/// One message that a model offers.
#[derive(Debug, Clone, PartialEq, Eq)]
pub struct Choice {
    pub message: ChatMessage,
}

/// What a model answers.
#[derive(Debug, Clone, PartialEq, Eq)]
pub struct InferenceResponse {
    pub id: String,
    pub choices: Vec<Choice>,
}

/// A message as its texts.
pub struct Message {
    pub role: Seq<char>,
    pub content: Seq<char>,
}

/// A request as its texts.
#[verifier::ext_equal]
pub struct Request {
    pub model: Seq<char>,
    pub messages: Seq<Message>,
    pub stream: Option<bool>,
    pub access_key: Option<Seq<char>>,
}

/// A response as its texts.
#[verifier::ext_equal]
pub struct Response {
    pub id: Seq<char>,
    pub choices: Seq<Message>,
}

impl View for ChatMessage {
    type V = Message;

    open spec fn view(&self) -> Message {
        Message { role: self.role@, content: self.content@ }
    }
}

impl View for InferenceRequest {
    type V = Request;

    open spec fn view(&self) -> Request {
        Request {
            model: self.model@,
            messages: self.messages@.map_values(|m: ChatMessage| m@),
            stream: self.stream,
            access_key: opt_text(self.access_key),
        }
    }
}

impl View for InferenceResponse {
    type V = Response;

    open spec fn view(&self) -> Response {
        Response {
            id: self.id@,
            choices: self.choices@.map_values(|c: Choice| c.message@),
        }
    }
}

/// The response that tells a peer why it gets no answer.
pub open spec fn error_response_of(reason: Seq<char>) -> Response {
    Response { id: "error"@, choices: seq![Message { role: "system"@, content: reason }] }
}

/// Makes the response that tells a peer why it gets no answer.
pub fn error_response(reason: String) -> (response: InferenceResponse)
    ensures
        response@ == error_response_of(reason@),
{
    let message = ChatMessage { role: "system".to_owned(), content: reason };
    let mut choices: Vec<Choice> = Vec::new();
    choices.push(Choice { message });
    let response = InferenceResponse { id: "error".to_owned(), choices };
    assert(response@ =~= error_response_of(reason@));
    response
}

/// How many bytes the contents of a conversation take.
pub open spec fn context_bytes(messages: Seq<Message>) -> nat
    decreases messages.len(),
{
    if messages.len() == 0 {
        0
    } else {
        context_bytes(messages.drop_last()) + vstd::utf8::encode_utf8(
            messages.last().content,
        ).len()
    }
}

impl InferenceRequest {
    /// Counts the bytes that the contents of the conversation take. A count above
    /// `u64::MAX` is given as `u64::MAX`.
    pub fn context_length(&self) -> (length: u64)
        ensures
            context_bytes(self@.messages) <= u64::MAX ==> length == context_bytes(self@.messages),
            context_bytes(self@.messages) > u64::MAX ==> length == u64::MAX,
    {
        let ghost all = self@.messages;
        let mut length: u64 = 0;
        let mut i: usize = 0;
        assert(all.take(0) =~= Seq::empty());
        while i < self.messages.len()
            invariant
                i <= self.messages.len(),
                all == self@.messages,
                all.len() == self.messages.len(),
                length == (if context_bytes(all.take(i as int)) <= u64::MAX {
                    context_bytes(all.take(i as int))
                } else {
                    u64::MAX as nat
                }),
            decreases self.messages.len() - i,
        {
            let bytes: usize = self.messages[i].content.as_str().as_bytes().len();
            assert(all.take(i + 1).drop_last() =~= all.take(i as int));
            assert(all.take(i + 1).last() == self.messages[i as int]@);
            length = length.saturating_add(bytes as u64);
            i = i + 1;
        }
        assert(all.take(i as int) =~= all);
        length
    }
}

/// The bytes of a conversation are summed over its messages.
pub proof fn context_is_summed(views: Seq<Message>, messages: Seq<ChatMessage>)
    requires
        views.len() == messages.len(),
        forall|i: int| 0 <= i < views.len() ==> #[trigger] views[i] == messages[i]@,
    ensures
        context_bytes(views) == messages.fold_left(
            0int,
            |sum: int, m: ChatMessage| sum + vstd::utf8::encode_utf8(m.content@).len(),
        ),
    decreases views.len(),
{
    if views.len() > 0 {
        assert forall|i: int| 0 <= i < views.len() - 1 implies #[trigger] views.drop_last()[i]
            == messages.drop_last()[i]@ by {
            assert(views[i] == messages[i]@);
        }
        context_is_summed(views.drop_last(), messages.drop_last());
        assert(views[views.len() - 1] == messages[views.len() - 1]@);
    }
}

/// The length of a conversation is the sum of the bytes in UTF-8 of what each of its messages
/// says, as far as a `u64` counts.
pub proof fn conversation_is_counted_in_bytes(request: InferenceRequest, length: u64)
    requires
        call_ensures(InferenceRequest::context_length, (&request,), length),
    ensures
        ({
            let bytes = request.messages@.fold_left(
                0int,
                |sum: int, m: ChatMessage| sum + vstd::utf8::encode_utf8(m.content@).len(),
            );
            length == if bytes <= u64::MAX {
                bytes
            } else {
                u64::MAX as int
            }
        }),
{
    context_is_summed(request@.messages, request.messages@);
}

/// A request and its view say the same.
pub proof fn request_is_seen_whole(request: InferenceRequest)
    ensures
        request@.model == request.model@,
        request@.stream == request.stream,
        request@.messages.len() == request.messages@.len(),
        forall|i: int|
            0 <= i < request.messages@.len() ==> request@.messages[i].role == (
            #[trigger] request.messages@[i]).role@ && request@.messages[i].content
                == request.messages@[i].content@,
        request.access_key is None <==> request@.access_key is None,
        request.access_key matches Some(key) ==> request@.access_key == Some(key@),
{
}

/// Two responses with the same view have the same id and the same messages, in the same
/// order.
pub proof fn response_is_seen_whole(a: InferenceResponse, b: InferenceResponse)
    requires
        a@ == b@,
    ensures
        a.id@ == b.id@,
        a.choices@.len() == b.choices@.len(),
        forall|i: int|
            0 <= i < a.choices@.len() ==> (#[trigger] a.choices@[i]).message.role@
                == b.choices@[i].message.role@ && a.choices@[i].message.content@
                == b.choices@[i].message.content@,
{
    assert forall|i: int| 0 <= i < a.choices@.len() implies (
    #[trigger] a.choices@[i]).message.role@ == b.choices@[i].message.role@
        && a.choices@[i].message.content@ == b.choices@[i].message.content@ by {
        assert(a@.choices.len() == a.choices@.len());
        assert(b@.choices.len() == b.choices@.len());
        assert(a@.choices[i] == a.choices@[i].message@);
        assert(b@.choices[i] == b.choices@[i].message@);
    }
    assert(a@.choices.len() == a.choices@.len());
    assert(b@.choices.len() == b.choices@.len());
}

/// The response that tells of an error has the id `error` and one message, which the system
/// says and which is the reason as it was given.
pub proof fn error_is_told_as_it_is(reason: String, response: InferenceResponse)
    requires
        call_ensures(error_response, (reason,), response),
    ensures
        response.id@ == "error"@,
        response.choices@.len() == 1,
        response.choices@[0].message.role@ == "system"@,
        response.choices@[0].message.content@ == reason@,
{
    assert(response@.choices.len() == response.choices@.len());
    assert(response@.choices[0] == response.choices@[0].message@);
}

} // verus!
