//! How a listen request is answered, from its head to the work it asks for.

use std::sync::Arc;

use vstd::prelude::*;

use crate::error::Error;
use crate::header::text_or;
use crate::listen::{parse_listen_params, texts, ListenParams, ListenParamsError};
use crate::reply_laws::{puts_off, says, tells_failure};
use crate::request::{
    BodyAction, BodyCall, ListenCall, ModelCall, PendingCall, ReadyModel, RequestHead,
    SocketAction, UpgradeCall,
};
use crate::service::TranscribeService;
use crate::text_laws::{
    holds, lemma_begins, lemma_occurs_in, lemma_spelled, lemma_text_of, printable, same_letter,
    spells,
};

verus! {

/// The request asks for a web socket: its upgrade header spells it, in whatever case.
pub open spec fn asks_for_socket(head: RequestHead) -> bool {
    head.upgrade is Some && spells(head.upgrade->0@, "websocket"@)
}

/// The text is that of the header, or the default where the header is missing or cannot be shown.
pub open spec fn reads(value: Option<Vec<u8>>, default: Seq<char>, text: Seq<char>) -> bool {
    if value is Some && printable(value->0@) {
        text.len() == value->0@.len() && forall|i: int|
            0 <= i < text.len() ==> #[trigger] text[i] as int == value->0@[i]
    } else {
        text == default
    }
}

/// Two sets of parameters ask for the same.
pub open spec fn same_params(a: ListenParams, b: ListenParams) -> bool {
    &&& a.channels == b.channels
    &&& a.sample_rate == b.sample_rate
    &&& a.languages@.len() == b.languages@.len()
    &&& a.keywords@.len() == b.keywords@.len()
    &&& forall|i: int|
        0 <= i < a.languages@.len() ==> #[trigger] a.languages@[i]@ == b.languages@[i]@
    &&& forall|i: int|
        0 <= i < a.keywords@.len() ==> #[trigger] a.keywords@[i]@ == b.keywords@[i]@
}

pub(crate) proof fn lemma_same_params(a: ListenParams, b: ListenParams)
    requires
        a@ == b@,
    ensures
        same_params(a, b),
{
    assert(texts(a.languages@).len() == texts(b.languages@).len());
    assert(texts(a.keywords@).len() == texts(b.keywords@).len());
    assert forall|i: int| 0 <= i < a.languages@.len() implies #[trigger] a.languages@[i]@
        == b.languages@[i]@ by {
        assert(texts(a.languages@)[i] == texts(b.languages@)[i]);
    }
    assert forall|i: int| 0 <= i < a.keywords@.len() implies #[trigger] a.keywords@[i]@
        == b.keywords@[i]@ by {
        assert(texts(a.keywords@)[i] == texts(b.keywords@)[i]);
    }
}

proof fn lemma_socket(head: RequestHead)
    ensures
        head.wants_socket() <==> asks_for_socket(head),
{
    reveal_strlit("websocket");
    if let Some(bytes) = head.upgrade {
        lemma_spelled(bytes@, "websocket"@);
    }
}

proof fn lemma_reads(value: Option<Vec<u8>>, default: Seq<char>)
    ensures
        reads(value, default, text_or(value, default)),
{
    if let Some(bytes) = value {
        lemma_text_of(bytes@);
    }
}

/// A request is for a web socket exactly where its upgrade header says so, whatever its other
/// headers and its query. Its parameters, its content type and what it accepts are those it names;
/// a query that does not do is answered at once, as a bad request, with what is wrong.
pub proof fn law_with_params(
    head: &RequestHead,
    params: Result<ListenParams, ListenParamsError>,
    call: ListenCall,
    message: String,
)
    requires
        call_ensures(ListenCall::with_params, (head, params), call),
        params is Err ==> call_ensures(
            ListenParamsError::message,
            (&params->Err_0,),
            message,
        ),
    ensures
        call is NeedsModel <==> params is Ok,
        call matches ListenCall::Answered(reply) ==> says(reply, 400, message@),
        call matches ListenCall::NeedsModel(pending) ==> {
            &&& pending.is_ws <==> asks_for_socket(*head)
            &&& same_params(pending.params, params->Ok_0)
            &&& reads(head.content_type, "application/octet-stream"@, pending.content_type@)
            &&& reads(head.accept, ""@, pending.accept@)
        },
{
    lemma_socket(*head);
    lemma_reads(head.content_type, "application/octet-stream"@);
    lemma_reads(head.accept, ""@);
    if let ListenCall::NeedsModel(pending) = call {
        lemma_same_params(pending.params, params->Ok_0);
    }
}

/// Two requests with the same upgrade header are both for a web socket or neither is.
pub proof fn law_upgrade_header_decides(
    head: &RequestHead,
    other: &RequestHead,
    call: ListenCall,
    other_call: ListenCall,
    params: Result<ListenParams, ListenParamsError>,
    other_params: Result<ListenParams, ListenParamsError>,
)
    requires
        head.upgrade is Some <==> other.upgrade is Some,
        head.upgrade is Some ==> head.upgrade->0@ == other.upgrade->0@,
        call_ensures(ListenCall::with_params, (head, params), call),
        call_ensures(ListenCall::with_params, (other, other_params), other_call),
    ensures
        call is NeedsModel && other_call is NeedsModel ==> call->NeedsModel_0.is_ws
            == other_call->NeedsModel_0.is_ws,
{
    lemma_socket(*head);
    lemma_socket(*other);
}

/// The word itself, in lower or upper case or in both, asks for a web socket; nothing longer or
/// shorter does.
pub proof fn law_socket_is_asked_for_by_name(head: &RequestHead, bytes: Vec<u8>)
    requires
        head.upgrade == Some(bytes),
    ensures
        bytes@.len() != 9 ==> !asks_for_socket(*head),
        bytes@.len() == 9 && (forall|i: int|
            0 <= i < 9 ==> #[trigger] bytes@[i] as int == "websocket"@[i] as int) ==> asks_for_socket(
            *head,
        ),
        asks_for_socket(*head) == head.wants_socket(),
{
    reveal_strlit("websocket");
    lemma_socket(*head);
    if bytes@.len() == 9 && forall|i: int|
        0 <= i < 9 ==> #[trigger] bytes@[i] as int == "websocket"@[i] as int {
        assert forall|i: int| 0 <= i < bytes@.len() implies same_letter(
            #[trigger] bytes@[i] as char,
            "websocket"@[i],
        ) by {
            assert(bytes@[i] as int == "websocket"@[i] as int);
        }
    }
}

/// The head of a request is read with its own query, which is empty where there is none.
pub proof fn law_call<M, C>(
    head: &RequestHead,
    call: ListenCall,
    query: &str,
    params: Result<ListenParams, ListenParamsError>,
    message: String,
)
    requires
        call_ensures(TranscribeService::<M, C>::call, (head,), call),
        head.query is Some ==> query@ == head.query->0@,
        head.query is None ==> query@.len() == 0,
        call_ensures(parse_listen_params, (query,), params),
        params is Err ==> call_ensures(
            ListenParamsError::message,
            (&params->Err_0,),
            message,
        ),
    ensures
        call is NeedsModel <==> params is Ok,
        call matches ListenCall::Answered(reply) ==> says(reply, 400, message@),
        call matches ListenCall::NeedsModel(pending) ==> {
            &&& pending.is_ws <==> asks_for_socket(*head)
            &&& same_params(pending.params, params->Ok_0)
            &&& reads(head.content_type, "application/octet-stream"@, pending.content_type@)
            &&& reads(head.accept, ""@, pending.accept@)
        },
{
    reveal_strlit("");
    assert(head.query is None ==> query@ =~= ""@);
    lemma_socket(*head);
    lemma_reads(head.content_type, "application/octet-stream"@);
    lemma_reads(head.accept, ""@);
    if let ListenCall::NeedsModel(pending) = call {
        lemma_same_params(pending.params, params->Ok_0);
    }
}

/// A request goes on exactly where the model is there, with that model and with what it came
/// with: to the upgrade if it is for a web socket, and otherwise to its body. While the model
/// loads it is put off, and where the model cannot be had it is told why.
pub proof fn law_with_model<M>(
    pending: PendingCall,
    found: Result<ReadyModel<M>, Error>,
    call: ModelCall<M>,
    message: String,
)
    requires
        call_ensures(PendingCall::with_model::<M>, (pending, found), call),
        found is Err ==> call_ensures(Error::message, (&found->Err_0,), message),
    ensures
        call is Upgrade <==> pending.is_ws && found is Ok && found->Ok_0 is Ready,
        call is ReadBody <==> !pending.is_ws && found is Ok && found->Ok_0 is Ready,
        call matches ModelCall::Upgrade(next) ==> next.model == found->Ok_0->Ready_0 && next.params
            == pending.params,
        call matches ModelCall::ReadBody(next) ==> next.model == found->Ok_0->Ready_0
            && next.params == pending.params && next.content_type == pending.content_type
            && next.accept == pending.accept,
        call matches ModelCall::Answered(reply) ==> match found {
            Ok(ReadyModel::Ready(_)) => false,
            Ok(ReadyModel::Loading) => puts_off(reply, pending.is_ws),
            Ok(ReadyModel::Failed(error)) => tells_failure(reply, pending.is_ws, error@),
            Err(_) => tells_failure(reply, pending.is_ws, message@),
        },
{
    if let Ok(ReadyModel::Failed(error)) = found {
        lemma_begins(error@, "failed to load model: "@);
    }
    lemma_begins(message@, "failed to load model: "@);
}

/// A session runs exactly where the connection was upgraded, for the request and with the model
/// it came with; otherwise the request is bad, and told why.
pub proof fn law_upgraded<M>(
    call: UpgradeCall<M>,
    upgrade: Result<(), String>,
    action: SocketAction<M>,
)
    requires
        call_ensures(UpgradeCall::<M>::upgraded, (call, upgrade), action),
    ensures
        action is Serve <==> upgrade is Ok,
        action matches SocketAction::Serve(served) ==> served.model == call.model && served.params
            == call.params,
        action matches SocketAction::Answered(reply) ==> says(reply, 400, upgrade->Err_0@),
{
}

/// A body is transcribed exactly where it was read and is not empty: all of it, with what the
/// request came with, as an event stream exactly where the request accepts one by name.
pub proof fn law_with_body<M>(
    call: BodyCall<M>,
    body: Result<Vec<u8>, String>,
    action: BodyAction<M>,
)
    requires
        call_ensures(BodyCall::<M>::with_body, (call, body), action),
    ensures
        action is Transcribe <==> body is Ok && body->Ok_0@.len() > 0,
        action matches BodyAction::Transcribe(batch) ==> {
            &&& batch.body@ == body->Ok_0@
            &&& batch.content_type == call.content_type
            &&& batch.params == call.params
            &&& batch.model == call.model
            &&& batch.event_stream <==> holds(call.accept@, "text/event-stream"@)
        },
        action matches BodyAction::Answered(reply) ==> match body {
            Ok(_) => says(reply, 400, "request body is empty"@),
            Err(message) => says(reply, 400, message@),
        },
{
    lemma_occurs_in(call.accept@, "text/event-stream"@);
}

/// A web socket handshake that finds the model there ends in a session on that model, whatever
/// else its head says.
pub proof fn law_handshake_opens_a_session<M>(
    head: &RequestHead,
    params: ListenParams,
    call: ListenCall,
    model: Arc<M>,
    next: ModelCall<M>,
    action: SocketAction<M>,
)
    requires
        asks_for_socket(*head),
        call_ensures(
            ListenCall::with_params,
            (head, Ok::<_, ListenParamsError>(params)),
            call,
        ),
        call_ensures(
            PendingCall::with_model::<M>,
            (call->NeedsModel_0, Ok::<_, Error>(ReadyModel::Ready(model))),
            next,
        ),
        call_ensures(UpgradeCall::<M>::upgraded, (next->Upgrade_0, Ok::<_, String>(())), action),
    ensures
        call is NeedsModel,
        next is Upgrade,
        action matches SocketAction::Serve(served) && served.model == model && same_params(
            served.params,
            params,
        ),
{
    lemma_socket(*head);
    lemma_same_params(call->NeedsModel_0.params, params);
}

} // verus!
