//! What clients are told, word for word where it is fixed and by what it carries where it is not.

use vstd::prelude::*;

use crate::error::Error;
use crate::listen::{ListenParamsError, NumberError};
use crate::manager::{LoadStateView, ModelLoadState, Observed};
use crate::operation_laws::{overdue, swept};
use crate::readiness::{TranscribeReadiness, TranscribeReadinessHandle};
use crate::response::{
    health_response, json_error_response, load_failed_response, not_ready_response,
    status_response, text_response, Reply,
};
use crate::text_laws::{begins, lemma_begins};

verus! {

/// A reply of this status carries this text and nothing else.
pub open spec fn says(reply: Reply, status: int, text: Seq<char>) -> bool {
    &&& reply.status == status
    &&& reply.retry_after is None
    &&& reply.body is Text
    &&& reply.body->Text_0@ == text
}

/// A reply of this status names an error and tells more of it, in a JSON object.
pub open spec fn names_error(
    reply: Reply,
    status: int,
    error: Seq<char>,
    detail: Seq<char>,
) -> bool {
    &&& reply.status == status
    &&& reply.body is JsonError
    &&& reply.body->error@ == error
    &&& reply.body->detail@ == detail
}

/// A reply that has the client come back in five seconds: service unavailable, in plain text over
/// a web socket and as a JSON object otherwise.
pub open spec fn puts_off(reply: Reply, is_ws: bool) -> bool {
    &&& reply.status == 503
    &&& reply.retry_after is Some
    &&& reply.retry_after->0@ == "5"@
    &&& if is_ws {
        reply.body is Text && reply.body->Text_0@ == "model is warming up; retry later"@
    } else {
        names_error(reply, 503, "model_loading"@, "model is warming up; retry later"@)
    }
}

/// A reply that tells of a failed load: a server error that carries what went wrong, and over a
/// web socket begins with the words for it, which are not said twice.
pub open spec fn tells_failure(reply: Reply, is_ws: bool, error: Seq<char>) -> bool {
    if is_ws {
        if begins(error, "failed to load model: "@) {
            says(reply, 500, error)
        } else {
            says(reply, 500, "failed to load model: "@ + error)
        }
    } else {
        names_error(reply, 500, "model_load_failed"@, error) && reply.retry_after is None
    }
}

/// A text reply carries the status and the text it is made of.
pub proof fn law_text_response(status: u16, text: String, reply: Reply)
    requires
        call_ensures(text_response, (status, text), reply),
    ensures
        says(reply, status as int, text@),
{
}

/// An error reply carries the status, the error and the detail it is made of.
pub proof fn law_json_error_response(status: u16, error: String, detail: String, reply: Reply)
    requires
        call_ensures(json_error_response, (status, error, detail), reply),
    ensures
        names_error(reply, status as int, error@, detail@),
        reply.retry_after is None,
{
}

/// While the model loads, a client is put off, and told the same over a web socket or not.
pub proof fn law_not_ready_response(is_ws: bool, reply: Reply)
    requires
        call_ensures(not_ready_response, (is_ws,), reply),
    ensures
        puts_off(reply, is_ws),
{
}

/// A failed load is told with all that went wrong.
pub proof fn law_load_failed_response(is_ws: bool, error: &str, reply: Reply)
    requires
        call_ensures(load_failed_response, (is_ws, error), reply),
    ensures
        tells_failure(reply, is_ws, error@),
{
    lemma_begins(error@, "failed to load model: "@);
}

/// A health check is answered the same at all times.
pub proof fn law_health_response(reply: Reply)
    requires
        call_ensures(health_response, (), reply),
    ensures
        says(reply, 200, "ok"@),
{
}

/// Two readinesses tell clients the same.
pub open spec fn same_readiness(a: TranscribeReadiness, b: TranscribeReadiness) -> bool {
    &&& a.status == b.status
    &&& a.error is Some <==> b.error is Some
    &&& a.error is Some ==> a.error->0@ == b.error->0@
    &&& a.retry_after_secs == b.retry_after_secs
}

/// A request for the readiness is answered with it, or with the message of the error for which it
/// could not be read.
pub proof fn law_status_response(
    readiness: Result<TranscribeReadiness, Error>,
    reply: Reply,
    message: String,
)
    requires
        call_ensures(status_response, (readiness,), reply),
        readiness is Err ==> call_ensures(Error::message, (&readiness->Err_0,), message),
    ensures
        readiness is Err ==> says(reply, 500, message@),
        readiness matches Ok(status) ==> reply.status == 200 && reply.retry_after is None
            && reply.body is Readiness && same_readiness(reply.body->Readiness_0, status),
{
}

/// The readiness has the state of the model. A client is asked back in five seconds exactly while
/// the model is idle or loading, and told of an error exactly where there is one.
pub open spec fn fits(readiness: TranscribeReadiness, state: ModelLoadState) -> bool {
    &&& readiness.status is Idle <==> state is Idle
    &&& readiness.status is Loading <==> state is Loading
    &&& readiness.status is Ready <==> state is Ready
    &&& readiness.status is Failed <==> state is Failed
    &&& readiness.retry_after_secs is Some <==> state is Idle || state is Loading
    &&& readiness.retry_after_secs matches Some(seconds) ==> seconds == 5
    &&& readiness.error is Some <==> state is Failed
    &&& readiness.error matches Some(error) ==> error@ == state->error@
}

/// The readiness of a load state tells that state.
pub proof fn law_readiness_of_state(state: ModelLoadState, readiness: TranscribeReadiness)
    requires
        call_ensures(TranscribeReadiness::of, (state,), readiness),
    ensures
        fits(readiness, state),
{
}

/// The readiness that fits what a manager holds for its default model.
pub open spec fn fits_state<M>(
    readiness: TranscribeReadiness,
    state: LoadStateView<M>,
    name: Seq<char>,
) -> bool {
    let loading = state is Loading && state->Loading_name == name;
    let ready = state is Ready && state->Ready_name == name;
    let failed = state is Failed && state->Failed_name == name;
    &&& readiness.status is Loading <==> loading
    &&& readiness.status is Ready <==> ready
    &&& readiness.status is Failed <==> failed
    &&& readiness.retry_after_secs == (if ready || failed {
        None
    } else {
        Some(5u64)
    })
    &&& readiness.error is Some <==> failed
    &&& readiness.error matches Some(error) ==> error@ == state->Failed_error
}

/// The readiness is that of the default model once an overdue model is dropped. Without a default
/// there is none, and nothing changes.
pub proof fn law_readiness_snapshot<M>(
    handle: &mut TranscribeReadinessHandle<'_, M>,
    now: u128,
    seen: Result<Observed<TranscribeReadiness>, Error>,
)
    requires
        old(handle).manager@.load_state is Ready ==> old(handle).manager@.last_activity is Some,
        call_ensures(TranscribeReadinessHandle::<'_, M>::snapshot, (handle, now), seen),
    ensures
        match old(handle).manager@.default_model {
            None => seen == Err::<Observed<TranscribeReadiness>, Error>(Error::NoDefaultModel)
                && final(handle).manager@ == old(handle).manager@,
            Some(name) => {
                &&& swept(old(handle).manager@, final(handle).manager@, now)
                &&& seen is Ok
                &&& seen->Ok_0.notify == overdue(old(handle).manager@, now)
                &&& fits_state(seen->Ok_0.value, final(handle).manager@.load_state, name)
            },
        },
{
}

/// The message of an error ends with what the error carries, and the kinds of error that carry a
/// name, a path or a reason say which it is in front of it. A stored failure is told as it was.
pub proof fn law_error_message(error: Error, message: String)
    requires
        call_ensures(Error::message, (&error,), message),
    ensures
        match error {
            Error::NoDefaultModel => message@ == "no default model is set"@,
            Error::ModelNotRegistered(name) => message@ == "model not registered: "@ + name@,
            Error::ModelFileNotFound(path) => message@ == "model file not found: "@ + path@,
            Error::WorkerPanicked => message@ == "model loading worker panicked"@,
            Error::Load(reason) => message@ == "failed to load model: "@ + reason@,
            Error::StoredLoadFailure(stored) => message@ == stored@,
        },
{
}

/// Errors of one kind that carry different texts have different messages.
pub proof fn law_error_messages_differ(a: Error, b: Error, said_a: String, said_b: String)
    requires
        call_ensures(Error::message, (&a,), said_a),
        call_ensures(Error::message, (&b,), said_b),
        said_a@ == said_b@,
    ensures
        a is ModelNotRegistered && b is ModelNotRegistered ==> a->ModelNotRegistered_0@
            == b->ModelNotRegistered_0@,
        a is ModelFileNotFound && b is ModelFileNotFound ==> a->ModelFileNotFound_0@
            == b->ModelFileNotFound_0@,
        a is Load && b is Load ==> a->Load_0@ == b->Load_0@,
        a is StoredLoadFailure && b is StoredLoadFailure ==> a->StoredLoadFailure_0@
            == b->StoredLoadFailure_0@,
{
    let registered = "model not registered: "@;
    let missing = "model file not found: "@;
    let failed = "failed to load model: "@;
    if a is ModelNotRegistered && b is ModelNotRegistered {
        lemma_same_rest(registered, a->ModelNotRegistered_0@, b->ModelNotRegistered_0@);
    }
    if a is ModelFileNotFound && b is ModelFileNotFound {
        lemma_same_rest(missing, a->ModelFileNotFound_0@, b->ModelFileNotFound_0@);
    }
    if a is Load && b is Load {
        lemma_same_rest(failed, a->Load_0@, b->Load_0@);
    }
}

pub(crate) proof fn lemma_same_rest(front: Seq<char>, a: Seq<char>, b: Seq<char>)
    ensures
        front + a == front + b ==> a == b,
{
    if front + a == front + b {
        assert(a =~= (front + a).skip(front.len() as int));
        assert(b =~= (front + b).skip(front.len() as int));
    }
}

/// What is said of a query that is refused.
pub proof fn law_query_error_message(error: ListenParamsError, message: String)
    requires
        call_ensures(ListenParamsError::message, (&error,), message),
    ensures
        match error {
            ListenParamsError::Repeated => message@ == "unsupported value"@,
            ListenParamsError::Number(NumberError::Empty) => message@
                == "cannot parse integer from empty string"@,
            ListenParamsError::Number(NumberError::InvalidDigit) => message@
                == "invalid digit found in string"@,
            ListenParamsError::Number(NumberError::TooLarge) => message@
                == "number too large to fit in target type"@,
        },
{
}

} // verus!
