//! What others are told of the server.

use vstd::prelude::*;

use crate::builder_laws::serves_one;
use crate::error::Error;
use crate::operation_laws::{overdue, swept};
use crate::readiness::{TranscribeReadinessHandle, TranscribeReadinessState};
use crate::reply_laws::says;
use crate::response::Reply;
use crate::server::{
    joined_path, listen_url, status_for, HealthReport, Internal2STTActor, Internal2STTArgs,
    Internal2STTMessage, Internal2STTState, LocalModel, ServerStatus, StartedServer,
};

verus! {

/// The server can be used exactly where its model is ready, and is out of reach exactly where the
/// model failed.
pub proof fn law_status_for(readiness: TranscribeReadinessState, status: ServerStatus)
    requires
        call_ensures(status_for, (readiness,), status),
    ensures
        status is Ready <==> readiness is Ready,
        status is Unreachable <==> readiness is Failed,
        status is Loading <==> readiness is Idle || readiness is Loading,
{
}

/// The address that is told is the scheme, the whole address of the server and the path for
/// audio, with nothing left out and nothing in between.
pub open spec fn leads_to(url: Seq<char>, server_addr: Seq<char>) -> bool {
    let end = server_addr.len() as int + 7;
    &&& url.len() == end + 10
    &&& url.take(7) == "http://"@
    &&& url.subrange(7, end) == server_addr
    &&& url.skip(end) == "/v1/listen"@
}

proof fn lemma_leads_to(server_addr: Seq<char>)
    ensures
        leads_to(listen_url(server_addr), server_addr),
{
    reveal_strlit("http://");
    reveal_strlit("/v1/listen");
    let url = listen_url(server_addr);
    let end = server_addr.len() as int + 7;
    assert(url.len() == end + 10);
    assert(url.take(7) =~= "http://"@);
    assert(url.subrange(7, end) =~= server_addr);
    assert(url.skip(end) =~= "/v1/listen"@);
}

/// A question is answered with the address of the server and its model. The server is ready
/// exactly where its default model is loaded and not overdue, and unreachable exactly where there
/// is no default or its load failed; why it could not be told is kept exactly where there is no
/// default.
pub proof fn law_health<M, T: Clone>(
    state: &Internal2STTState<T>,
    readiness: &mut TranscribeReadinessHandle<'_, M>,
    now: u128,
    handled: Result<HealthReport<T>, String>,
)
    requires
        old(readiness).manager@.load_state is Ready ==> old(
            readiness,
        ).manager@.last_activity is Some,
        call_ensures(
            Internal2STTActor::handle::<M, T>,
            (Internal2STTMessage::GetHealth, state, readiness, now),
            handled,
        ),
    ensures
        handled is Ok,
        handled->Ok_0.info.url is Some,
        leads_to(handled->Ok_0.info.url->0@, state.server_addr@),
        handled->Ok_0.info.model matches Some(LocalModel::Cactus(model)) && cloned(
            state.model,
            model,
        ),
        match old(readiness).manager@.default_model {
            None => {
                &&& handled->Ok_0.info.status is Unreachable
                &&& handled->Ok_0.unreadable == Some(Error::NoDefaultModel)
                &&& !handled->Ok_0.notify
                &&& final(readiness).manager@ == old(readiness).manager@
            },
            Some(name) => {
                let held = final(readiness).manager@.load_state;
                &&& swept(old(readiness).manager@, final(readiness).manager@, now)
                &&& handled->Ok_0.unreadable is None
                &&& handled->Ok_0.notify == overdue(old(readiness).manager@, now)
                &&& handled->Ok_0.info.status is Ready <==> held is Ready && held->Ready_name
                    == name
                &&& handled->Ok_0.info.status is Unreachable <==> held is Failed
                    && held->Failed_name == name
            },
        },
{
    lemma_leads_to(state.server_addr@);
}

/// Servers at different addresses are told with different addresses.
pub proof fn law_addresses_differ(a: Seq<char>, b: Seq<char>, url: Seq<char>)
    requires
        leads_to(url, a),
        leads_to(url, b),
    ensures
        a == b,
        listen_url(a) == url,
{
    lemma_leads_to(a);
    reveal_strlit("http://");
    let told = listen_url(a);
    let end = a.len() as int + 7;
    assert(a =~= b);
    assert forall|i: int| 0 <= i < url.len() implies url[i] == told[i] by {
        if i < 7 {
            assert(url.take(7)[i] == told.take(7)[i]);
        } else if i < end {
            assert(url.subrange(7, end)[i - 7] == told.subrange(7, end)[i - 7]);
        } else {
            assert(url.skip(end)[i - end] == told.skip(end)[i - end]);
        }
    }
    assert(told =~= url);
}

/// An error of the server fails the actor with that error, and nothing changes.
pub proof fn law_failure_is_handled<M, T: Clone>(
    error: String,
    state: &Internal2STTState<T>,
    readiness: &mut TranscribeReadinessHandle<'_, M>,
    now: u128,
    handled: Result<HealthReport<T>, String>,
)
    requires
        call_ensures(
            Internal2STTActor::handle::<M, T>,
            (Internal2STTMessage::ServerError(error), state, readiness, now),
            handled,
        ),
    ensures
        handled is Err && handled->Err_0@ == error@,
        final(readiness).manager@ == old(readiness).manager@,
{
}

/// An error of the server is told to the actor and to the client in the same words.
pub proof fn law_server_error(error: String, raised: (Internal2STTMessage, Reply))
    requires
        call_ensures(Internal2STTActor::server_error, (error,), raised),
    ensures
        raised.0 matches Internal2STTMessage::ServerError(told) && told@ == error@,
        says(raised.1, 500, error@),
{
}

/// The actor is found under its name.
pub proof fn law_actor_name(name: String)
    requires
        call_ensures(Internal2STTActor::name, (), name),
    ensures
        name@ == "internal2_stt"@,
{
}

/// The server is started for the model it is given, from the directory of that name in the cache,
/// with the settings it is given.
pub proof fn law_pre_start<M, T, C: Default>(
    args: Internal2STTArgs<T, C>,
    dir_name: &str,
    started: StartedServer<M, T, C>,
)
    requires
        call_ensures(Internal2STTActor::pre_start::<M, T, C>, (args, dir_name), started),
    ensures
        started.model == args.model_type,
        started.service.cactus_config == args.cactus_config,
        started.service.model_path == joined_path(args.model_cache_dir, dir_name@),
        serves_one(
            started.service.manager@,
            joined_path(args.model_cache_dir, dir_name@),
        ),
        started.service.manager@.default_model == Some("default"@),
{
    assert(started.service.manager@.registry.dom() =~= set!["default"@]);
}

} // verus!
