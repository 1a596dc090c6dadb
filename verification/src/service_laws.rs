//! What holds of the service as a whole.

use std::path::PathBuf;

use vstd::prelude::*;

use crate::error::{ErrorView, LOAD_FAILURE_PREFIX};
use crate::manager::{LoadJobView, ManagerView, ModelLoadStateView};
use crate::readiness::{readiness_of, RETRY_AFTER_SECS};
use crate::request::{refusal, ReadyModelView};
use crate::response::{
    json_error_reply, load_failed_reply, load_failure_text, not_ready_reply, RETRY_AFTER,
    STATUS_INTERNAL_SERVER_ERROR, STATUS_SERVICE_UNAVAILABLE,
};
use crate::server::server_status;
use crate::service::{
    ready_transition, service_manager, ReadyOutcomeView, ReadyPhaseView, ReadyTransition,
    DEFAULT_MODEL,
};
use crate::text::occurs_at;

verus! {

/// At most `steps` steps of a look-up, all at `now`, with nothing in between.
pub open spec fn ready_run<M>(manager: ManagerView<M>, now: u128, steps: nat) -> ReadyTransition<M>
    decreases steps,
{
    if steps == 0 {
        ReadyTransition {
            manager,
            outcome: ReadyOutcomeView::Again(ReadyPhaseView::Fetch),
            job: None,
            notify: false,
        }
    } else {
        let before = ready_run(manager, now, (steps - 1) as nat);
        match before.outcome {
            ReadyOutcomeView::Again(phase) => ready_transition(before.manager, phase, now),
            ReadyOutcomeView::Return(_) => before,
        }
    }
}

/// What a look-up that nothing disturbs answers.
pub open spec fn looked_up<M>(manager: ManagerView<M>, now: u128) -> Result<
    ReadyModelView<M>,
    ErrorView,
> {
    match manager.resolve_name(None) {
        Err(error) => Err(error),
        Ok(name) => if manager.expired(now).model_for(name) is Some {
            Ok(ReadyModelView::Ready(manager.expired(now).model_for(name)->0))
        } else {
            match manager.resolve_path(name) {
                Err(error) => Err(error),
                Ok(_) => match manager.expired(now).report(name) {
                    ModelLoadStateView::Failed { error } => Ok(ReadyModelView::Failed(error)),
                    _ => Ok(ReadyModelView::Loading),
                },
            }
        },
    }
}

/// A look-up that nothing disturbs ends after three steps. It has the model if it is loaded;
/// otherwise a load of the model is then under way, started by the look-up unless it was before,
/// and the answer is that the model loads, or the failure that was on record.
pub proof fn law_undisturbed_look_up<M>(manager: ManagerView<M>, now: u128)
    ensures
        ready_run(manager, now, 3).outcome == ReadyOutcomeView::Return(looked_up(manager, now)),
        match (manager.resolve_name(None), looked_up(manager, now)) {
            (Ok(name), Ok(ReadyModelView::Ready(_))) => {
                &&& ready_run(manager, now, 3).manager == manager.fetched(name, now)
                &&& ready_run(manager, now, 3).job is None
            },
            (Ok(name), Ok(_)) => {
                &&& ready_run(manager, now, 3).manager.awaits(name)
                &&& ready_run(manager, now, 3).job == (if manager.awaits(name) {
                    None
                } else {
                    Some(LoadJobView { name, path: manager.registry[name] })
                })
            },
            _ => ready_run(manager, now, 3).job is None,
        },
{
    reveal_with_fuel(ready_run, 4);
}

/// A new service starts the load of its one model when it warms up, from the model's path, and a
/// second request for it starts none.
pub proof fn law_warm_up_starts_the_load<M>(path: PathBuf, now: u128, later: u128)
    ensures
        service_manager::<M>(path).resolve_name(None) == Ok::<_, ErrorView>(DEFAULT_MODEL@),
        service_manager::<M>(path).resolve_path(DEFAULT_MODEL@) == Ok::<_, ErrorView>(path),
        service_manager::<M>(path).job_for(DEFAULT_MODEL@, path, now) == Some(
            LoadJobView { name: DEFAULT_MODEL@, path },
        ),
        service_manager::<M>(path).load_ensured(DEFAULT_MODEL@, now).job_for(
            DEFAULT_MODEL@,
            path,
            later,
        ) is None,
{
}

/// Clients are told when to ask again exactly while the model is idle or loading, and are told of
/// an error exactly when it failed.
pub proof fn law_readiness_tells_what_to_do(state: ModelLoadStateView)
    ensures
        readiness_of(state).retry_after_secs == (if state is Idle || state is Loading {
            Some(RETRY_AFTER_SECS)
        } else {
            None
        }),
        readiness_of(state).error == (match state {
            ModelLoadStateView::Failed { error } => Some(error),
            _ => None,
        }),
        readiness_of(state).status is Ready <==> state is Ready,
{
}

/// The server is ready exactly while the default model can be handed out, and unreachable exactly
/// while there is no default or its load failed.
pub proof fn law_server_status_follows_model<M>(manager: ManagerView<M>, now: u128)
    ensures
        server_status(manager, now) is Ready <==> (manager.default_model is Some
            && manager.expired(now).model_for(manager.default_model->0) is Some),
        server_status(manager, now) is Unreachable <==> (
        manager.default_model is None || manager.expired(now).report(
            manager.default_model->0,
        ) is Failed),
{
}

/// A request that comes while the model loads is answered that the service is unavailable, with
/// the time after which to ask again. One that comes after the load failed, or that finds no
/// model to load, is answered with a server error and no such time. Only a request for which the
/// model is there goes on. Web sockets and other requests have the same status and header.
pub proof fn law_requests_without_model_are_refused<M>(
    is_ws: bool,
    found: Result<ReadyModelView<M>, ErrorView>,
)
    ensures
        match found {
            Ok(ReadyModelView::Ready(_)) => refusal(is_ws, found) is None,
            Ok(ReadyModelView::Loading) => refusal(is_ws, found) matches Some(reply)
                && reply.status == STATUS_SERVICE_UNAVAILABLE && reply.retry_after == Some(
                RETRY_AFTER@,
            ),
            _ => refusal(is_ws, found) matches Some(reply) && reply.status
                == STATUS_INTERNAL_SERVER_ERROR && reply.retry_after is None,
        },
{
}

/// A request of which nothing disturbs the look-up goes on exactly where the default model is
/// loaded. Otherwise it is told that there is no default or that it is not registered; if it is,
/// the request is told of the failure on record, or asked to come back.
pub proof fn law_model_state_decides_the_answer<M>(
    manager: ManagerView<M>,
    is_ws: bool,
    now: u128,
)
    ensures
        refusal(is_ws, looked_up(manager, now)) == (match manager.default_model {
            None => Some(load_failed_reply(is_ws, ErrorView::NoDefaultModel.message())),
            Some(name) => {
                let report = manager.expired(now).report(name);
                if report is Ready {
                    None
                } else if !manager.registry.contains_key(name) {
                    Some(load_failed_reply(is_ws, ErrorView::ModelNotRegistered(name).message()))
                } else if report is Failed {
                    Some(load_failed_reply(is_ws, report->error))
                } else {
                    Some(not_ready_reply(is_ws))
                }
            },
        }),
{
}

/// A failure that is told over a web socket names itself a failure to load exactly once: telling
/// it again changes nothing, and what a loader said is told as the error's own message.
pub proof fn law_load_failure_is_named_once(error: Seq<char>, reason: Seq<char>)
    ensures
        occurs_at(load_failure_text(error), LOAD_FAILURE_PREFIX@, 0),
        load_failure_text(load_failure_text(error)) == load_failure_text(error),
        load_failure_text(ErrorView::Load(reason).message()) == ErrorView::Load(
            reason,
        ).message(),
{
    let prefix = LOAD_FAILURE_PREFIX@;
    assert((prefix + error).subrange(0, prefix.len() as int) =~= prefix);
    assert((prefix + reason).subrange(0, prefix.len() as int) =~= prefix);
}

/// A service whose model file is missing: once its warm-up load ended, a request other than for a
/// web socket is answered with a server error that names the missing file, the readiness is a
/// failure that does the same, and the request has started another load.
pub proof fn law_missing_model_file_is_told<M>(
    path: PathBuf,
    shown: Seq<char>,
    started: u128,
    finished: u128,
    now: u128,
)
    ensures
        ({
            let missing = ErrorView::ModelFileNotFound(shown);
            let manager = service_manager::<M>(path).load_ensured(
                DEFAULT_MODEL@,
                started,
            ).load_finished(DEFAULT_MODEL@, Err(missing), finished);
            let told = "model file not found: "@ + shown;
            let readiness = readiness_of(manager.expired(now).report(DEFAULT_MODEL@));
            &&& refusal(false, looked_up(manager, now)) == Some(
                json_error_reply(STATUS_INTERNAL_SERVER_ERROR, "model_load_failed"@, told),
            )
            &&& readiness.status is Failed
            &&& readiness.error == Some(told)
            &&& ready_run(manager, now, 3).job == Some(LoadJobView { name: DEFAULT_MODEL@, path })
        }),
{
    let missing = ErrorView::ModelFileNotFound(shown);
    let manager = service_manager::<M>(path).load_ensured(
        DEFAULT_MODEL@,
        started,
    ).load_finished(DEFAULT_MODEL@, Err(missing), finished);
    law_undisturbed_look_up(manager, now);
}

} // verus!
