//! How the service looks its model up and tells of it.

use std::sync::Arc;

use vstd::prelude::*;

use crate::error::Error;
use crate::manager::{LoadStateView, ModelManager, Observed};
use crate::operation_laws::{is_about, overdue, same_settings, swept, usable};
use crate::readiness::TranscribeReadinessHandle;
use crate::reply_laws::{fits_state, says};
use crate::request::{ReadyModel, MAX_BODY_BYTES};
use crate::response::Reply;
use crate::service::{
    ReadyOutcome, ReadyPhase, ReadyStep, TranscribeService, HEALTH_PATH, LISTEN_PATH, STATUS_PATH,
};

verus! {

/// A request for the readiness is answered with that of the default model, once an overdue model
/// is dropped; without a default it is told that there is none.
pub proof fn law_status<M, C>(
    s: &mut TranscribeService<M, C>,
    now: u128,
    seen: Observed<Reply>,
    message: String,
)
    requires
        old(s).manager@.load_state is Ready ==> old(s).manager@.last_activity is Some,
        call_ensures(TranscribeService::<M, C>::status, (s, now), seen),
        call_ensures(Error::message, (&Error::NoDefaultModel,), message),
    ensures
        final(s).model_path == old(s).model_path,
        final(s).cactus_config == old(s).cactus_config,
        match old(s).manager@.default_model {
            None => {
                &&& says(seen.value, 500, message@)
                &&& !seen.notify
                &&& final(s).manager@ == old(s).manager@
            },
            Some(name) => {
                &&& swept(old(s).manager@, final(s).manager@, now)
                &&& seen.notify == overdue(old(s).manager@, now)
                &&& seen.value.status == 200
                &&& seen.value.retry_after is None
                &&& seen.value.body is Readiness
                &&& fits_state(
                    seen.value.body->Readiness_0,
                    final(s).manager@.load_state,
                    name,
                )
            },
        },
{
}

/// The handle reads the manager of the service, and nothing else of the service changes by it.
pub proof fn law_readiness_handle<M, C>(
    s: &mut TranscribeService<M, C>,
    m: &mut ModelManager<M>,
)
    requires
        call_ensures(
            TranscribeService::<M, C>::readiness_handle,
            (s,),
            TranscribeReadinessHandle { manager: m },
        ),
    ensures
        old(m)@ == old(s).manager@,
        final(m)@ == final(s).manager@,
        final(s).model_path == old(s).model_path,
        final(s).cactus_config == old(s).cactus_config,
{
}

/// A look-up has the model exactly where it takes it and the default model is usable. One that
/// takes it a second time and finds it gone answers that it loads.
pub proof fn law_look_up_takes_the_model<M, C>(
    s: &mut TranscribeService<M, C>,
    phase: ReadyPhase,
    now: u128,
    step: ReadyStep<M>,
    model: Arc<M>,
)
    requires
        old(s).manager@.load_state is Ready ==> old(s).manager@.last_activity is Some,
        call_ensures(TranscribeService::<M, C>::ready_model, (s, phase, now), step),
    ensures
        step.outcome == ReadyOutcome::Return(Ok::<_, Error>(ReadyModel::Ready(model))) <==> {
            &&& phase is Fetch || phase is Refetch
            &&& old(s).manager@.default_model is Some
            &&& usable(old(s).manager@, old(s).manager@.default_model->0, model, now)
        },
        step.outcome matches ReadyOutcome::Return(Ok(ReadyModel::Ready(_))) ==> {
            &&& final(s).manager@.load_state == old(s).manager@.load_state
            &&& final(s).manager@.last_activity == Some(now)
        },
        phase is Refetch && old(s).manager@.default_model is Some ==> (
        step.outcome matches ReadyOutcome::Return(Ok(answer)) && (answer is Ready
            || answer is Loading)),
        phase is Fetch && !(step.outcome is Return) ==> step.outcome->Again_0 is Inspect,
{
}

/// A look at why the model is not there: a model that is ready by now is taken, a failure is kept
/// for the answer, and anything else has the model loaded.
pub proof fn law_look_up_inspects<M, C>(
    s: &mut TranscribeService<M, C>,
    now: u128,
    step: ReadyStep<M>,
)
    requires
        old(s).manager@.load_state is Ready ==> old(s).manager@.last_activity is Some,
        old(s).manager@.default_model is Some,
        call_ensures(
            TranscribeService::<M, C>::ready_model,
            (s, ReadyPhase::Inspect, now),
            step,
        ),
    ensures
        ({
            let name = old(s).manager@.default_model->0;
            let held = final(s).manager@.load_state;
            &&& step.outcome is Again
            &&& step.outcome->Again_0 is Refetch <==> held is Ready && held->Ready_name == name
            &&& step.outcome->Again_0 is Reload <==> held is Failed && held->Failed_name == name
            &&& step.outcome->Again_0 is Load || step.outcome->Again_0 is Refetch
                || step.outcome->Again_0 is Reload
            &&& step.outcome->Again_0 is Reload ==> step.outcome->Again_0->Reload_0@
                == held->Failed_error
        }),
{
}

/// Having the model loaded: one that is not registered is named in the error, and otherwise the
/// answer is that it loads, or the failure that was kept. A load is handed out exactly where the
/// model is neither on its way nor usable, from its registered path, and is then awaited.
pub proof fn law_look_up_loads<M, C>(
    s: &mut TranscribeService<M, C>,
    phase: ReadyPhase,
    now: u128,
    step: ReadyStep<M>,
)
    requires
        old(s).manager@.load_state is Ready ==> old(s).manager@.last_activity is Some,
        old(s).manager@.default_model is Some,
        phase is Load || phase is Reload,
        call_ensures(TranscribeService::<M, C>::ready_model, (s, phase, now), step),
    ensures
        ({
            let name = old(s).manager@.default_model->0;
            let held = old(s).manager@.load_state;
            let known = old(s).manager@.registry.contains_key(name);
            &&& step.outcome is Return
            &&& step.outcome->Return_0 is Ok <==> known
            &&& step.outcome matches ReadyOutcome::Return(Err(error)) ==> (
            error matches Error::ModelNotRegistered(n) && n@ == name)
            &&& step.outcome matches ReadyOutcome::Return(Ok(answer)) ==> if phase is Load {
                answer is Loading
            } else {
                answer is Failed && answer->Failed_0@ == phase->Reload_0@
            }
            &&& step.job is Some <==> known && (held is Failed || !is_about(held, name) || overdue(
                old(s).manager@,
                now,
            ))
            &&& step.job matches Some(job) ==> job.name@ == name && job.path
                == old(s).manager@.registry[name] && final(s).manager@.load_state
                == (LoadStateView::<M>::Loading { name })
            &&& step.job is None ==> final(s).manager@ == old(s).manager@
        }),
{
}

/// Without a default every step ends the look-up with that. Only having the model loaded hands a
/// load out, no step changes the settings, and waiting tasks are told exactly where what is loaded
/// or on its way has changed.
pub proof fn law_look_up_leaves_the_rest<M, C>(
    s: &mut TranscribeService<M, C>,
    phase: ReadyPhase,
    now: u128,
    step: ReadyStep<M>,
)
    requires
        old(s).manager@.load_state is Ready ==> old(s).manager@.last_activity is Some,
        call_ensures(TranscribeService::<M, C>::ready_model, (s, phase, now), step),
    ensures
        final(s).model_path == old(s).model_path,
        final(s).cactus_config == old(s).cactus_config,
        same_settings(old(s).manager@, final(s).manager@),
        step.notify <==> final(s).manager@.load_state != old(s).manager@.load_state,
        step.job is Some ==> phase is Load || phase is Reload,
        old(s).manager@.default_model is None ==> step.outcome == ReadyOutcome::Return(
            Err::<ReadyModel<M>, Error>(Error::NoDefaultModel),
        ) && step.job is None && final(s).manager@ == old(s).manager@,
        old(s).manager@.default_model is Some && phase is Inspect ==> swept(
            old(s).manager@,
            final(s).manager@,
            now,
        ),
        old(s).manager@.default_model is Some && (phase is Fetch || phase is Refetch) && !(
        step.outcome matches ReadyOutcome::Return(Ok(ReadyModel::Ready(_)))) ==> swept(
            old(s).manager@,
            final(s).manager@,
            now,
        ),
{
}

/// What the service answers at, each under a path of its own, and how much of a body it reads: a
/// hundred mebibytes.
pub proof fn law_paths_are_apart()
    ensures
        LISTEN_PATH@ == "/v1/listen"@,
        HEALTH_PATH@ == "/health"@,
        STATUS_PATH@ == "/status"@,
        LISTEN_PATH@ != HEALTH_PATH@,
        LISTEN_PATH@ != STATUS_PATH@,
        HEALTH_PATH@ != STATUS_PATH@,
        MAX_BODY_BYTES == 100 * 1024 * 1024,
{
    reveal_strlit("/v1/listen");
    reveal_strlit("/health");
    reveal_strlit("/status");
    assert(HEALTH_PATH@[1] != STATUS_PATH@[1]);
}

} // verus!
