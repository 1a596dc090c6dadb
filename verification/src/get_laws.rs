//! What holds of requests for a model.

use std::sync::Arc;

use vstd::prelude::*;

use crate::error::{Error, ErrorView};
use crate::get::{
    get_transition, GetOutcome, GetOutcomeView, GetPhase, GetRequest, GetRequestView, GetStep,
    GetTransition,
};
use crate::manager::{LoadJobView, LoadStateView, ManagerView, ModelLoadStateView, ModelManager};
use crate::operation_laws::{is_about, meant, overdue, same_settings, swept, usable};

verus! {

/// Some steps of a request: the last one, and the loads that were handed out.
pub struct GetRun<M> {
    pub last: GetTransition<M>,
    pub jobs: Seq<LoadJobView>,
}

/// At most `steps` steps of `request`, all at `now`, with nothing in between.
pub open spec fn get_run<M>(
    manager: ManagerView<M>,
    request: GetRequestView,
    now: u128,
    steps: nat,
) -> GetRun<M>
    decreases steps,
{
    if steps == 0 {
        GetRun {
            last: GetTransition {
                manager,
                request,
                outcome: GetOutcomeView::Again,
                job: None,
                notify: false,
            },
            jobs: Seq::empty(),
        }
    } else {
        let before = get_run(manager, request, now, (steps - 1) as nat);
        if before.last.outcome is Again {
            let last = get_transition(before.last.manager, before.last.request, now);
            GetRun {
                last,
                jobs: match last.job {
                    Some(job) => before.jobs.push(job),
                    None => before.jobs,
                },
            }
        } else {
            before
        }
    }
}

/// A request is only ever given the model it names, and only while that model is loaded.
pub proof fn law_get_returns_named_model<M>(
    manager: ManagerView<M>,
    request: GetRequestView,
    now: u128,
    model: Arc<M>,
)
    requires
        get_transition(manager, request, now).outcome == GetOutcomeView::Return(
            Ok::<Arc<M>, ErrorView>(model),
        ),
    ensures
        manager.expired(now).model_for(request.name) == Some(model),
{
}

/// A request fails only with a failure that is on record for its model, or because its model is
/// not registered.
pub proof fn law_get_fails_for_a_reason<M>(
    manager: ManagerView<M>,
    request: GetRequestView,
    now: u128,
    error: ErrorView,
)
    requires
        get_transition(manager, request, now).outcome == GetOutcomeView::Return(
            Err::<Arc<M>, ErrorView>(error),
        ),
    ensures
        match error {
            ErrorView::StoredLoadFailure(message) => manager.report(request.name) == (
            ModelLoadStateView::Failed { error: message }),
            ErrorView::ModelNotRegistered(name) => name == request.name
                && !manager.registry.contains_key(name),
            _ => false,
        },
{
}

/// A request waits only while a load of its model is awaited.
pub proof fn law_get_waits_for_a_load<M>(
    manager: ManagerView<M>,
    request: GetRequestView,
    now: u128,
)
    requires
        get_transition(manager, request, now).outcome is Wait,
    ensures
        get_transition(manager, request, now).manager.awaits(request.name),
        get_transition(manager, request, now).request.waited_for_load,
{
}

/// A request that nothing disturbs comes to an end or waits after four steps. A model that is not
/// registered is refused. Otherwise the request has the model if it is loaded, and the failure if
/// it waited for the load that failed; and else it waits for a load of the model, which it starts,
/// once, unless one was under way.
pub proof fn law_undisturbed_get<M>(
    manager: ManagerView<M>,
    name: Seq<char>,
    waited_for_load: bool,
    now: u128,
)
    requires
        manager.wf(),
    ensures
        ({
            let request = GetRequestView { name, waited_for_load, phase: GetPhase::Fetch };
            let run = get_run(manager, request, now, 4);
            let current = manager.expired(now);
            let seen = current.report(name);
            if !manager.registry.contains_key(name) {
                &&& run.last.outcome == GetOutcomeView::Return(
                    Err::<Arc<M>, ErrorView>(ErrorView::ModelNotRegistered(name)),
                )
                &&& run.jobs == Seq::<LoadJobView>::empty()
                &&& run.last.manager == current
            } else if current.model_for(name) is Some {
                &&& run.last.outcome == GetOutcomeView::Return(
                    Ok::<Arc<M>, ErrorView>(current.model_for(name)->0),
                )
                &&& run.jobs == Seq::<LoadJobView>::empty()
                &&& run.last.manager == manager.fetched(name, now)
            } else if seen is Failed && waited_for_load {
                &&& run.last.outcome == GetOutcomeView::Return(
                    Err::<Arc<M>, ErrorView>(ErrorView::StoredLoadFailure(seen->error)),
                )
                &&& run.jobs == Seq::<LoadJobView>::empty()
                &&& run.last.manager == manager
            } else {
                &&& run.last.outcome is Wait
                &&& run.last.request == (GetRequestView {
                    waited_for_load: true,
                    phase: GetPhase::Fetch,
                    ..request
                })
                &&& run.last.manager.awaits(name)
                &&& run.jobs == (if seen is Loading {
                    Seq::<LoadJobView>::empty()
                } else {
                    seq![LoadJobView { name, path: manager.registry[name] }]
                })
            }
        }),
{
    reveal_with_fuel(get_run, 5);
}

/// A request that waited is given what the load came to: the load's failure, and then no other
/// load is started, or the model. One that comes for the model later than the timeout after the
/// load ended finds it dropped, starts another load and waits again.
pub proof fn law_waiting_get_has_the_result<M>(
    manager: ManagerView<M>,
    name: Seq<char>,
    result: Result<Arc<M>, ErrorView>,
    finished: u128,
    now: u128,
)
    requires
        manager.wf(),
        manager.awaits(name),
    ensures
        ({
            let request = GetRequestView { name, waited_for_load: true, phase: GetPhase::Fetch };
            let run = get_run(manager.load_finished(name, result, finished), request, now, 4);
            if result is Ok && now - finished > manager.inactivity_timeout {
                &&& run.jobs == seq![LoadJobView { name, path: manager.registry[name] }]
                &&& run.last.outcome is Wait
            } else {
                &&& run.jobs == Seq::<LoadJobView>::empty()
                &&& run.last.outcome == GetOutcomeView::Return(
                    match result {
                        Ok(model) => Ok::<Arc<M>, ErrorView>(model),
                        Err(error) => Err(ErrorView::StoredLoadFailure(error.message())),
                    },
                )
            }
        }),
{
    law_undisturbed_get(manager.load_finished(name, result, finished), name, true, now);
}

/// A request begins with taking the model it means, and has not waited for any load.
pub proof fn law_begin_get<M>(
    m: &ModelManager<M>,
    asked: Option<&str>,
    begun: Result<GetRequest, Error>,
)
    requires
        call_ensures(ModelManager::<M>::begin_get, (m, asked), begun),
    ensures
        begun is Ok <==> meant(m@, asked) is Some,
        begun is Err ==> begun->Err_0 == Error::NoDefaultModel,
        begun is Ok ==> Some(begun->Ok_0.name@) == meant(m@, asked) && !begun->Ok_0.waited_for_load
            && begun->Ok_0.phase is Fetch,
{
}

/// A step ends a request with a model exactly where it fetches and the model is usable.
pub proof fn law_step_gives_the_model<M>(
    m: &mut ModelManager<M>,
    r: &mut GetRequest,
    now: u128,
    step: GetStep<M>,
    model: Arc<M>,
)
    requires
        old(m)@.load_state is Ready ==> old(m)@.last_activity is Some,
        call_ensures(ModelManager::<M>::get, (m, r, now), step),
    ensures
        step.outcome == GetOutcome::Return(Ok::<Arc<M>, Error>(model)) <==> old(r).phase is Fetch
            && usable(old(m)@, old(r).name@, model, now),
        step.outcome matches GetOutcome::Return(Ok(_)) ==> final(m)@.load_state
            == old(m)@.load_state && final(m)@.last_activity == Some(now),
{
}

/// A step ends a request with an error exactly where it is to load a model that is not
/// registered, or where it finds the failure of its model after it waited, or on the last look
/// before it would wait.
pub proof fn law_step_fails<M>(
    m: &mut ModelManager<M>,
    r: &mut GetRequest,
    now: u128,
    step: GetStep<M>,
)
    requires
        call_ensures(ModelManager::<M>::get, (m, r, now), step),
    ensures
        (step.outcome matches GetOutcome::Return(Err(_))) <==> {
            ||| old(r).phase is Load && !old(m)@.registry.contains_key(old(r).name@)
            ||| old(m)@.load_state is Failed && old(m)@.load_state->Failed_name == old(r).name@ && (
            old(r).phase is Recheck || old(r).phase is Inspect && old(r).waited_for_load)
        },
        step.outcome matches GetOutcome::Return(Err(error)) ==> if old(r).phase is Load {
            error matches Error::ModelNotRegistered(name) && name@ == old(r).name@
        } else {
            error matches Error::StoredLoadFailure(message) && message@
                == old(m)@.load_state->Failed_error
        },
{
}

/// A step waits exactly where it is the last look and the model is on its way, and from then on
/// the request has waited. No other step changes that, and none changes what is asked for.
pub proof fn law_step_waits<M>(
    m: &mut ModelManager<M>,
    r: &mut GetRequest,
    now: u128,
    step: GetStep<M>,
)
    requires
        call_ensures(ModelManager::<M>::get, (m, r, now), step),
    ensures
        step.outcome is Wait <==> old(r).phase is Recheck && old(m)@.load_state is Loading
            && old(m)@.load_state->Loading_name == old(r).name@,
        final(r).name@ == old(r).name@,
        final(r).waited_for_load == (old(r).waited_for_load || step.outcome is Wait),
{
}

/// A step hands a load out exactly where it is to load a registered model that is neither on its
/// way nor usable, and the load is then awaited.
pub proof fn law_step_loads<M>(
    m: &mut ModelManager<M>,
    r: &mut GetRequest,
    now: u128,
    step: GetStep<M>,
)
    requires
        old(m)@.load_state is Ready ==> old(m)@.last_activity is Some,
        call_ensures(ModelManager::<M>::get, (m, r, now), step),
    ensures
        step.job is Some <==> {
            &&& old(r).phase is Load
            &&& old(m)@.registry.contains_key(old(r).name@)
            &&& old(m)@.load_state is Failed || !is_about(old(m)@.load_state, old(r).name@)
                || overdue(old(m)@, now)
        },
        step.job matches Some(job) ==> job.name@ == old(r).name@ && job.path
            == old(m)@.registry[old(r).name@] && final(m)@.load_state == (LoadStateView::<
            M,
        >::Loading { name: old(r).name@ }),
{
}

/// What comes after a step: a model that is not there is inspected, one that is idle or failed is
/// loaded, one that is on its way is looked at once more, one that is ready is fetched, and after
/// the last look the model is fetched.
pub proof fn law_step_goes_on<M>(
    m: &mut ModelManager<M>,
    r: &mut GetRequest,
    now: u128,
    step: GetStep<M>,
)
    requires
        old(m)@.load_state is Ready ==> old(m)@.last_activity is Some,
        call_ensures(ModelManager::<M>::get, (m, r, now), step),
    ensures
        !(step.outcome is Return) ==> match old(r).phase {
            GetPhase::Fetch => final(r).phase is Inspect,
            GetPhase::Inspect => {
                let state = final(m)@.load_state;
                if !is_about(state, old(r).name@) || state is Failed {
                    final(r).phase is Load
                } else if state is Loading {
                    final(r).phase is Recheck
                } else {
                    final(r).phase is Fetch
                }
            },
            GetPhase::Load => final(r).phase is Recheck,
            GetPhase::Recheck => final(r).phase is Fetch,
        },
        step.outcome is Return ==> final(r).phase == old(r).phase,
{
}

/// A step that neither starts a load nor hands a model out changes the manager at most by
/// dropping an overdue model, and no step changes its settings. Waiting tasks are told exactly
/// where what is loaded or on its way has changed.
pub proof fn law_step_leaves_the_rest<M>(
    m: &mut ModelManager<M>,
    r: &mut GetRequest,
    now: u128,
    step: GetStep<M>,
)
    requires
        old(m)@.load_state is Ready ==> old(m)@.last_activity is Some,
        call_ensures(ModelManager::<M>::get, (m, r, now), step),
    ensures
        same_settings(old(m)@, final(m)@),
        step.notify <==> final(m)@.load_state != old(m)@.load_state,
        old(r).phase is Inspect || old(r).phase is Recheck ==> swept(old(m)@, final(m)@, now),
        old(r).phase is Fetch && !(step.outcome is Return) ==> swept(old(m)@, final(m)@, now),
        old(r).phase is Load && step.job is None ==> final(m)@ == old(m)@,
{
}

} // verus!
