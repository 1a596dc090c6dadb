//! What each operation of a manager does, told by what it is given, what it gives back and what
//! the manager holds before and after.
//!
//! A law about an operation holds of every call: it speaks of arguments and results for which
//! `call_ensures` says that they are those of a call.

use std::path::PathBuf;
use std::sync::Arc;

use vstd::prelude::*;

use crate::error::Error;
use crate::manager::{
    LoadJob, LoadOutcome, LoadState, LoadStateView, ManagerView, ModelLoadState, ModelManager,
    MonitorAction, MonitorEvent, Observed,
};

verus! {

/// The name that a caller means: the one given, or else the default.
pub open spec fn meant<M>(manager: ManagerView<M>, asked: Option<&str>) -> Option<Seq<char>> {
    if asked is Some {
        Some(asked->0@)
    } else {
        manager.default_model
    }
}

/// The model of this name is loaded and at `now` its timeout has not passed.
pub open spec fn usable<M>(
    manager: ManagerView<M>,
    name: Seq<char>,
    model: Arc<M>,
    now: u128,
) -> bool {
    &&& manager.load_state == (LoadStateView::Ready { name, model })
    &&& now <= manager.last_activity->0 + manager.inactivity_timeout
}

/// A model is loaded and at `now` its timeout has passed.
pub open spec fn overdue<M>(manager: ManagerView<M>, now: u128) -> bool {
    &&& manager.load_state is Ready
    &&& manager.last_activity->0 + manager.inactivity_timeout < now
}

/// Of two managers one differs from the other at most in what it loads and holds.
pub open spec fn same_settings<M>(a: ManagerView<M>, b: ManagerView<M>) -> bool {
    &&& a.registry == b.registry
    &&& a.default_model == b.default_model
    &&& a.inactivity_timeout == b.inactivity_timeout
    &&& a.check_interval == b.check_interval
}

/// A manager that drops the model it holds if it is overdue, and is otherwise as it was.
pub open spec fn swept<M>(before: ManagerView<M>, after: ManagerView<M>, now: u128) -> bool {
    &&& same_settings(before, after)
    &&& overdue(before, now) ==> after.load_state is Idle && after.last_activity is None
    &&& !overdue(before, now) ==> after == before
}

/// A load state is about one of these: a load of the model, the loaded model, or its failure.
pub open spec fn is_about<M>(state: LoadStateView<M>, name: Seq<char>) -> bool {
    ||| state is Loading && state->Loading_name == name
    ||| state is Ready && state->Ready_name == name
    ||| state is Failed && state->Failed_name == name
}

/// Registering adds one name, or gives it another path, and touches nothing else.
pub proof fn law_register<M>(m: &mut ModelManager<M>, name: String, path: PathBuf)
    requires
        call_ensures(ModelManager::<M>::register, (m, name, path), ()),
    ensures
        forall|n: Seq<char>| #[trigger]
            final(m)@.registry.contains_key(n) <==> n == name@ || old(m)@.registry.contains_key(n),
        final(m)@.registry[name@] == path,
        forall|n: Seq<char>|
            n != name@ && old(m)@.registry.contains_key(n) ==> #[trigger] final(m)@.registry[n]
                == old(m)@.registry[n],
        final(m)@.default_model == old(m)@.default_model,
        final(m)@.load_state == old(m)@.load_state,
        final(m)@.last_activity == old(m)@.last_activity,
        final(m)@.inactivity_timeout == old(m)@.inactivity_timeout,
        final(m)@.check_interval == old(m)@.check_interval,
{
}

/// Unregistering takes one name out. What is loaded or on its way is dropped exactly where it is
/// of that name, and waiting tasks are told exactly then.
pub proof fn law_unregister<M>(m: &mut ModelManager<M>, name: &str, notify: bool)
    requires
        call_ensures(ModelManager::<M>::unregister, (m, name), notify),
    ensures
        forall|n: Seq<char>| #[trigger]
            final(m)@.registry.contains_key(n) <==> n != name@ && old(m)@.registry.contains_key(n),
        forall|n: Seq<char>|
            n != name@ && old(m)@.registry.contains_key(n) ==> #[trigger] final(m)@.registry[n]
                == old(m)@.registry[n],
        final(m)@.default_model == old(m)@.default_model,
        final(m)@.inactivity_timeout == old(m)@.inactivity_timeout,
        final(m)@.check_interval == old(m)@.check_interval,
        notify <==> is_about(old(m)@.load_state, name@),
        notify ==> final(m)@.load_state is Idle && final(m)@.last_activity is None,
        !notify ==> final(m)@.load_state == old(m)@.load_state && final(m)@.last_activity
            == old(m)@.last_activity,
{
}

/// Setting the default changes the default alone.
pub proof fn law_set_default<M>(m: &mut ModelManager<M>, name: String)
    requires
        call_ensures(ModelManager::<M>::set_default, (m, name), ()),
    ensures
        final(m)@.default_model == Some(name@),
        final(m)@.registry == old(m)@.registry,
        final(m)@.load_state == old(m)@.load_state,
        final(m)@.last_activity == old(m)@.last_activity,
        final(m)@.inactivity_timeout == old(m)@.inactivity_timeout,
        final(m)@.check_interval == old(m)@.check_interval,
{
}

/// A load is started exactly where the model meant is registered and neither on its way nor
/// usable. It is of that model, from its registered path, and is awaited from then on. Where none
/// is started, nothing changes.
pub proof fn law_ensure_loading<M>(
    m: &mut ModelManager<M>,
    asked: Option<&str>,
    now: u128,
    started: Result<Option<LoadJob>, Error>,
)
    requires
        old(m)@.load_state is Ready ==> old(m)@.last_activity is Some,
        call_ensures(ModelManager::<M>::ensure_loading, (m, asked, now), started),
    ensures
        started == Err::<Option<LoadJob>, Error>(Error::NoDefaultModel) <==> meant(
            old(m)@,
            asked,
        ) is None,
        match meant(old(m)@, asked) {
            None => started is Err,
            Some(name) => if !old(m)@.registry.contains_key(name) {
                started matches Err(Error::ModelNotRegistered(n)) && n@ == name
            } else {
                &&& started is Ok
                &&& started->Ok_0 is None <==> old(m)@.load_state == (LoadStateView::<
                    M,
                >::Loading { name }) || exists|model: Arc<M>| #[trigger]
                    usable(old(m)@, name, model, now)
                &&& started->Ok_0 matches Some(job) ==> job.name@ == name && job.path
                    == old(m)@.registry[name] && final(m)@.load_state == (LoadStateView::<
                    M,
                >::Loading { name }) && final(m)@.last_activity is None && same_settings(
                    old(m)@,
                    final(m)@,
                )
            },
        },
        started is Err || started->Ok_0 is None ==> final(m)@ == old(m)@,
{
    if let Some(name) = meant(old(m)@, asked) {
        if let LoadStateView::Ready { name: current, model } = old(m)@.load_state {
            if current == name && !overdue(old(m)@, now) {
                assert(usable(old(m)@, name, model, now));
            }
        }
    }
}

/// The result of a load is taken in exactly where a load of that name is awaited, and waiting
/// tasks are told exactly then. A model is then loaded and counts as used at that moment; a
/// failure is kept by its message.
pub proof fn law_finish_load<M>(
    m: &mut ModelManager<M>,
    name: String,
    result: Result<Arc<M>, Error>,
    now: u128,
    notify: bool,
    message: String,
)
    requires
        call_ensures(ModelManager::<M>::finish_load, (m, name, result, now), notify),
        result is Err ==> call_ensures(Error::message, (&result->Err_0,), message),
    ensures
        notify <==> old(m)@.load_state == (LoadStateView::<M>::Loading { name: name@ }),
        !notify ==> final(m)@ == old(m)@,
        notify ==> same_settings(old(m)@, final(m)@),
        notify && result is Ok ==> final(m)@.load_state == (LoadStateView::Ready {
            name: name@,
            model: result->Ok_0,
        }) && final(m)@.last_activity == Some(now),
        notify && result is Err ==> final(m)@.load_state == (LoadStateView::<M>::Failed {
            name: name@,
            error: message@,
        }) && final(m)@.last_activity is None,
{
}

/// What is reported of a model in a load state.
pub open spec fn tells<M>(state: LoadStateView<M>, name: Seq<char>, told: ModelLoadState) -> bool {
    match told {
        ModelLoadState::Idle => !is_about(state, name),
        ModelLoadState::Loading => state == (LoadStateView::<M>::Loading { name }),
        ModelLoadState::Ready => state is Ready && state->Ready_name == name,
        ModelLoadState::Failed { error } => state == (LoadStateView::<M>::Failed {
            name,
            error: error@,
        }),
    }
}

/// A look tells what the manager holds once an overdue model is dropped, and waiting tasks are
/// told exactly where one is.
pub proof fn law_snapshot<M>(
    m: &mut ModelManager<M>,
    asked: Option<&str>,
    now: u128,
    seen: Result<Observed<ModelLoadState>, Error>,
)
    requires
        old(m)@.load_state is Ready ==> old(m)@.last_activity is Some,
        call_ensures(ModelManager::<M>::snapshot, (m, asked, now), seen),
    ensures
        match meant(old(m)@, asked) {
            None => seen == Err::<Observed<ModelLoadState>, Error>(Error::NoDefaultModel)
                && final(m)@ == old(m)@,
            Some(name) => {
                &&& swept(old(m)@, final(m)@, now)
                &&& seen is Ok
                &&& seen->Ok_0.notify == overdue(old(m)@, now)
                &&& tells(final(m)@.load_state, name, seen->Ok_0.value)
            },
        },
{
}

/// A model is handed out exactly where it is usable. That counts as a use, and is all that
/// changes; otherwise an overdue model is dropped.
pub proof fn law_get_if_ready<M>(
    m: &mut ModelManager<M>,
    asked: Option<&str>,
    now: u128,
    found: Result<Observed<Option<Arc<M>>>, Error>,
    model: Arc<M>,
)
    requires
        old(m)@.load_state is Ready ==> old(m)@.last_activity is Some,
        call_ensures(ModelManager::<M>::get_if_ready, (m, asked, now), found),
    ensures
        match meant(old(m)@, asked) {
            None => found == Err::<Observed<Option<Arc<M>>>, Error>(Error::NoDefaultModel)
                && final(m)@ == old(m)@,
            Some(name) => {
                &&& found is Ok
                &&& found->Ok_0.notify == overdue(old(m)@, now)
                &&& found->Ok_0.value == Some(model) <==> usable(old(m)@, name, model, now)
                &&& found->Ok_0.value is Some ==> same_settings(old(m)@, final(m)@)
                    && final(m)@.load_state == old(m)@.load_state && final(m)@.last_activity
                    == Some(now)
                &&& found->Ok_0.value is None ==> swept(old(m)@, final(m)@, now)
            },
        },
{
}

/// A use is put on record for whatever model is loaded, and nothing else changes.
pub proof fn law_keep_alive<M>(m: &mut ModelManager<M>, now: u128)
    requires
        call_ensures(ModelManager::<M>::keep_alive, (m, now), ()),
    ensures
        same_settings(old(m)@, final(m)@),
        final(m)@.load_state == old(m)@.load_state,
        old(m)@.load_state is Ready ==> final(m)@.last_activity == Some(now),
        !(old(m)@.load_state is Ready) ==> final(m)@.last_activity == old(m)@.last_activity,
{
}

/// At a tick the monitor goes on, drops an overdue model and has waiting tasks told exactly then.
/// At the shutdown it stops and leaves everything as it is.
pub proof fn law_monitor<M>(
    m: &mut ModelManager<M>,
    event: MonitorEvent,
    now: u128,
    action: MonitorAction,
)
    requires
        old(m)@.load_state is Ready ==> old(m)@.last_activity is Some,
        call_ensures(ModelManager::<M>::monitor, (m, event, now), action),
    ensures
        action is Stop <==> event is Shutdown,
        event is Shutdown ==> final(m)@ == old(m)@,
        event is Tick ==> swept(old(m)@, final(m)@, now) && action == (MonitorAction::Continue {
            notify: overdue(old(m)@, now),
        }),
{
}

/// A name stands for itself, and no name for the default.
pub proof fn law_resolve_name<M>(
    m: &ModelManager<M>,
    asked: Option<&str>,
    resolved: Result<String, Error>,
)
    requires
        call_ensures(ModelManager::<M>::resolve_name, (m, asked), resolved),
    ensures
        asked is Some ==> resolved is Ok && resolved->Ok_0@ == asked->0@,
        asked is None ==> (resolved is Ok <==> m@.default_model is Some),
        asked is None && resolved is Ok ==> Some(resolved->Ok_0@) == m@.default_model,
        resolved is Err ==> resolved->Err_0 == Error::NoDefaultModel,
{
}

/// A name has the path it is registered under; one that is not registered is named in the error.
pub proof fn law_resolve_path<M>(m: &ModelManager<M>, name: &str, found: Result<PathBuf, Error>)
    requires
        call_ensures(ModelManager::<M>::resolve_path, (m, name), found),
    ensures
        found is Ok <==> m@.registry.contains_key(name@),
        found is Ok ==> found->Ok_0 == m@.registry[name@],
        found is Err ==> (found->Err_0 matches Error::ModelNotRegistered(n) && n@ == name@),
{
}

/// A load comes to the model that the loader made, or to an error that tells what went wrong and
/// with what.
pub proof fn law_load_model<M>(
    shown: String,
    outcome: LoadOutcome<M>,
    result: Result<Arc<M>, Error>,
)
    requires
        call_ensures(ModelManager::<M>::load_model, (shown, outcome), result),
    ensures
        result is Ok <==> outcome is Loaded,
        outcome is Loaded ==> *result->Ok_0 == outcome->Loaded_0,
        outcome is FileMissing ==> (result->Err_0 matches Error::ModelFileNotFound(p) && p@
            == shown@),
        outcome is WorkerPanicked ==> result->Err_0 is WorkerPanicked,
        outcome is LoaderFailed ==> (result->Err_0 matches Error::Load(reason) && reason@
            == outcome->LoaderFailed_0@),
{
}

/// The report of a name in any load state, and whether the state is about the name.
pub proof fn law_state_of_name<M>(
    m: &ModelManager<M>,
    state: &LoadState<M>,
    name: &str,
    told: ModelLoadState,
    concerned: bool,
)
    requires
        call_ensures(ModelManager::<M>::snapshot_from_state, (m, state, name), told),
        call_ensures(ModelManager::<M>::is_state_for_name, (m, state, name), concerned),
    ensures
        concerned <==> !(told is Idle),
        match *state {
            LoadState::Idle => told is Idle,
            LoadState::Loading { name: current } => told is Loading <==> current@ == name@,
            LoadState::Ready(active) => told is Ready <==> active.name@ == name@,
            LoadState::Failed { name: current, error } => {
                &&& told is Failed <==> current@ == name@
                &&& told is Failed ==> told->error@ == error@
            },
        },
        told is Loading ==> *state is Loading,
        told is Ready ==> *state is Ready,
        told is Failed ==> *state is Failed,
{
}

/// A model that is loaded and not overdue is not loaded again: asking for it starts no load, and
/// whoever takes it right after has that very model.
pub proof fn law_usable_model_is_not_loaded_again<M>(
    m: &mut ModelManager<M>,
    next: &mut ModelManager<M>,
    name: &str,
    model: Arc<M>,
    now: u128,
    started: Result<Option<LoadJob>, Error>,
    found: Result<Observed<Option<Arc<M>>>, Error>,
)
    requires
        old(m)@.registry.contains_key(name@),
        old(m)@.last_activity is Some,
        usable(old(m)@, name@, model, now),
        call_ensures(ModelManager::<M>::ensure_loading, (m, Some(name), now), started),
        old(next)@ == final(m)@,
        call_ensures(ModelManager::<M>::get_if_ready, (next, Some(name), now), found),
    ensures
        started is Ok && started->Ok_0 is None,
        found is Ok && found->Ok_0.value == Some(model),
{
}

/// Keeping alive restarts the timeout of the loaded model, whatever the default is: whoever asks
/// for it within the timeout from then on has it, and later nobody has.
pub proof fn law_keeping_alive_restarts_timeout<M>(
    m: &mut ModelManager<M>,
    next: &mut ModelManager<M>,
    asked: Option<&str>,
    name: Seq<char>,
    model: Arc<M>,
    now: u128,
    later: u128,
    found: Result<Observed<Option<Arc<M>>>, Error>,
)
    requires
        old(m)@.load_state == (LoadStateView::Ready { name, model }),
        meant(old(m)@, asked) == Some(name),
        call_ensures(ModelManager::<M>::keep_alive, (m, now), ()),
        old(next)@ == final(m)@,
        call_ensures(ModelManager::<M>::get_if_ready, (next, asked, later), found),
    ensures
        found is Ok,
        later <= now + old(m)@.inactivity_timeout ==> found->Ok_0.value == Some(model),
        later > now + old(m)@.inactivity_timeout ==> found->Ok_0.value is None,
{
}

/// A load that is started, ends and is asked after within the timeout gives the model it made;
/// one that failed is reported with the message of its error.
pub proof fn law_load_from_start_to_use<M>(
    m: &mut ModelManager<M>,
    next: &mut ModelManager<M>,
    last: &mut ModelManager<M>,
    asked: Option<&str>,
    job: LoadJob,
    result: Result<Arc<M>, Error>,
    message: String,
    times: (u128, u128, u128),
    notify: bool,
    found: Result<Observed<Option<Arc<M>>>, Error>,
)
    requires
        call_ensures(
            ModelManager::<M>::ensure_loading,
            (m, asked, times.0),
            Ok::<_, Error>(Some(job)),
        ),
        old(next)@ == final(m)@,
        call_ensures(ModelManager::<M>::finish_load, (next, job.name, result, times.1), notify),
        result is Err ==> call_ensures(Error::message, (&result->Err_0,), message),
        old(last)@ == final(next)@,
        call_ensures(ModelManager::<M>::get_if_ready, (last, asked, times.2), found),
    ensures
        notify,
        found is Ok,
        result is Ok && times.2 <= times.1 + old(m)@.inactivity_timeout ==> found->Ok_0.value
            == Some(result->Ok_0),
        result is Err ==> found->Ok_0.value is None && tells(
            final(last)@.load_state,
            job.name@,
            ModelLoadState::Failed { error: message },
        ),
{
}

/// A manager ticks at the interval it holds.
pub proof fn law_check_interval<M>(m: &ModelManager<M>, interval: u128)
    requires
        call_ensures(ModelManager::<M>::check_interval, (m,), interval),
    ensures
        interval == m@.check_interval,
{
}

} // verus!
