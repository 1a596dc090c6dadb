//! What holds of a manager over any number of operations.

use std::path::PathBuf;
use std::sync::Arc;

use vstd::prelude::*;

use crate::error::ErrorView;
use crate::manager::{LoadJobView, LoadStateView, ManagerView, ModelLoadStateView};

verus! {

/// An operation on a manager, with what it is given.
pub enum Event<M> {
    Register { name: Seq<char>, path: PathBuf },
    Unregister { name: Seq<char> },
    SetDefault { name: Seq<char> },
    EnsureLoading { asked: Option<Seq<char>>, now: u128 },
    FinishLoad { name: Seq<char>, result: Result<Arc<M>, ErrorView>, now: u128 },
    Snapshot { asked: Option<Seq<char>>, now: u128 },
    GetIfReady { asked: Option<Seq<char>>, now: u128 },
    KeepAlive { now: u128 },
    Tick { now: u128 },
}

/// The manager after one operation.
pub open spec fn after<M>(manager: ManagerView<M>, event: Event<M>) -> ManagerView<M> {
    match event {
        Event::Register { name, path } => manager.registered(name, path),
        Event::Unregister { name } => manager.unregistered(name),
        Event::SetDefault { name } => manager.with_default(name),
        Event::EnsureLoading { asked, now } => match manager.resolve_name(asked) {
            Ok(resolved) => if manager.resolve_path(resolved) is Ok {
                manager.load_ensured(resolved, now)
            } else {
                manager
            },
            Err(_) => manager,
        },
        Event::FinishLoad { name, result, now } => manager.load_finished(name, result, now),
        Event::Snapshot { asked, now } => match manager.resolve_name(asked) {
            Ok(_) => manager.expired(now),
            Err(_) => manager,
        },
        Event::GetIfReady { asked, now } => match manager.resolve_name(asked) {
            Ok(resolved) => manager.fetched(resolved, now),
            Err(_) => manager,
        },
        Event::KeepAlive { now } => manager.kept_alive(now),
        Event::Tick { now } => manager.expired(now),
    }
}

/// The manager after operations in their order.
pub open spec fn after_all<M>(manager: ManagerView<M>, events: Seq<Event<M>>) -> ManagerView<M>
    decreases events.len(),
{
    if events.len() == 0 {
        manager
    } else {
        after(after_all(manager, events.drop_last()), events.last())
    }
}

/// The operation can end the wait for a load of `name`: it takes the model out, brings the
/// load's result, or has another model loaded.
pub open spec fn ends_wait<M>(manager: ManagerView<M>, event: Event<M>, name: Seq<char>) -> bool {
    match event {
        Event::Unregister { name: other } => other == name,
        Event::FinishLoad { name: other, .. } => other == name,
        Event::EnsureLoading { asked, .. } => match manager.resolve_name(asked) {
            Ok(other) => other != name && manager.resolve_path(other) is Ok,
            Err(_) => false,
        },
        _ => false,
    }
}

/// The operation brings this result of a load of `name`.
pub open spec fn brings<M>(
    event: Event<M>,
    name: Seq<char>,
    result: Result<Arc<M>, ErrorView>,
) -> bool {
    match event {
        Event::FinishLoad { name: loaded, result: brought, .. } => loaded == name && brought
            == result,
        _ => false,
    }
}

/// The operation brings the news that a load of `name` failed with this message.
pub open spec fn fails<M>(event: Event<M>, name: Seq<char>, message: Seq<char>) -> bool {
    match event {
        Event::FinishLoad { name: loaded, result: Err(error), .. } => loaded == name
            && error.message() == message,
        _ => false,
    }
}

/// The manager after `name` was asked for at each of `times`.
pub open spec fn fetched_at<M>(
    manager: ManagerView<M>,
    name: Seq<char>,
    times: Seq<u128>,
) -> ManagerView<M>
    decreases times.len(),
{
    if times.len() == 0 {
        manager
    } else {
        fetched_at(manager, name, times.drop_last()).fetched(name, times.last())
    }
}

/// No time in `times` is longer after the one before it, or after `start`, than `gap`.
pub open spec fn steady(start: u128, times: Seq<u128>, gap: u128) -> bool {
    forall|i: int|
        0 <= i < times.len() ==> (#[trigger] times[i]) - (if i == 0 {
            start
        } else {
            times[i - 1]
        }) <= gap
}

/// The manager after the monitor's ticks at `ticks`.
pub open spec fn ticked_at<M>(manager: ManagerView<M>, ticks: Seq<u128>) -> ManagerView<M>
    decreases ticks.len(),
{
    if ticks.len() == 0 {
        manager
    } else {
        ticked_at(manager, ticks.drop_last()).expired(ticks.last())
    }
}

/// At tick `i` the monitor drops the model, which until then it left as it was: the tick comes
/// after the timeout, within `check_interval` of it, waiting tasks are told, and from then on
/// nothing is loaded.
pub open spec fn drops_at<M>(manager: ManagerView<M>, ticks: Seq<u128>, i: int) -> bool {
    let end = manager.last_activity->0 + manager.inactivity_timeout;
    &&& 0 <= i < ticks.len()
    &&& end < ticks[i] <= end + manager.check_interval
    &&& ticked_at(manager, ticks.take(i)) == manager
    &&& ticked_at(manager, ticks.take(i)).expires(ticks[i])
    &&& forall|j: int|
        i < j <= ticks.len() ==> #[trigger] ticked_at(manager, ticks.take(j))
            == manager.with_state(LoadStateView::Idle)
}

/// Whatever operations come, a use is on record exactly while a model is loaded, and the load
/// state is about a registered model.
pub proof fn law_operations_keep_the_invariant<M>(manager: ManagerView<M>, events: Seq<Event<M>>)
    requires
        manager.wf(),
    ensures
        after_all(manager, events).wf(),
    decreases events.len(),
{
    if events.len() > 0 {
        law_operations_keep_the_invariant(manager, events.drop_last());
    }
}

/// Whatever operations come to a manager that was idle, its load state is only ever about a
/// registered model.
pub proof fn law_load_state_is_of_registered_model<M>(
    manager: ManagerView<M>,
    events: Seq<Event<M>>,
)
    requires
        manager.load_state is Idle,
    ensures
        forall|name: Seq<char>| #[trigger]
            after_all(manager, events).concerns(name) ==> after_all(
                manager,
                events,
            ).registry.contains_key(name),
    decreases events.len(),
{
    if events.len() > 0 {
        let before = after_all(manager, events.drop_last());
        law_load_state_is_of_registered_model(manager, events.drop_last());
        if let Some(name) = before.load_state.model_name() {
            assert(before.concerns(name));
        }
    }
}

/// A name is refused exactly where none is given and no default is set. After a default was set,
/// no name means that model. A model that is not registered is no error: it is reported idle.
pub proof fn law_every_name_can_be_looked_at<M>(
    manager: ManagerView<M>,
    asked: Option<Seq<char>>,
    name: Seq<char>,
    now: u128,
)
    requires
        manager.wf(),
    ensures
        manager.resolve_name(asked) is Err <==> asked is None && manager.default_model is None,
        manager.resolve_name(asked) matches Err(error) ==> error == ErrorView::NoDefaultModel,
        manager.with_default(name).resolve_name(None) == manager.with_default(name).resolve_name(
            Some(name),
        ),
        after(manager.with_default(name), Event::Snapshot { asked: None, now }) == after(
            manager.with_default(name),
            Event::Snapshot { asked: Some(name), now },
        ),
        !manager.registry.contains_key(name) ==> manager.resolve_name(Some(name)) == Ok::<
            _,
            ErrorView,
        >(name) && manager.expired(now).report(name) is Idle,
{
}

/// A load state is about a model exactly where the model is not reported idle in it, so it is
/// about at most one. A manager reports what its load state says.
pub proof fn law_state_is_for_what_is_not_idle<M>(
    state: LoadStateView<M>,
    name: Seq<char>,
    other: Seq<char>,
)
    ensures
        state.concerns(name) <==> !(state.report(name) is Idle),
        state.concerns(name) && state.concerns(other) ==> name == other,
        forall|manager: ManagerView<M>|
            manager.load_state == state ==> (#[trigger] manager.concerns(name) <==> !(
            manager.report(name) is Idle)),
{
}

/// The monitor, whose ticks are no further apart than its interval, leaves an unused model in
/// place up to the timeout. Once its ticks have gone past the timeout the model is gone: one of
/// them dropped it, at most one interval after the timeout, and told waiting tasks. So at any
/// time later than the timeout and one interval, with the monitor still at work, nothing is
/// loaded.
pub proof fn law_monitor_drops_in_time<M>(manager: ManagerView<M>, ticks: Seq<u128>)
    requires
        manager.wf(),
        manager.load_state is Ready,
        steady(manager.last_activity->0, ticks, manager.check_interval),
    ensures
        forall|n: int|
            0 <= n <= ticks.len() && (forall|k: int|
                0 <= k < n ==> #[trigger] ticks[k] <= manager.last_activity->0
                    + manager.inactivity_timeout) ==> #[trigger] ticked_at(manager, ticks.take(n))
                == manager,
        forall|k: int|
            0 <= k < ticks.len() && #[trigger] ticks[k] > manager.last_activity->0
                + manager.inactivity_timeout ==> (exists|i: int|
                i <= k && #[trigger] drops_at(manager, ticks, i)),
        forall|now: u128| #[trigger]
            steady(manager.last_activity->0, ticks.push(now), manager.check_interval) && now
                > manager.last_activity->0 + manager.inactivity_timeout + manager.check_interval
                ==> ticked_at(manager, ticks) == manager.with_state(LoadStateView::Idle),
{
    let end = manager.last_activity->0 + manager.inactivity_timeout;
    assert forall|n: int|
        0 <= n <= ticks.len() && (forall|k: int| 0 <= k < n ==> #[trigger] ticks[k] <= end) implies
        #[trigger] ticked_at(manager, ticks.take(n)) == manager by {
        lemma_ticks_before_end(manager, ticks, n);
    }
    assert forall|k: int| 0 <= k < ticks.len() && #[trigger] ticks[k] > end implies (exists|i: int|
        i <= k && #[trigger] drops_at(manager, ticks, i)) by {
        let i = lemma_first_past(ticks, end, k);
        lemma_ticks_before_end(manager, ticks, i);
        assert(ticks[i] - (if i == 0 {
            manager.last_activity->0
        } else {
            ticks[i - 1]
        }) <= manager.check_interval);
        assert forall|j: int| i < j <= ticks.len() implies #[trigger] ticked_at(
            manager,
            ticks.take(j),
        ) == manager.with_state(LoadStateView::Idle) by {
            lemma_dropped_stays(manager, ticks, i, j);
        }
        assert(drops_at(manager, ticks, i));
    }
    assert forall|now: u128| #[trigger]
        steady(manager.last_activity->0, ticks.push(now), manager.check_interval) && now > end
            + manager.check_interval implies ticked_at(manager, ticks) == manager.with_state(
        LoadStateView::Idle,
    ) by {
        let times = ticks.push(now);
        let last = ticks.len() - 1;
        assert(times[last + 1] - (if last + 1 == 0 {
            manager.last_activity->0
        } else {
            times[last]
        }) <= manager.check_interval);
        assert(times[last] == ticks[last]);
        let i = choose|i: int| i <= last && #[trigger] drops_at(manager, ticks, i);
        assert(ticks.take(ticks.len() as int) =~= ticks);
    }
}

/// Nothing but a loaded model is ever changed by the monitor.
pub proof fn law_monitor_leaves_other_states<M>(manager: ManagerView<M>, ticks: Seq<u128>)
    requires
        !(manager.load_state is Ready),
    ensures
        ticked_at(manager, ticks) == manager,
    decreases ticks.len(),
{
    if ticks.len() > 0 {
        law_monitor_leaves_other_states(manager, ticks.drop_last());
    }
}

/// The first of the ticks up to `k` that comes after `end`.
proof fn lemma_first_past(ticks: Seq<u128>, end: int, k: int) -> (i: int)
    requires
        0 <= k < ticks.len(),
        ticks[k] > end,
    ensures
        0 <= i <= k,
        ticks[i] > end,
        forall|j: int| 0 <= j < i ==> #[trigger] ticks[j] <= end,
    decreases k,
{
    if exists|j: int| 0 <= j < k && #[trigger] ticks[j] > end {
        let j = choose|j: int| 0 <= j < k && #[trigger] ticks[j] > end;
        lemma_first_past(ticks, end, j)
    } else {
        k
    }
}

proof fn lemma_ticks_before_end<M>(manager: ManagerView<M>, ticks: Seq<u128>, n: int)
    requires
        manager.last_activity is Some,
        0 <= n <= ticks.len(),
        forall|k: int|
            0 <= k < n ==> #[trigger] ticks[k] <= manager.last_activity->0
                + manager.inactivity_timeout,
    ensures
        ticked_at(manager, ticks.take(n)) == manager,
    decreases n,
{
    if n > 0 {
        lemma_ticks_before_end(manager, ticks, n - 1);
        assert(ticks.take(n).drop_last() =~= ticks.take(n - 1));
        assert(ticks.take(n).last() == ticks[n - 1]);
    }
}

proof fn lemma_dropped_stays<M>(manager: ManagerView<M>, ticks: Seq<u128>, i: int, j: int)
    requires
        0 <= i < j <= ticks.len(),
        ticked_at(manager, ticks.take(i)) == manager,
        manager.expires(ticks[i]),
    ensures
        ticked_at(manager, ticks.take(j)) == manager.with_state(LoadStateView::Idle),
    decreases j,
{
    assert(ticks.take(j).drop_last() =~= ticks.take(j - 1));
    assert(ticks.take(j).last() == ticks[j - 1]);
    if j > i + 1 {
        lemma_dropped_stays(manager, ticks, i, j - 1);
    }
}

/// Of two models at most one is loading, loaded or failed; the other is reported idle.
pub proof fn law_one_model_at_a_time<M>(manager: ManagerView<M>, a: Seq<char>, b: Seq<char>)
    requires
        a != b,
    ensures
        manager.report(a) is Idle || manager.report(b) is Idle,
{
}

/// While a load of a model is awaited, asking for the model starts no second load, whatever
/// other operations come in between, until one of them ends the wait.
pub proof fn law_one_load_at_a_time<M>(
    manager: ManagerView<M>,
    events: Seq<Event<M>>,
    name: Seq<char>,
    now: u128,
)
    requires
        manager.awaits(name),
        forall|i: int|
            0 <= i < events.len() ==> !ends_wait(
                after_all(manager, events.take(i)),
                #[trigger] events[i],
                name,
            ),
    ensures
        after_all(manager, events).awaits(name),
        !after_all(manager, events).starts_load(name, now),
        after_all(manager, events).load_ensured(name, now) == after_all(manager, events),
    decreases events.len(),
{
    if events.len() > 0 {
        let earlier = events.drop_last();
        assert forall|i: int| 0 <= i < earlier.len() implies !ends_wait(
            after_all(manager, earlier.take(i)),
            #[trigger] earlier[i],
            name,
        ) by {
            assert(earlier.take(i) =~= events.take(i));
            assert(earlier[i] == events[i]);
        }
        law_one_load_at_a_time(manager, earlier, name, now);
        assert(events.take(events.len() - 1) =~= earlier);
        assert(!ends_wait(after_all(manager, earlier), events[events.len() - 1], name));
    }
}

/// A load that is no longer awaited changes nothing when it ends. It is no longer awaited once
/// its model was taken out, or once a load of another model was started.
pub proof fn law_stale_load_is_ignored<M>(
    manager: ManagerView<M>,
    name: Seq<char>,
    other: Seq<char>,
    result: Result<Arc<M>, ErrorView>,
    started: u128,
    now: u128,
)
    ensures
        !manager.awaits(name) ==> manager.load_finished(name, result, now) == manager,
        manager.unregistered(name).load_finished(name, result, now) == manager.unregistered(name),
        other != name && manager.starts_load(other, started) ==> manager.load_ensured(
            other,
            started,
        ).load_finished(name, result, now) == manager.load_ensured(other, started),
{
}

/// A load that is awaited and makes a model has it handed out to whoever asks within the timeout.
pub proof fn law_loaded_model_is_served<M>(
    manager: ManagerView<M>,
    name: Seq<char>,
    model: Arc<M>,
    loaded: u128,
    now: u128,
)
    requires
        manager.awaits(name),
        now - loaded <= manager.inactivity_timeout,
    ensures
        manager.load_finished(name, Ok(model), loaded).report(name) is Ready,
        manager.load_finished(name, Ok(model), loaded).expired(now).model_for(name) == Some(model),
{
}

/// A model that is asked for before the timeout is handed out, and its time starts anew.
pub proof fn law_use_restarts_timeout<M>(
    manager: ManagerView<M>,
    name: Seq<char>,
    now: u128,
    later: u128,
)
    requires
        manager.wf(),
        manager.model_for(name) is Some,
        now - manager.last_activity->0 <= manager.inactivity_timeout,
        later - now <= manager.inactivity_timeout,
    ensures
        manager.expired(now).model_for(name) == manager.model_for(name),
        manager.fetched(name, now).expired(later).model_for(name) == manager.model_for(name),
{
}

/// A model that is asked for again and again, never later than the timeout after the time
/// before, is the same model each time.
pub proof fn law_steady_use_keeps_model<M>(
    manager: ManagerView<M>,
    name: Seq<char>,
    times: Seq<u128>,
)
    requires
        manager.wf(),
        manager.model_for(name) is Some,
        steady(manager.last_activity->0, times, manager.inactivity_timeout),
    ensures
        forall|i: int|
            0 <= i < times.len() ==> fetched_at(manager, name, times.take(i)).expired(
                #[trigger] times[i],
            ).model_for(name) == manager.model_for(name),
        fetched_at(manager, name, times) == (ManagerView {
            last_activity: if times.len() == 0 {
                manager.last_activity
            } else {
                Some(times.last())
            },
            ..manager
        }),
    decreases times.len(),
{
    if times.len() > 0 {
        let earlier = times.drop_last();
        assert forall|i: int| 0 <= i < earlier.len() implies (#[trigger] earlier[i]) - (if i == 0 {
            manager.last_activity->0
        } else {
            earlier[i - 1]
        }) <= manager.inactivity_timeout by {
            assert(earlier[i] == times[i]);
        }
        law_steady_use_keeps_model(manager, name, earlier);
        assert forall|i: int| 0 <= i < times.len() implies fetched_at(
            manager,
            name,
            times.take(i),
        ).expired(#[trigger] times[i]).model_for(name) == manager.model_for(name) by {
            if i < earlier.len() {
                assert(earlier.take(i) =~= times.take(i));
                assert(earlier[i] == times[i]);
            } else {
                assert(times.take(i) =~= earlier);
                assert(times[i] - (if i == 0 {
                    manager.last_activity->0
                } else {
                    times[i - 1]
                }) <= manager.inactivity_timeout);
            }
        }
        assert(times.take(times.len() - 1) =~= earlier);
        assert(times[times.len() - 1] == times.last());
    }
}

/// A model that is loaded and not overdue is neither loaded again nor dropped when it is asked to
/// be loaded.
pub proof fn law_usable_model_is_kept<M>(
    manager: ManagerView<M>,
    name: Seq<char>,
    path: PathBuf,
    now: u128,
)
    requires
        manager.expired(now).model_for(name) is Some,
    ensures
        manager.job_for(name, path, now) is None,
        !manager.starts_load(name, now),
        manager.load_ensured(name, now) == manager,
        manager.load_ensured(name, now).model_for(name) == manager.model_for(name),
{
}

/// Keeping alive restarts the timeout of the loaded model, whichever it is and whatever the
/// default, and changes nothing else.
pub proof fn law_keep_alive_restarts_timeout<M>(
    manager: ManagerView<M>,
    name: Seq<char>,
    now: u128,
    later: u128,
)
    ensures
        later - now <= manager.inactivity_timeout ==> manager.kept_alive(now).expired(
            later,
        ).model_for(name) == manager.model_for(name),
        later - now > manager.inactivity_timeout ==> manager.kept_alive(now).expired(
            later,
        ).model_for(name) is None,
        manager.kept_alive(now).registry == manager.registry,
        manager.kept_alive(now).default_model == manager.default_model,
        manager.kept_alive(now).load_state == manager.load_state,
{
}

/// A model that was left unused for longer than the timeout is gone: nothing is loaded any more,
/// and asking for it starts a load.
pub proof fn law_unused_model_is_dropped<M>(
    manager: ManagerView<M>,
    name: Seq<char>,
    now: u128,
)
    requires
        manager.wf(),
        manager.load_state is Ready,
        now - manager.last_activity->0 > manager.inactivity_timeout,
    ensures
        manager.expired(now).load_state is Idle,
        manager.expired(now).report(name) is Idle,
        manager.expired(now).model_for(name) is None,
        manager.starts_load(name, now),
{
}

/// No operation can tell whether the monitor looked earlier: what it would have dropped by then
/// is dropped on access.
pub proof fn law_access_drops_what_monitor_would<M>(
    manager: ManagerView<M>,
    name: Seq<char>,
    tick: u128,
    now: u128,
)
    requires
        tick <= now,
    ensures
        manager.expired(tick).expired(now) == manager.expired(now),
        manager.expired(tick).fetched(name, now) == manager.fetched(name, now),
        manager.expired(tick).starts_load(name, now) == manager.starts_load(name, now),
        manager.expired(tick).load_ensured(name, now) == manager.load_ensured(name, now),
{
}

/// Looking changes nothing that a second look at the same time would see.
pub proof fn law_snapshot_repeats<M>(manager: ManagerView<M>, name: Seq<char>, now: u128)
    ensures
        manager.expired(now).expired(now).report(name) == manager.expired(now).report(name),
        manager.expired(now).expired(now) == manager.expired(now),
        !manager.expired(now).expires(now),
{
}

/// A failure stays on record, whatever looks at it, until the model is asked for again, and then
/// a load is started and awaited.
pub proof fn law_failed_load_can_be_retried<M>(
    manager: ManagerView<M>,
    name: Seq<char>,
    path: PathBuf,
    now: u128,
)
    requires
        manager.report(name) is Failed,
    ensures
        manager.expired(now) == manager,
        manager.kept_alive(now) == manager,
        manager.fetched(name, now) == manager,
        manager.job_for(name, path, now) == Some(LoadJobView { name, path }),
        manager.load_ensured(name, now).awaits(name),
{
}

/// The message of a failed load is what is reported of the model.
pub proof fn law_failure_is_reported<M>(
    manager: ManagerView<M>,
    name: Seq<char>,
    error: ErrorView,
    now: u128,
)
    requires
        manager.awaits(name),
    ensures
        manager.load_finished(name, Err(error), now).report(name) == (ModelLoadStateView::Failed {
            error: error.message(),
        }),
{
}

/// A model that was taken out is unknown and idle; other models keep their path and their report.
pub proof fn law_unregistered_model_is_unknown<M>(
    manager: ManagerView<M>,
    name: Seq<char>,
    other: Seq<char>,
)
    ensures
        manager.unregistered(name).resolve_path(name) == Err::<PathBuf, ErrorView>(
            ErrorView::ModelNotRegistered(name),
        ),
        manager.unregistered(name).report(name) is Idle,
        other != name ==> manager.unregistered(name).resolve_path(other) == manager.resolve_path(other),
        other != name ==> manager.unregistered(name).report(other) == manager.report(other),
{
}

/// A registered model is loaded from the path it was last registered under, also where it is
/// asked for as the default.
pub proof fn law_registered_path_is_loaded<M>(
    manager: ManagerView<M>,
    name: Seq<char>,
    path: PathBuf,
    other: Seq<char>,
)
    ensures
        manager.registered(name, path).resolve_path(name) == Ok::<PathBuf, ErrorView>(path),
        other != name ==> manager.registered(name, path).resolve_path(other) == manager.resolve_path(other),
        manager.registered(name, path).with_default(name).resolve_name(None) == Ok::<
            Seq<char>,
            ErrorView,
        >(name),
        manager.registered(name, path).load_state == manager.load_state,
{
}

/// A load that is handed out is the one that is awaited from then on.
pub proof fn law_started_load_is_awaited<M>(
    manager: ManagerView<M>,
    name: Seq<char>,
    path: PathBuf,
    now: u128,
)
    ensures
        manager.job_for(name, path, now) is Some ==> manager.load_ensured(name, now).awaits(name),
        manager.job_for(name, path, now) is None ==> manager.load_ensured(name, now)
            == manager.expired(now) && !(manager.expired(now).report(name) is Idle)
            && !(manager.expired(now).report(name) is Failed),
{
}

/// A model that is handed out was made by a load of that name.
pub proof fn law_served_model_was_loaded<M>(
    manager: ManagerView<M>,
    events: Seq<Event<M>>,
    name: Seq<char>,
    model: Arc<M>,
)
    requires
        !(manager.load_state is Ready),
        after_all(manager, events).model_for(name) == Some(model),
    ensures
        exists|i: int|
            0 <= i < events.len() && #[trigger] brings(events[i], name, Ok(model)),
    decreases events.len(),
{
    if events.len() > 0 {
        let earlier = events.drop_last();
        let before = after_all(manager, earlier);
        if before.model_for(name) == Some(model) {
            law_served_model_was_loaded(manager, earlier, name, model);
            let i = choose|i: int|
                0 <= i < earlier.len() && #[trigger] brings(earlier[i], name, Ok(model));
            assert(brings(events[i], name, Ok(model)));
        } else {
            assert(brings(events[events.len() - 1], name, Ok(model)));
        }
    }
}

/// A failure that is reported is the message of a load of that name that failed.
pub proof fn law_reported_failure_happened<M>(
    manager: ManagerView<M>,
    events: Seq<Event<M>>,
    name: Seq<char>,
    message: Seq<char>,
)
    requires
        !(manager.load_state is Failed),
        after_all(manager, events).report(name) == (ModelLoadStateView::Failed { error: message }),
    ensures
        exists|i: int|
            0 <= i < events.len() && #[trigger] fails(events[i], name, message),
    decreases events.len(),
{
    if events.len() > 0 {
        let earlier = events.drop_last();
        let before = after_all(manager, earlier);
        if before.report(name) == (ModelLoadStateView::Failed { error: message }) {
            law_reported_failure_happened(manager, earlier, name, message);
            let i = choose|i: int|
                0 <= i < earlier.len() && #[trigger] fails(earlier[i], name, message);
            assert(fails(events[i], name, message));
        } else {
            assert(fails(events[events.len() - 1], name, message));
        }
    }
}

} // verus!
