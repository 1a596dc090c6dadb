//! Waiting for a model, step by step.
//!
//! [`ModelManager::get`] takes one step of a request under a lock that the caller holds. Between
//! steps the caller gives up the lock, so any other operation may come in between. Before a step
//! in [`GetPhase::Recheck`] the caller registers for the next notification; that registration is
//! what it waits on when the step says [`GetOutcome::Wait`].

use std::sync::Arc;

use vstd::prelude::*;

use crate::error::{Error, ErrorView};
use crate::manager::{
    opt_job, result_view, LoadJob, LoadJobView, ManagerView, ModelLoadState, ModelLoadStateView,
    ModelManager,
};
use crate::text::opt_text;

verus! {

/// What the next step of a request does.
#[derive(Debug, Clone, Copy, PartialEq, Eq, Structural)]
pub enum GetPhase {
    /// Takes the model if it is loaded.
    Fetch,
    /// Looks at why it is not.
    Inspect,
    /// Has it loaded.
    Load,
    /// Looks once more before waiting.
    Recheck,
}

/// A request for one model.
pub struct GetRequest {
    pub name: String,
    pub waited_for_load: bool,
    pub phase: GetPhase,
}

/// A [`GetRequest`] by the characters of its name.
pub struct GetRequestView {
    pub name: Seq<char>,
    pub waited_for_load: bool,
    pub phase: GetPhase,
}

impl View for GetRequest {
    type V = GetRequestView;

    open spec fn view(&self) -> GetRequestView {
        GetRequestView {
            name: self.name@,
            waited_for_load: self.waited_for_load,
            phase: self.phase,
        }
    }
}

/// What the caller does after a step.
pub enum GetOutcome<M> {
    /// Takes the next step.
    Again,
    /// Waits for the notification it registered for, then takes the next step.
    Wait,
    /// Is done.
    Return(Result<Arc<M>, Error>),
}

/// A [`GetOutcome`] by the view of its error.
pub enum GetOutcomeView<M> {
    Again,
    Wait,
    Return(Result<Arc<M>, ErrorView>),
}

impl<M> View for GetOutcome<M> {
    type V = GetOutcomeView<M>;

    open spec fn view(&self) -> GetOutcomeView<M> {
        match *self {
            GetOutcome::Again => GetOutcomeView::Again,
            GetOutcome::Wait => GetOutcomeView::Wait,
            GetOutcome::Return(result) => GetOutcomeView::Return(
                result_view(result),
            ),
        }
    }
}

/// A step: what comes next, a load to run before it, and whether waiting tasks are to be told.
pub struct GetStep<M> {
    pub outcome: GetOutcome<M>,
    pub job: Option<LoadJob>,
    pub notify: bool,
}

/// What one step does to the manager and to the request, and what it gives back.
#[verifier::ext_equal]
pub struct GetTransition<M> {
    pub manager: ManagerView<M>,
    pub request: GetRequestView,
    pub outcome: GetOutcomeView<M>,
    pub job: Option<LoadJobView>,
    pub notify: bool,
}

impl GetRequestView {
    /// The request in another phase.
    pub open spec fn at(self, phase: GetPhase) -> Self {
        GetRequestView { phase, ..self }
    }
}

/// The step of `request` at `now`.
///
/// A loaded model is handed out. A model that is neither loaded nor on its way is loaded, and so
/// is one whose load failed before the request waited for any. The failure of a load that was
/// waited for, or that is seen on the last look before waiting, ends the request.
pub open spec fn get_transition<M>(
    manager: ManagerView<M>,
    request: GetRequestView,
    now: u128,
) -> GetTransition<M> {
    let current = manager.expired(now);
    let seen = current.report(request.name);
    let again = GetTransition {
        manager: current,
        request,
        outcome: GetOutcomeView::Again,
        job: None,
        notify: manager.expires(now),
    };
    match request.phase {
        GetPhase::Fetch => match current.model_for(request.name) {
            Some(model) => GetTransition {
                manager: manager.fetched(request.name, now),
                outcome: GetOutcomeView::Return(Ok(model)),
                ..again
            },
            None => GetTransition { request: request.at(GetPhase::Inspect), ..again },
        },
        GetPhase::Inspect => match seen {
            ModelLoadStateView::Idle => {
                GetTransition { request: request.at(GetPhase::Load), ..again }
            },
            ModelLoadStateView::Loading => {
                GetTransition { request: request.at(GetPhase::Recheck), ..again }
            },
            ModelLoadStateView::Ready => {
                GetTransition { request: request.at(GetPhase::Fetch), ..again }
            },
            ModelLoadStateView::Failed { error } => if request.waited_for_load {
                GetTransition {
                    outcome: GetOutcomeView::Return(Err(ErrorView::StoredLoadFailure(error))),
                    ..again
                }
            } else {
                GetTransition { request: request.at(GetPhase::Load), ..again }
            },
        },
        GetPhase::Load => match manager.resolve_path(request.name) {
            Err(error) => GetTransition {
                manager,
                outcome: GetOutcomeView::Return(Err(error)),
                notify: false,
                ..again
            },
            Ok(path) => GetTransition {
                manager: manager.load_ensured(request.name, now),
                request: request.at(GetPhase::Recheck),
                outcome: GetOutcomeView::Again,
                job: manager.job_for(request.name, path, now),
                notify: manager.starts_load(request.name, now),
            },
        },
        GetPhase::Recheck => match seen {
            ModelLoadStateView::Ready | ModelLoadStateView::Idle => {
                GetTransition { request: request.at(GetPhase::Fetch), ..again }
            },
            ModelLoadStateView::Failed { error } => GetTransition {
                outcome: GetOutcomeView::Return(Err(ErrorView::StoredLoadFailure(error))),
                ..again
            },
            ModelLoadStateView::Loading => GetTransition {
                request: GetRequestView {
                    waited_for_load: true,
                    phase: GetPhase::Fetch,
                    ..request
                },
                outcome: GetOutcomeView::Wait,
                ..again
            },
        },
    }
}

impl<M> ModelManager<M> {
    /// A new request for the model meant by `name`.
    pub fn begin_get(&self, name: Option<&str>) -> (request: Result<GetRequest, Error>)
        ensures
            match self@.resolve_name(opt_text(name)) {
                Ok(resolved) => request matches Ok(r) && r@ == (GetRequestView {
                    name: resolved,
                    waited_for_load: false,
                    phase: GetPhase::Fetch,
                }),
                Err(error) => request matches Err(e) && e@ == error,
            },
    {
        match self.resolve_name(name) {
            Ok(name) => Ok(
                GetRequest { name, waited_for_load: false, phase: GetPhase::Fetch },
            ),
            Err(error) => Err(error),
        }
    }

    /// Takes one step of `request`.
    pub fn get(&mut self, request: &mut GetRequest, now: u128) -> (step: GetStep<M>)
        ensures
            old(self)@.wf() ==> final(self)@.wf(),
            (GetTransition {
                manager: final(self)@,
                request: final(request)@,
                outcome: step.outcome@,
                job: opt_job(step.job),
                notify: step.notify,
            }) == get_transition(old(self)@, old(request)@, now),
    {
        let name: String = request.name.clone();
        match request.phase {
            GetPhase::Fetch => match self.get_if_ready(Some(name.as_str()), now) {
                Ok(found) => {
                    let outcome = match found.value {
                        Some(model) => GetOutcome::Return(Ok(model)),
                        None => {
                            request.phase = GetPhase::Inspect;
                            GetOutcome::Again
                        },
                    };
                    GetStep { outcome, job: None, notify: found.notify }
                },
                Err(error) => returned(error),
            },
            GetPhase::Inspect => match self.snapshot(Some(name.as_str()), now) {
                Ok(seen) => {
                    let outcome = match seen.value {
                        ModelLoadState::Idle => {
                            request.phase = GetPhase::Load;
                            GetOutcome::Again
                        },
                        ModelLoadState::Loading => {
                            request.phase = GetPhase::Recheck;
                            GetOutcome::Again
                        },
                        ModelLoadState::Ready => {
                            request.phase = GetPhase::Fetch;
                            GetOutcome::Again
                        },
                        ModelLoadState::Failed { error } => if request.waited_for_load {
                            GetOutcome::Return(Err(Error::StoredLoadFailure(error)))
                        } else {
                            request.phase = GetPhase::Load;
                            GetOutcome::Again
                        },
                    };
                    GetStep { outcome, job: None, notify: seen.notify }
                },
                Err(error) => returned(error),
            },
            GetPhase::Load => match self.ensure_loading(Some(name.as_str()), now) {
                Ok(job) => {
                    request.phase = GetPhase::Recheck;
                    let notify = job.is_some();
                    GetStep { outcome: GetOutcome::Again, job, notify }
                },
                Err(error) => returned(error),
            },
            GetPhase::Recheck => match self.snapshot(Some(name.as_str()), now) {
                Ok(seen) => {
                    let outcome = match seen.value {
                        ModelLoadState::Ready | ModelLoadState::Idle => {
                            request.phase = GetPhase::Fetch;
                            GetOutcome::Again
                        },
                        ModelLoadState::Failed { error } => {
                            GetOutcome::Return(Err(Error::StoredLoadFailure(error)))
                        },
                        ModelLoadState::Loading => {
                            request.waited_for_load = true;
                            request.phase = GetPhase::Fetch;
                            GetOutcome::Wait
                        },
                    };
                    GetStep { outcome, job: None, notify: seen.notify }
                },
                Err(error) => returned(error),
            },
        }
    }
}

/// The step that ends a request with `error`.
fn returned<M>(error: Error) -> (step: GetStep<M>)
    ensures
        step.outcome@ == GetOutcomeView::<M>::Return(Err(error@)),
        step.job is None,
        !step.notify,
{
    GetStep { outcome: GetOutcome::Return(Err(error)), job: None, notify: false }
}

} // verus!
