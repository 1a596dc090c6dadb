//! The transcription service around one default model.

use std::path::PathBuf;

use vstd::prelude::*;

use crate::builder::{usual_manager, ModelManagerBuilder};
use crate::error::{Error, ErrorView};
use crate::header::text_or;
use crate::listen::{parse_listen_params, query_params};
use crate::manager::{
    opt_job, LoadJob, LoadJobView, ManagerView, ModelLoadState, ModelLoadStateView, ModelManager,
    Observed,
};
use crate::readiness::{readiness_of, TranscribeReadinessHandle};
use crate::request::{
    ListenCall, PendingCallView, ReadyModel, ReadyModelView, RequestHead, DEFAULT_CONTENT_TYPE,
};
use crate::response::{
    status_response, text_reply, Reply, ReplyBodyView, ReplyView, STATUS_BAD_REQUEST,
    STATUS_INTERNAL_SERVER_ERROR, STATUS_OK,
};

verus! {

pub const LISTEN_PATH: &'static str = "/v1/listen";

pub const HEALTH_PATH: &'static str = "/health";

pub const STATUS_PATH: &'static str = "/status";

/// The name of the one model that the service registers.
pub const DEFAULT_MODEL: &'static str = "default";

/// The model's path, its manager, and the settings of the transcription.
pub struct TranscribeService<M, C> {
    pub model_path: PathBuf,
    pub manager: ModelManager<M>,
    pub cactus_config: C,
}

/// What the next step of a look-up of the model does.
pub enum ReadyPhase {
    /// Takes the model if it is loaded.
    Fetch,
    /// Looks at why it is not.
    Inspect,
    /// Takes the model, which was loaded a moment ago.
    Refetch,
    /// Has it loaded, and answers that it is loading.
    Load,
    /// Has it loaded again, and answers with this failure.
    Reload(String),
}

/// A [`ReadyPhase`] by the characters that it carries.
pub enum ReadyPhaseView {
    Fetch,
    Inspect,
    Refetch,
    Load,
    Reload(Seq<char>),
}

impl View for ReadyPhase {
    type V = ReadyPhaseView;

    open spec fn view(&self) -> ReadyPhaseView {
        match self {
            ReadyPhase::Fetch => ReadyPhaseView::Fetch,
            ReadyPhase::Inspect => ReadyPhaseView::Inspect,
            ReadyPhase::Refetch => ReadyPhaseView::Refetch,
            ReadyPhase::Load => ReadyPhaseView::Load,
            ReadyPhase::Reload(error) => ReadyPhaseView::Reload(error@),
        }
    }
}

/// What the caller does after a step of a look-up.
pub enum ReadyOutcome<M> {
    /// Takes the next step.
    Again(ReadyPhase),
    /// Is done.
    Return(Result<ReadyModel<M>, Error>),
}

/// A [`ReadyOutcome`] by the characters that it carries.
pub enum ReadyOutcomeView<M> {
    Again(ReadyPhaseView),
    Return(Result<ReadyModelView<M>, ErrorView>),
}

impl<M> View for ReadyOutcome<M> {
    type V = ReadyOutcomeView<M>;

    open spec fn view(&self) -> ReadyOutcomeView<M> {
        match self {
            ReadyOutcome::Again(phase) => ReadyOutcomeView::Again(phase@),
            ReadyOutcome::Return(Ok(found)) => ReadyOutcomeView::Return(Ok(found@)),
            ReadyOutcome::Return(Err(error)) => ReadyOutcomeView::Return(Err(error@)),
        }
    }
}

/// A step of a look-up: what comes next, a load to run, and whether waiting tasks are to be told.
pub struct ReadyStep<M> {
    pub outcome: ReadyOutcome<M>,
    pub job: Option<LoadJob>,
    pub notify: bool,
}

/// What one step of a look-up does to the manager, and what it gives back.
#[verifier::ext_equal]
pub struct ReadyTransition<M> {
    pub manager: ManagerView<M>,
    pub outcome: ReadyOutcomeView<M>,
    pub job: Option<LoadJobView>,
    pub notify: bool,
}

/// The step of a look-up at `now`, for the model `name` that is the default.
///
/// A loaded model is handed out. Otherwise a load is ensured, and the answer is that the model is
/// loading, or the failure that was on record before the load was ensured.
pub open spec fn named_transition<M>(
    manager: ManagerView<M>,
    phase: ReadyPhaseView,
    name: Seq<char>,
    now: u128,
) -> ReadyTransition<M> {
    let current = manager.expired(now);
    let fetched = ReadyTransition {
        manager: manager.fetched(name, now),
        outcome: match current.model_for(name) {
            Some(model) => ReadyOutcomeView::Return(Ok(ReadyModelView::Ready(model))),
            None => if phase is Fetch {
                ReadyOutcomeView::Again(ReadyPhaseView::Inspect)
            } else {
                ReadyOutcomeView::Return(Ok(ReadyModelView::Loading))
            },
        },
        job: None,
        notify: manager.expires(now),
    };
    let loaded = match manager.resolve_path(name) {
        Err(error) => ReadyTransition {
            manager,
            outcome: ReadyOutcomeView::Return(Err(error)),
            job: None,
            notify: false,
        },
        Ok(path) => ReadyTransition {
            manager: manager.load_ensured(name, now),
            outcome: ReadyOutcomeView::Return(
                Ok(
                    match phase {
                        ReadyPhaseView::Reload(error) => ReadyModelView::Failed(error),
                        _ => ReadyModelView::Loading,
                    },
                ),
            ),
            job: manager.job_for(name, path, now),
            notify: manager.starts_load(name, now),
        },
    };
    match phase {
        ReadyPhaseView::Fetch | ReadyPhaseView::Refetch => fetched,
        ReadyPhaseView::Inspect => ReadyTransition {
            manager: current,
            outcome: ReadyOutcomeView::Again(
                match current.report(name) {
                    ModelLoadStateView::Ready => ReadyPhaseView::Refetch,
                    ModelLoadStateView::Idle | ModelLoadStateView::Loading => ReadyPhaseView::Load,
                    ModelLoadStateView::Failed { error } => ReadyPhaseView::Reload(error),
                },
            ),
            job: None,
            notify: manager.expires(now),
        },
        ReadyPhaseView::Load | ReadyPhaseView::Reload(_) => loaded,
    }
}

/// The step of a look-up at `now`.
pub open spec fn ready_transition<M>(
    manager: ManagerView<M>,
    phase: ReadyPhaseView,
    now: u128,
) -> ReadyTransition<M> {
    match manager.resolve_name(None) {
        Err(error) => ReadyTransition {
            manager,
            outcome: ReadyOutcomeView::Return(Err(error)),
            job: None,
            notify: false,
        },
        Ok(name) => named_transition(manager, phase, name, now),
    }
}

/// The manager of a service for the model at `path`: it knows the one model, as its default.
pub open spec fn service_manager<M>(path: PathBuf) -> ManagerView<M> {
    usual_manager::<M>().registered(DEFAULT_MODEL@, path).with_default(DEFAULT_MODEL@)
}

impl<M, C> TranscribeService<M, C> {
    /// A builder without a model path and with the usual settings.
    pub fn builder() -> (builder: TranscribeServiceBuilder<C>) where C: Default
        ensures
            builder.model_path is None,
            call_ensures(C::default, (), builder.cactus_config),
    {
        TranscribeServiceBuilder::default()
    }

    /// The handle that tells clients whether transcription can start.
    pub fn readiness_handle(&mut self) -> (handle: TranscribeReadinessHandle<'_, M>)
        ensures
            *handle.manager == old(self).manager,
            *final(self) == (TranscribeService {
                model_path: old(self).model_path,
                manager: *final(handle.manager),
                cactus_config: old(self).cactus_config,
            }),
    {
        TranscribeReadinessHandle { manager: &mut self.manager }
    }

    /// The reply to a request for the readiness at `now`.
    pub fn status(&mut self, now: u128) -> (seen: Observed<Reply>)
        ensures
            old(self).manager@.wf() ==> final(self).manager@.wf(),
            final(self).model_path == old(self).model_path,
            final(self).cactus_config == old(self).cactus_config,
            match old(self).manager@.resolve_name(None) {
                Err(error) => {
                    &&& seen.value@ == text_reply(STATUS_INTERNAL_SERVER_ERROR, error.message())
                    &&& !seen.notify
                    &&& final(self).manager@ == old(self).manager@
                },
                Ok(name) => {
                    &&& seen.value@ == (ReplyView {
                        status: STATUS_OK,
                        retry_after: None,
                        body: ReplyBodyView::Readiness(
                            readiness_of(old(self).manager@.expired(now).report(name)),
                        ),
                    })
                    &&& seen.notify == old(self).manager@.expires(now)
                    &&& final(self).manager@ == old(self).manager@.expired(now)
                },
            },
    {
        let mut handle = self.readiness_handle();
        match handle.snapshot(now) {
            Ok(seen) => Observed { value: status_response(Ok(seen.value)), notify: seen.notify },
            Err(error) => Observed { value: status_response(Err(error)), notify: false },
        }
    }

    /// Takes one step of a look-up of the model, which begins with [`ReadyPhase::Fetch`]. Other
    /// operations may come between two steps.
    pub fn ready_model(&mut self, phase: ReadyPhase, now: u128) -> (step: ReadyStep<M>)
        ensures
            old(self).manager@.wf() ==> final(self).manager@.wf(),
            final(self).model_path == old(self).model_path,
            final(self).cactus_config == old(self).cactus_config,
            (ReadyTransition {
                manager: final(self).manager@,
                outcome: step.outcome@,
                job: opt_job(step.job),
                notify: step.notify,
            }) == ready_transition(old(self).manager@, phase@, now),
    {
        match phase {
            ReadyPhase::Fetch => match self.manager.get_if_ready(None, now) {
                Ok(found) => ReadyStep {
                    outcome: match found.value {
                        Some(model) => ReadyOutcome::Return(Ok(ReadyModel::Ready(model))),
                        None => ReadyOutcome::Again(ReadyPhase::Inspect),
                    },
                    job: None,
                    notify: found.notify,
                },
                Err(error) => refused(error),
            },
            ReadyPhase::Inspect => match self.manager.snapshot(None, now) {
                Ok(seen) => ReadyStep {
                    outcome: ReadyOutcome::Again(
                        match seen.value {
                            ModelLoadState::Ready => ReadyPhase::Refetch,
                            ModelLoadState::Idle | ModelLoadState::Loading => ReadyPhase::Load,
                            ModelLoadState::Failed { error } => ReadyPhase::Reload(error),
                        },
                    ),
                    job: None,
                    notify: seen.notify,
                },
                Err(error) => refused(error),
            },
            ReadyPhase::Refetch => match self.manager.get_if_ready(None, now) {
                Ok(found) => ReadyStep {
                    outcome: ReadyOutcome::Return(
                        Ok(
                            match found.value {
                                Some(model) => ReadyModel::Ready(model),
                                None => ReadyModel::Loading,
                            },
                        ),
                    ),
                    job: None,
                    notify: found.notify,
                },
                Err(error) => refused(error),
            },
            ReadyPhase::Load => self.load(ReadyModel::Loading, now),
            ReadyPhase::Reload(error) => self.load(ReadyModel::Failed(error), now),
        }
    }

    /// Ensures a load of the default model and answers with `answer`.
    fn load(&mut self, answer: ReadyModel<M>, now: u128) -> (step: ReadyStep<M>)
        requires
            answer is Loading || answer is Failed,
        ensures
            old(self).manager@.wf() ==> final(self).manager@.wf(),
            final(self).model_path == old(self).model_path,
            final(self).cactus_config == old(self).cactus_config,
            (ReadyTransition {
                manager: final(self).manager@,
                outcome: step.outcome@,
                job: opt_job(step.job),
                notify: step.notify,
            }) == ready_transition(
                old(self).manager@,
                match answer@ {
                    ReadyModelView::Failed(error) => ReadyPhaseView::Reload(error),
                    _ => ReadyPhaseView::Load,
                },
                now,
            ),
    {
        match self.manager.ensure_loading(None, now) {
            Ok(job) => {
                let notify = job.is_some();
                ReadyStep { outcome: ReadyOutcome::Return(Ok(answer)), job, notify }
            },
            Err(error) => refused(error),
        }
    }

    /// Reads the head of a listen request. A query that does not do is answered at once.
    pub fn call(head: &RequestHead) -> (call: ListenCall)
        ensures
            match query_params(head.query_text()) {
                Err(error) => call matches ListenCall::Answered(reply) && reply@ == text_reply(
                    STATUS_BAD_REQUEST,
                    error.message_text(),
                ),
                Ok(params) => call matches ListenCall::NeedsModel(pending) && pending@ == (
                PendingCallView {
                    is_ws: head.wants_socket(),
                    params,
                    content_type: text_or(head.content_type, DEFAULT_CONTENT_TYPE@),
                    accept: text_or(head.accept, ""@),
                }),
            },
    {
        let params = match &head.query {
            Some(query) => parse_listen_params(query.as_str()),
            None => parse_listen_params(""),
        };
        ListenCall::with_params(head, params)
    }
}

/// The step that ends a look-up with `error`.
fn refused<M>(error: Error) -> (step: ReadyStep<M>)
    ensures
        step.outcome@ == ReadyOutcomeView::<M>::Return(Err(error@)),
        step.job is None,
        !step.notify,
{
    ReadyStep { outcome: ReadyOutcome::Return(Err(error)), job: None, notify: false }
}

/// The settings of a service that is to be made.
pub struct TranscribeServiceBuilder<C> {
    pub model_path: Option<PathBuf>,
    pub cactus_config: C,
}

impl<C: Default> Default for TranscribeServiceBuilder<C> {
    fn default() -> (builder: Self)
        ensures
            builder.model_path is None,
            call_ensures(C::default, (), builder.cactus_config),
    {
        TranscribeServiceBuilder { model_path: None, cactus_config: C::default() }
    }
}

impl<C> TranscribeServiceBuilder<C> {
    /// Sets the path of the model.
    pub fn model_path(self, model_path: PathBuf) -> (builder: Self)
        ensures
            builder == (TranscribeServiceBuilder { model_path: Some(model_path), ..self }),
    {
        TranscribeServiceBuilder { model_path: Some(model_path), ..self }
    }

    /// Sets the settings of the transcription.
    pub fn cactus_config(self, config: C) -> (builder: Self)
        ensures
            builder == (TranscribeServiceBuilder { cactus_config: config, ..self }),
    {
        TranscribeServiceBuilder { cactus_config: config, ..self }
    }

    /// The service with these settings. The load with which it warms up is still to be ensured.
    pub fn build<M>(self) -> (service: TranscribeService<M, C>)
        requires
            self.model_path is Some,
        ensures
            service.model_path == self.model_path->0,
            service.cactus_config == self.cactus_config,
            service.manager@ == service_manager::<M>(self.model_path->0),
            service.manager@.wf(),
    {
        let model_path = self.model_path.unwrap();
        let manager = ModelManagerBuilder::default().register(
            DEFAULT_MODEL.to_string(),
            model_path.clone(),
        ).default_model(DEFAULT_MODEL.to_string()).build();
        TranscribeService { model_path, manager, cactus_config: self.cactus_config }
    }
}

} // verus!
