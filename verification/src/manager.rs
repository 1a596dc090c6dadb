//! The model manager: which model is loading, loaded or failed, and for how long it is kept.
//!
//! Time is a count of nanoseconds since a moment that the caller fixes once. Every operation
//! that reads the clock takes the reading as its argument `now`.

use std::path::PathBuf;
use std::sync::Arc;

use vstd::hash_map::StringHashMap;
use vstd::prelude::*;

use crate::builder::{usual_manager, ModelManagerBuilder};
use crate::error::{Error, ErrorView};
use crate::text::{opt_string, opt_text};

verus! {

/// A path of the file system. Its contents are not looked at here.
#[verifier::external_type_specification]
#[verifier::external_body]
pub struct ExPathBuf(PathBuf);

/// `PathBuf::clone`: the copy is the path that was copied.
pub assume_specification[ <PathBuf as Clone>::clone ](path: &PathBuf) -> (copy: PathBuf)
    ensures
        copy == *path,
;

/// What the manager reports of one model.
#[derive(Debug, Clone, PartialEq, Eq)]
pub enum ModelLoadState {
    Idle,
    Loading,
    Ready,
    Failed { error: String },
}

/// A [`ModelLoadState`] by the characters that it carries.
pub enum ModelLoadStateView {
    Idle,
    Loading,
    Ready,
    Failed { error: Seq<char> },
}

impl View for ModelLoadState {
    type V = ModelLoadStateView;

    open spec fn view(&self) -> ModelLoadStateView {
        match self {
            ModelLoadState::Idle => ModelLoadStateView::Idle,
            ModelLoadState::Loading => ModelLoadStateView::Loading,
            ModelLoadState::Ready => ModelLoadStateView::Ready,
            ModelLoadState::Failed { error } => ModelLoadStateView::Failed { error: error@ },
        }
    }
}

/// The model that is loaded, and its name.
pub struct ActiveModel<M> {
    pub name: String,
    pub model: Arc<M>,
}

/// What the manager is doing. At most one model is on its way or loaded.
pub enum LoadState<M> {
    Idle,
    Loading { name: String },
    Ready(ActiveModel<M>),
    Failed { name: String, error: String },
}

/// A [`LoadState`] by the characters that it carries.
pub enum LoadStateView<M> {
    Idle,
    Loading { name: Seq<char> },
    Ready { name: Seq<char>, model: Arc<M> },
    Failed { name: Seq<char>, error: Seq<char> },
}

impl<M> LoadStateView<M> {
    /// The name of the model that the state is about.
    pub open spec fn model_name(self) -> Option<Seq<char>> {
        match self {
            LoadStateView::Idle => None,
            LoadStateView::Loading { name } => Some(name),
            LoadStateView::Ready { name, .. } => Some(name),
            LoadStateView::Failed { name, .. } => Some(name),
        }
    }

    /// The state is about the model `name`.
    pub open spec fn concerns(self, name: Seq<char>) -> bool {
        self.model_name() == Some(name)
    }

    /// What is reported of `name`: the state where it is about `name`, else idle.
    pub open spec fn report(self, name: Seq<char>) -> ModelLoadStateView {
        if !self.concerns(name) {
            ModelLoadStateView::Idle
        } else {
            match self {
                LoadStateView::Idle => ModelLoadStateView::Idle,
                LoadStateView::Loading { .. } => ModelLoadStateView::Loading,
                LoadStateView::Ready { .. } => ModelLoadStateView::Ready,
                LoadStateView::Failed { error, .. } => ModelLoadStateView::Failed { error },
            }
        }
    }
}

impl<M> View for LoadState<M> {
    type V = LoadStateView<M>;

    open spec fn view(&self) -> LoadStateView<M> {
        match self {
            LoadState::Idle => LoadStateView::Idle,
            LoadState::Loading { name } => LoadStateView::Loading { name: name@ },
            LoadState::Ready(active) => LoadStateView::Ready {
                name: active.name@,
                model: active.model,
            },
            LoadState::Failed { name, error } => LoadStateView::Failed {
                name: name@,
                error: error@,
            },
        }
    }
}

/// The load state and the time at which the loaded model was last used.
pub struct ManagerState<M> {
    pub load_state: LoadState<M>,
    pub last_activity: Option<u128>,
}

impl<M> Default for ManagerState<M> {
    fn default() -> (state: Self)
        ensures
            state.load_state@ == LoadStateView::<M>::Idle,
            state.last_activity == None::<u128>,
    {
        ManagerState { load_state: LoadState::Idle, last_activity: None }
    }
}

/// A load that the caller has to run: the model's name and the path it is loaded from.
pub struct LoadJob {
    pub name: String,
    pub path: PathBuf,
}

/// A [`LoadJob`] by the characters of its name.
pub struct LoadJobView {
    pub name: Seq<char>,
    pub path: PathBuf,
}

impl View for LoadJob {
    type V = LoadJobView;

    open spec fn view(&self) -> LoadJobView {
        LoadJobView { name: self.name@, path: self.path }
    }
}

/// The view of an optional load.
pub open spec fn opt_job(job: Option<LoadJob>) -> Option<LoadJobView> {
    match job {
        Some(j) => Some(j@),
        None => None,
    }
}

/// An answer, and whether finding it changed something that waiting tasks must be told of.
pub struct Observed<T> {
    pub value: T,
    pub notify: bool,
}

/// Everything a manager holds.
#[verifier::ext_equal]
pub struct ManagerView<M> {
    pub registry: Map<Seq<char>, PathBuf>,
    pub default_model: Option<Seq<char>>,
    pub load_state: LoadStateView<M>,
    pub last_activity: Option<u128>,
    pub inactivity_timeout: u128,
    pub check_interval: u128,
}

impl<M> ManagerView<M> {
    /// A use is on record exactly while a model is loaded, and the load state is about a
    /// registered model.
    pub open spec fn wf(self) -> bool {
        &&& self.load_state is Ready <==> self.last_activity is Some
        &&& self.load_state.model_name() matches Some(name) ==> self.registry.contains_key(name)
    }

    /// The name meant by `name`: itself, or the default where none is given.
    pub open spec fn resolve_name(self, name: Option<Seq<char>>) -> Result<Seq<char>, ErrorView> {
        match (name, self.default_model) {
            (Some(n), _) => Ok(n),
            (None, Some(n)) => Ok(n),
            (None, None) => Err(ErrorView::NoDefaultModel),
        }
    }

    /// The path registered for `name`.
    pub open spec fn resolve_path(self, name: Seq<char>) -> Result<PathBuf, ErrorView> {
        if self.registry.contains_key(name) {
            Ok(self.registry[name])
        } else {
            Err(ErrorView::ModelNotRegistered(name))
        }
    }

    /// The load state is about the model `name`.
    pub open spec fn concerns(self, name: Seq<char>) -> bool {
        self.load_state.concerns(name)
    }

    /// What is reported of `name`.
    pub open spec fn report(self, name: Seq<char>) -> ModelLoadStateView {
        self.load_state.report(name)
    }

    /// The loaded model, if it is `name`.
    pub open spec fn model_for(self, name: Seq<char>) -> Option<Arc<M>> {
        match self.load_state {
            LoadStateView::Ready { name: current, model } if current == name => Some(model),
            _ => None,
        }
    }

    /// A load of `name` is awaited.
    pub open spec fn awaits(self, name: Seq<char>) -> bool {
        self.load_state == (LoadStateView::<M>::Loading { name })
    }

    /// A model is loaded and at `now` its last use is longer ago than the timeout.
    pub open spec fn expires(self, now: u128) -> bool {
        &&& self.load_state is Ready
        &&& self.last_activity is Some
        &&& now - self.last_activity->0 > self.inactivity_timeout
    }

    /// The manager with this load state and no use on record.
    pub open spec fn with_state(self, load_state: LoadStateView<M>) -> Self {
        ManagerView { load_state, last_activity: None, ..self }
    }

    /// The manager once a model that was left unused for too long is dropped.
    pub open spec fn expired(self, now: u128) -> Self {
        if self.expires(now) {
            self.with_state(LoadStateView::Idle)
        } else {
            self
        }
    }

    /// The manager after `name` is registered under `path`.
    pub open spec fn registered(self, name: Seq<char>, path: PathBuf) -> Self {
        ManagerView { registry: self.registry.insert(name, path), ..self }
    }

    /// The manager after `name` is taken out, with whatever was under way for it.
    pub open spec fn unregistered(self, name: Seq<char>) -> Self {
        let kept = ManagerView { registry: self.registry.remove(name), ..self };
        if self.concerns(name) {
            kept.with_state(LoadStateView::Idle)
        } else {
            kept
        }
    }

    /// The manager after `name` becomes the default.
    pub open spec fn with_default(self, name: Seq<char>) -> Self {
        ManagerView { default_model: Some(name), ..self }
    }

    /// Asked for `name` at `now`, the manager starts a load: none is under way and none is done.
    pub open spec fn starts_load(self, name: Seq<char>, now: u128) -> bool {
        let report = self.expired(now).report(name);
        report is Idle || report is Failed
    }

    /// The manager after it was asked at `now` to have `name` loaded.
    pub open spec fn load_ensured(self, name: Seq<char>, now: u128) -> Self {
        if self.starts_load(name, now) {
            self.expired(now).with_state(LoadStateView::Loading { name })
        } else {
            self.expired(now)
        }
    }

    /// The load handed out when `name`, registered under `path`, is asked for at `now`.
    pub open spec fn job_for(self, name: Seq<char>, path: PathBuf, now: u128) -> Option<
        LoadJobView,
    > {
        if self.starts_load(name, now) {
            Some(LoadJobView { name, path })
        } else {
            None
        }
    }

    /// The manager after the load of `name` came to `result` at `now`. A result that is no
    /// longer awaited changes nothing.
    pub open spec fn load_finished(
        self,
        name: Seq<char>,
        result: Result<Arc<M>, ErrorView>,
        now: u128,
    ) -> Self {
        if !self.awaits(name) {
            self
        } else {
            match result {
                Ok(model) => ManagerView {
                    load_state: LoadStateView::Ready { name, model },
                    last_activity: Some(now),
                    ..self
                },
                Err(error) => self.with_state(
                    LoadStateView::Failed { name, error: error.message() },
                ),
            }
        }
    }

    /// The manager after `name` was asked for at `now`: a model handed out counts as used.
    pub open spec fn fetched(self, name: Seq<char>, now: u128) -> Self {
        let current = self.expired(now);
        if current.model_for(name) is Some {
            ManagerView { last_activity: Some(now), ..current }
        } else {
            current
        }
    }

    /// The manager after a use at `now`.
    pub open spec fn kept_alive(self, now: u128) -> Self {
        if self.load_state is Ready {
            ManagerView { last_activity: Some(now), ..self }
        } else {
            self
        }
    }
}

/// What came of running a [`LoadJob`].
pub enum LoadOutcome<M> {
    /// Nothing exists at the path.
    FileMissing,
    /// The thread that ran the loader panicked.
    WorkerPanicked,
    /// The loader failed for this reason.
    LoaderFailed(String),
    /// The loader made this model.
    Loaded(M),
}

/// What wakes the monitor.
pub enum MonitorEvent {
    Shutdown,
    Tick,
}

/// What the monitor does next.
pub enum MonitorAction {
    Stop,
    Continue { notify: bool },
}

/// A result by the view of its error.
pub open spec fn result_view<T>(result: Result<T, Error>) -> Result<T, ErrorView> {
    match result {
        Ok(value) => Ok(value),
        Err(error) => Err(error@),
    }
}

/// Registered models, and the one that is on its way or loaded.
pub struct ModelManager<M> {
    registry: StringHashMap<PathBuf>,
    default_model: Option<String>,
    state: ManagerState<M>,
    inactivity_timeout: u128,
    check_interval: u128,
}

impl<M> View for ModelManager<M> {
    type V = ManagerView<M>;

    closed spec fn view(&self) -> ManagerView<M> {
        ManagerView {
            registry: self.registry@,
            default_model: opt_string(self.default_model),
            load_state: self.state.load_state@,
            last_activity: self.state.last_activity,
            inactivity_timeout: self.inactivity_timeout,
            check_interval: self.check_interval,
        }
    }
}

impl<M> ModelManager<M> {
    /// A manager with nothing loaded. It drops a model once it was left unused for longer than
    /// `inactivity_timeout`, and looks for one every `check_interval`.
    pub(crate) fn new(
        registry: StringHashMap<PathBuf>,
        default_model: Option<String>,
        inactivity_timeout: u128,
        check_interval: u128,
    ) -> (manager: Self)
        ensures
            manager@ == (ManagerView::<M> {
                registry: registry@,
                default_model: opt_string(default_model),
                load_state: LoadStateView::Idle,
                last_activity: None,
                inactivity_timeout,
                check_interval,
            }),
            manager@.wf(),
    {
        ModelManager {
            registry,
            default_model,
            state: ManagerState::default(),
            inactivity_timeout,
            check_interval,
        }
    }

    /// A builder with the usual timing and no models.
    pub fn builder() -> (builder: ModelManagerBuilder<M>)
        ensures
            builder@ == usual_manager::<M>(),
    {
        ModelManagerBuilder::default()
    }

    /// The time between two ticks of the monitor.
    pub fn check_interval(&self) -> (interval: u128)
        ensures
            interval == self@.check_interval,
    {
        self.check_interval
    }

    /// Registers a model, or gives a registered one another path.
    pub fn register(&mut self, name: String, path: PathBuf)
        ensures
            old(self)@.wf() ==> final(self)@.wf(),
            final(self)@ == old(self)@.registered(name@, path),
    {
        self.registry.insert(name, path);
    }

    /// Takes a model out. A load of it, the loaded model or its failure is dropped, and then
    /// waiting tasks are to be told.
    pub fn unregister(&mut self, name: &str) -> (notify: bool)
        ensures
            old(self)@.wf() ==> final(self)@.wf(),
            notify == old(self)@.concerns(name@),
            final(self)@ == old(self)@.unregistered(name@),
    {
        self.registry.remove(name);
        let concerned = self.is_state_for_name(&self.state.load_state, name);
        if concerned {
            self.state.load_state = LoadState::Idle;
            self.state.last_activity = None;
        }
        concerned
    }

    /// Sets the model that is meant where no name is given.
    pub fn set_default(&mut self, name: String)
        ensures
            old(self)@.wf() ==> final(self)@.wf(),
            final(self)@ == old(self)@.with_default(name@),
    {
        self.default_model = Some(name);
    }

    /// Has the model loaded. A load is handed out for the caller to run, and waiting tasks are
    /// to be told of it, unless the model is loaded or its load is under way.
    pub fn ensure_loading(&mut self, name: Option<&str>, now: u128) -> (started: Result<
        Option<LoadJob>,
        Error,
    >)
        ensures
            old(self)@.wf() ==> final(self)@.wf(),
            match old(self)@.resolve_name(opt_text(name)) {
                Err(error) => {
                    &&& started matches Err(e) && e@ == error
                    &&& final(self)@ == old(self)@
                },
                Ok(resolved) => match old(self)@.resolve_path(resolved) {
                    Err(error) => {
                        &&& started matches Err(e) && e@ == error
                        &&& final(self)@ == old(self)@
                    },
                    Ok(path) => {
                        &&& started matches Ok(job) && opt_job(job) == old(self)@.job_for(
                            resolved,
                            path,
                            now,
                        )
                        &&& final(self)@ == old(self)@.load_ensured(resolved, now)
                    },
                },
            },
    {
        let resolved = match self.resolve_name(name) {
            Ok(resolved) => resolved,
            Err(error) => {
                return Err(error);
            },
        };
        let path = match self.resolve_path(&resolved) {
            Ok(path) => path,
            Err(error) => {
                return Err(error);
            },
        };
        self.expire_if_inactive(now);
        let should_spawn = match self.snapshot_from_state(&self.state.load_state, resolved.as_str()) {
            ModelLoadState::Ready | ModelLoadState::Loading => false,
            ModelLoadState::Idle | ModelLoadState::Failed { .. } => true,
        };
        if !should_spawn {
            return Ok(None);
        }
        self.state.load_state = LoadState::Loading { name: resolved.clone() };
        self.state.last_activity = None;
        Ok(Some(LoadJob { name: resolved, path }))
    }

    /// Takes in what a load came to. Waiting tasks are to be told unless the load was no longer
    /// awaited, in which case nothing changes.
    pub fn finish_load(&mut self, name: String, result: Result<Arc<M>, Error>, now: u128) -> (notify:
        bool)
        ensures
            old(self)@.wf() ==> final(self)@.wf(),
            notify == old(self)@.awaits(name@),
            final(self)@ == old(self)@.load_finished(name@, result_view(result), now),
    {
        let is_current = match &self.state.load_state {
            LoadState::Loading { name: current } => *current == name,
            _ => false,
        };
        if !is_current {
            return false;
        }
        match result {
            Ok(model) => {
                self.state.load_state = LoadState::Ready(ActiveModel { name, model });
                self.state.last_activity = Some(now);
            },
            Err(error) => {
                self.state.load_state = LoadState::Failed { name, error: error.message() };
                self.state.last_activity = None;
            },
        }
        true
    }

    /// What is to be reported of the model at `now`.
    pub fn snapshot(&mut self, name: Option<&str>, now: u128) -> (seen: Result<
        Observed<ModelLoadState>,
        Error,
    >)
        ensures
            old(self)@.wf() ==> final(self)@.wf(),
            match old(self)@.resolve_name(opt_text(name)) {
                Err(error) => {
                    &&& seen matches Err(e) && e@ == error
                    &&& final(self)@ == old(self)@
                },
                Ok(resolved) => {
                    &&& seen matches Ok(s) && s.value@ == old(self)@.expired(now).report(resolved)
                        && s.notify == old(self)@.expires(now)
                    &&& final(self)@ == old(self)@.expired(now)
                },
            },
    {
        let resolved = match self.resolve_name(name) {
            Ok(resolved) => resolved,
            Err(error) => {
                return Err(error);
            },
        };
        let notify = self.expire_if_inactive(now);
        let value = self.snapshot_from_state(&self.state.load_state, resolved.as_str());
        Ok(Observed { value, notify })
    }

    /// The model if it is loaded at `now`. Handing it out counts as a use.
    pub fn get_if_ready(&mut self, name: Option<&str>, now: u128) -> (found: Result<
        Observed<Option<Arc<M>>>,
        Error,
    >)
        ensures
            old(self)@.wf() ==> final(self)@.wf(),
            match old(self)@.resolve_name(opt_text(name)) {
                Err(error) => {
                    &&& found matches Err(e) && e@ == error
                    &&& final(self)@ == old(self)@
                },
                Ok(resolved) => {
                    &&& found matches Ok(f) && f.value == old(self)@.expired(now).model_for(
                        resolved,
                    ) && f.notify == old(self)@.expires(now)
                    &&& final(self)@ == old(self)@.fetched(resolved, now)
                },
            },
    {
        let resolved = match self.resolve_name(name) {
            Ok(resolved) => resolved,
            Err(error) => {
                return Err(error);
            },
        };
        let notify = self.expire_if_inactive(now);
        let value = match &self.state.load_state {
            LoadState::Ready(active) => if active.name == resolved {
                Some(Arc::clone(&active.model))
            } else {
                None
            },
            _ => None,
        };
        if value.is_some() {
            self.state.last_activity = Some(now);
        }
        Ok(Observed { value, notify })
    }

    /// Counts as a use of the loaded model, if there is one.
    pub fn keep_alive(&mut self, now: u128)
        ensures
            old(self)@.wf() ==> final(self)@.wf(),
            final(self)@ == old(self)@.kept_alive(now),
    {
        if matches!(self.state.load_state, LoadState::Ready(_)) {
            self.state.last_activity = Some(now);
        }
    }

    /// One turn of the task that drops unused models: it stops at the shutdown signal, and at
    /// each tick of its interval it drops a model that was left unused for too long.
    pub fn monitor(&mut self, event: MonitorEvent, now: u128) -> (action: MonitorAction)
        ensures
            old(self)@.wf() ==> final(self)@.wf(),
            match event {
                MonitorEvent::Shutdown => {
                    &&& action == MonitorAction::Stop
                    &&& final(self)@ == old(self)@
                },
                MonitorEvent::Tick => {
                    &&& action == (MonitorAction::Continue { notify: old(self)@.expires(now) })
                    &&& final(self)@ == old(self)@.expired(now)
                },
            },
    {
        match event {
            MonitorEvent::Shutdown => MonitorAction::Stop,
            MonitorEvent::Tick => {
                let notify = self.expire_if_inactive(now);
                MonitorAction::Continue { notify }
            },
        }
    }

    /// The name meant by `name`.
    pub fn resolve_name(&self, name: Option<&str>) -> (resolved: Result<String, Error>)
        ensures
            match self@.resolve_name(opt_text(name)) {
                Ok(expected) => resolved matches Ok(r) && r@ == expected,
                Err(error) => resolved matches Err(e) && e@ == error,
            },
    {
        match name {
            Some(name) => Ok(name.to_string()),
            None => match &self.default_model {
                Some(name) => Ok(name.clone()),
                None => Err(Error::NoDefaultModel),
            },
        }
    }

    /// The path registered for `name`.
    pub fn resolve_path(&self, name: &str) -> (path: Result<PathBuf, Error>)
        ensures
            result_view(path) == self@.resolve_path(name@),
    {
        match self.registry.get(name) {
            Some(path) => Ok(path.clone()),
            None => Err(Error::ModelNotRegistered(name.to_string())),
        }
    }

    /// What running a load for the path shown as `shown` came to.
    pub fn load_model(shown: String, outcome: LoadOutcome<M>) -> (result: Result<Arc<M>, Error>)
        ensures
            result_view(result) == (match outcome {
                LoadOutcome::FileMissing => Err(ErrorView::ModelFileNotFound(shown@)),
                LoadOutcome::WorkerPanicked => Err(ErrorView::WorkerPanicked),
                LoadOutcome::LoaderFailed(reason) => Err(ErrorView::Load(reason@)),
                LoadOutcome::Loaded(model) => Ok(Arc::new(model)),
            }),
    {
        match outcome {
            LoadOutcome::FileMissing => Err(Error::ModelFileNotFound(shown)),
            LoadOutcome::WorkerPanicked => Err(Error::WorkerPanicked),
            LoadOutcome::LoaderFailed(reason) => Err(Error::Load(reason)),
            LoadOutcome::Loaded(model) => Ok(Arc::new(model)),
        }
    }

    /// What is reported of `resolved` in a load state.
    pub fn snapshot_from_state(&self, state: &LoadState<M>, resolved: &str) -> (report:
        ModelLoadState)
        ensures
            report@ == state@.report(resolved@),
    {
        let resolved: String = resolved.to_string();
        match state {
            LoadState::Idle => ModelLoadState::Idle,
            LoadState::Loading { name } => if *name == resolved {
                ModelLoadState::Loading
            } else {
                ModelLoadState::Idle
            },
            LoadState::Ready(active) => if active.name == resolved {
                ModelLoadState::Ready
            } else {
                ModelLoadState::Idle
            },
            LoadState::Failed { name, error } => if *name == resolved {
                ModelLoadState::Failed { error: error.clone() }
            } else {
                ModelLoadState::Idle
            },
        }
    }

    /// Whether a load state is about `name`: exactly where `name` is not reported idle in it, and
    /// then it is about no other name.
    pub fn is_state_for_name(&self, state: &LoadState<M>, name: &str) -> (concerned: bool)
        ensures
            concerned == state@.concerns(name@),
            concerned <==> !(state@.report(name@) is Idle),
            concerned ==> forall|other: Seq<char>| #[trigger]
                state@.concerns(other) ==> other == name@,
    {
        let name: String = name.to_string();
        match state {
            LoadState::Idle => false,
            LoadState::Loading { name: current } => *current == name,
            LoadState::Ready(active) => active.name == name,
            LoadState::Failed { name: current, .. } => *current == name,
        }
    }

    fn expire_if_inactive(&mut self, now: u128) -> (expired: bool)
        ensures
            expired == old(self)@.expires(now),
            final(self)@ == old(self)@.expired(now),
    {
        let should_expire = matches!(self.state.load_state, LoadState::Ready(_)) && (
        match self.state.last_activity {
            Some(last) => now.saturating_sub(last) > self.inactivity_timeout,
            None => false,
        });
        if should_expire {
            self.state.load_state = LoadState::Idle;
            self.state.last_activity = None;
        }
        should_expire
    }
}

} // verus!
