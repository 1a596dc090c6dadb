//! Assembling a manager.

use std::marker::PhantomData;
use std::path::PathBuf;

use vstd::hash_map::StringHashMap;
use vstd::prelude::*;

use crate::manager::{LoadStateView, ManagerView, ModelManager};
use crate::text::opt_string;

verus! {

/// Time without use after which a model is dropped, in nanoseconds: five minutes.
pub const DEFAULT_INACTIVITY_TIMEOUT: u128 = 300_000_000_000;

/// Time between two looks for an unused model, in nanoseconds: half a minute.
pub const DEFAULT_CHECK_INTERVAL: u128 = 30_000_000_000;

/// A manager with the usual timing, no models and no default.
pub open spec fn usual_manager<M>() -> ManagerView<M> {
    ManagerView {
        registry: Map::empty(),
        default_model: None,
        load_state: LoadStateView::Idle,
        last_activity: None,
        inactivity_timeout: DEFAULT_INACTIVITY_TIMEOUT,
        check_interval: DEFAULT_CHECK_INTERVAL,
    }
}

/// The settings of a manager that is to be made. Its view is that manager.
pub struct ModelManagerBuilder<M> {
    registry: StringHashMap<PathBuf>,
    default_model: Option<String>,
    inactivity_timeout: u128,
    check_interval: u128,
    model: PhantomData<M>,
}

impl<M> View for ModelManagerBuilder<M> {
    type V = ManagerView<M>;

    closed spec fn view(&self) -> ManagerView<M> {
        ManagerView {
            registry: self.registry@,
            default_model: opt_string(self.default_model),
            load_state: LoadStateView::Idle,
            last_activity: None,
            inactivity_timeout: self.inactivity_timeout,
            check_interval: self.check_interval,
        }
    }
}

impl<M> Default for ModelManagerBuilder<M> {
    fn default() -> (builder: Self)
        ensures
            builder@ == usual_manager::<M>(),
    {
        ModelManagerBuilder {
            registry: StringHashMap::new(),
            default_model: None,
            inactivity_timeout: DEFAULT_INACTIVITY_TIMEOUT,
            check_interval: DEFAULT_CHECK_INTERVAL,
            model: PhantomData,
        }
    }
}

impl<M> ModelManagerBuilder<M> {
    /// Sets the time without use, in nanoseconds, after which a model is dropped.
    pub fn inactivity_timeout(self, timeout: u128) -> (builder: Self)
        ensures
            builder@ == (ManagerView { inactivity_timeout: timeout, ..self@ }),
    {
        ModelManagerBuilder { inactivity_timeout: timeout, ..self }
    }

    /// Sets the time, in nanoseconds, between two looks for an unused model.
    pub fn check_interval(self, interval: u128) -> (builder: Self)
        ensures
            builder@ == (ManagerView { check_interval: interval, ..self@ }),
    {
        ModelManagerBuilder { check_interval: interval, ..self }
    }

    /// Registers a model, or gives a registered one another path.
    pub fn register(self, name: String, path: PathBuf) -> (builder: Self)
        ensures
            builder@ == self@.registered(name@, path),
    {
        let mut builder = self;
        builder.registry.insert(name, path);
        builder
    }

    /// Sets the model that is meant where no name is given.
    pub fn default_model(self, name: String) -> (builder: Self)
        ensures
            builder@ == self@.with_default(name@),
    {
        ModelManagerBuilder { default_model: Some(name), ..self }
    }

    /// The manager with these settings.
    pub fn build(self) -> (manager: ModelManager<M>)
        ensures
            manager@ == self@,
            manager@.wf(),
    {
        ModelManager::new(
            self.registry,
            self.default_model,
            self.inactivity_timeout,
            self.check_interval,
        )
    }
}

} // verus!
