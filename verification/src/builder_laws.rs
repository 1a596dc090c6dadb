//! What a manager and a service are made of.

use std::path::PathBuf;

use vstd::prelude::*;

use crate::builder::ModelManagerBuilder;
use crate::manager::{ManagerView, ModelManager};
use crate::service::{TranscribeService, TranscribeServiceBuilder};

verus! {

/// Five minutes without use, half a minute between two looks, and nothing else: no model, no
/// default, nothing loaded.
pub open spec fn is_usual<M>(manager: ManagerView<M>) -> bool {
    &&& manager.registry == Map::<Seq<char>, PathBuf>::empty()
    &&& manager.default_model is None
    &&& manager.load_state is Idle
    &&& manager.last_activity is None
    &&& manager.inactivity_timeout == 300 * 1_000_000_000
    &&& manager.check_interval == 30 * 1_000_000_000
}

/// A builder starts with the usual timing and no models.
pub proof fn law_manager_builder<M>(
    builder: ModelManagerBuilder<M>,
    usual: ModelManagerBuilder<M>,
)
    requires
        call_ensures(ModelManager::<M>::builder, (), builder),
        call_ensures(ModelManagerBuilder::<M>::default, (), usual),
    ensures
        is_usual(builder@),
        is_usual(usual@),
{
}

/// Each setting is set to what it is given, and leaves the others.
pub proof fn law_manager_settings<M>(
    builder: ModelManagerBuilder<M>,
    timeout: u128,
    timed: ModelManagerBuilder<M>,
    interval: u128,
    paced: ModelManagerBuilder<M>,
    name: String,
    named: ModelManagerBuilder<M>,
)
    requires
        call_ensures(ModelManagerBuilder::<M>::inactivity_timeout, (builder, timeout), timed),
        call_ensures(ModelManagerBuilder::<M>::check_interval, (builder, interval), paced),
        call_ensures(ModelManagerBuilder::<M>::default_model, (builder, name), named),
    ensures
        timed@.inactivity_timeout == timeout,
        timed@.check_interval == builder@.check_interval,
        timed@.registry == builder@.registry,
        timed@.default_model == builder@.default_model,
        paced@.check_interval == interval,
        paced@.inactivity_timeout == builder@.inactivity_timeout,
        paced@.registry == builder@.registry,
        paced@.default_model == builder@.default_model,
        named@.default_model == Some(name@),
        named@.registry == builder@.registry,
        named@.inactivity_timeout == builder@.inactivity_timeout,
        named@.check_interval == builder@.check_interval,
{
}

/// Registering with a builder adds one name, or gives it another path, and leaves the rest.
pub proof fn law_manager_models<M>(
    builder: ModelManagerBuilder<M>,
    name: String,
    path: PathBuf,
    next: ModelManagerBuilder<M>,
)
    requires
        call_ensures(ModelManagerBuilder::<M>::register, (builder, name, path), next),
    ensures
        forall|n: Seq<char>| #[trigger]
            next@.registry.contains_key(n) <==> n == name@ || builder@.registry.contains_key(n),
        next@.registry[name@] == path,
        forall|n: Seq<char>|
            n != name@ && builder@.registry.contains_key(n) ==> #[trigger] next@.registry[n]
                == builder@.registry[n],
        next@.default_model == builder@.default_model,
        next@.inactivity_timeout == builder@.inactivity_timeout,
        next@.check_interval == builder@.check_interval,
{
}

/// A manager that was just made holds the settings it was made with.
pub proof fn law_manager_is_built<M>(builder: ModelManagerBuilder<M>, manager: ModelManager<M>)
    requires
        call_ensures(ModelManagerBuilder::<M>::build, (builder,), manager),
    ensures
        manager@.registry == builder@.registry,
        manager@.default_model == builder@.default_model,
        manager@.inactivity_timeout == builder@.inactivity_timeout,
        manager@.check_interval == builder@.check_interval,
{
}

/// The manager knows one model, which is its default and is loaded from `path`, and has the usual
/// timing. Nothing is loaded yet.
pub open spec fn serves_one<M>(manager: ManagerView<M>, path: PathBuf) -> bool {
    &&& manager.default_model is Some
    &&& manager.registry.dom() == set![manager.default_model->0]
    &&& manager.registry[manager.default_model->0] == path
    &&& manager.load_state is Idle
    &&& manager.last_activity is None
    &&& manager.inactivity_timeout == 300 * 1_000_000_000
    &&& manager.check_interval == 30 * 1_000_000_000
}

/// A service serves the one model at the path that was set last, with the settings that were set
/// last.
pub proof fn law_service_is_built<M, C>(
    builder: TranscribeServiceBuilder<C>,
    path: PathBuf,
    with_path: TranscribeServiceBuilder<C>,
    config: C,
    with_config: TranscribeServiceBuilder<C>,
    service: TranscribeService<M, C>,
)
    requires
        call_ensures(TranscribeServiceBuilder::<C>::model_path, (builder, path), with_path),
        call_ensures(
            TranscribeServiceBuilder::<C>::cactus_config,
            (with_path, config),
            with_config,
        ),
        call_ensures(TranscribeServiceBuilder::<C>::build::<M>, (with_config,), service),
    ensures
        with_path.cactus_config == builder.cactus_config,
        with_config.model_path == Some(path),
        service.model_path == path,
        service.cactus_config == config,
        serves_one(service.manager@, path),
        service.manager@.default_model == Some("default"@),
{
    assert(service.manager@.registry.dom() =~= set!["default"@]);
}

/// A builder of a service has no path until one is set.
pub proof fn law_service_builder<M, C: Default>(builder: TranscribeServiceBuilder<C>)
    requires
        call_ensures(TranscribeService::<M, C>::builder, (), builder),
    ensures
        builder.model_path is None,
        call_ensures(C::default, (), builder.cactus_config),
{
}

} // verus!
