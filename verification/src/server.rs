//! The actor that keeps the transcription server and tells others how to reach it.

use std::path::PathBuf;

use vstd::prelude::*;

use crate::error::Error;
use crate::manager::ManagerView;
use crate::readiness::{readiness_of, TranscribeReadinessHandle, TranscribeReadinessState};
use crate::response::{text_reply, text_response, Reply, STATUS_INTERNAL_SERVER_ERROR};
use crate::service::{service_manager, TranscribeService, LISTEN_PATH};

verus! {

/// What the actor is asked or told.
pub enum Internal2STTMessage {
    /// Asks how to reach the server and how it is.
    GetHealth,
    /// Tells that the server failed.
    ServerError(String),
}

/// What the actor is started with.
pub struct Internal2STTArgs<T, C> {
    pub model_type: T,
    pub model_cache_dir: PathBuf,
    pub cactus_config: C,
}

/// What the actor knows of the server it runs: its address, as text, and its model.
pub struct Internal2STTState<T> {
    pub server_addr: String,
    pub model: T,
}

/// A service that is ready to be served, and its model.
pub struct StartedServer<M, T, C> {
    pub service: TranscribeService<M, C>,
    pub model: T,
}

/// The actor.
pub struct Internal2STTActor;

/// Whether a server can be used.
#[derive(Debug, Clone, Copy, PartialEq, Eq, Structural)]
pub enum ServerStatus {
    Unreachable,
    Loading,
    Ready,
}

/// A model that runs on this machine.
pub enum LocalModel<T> {
    Cactus(T),
}

/// How to reach a server, how it is, and what it runs.
pub struct ServerInfo<T> {
    pub url: Option<String>,
    pub status: ServerStatus,
    pub model: Option<LocalModel<T>>,
}

/// The answer to a question about the server, why the readiness could not be read where it could
/// not, and whether waiting tasks are to be told of a change.
pub struct HealthReport<T> {
    pub info: ServerInfo<T>,
    pub unreadable: Option<Error>,
    pub notify: bool,
}

/// The path that `Path::join` makes of a directory and a name.
pub uninterp spec fn joined_path(dir: PathBuf, name: Seq<char>) -> PathBuf;

/// Joins a directory and a name with `std::path::Path::join`.
///
/// The path depends on the two alone. How they are joined follows the rules for paths of the
/// platform that the program is built for, as `PathBuf` itself does; of those rules nothing is
/// stated.
#[verifier::external_body]
fn join_path(dir: &PathBuf, name: &str) -> (path: PathBuf)
    ensures
        path == joined_path(*dir, name@),
{
    dir.join(name)
}

/// The address at which the server listens for audio.
pub open spec fn listen_url(server_addr: Seq<char>) -> Seq<char> {
    "http://"@ + server_addr + LISTEN_PATH@
}

/// How a server is whose model is in this state.
pub open spec fn status_of(readiness: TranscribeReadinessState) -> ServerStatus {
    match readiness {
        TranscribeReadinessState::Idle | TranscribeReadinessState::Loading => ServerStatus::Loading,
        TranscribeReadinessState::Ready => ServerStatus::Ready,
        TranscribeReadinessState::Failed => ServerStatus::Unreachable,
    }
}

/// How the server around this manager is at `now`.
pub open spec fn server_status<M>(manager: ManagerView<M>, now: u128) -> ServerStatus {
    match manager.resolve_name(None) {
        Ok(name) => status_of(readiness_of(manager.expired(now).report(name)).status),
        Err(_) => ServerStatus::Unreachable,
    }
}

/// The manager after its readiness was read at `now`.
pub open spec fn read_manager<M>(manager: ManagerView<M>, now: u128) -> ManagerView<M> {
    match manager.resolve_name(None) {
        Ok(_) => manager.expired(now),
        Err(_) => manager,
    }
}

/// How a server is whose model is in this state.
pub fn status_for(readiness: TranscribeReadinessState) -> (status: ServerStatus)
    ensures
        status == status_of(readiness),
{
    match readiness {
        TranscribeReadinessState::Idle | TranscribeReadinessState::Loading => ServerStatus::Loading,
        TranscribeReadinessState::Ready => ServerStatus::Ready,
        TranscribeReadinessState::Failed => ServerStatus::Unreachable,
    }
}

impl Internal2STTActor {
    /// The name under which the actor is found.
    pub fn name() -> (name: String)
        ensures
            name@ == "internal2_stt"@,
    {
        "internal2_stt".to_string()
    }

    /// What the actor starts with: the service for the model that the cache directory holds under
    /// `dir_name`, the directory name of the model's type.
    pub fn pre_start<M, T, C: Default>(
        args: Internal2STTArgs<T, C>,
        dir_name: &str,
    ) -> (started: StartedServer<M, T, C>)
        ensures
            started.model == args.model_type,
            started.service.model_path == joined_path(args.model_cache_dir, dir_name@),
            started.service.cactus_config == args.cactus_config,
            started.service.manager@ == service_manager::<M>(
                joined_path(args.model_cache_dir, dir_name@),
            ),
            started.service.manager@.wf(),
    {
        let model_path = join_path(&args.model_cache_dir, dir_name);
        let service = TranscribeService::<M, C>::builder().model_path(model_path).cactus_config(
            args.cactus_config,
        ).build();
        StartedServer { service, model: args.model_type }
    }

    /// What an error of the server leads to: a message to the actor, and a reply to the client.
    pub fn server_error(error: String) -> (raised: (Internal2STTMessage, Reply))
        ensures
            raised.0 matches Internal2STTMessage::ServerError(e) && e@ == error@,
            raised.1@ == text_reply(STATUS_INTERNAL_SERVER_ERROR, error@),
    {
        let message = Internal2STTMessage::ServerError(error.clone());
        (message, text_response(STATUS_INTERNAL_SERVER_ERROR, error))
    }

    /// Handles a message at `now`: an error of the server fails the actor, and a question is
    /// answered with what is known of the server.
    pub fn handle<M, T: Clone>(
        message: Internal2STTMessage,
        state: &Internal2STTState<T>,
        readiness: &mut TranscribeReadinessHandle<'_, M>,
        now: u128,
    ) -> (handled: Result<HealthReport<T>, String>)
        ensures
            *final(final(readiness).manager) == *final(old(readiness).manager),
            old(readiness).current().wf() ==> final(readiness).current().wf(),
            match message {
                Internal2STTMessage::ServerError(error) => {
                    &&& handled == Err::<HealthReport<T>, String>(error)
                    &&& final(readiness).current() == old(readiness).current()
                },
                Internal2STTMessage::GetHealth => {
                    &&& handled matches Ok(seen) && {
                        &&& seen.info.url matches Some(url) && url@ == listen_url(
                            state.server_addr@,
                        )
                        &&& seen.info.status == server_status(old(readiness).current(), now)
                        &&& seen.info.model matches Some(LocalModel::Cactus(model)) && cloned(
                            state.model,
                            model,
                        )
                        &&& match old(readiness).current().resolve_name(None) {
                            Ok(_) => seen.unreadable is None,
                            Err(error) => seen.unreadable matches Some(e) && e@ == error,
                        }
                        &&& seen.notify == (old(readiness).current().resolve_name(None) is Ok
                            && old(readiness).current().expires(now))
                    }
                    &&& final(readiness).current() == read_manager(old(readiness).current(), now)
                },
            },
    {
        match message {
            Internal2STTMessage::ServerError(error) => Err(error),
            Internal2STTMessage::GetHealth => {
                let (status, unreadable, notify) = match readiness.snapshot(now) {
                    Ok(seen) => (status_for(seen.value.status), None, seen.notify),
                    Err(error) => (ServerStatus::Unreachable, Some(error), false),
                };
                let url = "http://".to_string().concat(state.server_addr.as_str()).concat(
                    LISTEN_PATH,
                );
                let model = Some(LocalModel::Cactus(state.model.clone()));
                Ok(HealthReport { info: ServerInfo { url: Some(url), status, model }, unreadable, notify })
            },
        }
    }
}

} // verus!
