use std::path::PathBuf;

use local_stt::error::Error;
use local_stt::manager::{LoadOutcome, ModelManager};
use local_stt::readiness::TranscribeReadinessHandle;
use local_stt::response::ReplyBody;
use local_stt::server::{
    Internal2STTActor, Internal2STTArgs, Internal2STTMessage, Internal2STTState, LocalModel,
    ServerInfo, ServerStatus, StartedServer,
};

struct Model;

fn start() -> StartedServer<Model, &'static str, u32> {
    let args = Internal2STTArgs {
        model_type: "small",
        model_cache_dir: PathBuf::from("/cache"),
        cactus_config: 3,
    };
    Internal2STTActor::pre_start(args, "small")
}

fn health(
    server: &mut StartedServer<Model, &'static str, u32>,
    now: u128,
) -> ServerInfo<&'static str> {
    let state =
        Internal2STTState { server_addr: "127.0.0.1:4000".to_string(), model: server.model };
    let mut readiness = server.service.readiness_handle();
    let message = Internal2STTMessage::GetHealth;
    Internal2STTActor::handle(message, &state, &mut readiness, now).ok().unwrap().info
}

#[test]
fn actor_has_its_name() {
    assert_eq!(Internal2STTActor::name(), "internal2_stt");
}

#[test]
fn server_starts_with_what_it_is_given() {
    let server = start();
    assert_eq!(server.model, "small");
    assert_eq!(server.service.model_path, PathBuf::from("/cache/small"));
    assert_eq!(server.service.cactus_config, 3);
}

#[test]
fn health_follows_the_model() {
    let mut server = start();
    let info = health(&mut server, 0);
    assert_eq!(info.url.as_deref(), Some("http://127.0.0.1:4000/v1/listen"));
    assert_eq!(info.status, ServerStatus::Loading);
    assert!(matches!(info.model, Some(LocalModel::Cactus("small"))));

    let job = server.service.manager.ensure_loading(None, 0).ok().unwrap().unwrap();
    assert_eq!(health(&mut server, 0).status, ServerStatus::Loading);
    let failed = ModelManager::load_model("/m".to_string(), LoadOutcome::FileMissing);
    assert!(server.service.manager.finish_load(job.name, failed, 0));
    assert_eq!(health(&mut server, 0).status, ServerStatus::Unreachable);

    let job = server.service.manager.ensure_loading(None, 0).ok().unwrap().unwrap();
    let loaded = ModelManager::load_model("/m".to_string(), LoadOutcome::Loaded(Model));
    assert!(server.service.manager.finish_load(job.name, loaded, 0));
    assert_eq!(health(&mut server, 0).status, ServerStatus::Ready);
    let unused = 300_000_000_001;
    assert_eq!(health(&mut server, unused).status, ServerStatus::Loading);
}

#[test]
fn server_without_default_is_unreachable() {
    let mut manager = ModelManager::<Model>::builder().build();
    let mut readiness = TranscribeReadinessHandle { manager: &mut manager };
    let state = Internal2STTState { server_addr: "localhost:1".to_string(), model: 0 };
    let message = Internal2STTMessage::GetHealth;
    let seen = Internal2STTActor::handle(message, &state, &mut readiness, 0).ok().unwrap();
    assert_eq!(seen.info.status, ServerStatus::Unreachable);
    assert!(matches!(seen.unreadable, Some(Error::NoDefaultModel)));
    assert!(!seen.notify);
}

#[test]
fn server_error_fails_the_actor() {
    let mut manager = ModelManager::<Model>::builder().build();
    let mut readiness = TranscribeReadinessHandle { manager: &mut manager };
    let state = Internal2STTState { server_addr: "localhost:1".to_string(), model: 0 };
    let (message, reply) = Internal2STTActor::server_error("broken".to_string());
    assert_eq!(reply.status, 500);
    assert_eq!(reply.body, ReplyBody::Text("broken".to_string()));
    let handled = Internal2STTActor::handle(message, &state, &mut readiness, 0);
    assert_eq!(handled.err(), Some("broken".to_string()));
}
