use std::path::PathBuf;
use std::sync::Arc;

use local_stt::error::Error;
use local_stt::listen::ListenParamsError;
use local_stt::manager::{LoadJob, LoadOutcome, ModelManager};
use local_stt::readiness::{TranscribeReadiness, TranscribeReadinessState, RETRY_AFTER_SECS};
use local_stt::request::{
    BodyAction, ListenCall, ModelCall, PendingCall, ReadyModel, RequestHead, SocketAction,
};
use local_stt::response::{
    health_response, load_failed_response, not_ready_response, status_response, Reply, ReplyBody,
    RETRY_AFTER,
};
use local_stt::service::{ReadyOutcome, ReadyPhase, TranscribeService};

#[derive(Debug)]
struct Model;

type Service = TranscribeService<Model, u32>;

fn service() -> Service {
    Service::builder().model_path(PathBuf::from("/missing/model")).cactus_config(7).build()
}

fn finish(service: &mut Service, job: LoadJob, outcome: LoadOutcome<Model>, now: u128) -> bool {
    let shown = job.path.display().to_string();
    service.manager.finish_load(job.name, ModelManager::load_model(shown, outcome), now)
}

fn look_up(service: &mut Service, now: u128) -> (Result<ReadyModel<Model>, Error>, Vec<LoadJob>) {
    let mut phase = ReadyPhase::Fetch;
    let mut jobs = Vec::new();
    loop {
        let step = service.ready_model(phase, now);
        jobs.extend(step.job);
        match step.outcome {
            ReadyOutcome::Again(next) => phase = next,
            ReadyOutcome::Return(found) => return (found, jobs),
        }
    }
}

fn head(query: &str) -> RequestHead {
    RequestHead {
        upgrade: None,
        content_type: Some(b"audio/wav".to_vec()),
        accept: None,
        query: Some(query.to_string()),
    }
}

fn pending(head: &RequestHead) -> PendingCall {
    match Service::call(head) {
        ListenCall::NeedsModel(pending) => pending,
        ListenCall::Answered(reply) => panic!("answered with {:?}", reply),
    }
}

/// A service whose warm-up load found no file.
fn failed_service() -> Service {
    let mut service = service();
    let job = service.manager.ensure_loading(None, 0).ok().unwrap().unwrap();
    assert_eq!(job.name, "default");
    assert_eq!(job.path, PathBuf::from("/missing/model"));
    assert!(service.manager.ensure_loading(None, 0).ok().unwrap().is_none());
    assert!(finish(&mut service, job, LoadOutcome::FileMissing, 1));
    service
}

fn answer(call: ModelCall<Model>) -> Reply {
    match call {
        ModelCall::Answered(reply) => reply,
        _ => panic!("the model is not there"),
    }
}

#[test]
fn not_ready_response_sets_retry_after() {
    let response = not_ready_response(false);
    assert_eq!(response.status, 503);
    assert_eq!(response.retry_after.unwrap(), "5");
}

#[test]
fn invalid_model_path_returns_http_500_json_error() {
    let mut service = failed_service();
    let call = pending(&head("channels=1&sample_rate=16000&language=en"));
    let (found, jobs) = look_up(&mut service, 2);
    assert_eq!(jobs.len(), 1);
    let reply = answer(call.with_model(found));
    assert_eq!(reply.status, 500);
    match reply.body {
        ReplyBody::JsonError { error, detail } => {
            assert_eq!(error, "model_load_failed");
            assert!(detail.contains("model file not found"));
        }
        other => panic!("unexpected body {:?}", other),
    }
}

#[test]
fn invalid_model_path_returns_sse_error_event() {
    let mut service = failed_service();
    let mut request = head("channels=1&sample_rate=16000&language=en");
    request.accept = Some(b"text/event-stream".to_vec());
    let call = pending(&request);
    let (found, _) = look_up(&mut service, 2);
    let reply = answer(call.with_model(found));
    assert_eq!(reply.status, 500);
    match reply.body {
        ReplyBody::JsonError { error, detail } => {
            assert_eq!(error, "model_load_failed");
            assert!(detail.contains("model file not found"));
        }
        other => panic!("unexpected body {:?}", other),
    }
}

#[test]
fn health_is_live_even_when_model_failed() {
    let mut service = failed_service();
    let health = health_response();
    assert_eq!(health.status, 200);
    assert_eq!(health.body, ReplyBody::Text("ok".to_string()));

    let status = service.status(2).value;
    assert_eq!(status.status, 200);
    match status.body {
        ReplyBody::Readiness(body) => {
            assert_eq!(body.status, TranscribeReadinessState::Failed);
            assert!(body.error.as_deref().unwrap_or_default().contains("model file not found"));
            assert_eq!(body.retry_after_secs, None);
        }
        other => panic!("unexpected body {:?}", other),
    }
}

#[test]
fn readiness_goes_from_idle_to_ready() {
    let mut service = service();
    let idle = service.readiness_handle().snapshot(0).ok().unwrap().value;
    let expected = TranscribeReadiness {
        status: TranscribeReadinessState::Idle,
        error: None,
        retry_after_secs: Some(5),
    };
    assert_eq!(idle, expected);
    let job = service.manager.ensure_loading(None, 0).ok().unwrap().unwrap();
    let loading = service.readiness_handle().snapshot(0).ok().unwrap().value;
    assert_eq!(loading.status, TranscribeReadinessState::Loading);
    assert_eq!(loading.retry_after_secs, Some(5));
    assert!(finish(&mut service, job, LoadOutcome::Loaded(Model), 1));
    let ready = service.readiness_handle().snapshot(1).ok().unwrap().value;
    assert_eq!(ready.status, TranscribeReadinessState::Ready);
    assert_eq!(ready.retry_after_secs, None);
    assert_eq!(RETRY_AFTER, RETRY_AFTER_SECS.to_string());
}

#[test]
fn status_without_default_is_a_server_error() {
    let reply = status_response(Err(Error::NoDefaultModel));
    assert_eq!(reply.status, 500);
    assert_eq!(reply.body, ReplyBody::Text("no default model is set".to_string()));
    let mut service: Service = TranscribeService {
        model_path: PathBuf::from("/m"),
        manager: ModelManager::<Model>::builder().build(),
        cactus_config: 0,
    };
    let seen = service.status(0);
    assert_eq!(seen.value, reply);
    assert!(!seen.notify);
    assert!(matches!(look_up(&mut service, 0).0, Err(Error::NoDefaultModel)));
}

#[test]
fn builder_keeps_its_settings() {
    let service = service();
    assert_eq!(service.model_path, PathBuf::from("/missing/model"));
    assert_eq!(service.cactus_config, 7);
    assert_eq!(service.manager.check_interval(), 30_000_000_000);
    let default: Service = Service::builder().model_path(PathBuf::from("/m")).build();
    assert_eq!(default.cactus_config, 0);
}

#[test]
fn look_up_starts_a_load_and_then_has_the_model() {
    let mut service = service();
    let (found, mut jobs) = look_up(&mut service, 0);
    assert!(matches!(found, Ok(ReadyModel::Loading)));
    assert_eq!(jobs.len(), 1);
    let (found, more) = look_up(&mut service, 0);
    assert!(matches!(found, Ok(ReadyModel::Loading)));
    assert!(more.is_empty());
    assert!(finish(&mut service, jobs.pop().unwrap(), LoadOutcome::Loaded(Model), 0));
    let (found, more) = look_up(&mut service, 0);
    assert!(matches!(found, Ok(ReadyModel::Ready(_))));
    assert!(more.is_empty());
}

#[test]
fn look_up_that_loses_the_model_in_between_says_loading() {
    let mut service = service();
    let job = service.manager.ensure_loading(None, 0).ok().unwrap().unwrap();
    let step = service.ready_model(ReadyPhase::Fetch, 0);
    assert!(matches!(step.outcome, ReadyOutcome::Again(ReadyPhase::Inspect)));
    assert!(finish(&mut service, job, LoadOutcome::Loaded(Model), 0));
    let step = service.ready_model(ReadyPhase::Inspect, 0);
    assert!(matches!(step.outcome, ReadyOutcome::Again(ReadyPhase::Refetch)));
    assert!(service.manager.unregister("default"));
    let step = service.ready_model(ReadyPhase::Refetch, 0);
    assert!(matches!(step.outcome, ReadyOutcome::Return(Ok(ReadyModel::Loading))));
    let step = service.ready_model(ReadyPhase::Load, 0);
    assert!(matches!(
        step.outcome,
        ReadyOutcome::Return(Err(Error::ModelNotRegistered(_)))
    ));
}

#[test]
fn upgrade_header_decides_on_the_socket() {
    let with = |value: &[u8]| {
        let mut request = head("");
        request.upgrade = Some(value.to_vec());
        pending(&request).is_ws
    };
    assert!(with(b"websocket"));
    assert!(with(b"WebSocket"));
    assert!(!with(b"websocket2"));
    assert!(!with(b"h2c"));
    assert!(!with(b""));
    assert!(!with(b"websocke\xf4"));
    assert!(!pending(&head("")).is_ws);
}

#[test]
fn head_has_defaults() {
    let bare = RequestHead { upgrade: None, content_type: None, accept: None, query: None };
    let call = pending(&bare);
    assert_eq!(call.content_type, "application/octet-stream");
    assert_eq!(call.accept, "");
    assert_eq!(call.params.channels, 1);
    let odd = RequestHead { content_type: Some(vec![0xff]), ..bare };
    assert_eq!(pending(&odd).content_type, "application/octet-stream");
    assert_eq!(pending(&head("")).content_type, "audio/wav");
}

#[test]
fn bad_query_is_a_bad_request() {
    match Service::call(&head("channels=many")) {
        ListenCall::Answered(reply) => {
            assert_eq!(reply.status, 400);
            assert_eq!(reply.body, ReplyBody::Text("invalid digit found in string".to_string()));
        }
        ListenCall::NeedsModel(_) => panic!("the query does not do"),
    }
}

#[test]
fn refusals_by_kind_of_request() {
    let ws = not_ready_response(true);
    assert_eq!(ws.status, 503);
    assert_eq!(ws.retry_after.as_deref(), Some("5"));
    assert_eq!(ws.body, ReplyBody::Text("model is warming up; retry later".to_string()));
    let http = not_ready_response(false);
    assert_eq!(
        http.body,
        ReplyBody::JsonError {
            error: "model_loading".to_string(),
            detail: "model is warming up; retry later".to_string(),
        }
    );
    let ws = load_failed_response(true, "no memory");
    assert_eq!(ws.status, 500);
    assert_eq!(ws.retry_after, None);
    assert_eq!(ws.body, ReplyBody::Text("failed to load model: no memory".to_string()));
    let again = load_failed_response(true, "failed to load model: no memory");
    assert_eq!(again.body, ws.body);
    let call = pending(&head(""));
    let reply = answer(call.with_model(Err(Error::NoDefaultModel)));
    assert_eq!(reply, load_failed_response(false, "no default model is set"));
    let call = pending(&head(""));
    assert_eq!(answer(call.with_model(Ok(ReadyModel::Loading))), not_ready_response(false));
}

#[test]
fn socket_request_goes_on_after_the_upgrade() {
    let mut request = head("language=en");
    request.upgrade = Some(b"websocket".to_vec());
    let model = Arc::new(Model);
    let upgrade = |request: &RequestHead| {
        match pending(request).with_model(Ok(ReadyModel::Ready(Arc::clone(&model)))) {
            ModelCall::Upgrade(call) => call,
            _ => panic!("a socket is asked for"),
        }
    };
    match upgrade(&request).upgraded(Ok(())) {
        SocketAction::Serve(call) => {
            assert_eq!(call.params.languages, vec!["en"]);
            assert!(Arc::ptr_eq(&call.model, &model));
        }
        SocketAction::Answered(_) => panic!("the upgrade worked"),
    }
    match upgrade(&request).upgraded(Err("no key".to_string())) {
        SocketAction::Answered(reply) => {
            assert_eq!(reply.status, 400);
            assert_eq!(reply.body, ReplyBody::Text("no key".to_string()));
        }
        SocketAction::Serve(_) => panic!("the upgrade failed"),
    }
}

#[test]
fn body_is_transcribed_as_the_client_accepts() {
    let model = Arc::new(Model);
    let body_call = |accept: &str| {
        let mut request = head("");
        request.accept = Some(accept.as_bytes().to_vec());
        match pending(&request).with_model(Ok(ReadyModel::Ready(Arc::clone(&model)))) {
            ModelCall::ReadBody(call) => call,
            _ => panic!("a body is sent"),
        }
    };
    for (accept, expected) in [
        ("text/event-stream", true),
        ("application/json, text/event-stream;q=0.5", true),
        ("application/json", false),
        ("TEXT/EVENT-STREAM", false),
        ("", false),
    ] {
        match body_call(accept).with_body(Ok(vec![1, 2, 3])) {
            BodyAction::Transcribe(batch) => {
                assert_eq!(batch.event_stream, expected);
                assert_eq!(batch.body, vec![1, 2, 3]);
                assert_eq!(batch.content_type, "audio/wav");
            }
            BodyAction::Answered(reply) => panic!("answered with {:?}", reply),
        }
    }
    match body_call("").with_body(Ok(Vec::new())) {
        BodyAction::Answered(reply) => {
            assert_eq!(reply.status, 400);
            assert_eq!(reply.body, ReplyBody::Text("request body is empty".to_string()));
        }
        BodyAction::Transcribe(_) => panic!("there is no body"),
    }
    match body_call("").with_body(Err("length limit exceeded".to_string())) {
        BodyAction::Answered(reply) => {
            assert_eq!(reply.status, 400);
            assert_eq!(reply.body, ReplyBody::Text("length limit exceeded".to_string()));
        }
        BodyAction::Transcribe(_) => panic!("the body was not read"),
    }
}

#[test]
fn refused_query_is_a_bad_request() {
    let refused = Err(ListenParamsError::Repeated);
    match ListenCall::with_params(&head(""), refused) {
        ListenCall::Answered(reply) => {
            assert_eq!(reply.status, 400);
            assert_eq!(reply.body, ReplyBody::Text("unsupported value".to_string()));
        }
        ListenCall::NeedsModel(_) => panic!("the query does not do"),
    }
}
