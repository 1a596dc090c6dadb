//! Answering a listen request, from its head to the work it asks for.
//!
//! `TranscribeService::call` reads the head. The caller then finds out whether the model is there and
//! hands that to [`PendingCall::with_model`]. What is left is to upgrade the connection or to read
//! the body, and to hand what came of it to [`UpgradeCall::upgraded`] or [`BodyCall::with_body`].

use std::sync::Arc;

use vstd::prelude::*;

use crate::error::{Error, ErrorView};
use crate::header::{header_or, text_of, text_or};
use crate::listen::{ListenParams, ListenParamsError, ListenParamsView};
use crate::response::{
    load_failed_reply, load_failed_response, not_ready_reply, not_ready_response, text_reply,
    text_response, Reply, ReplyView, STATUS_BAD_REQUEST,
};
use crate::text::{contains, eq_ignore_ascii_case, occurs_in, same_ignoring_case};

verus! {

/// The largest body that is read, in bytes.
pub const MAX_BODY_BYTES: usize = 104_857_600;

/// The content type of a body that does not name one.
pub const DEFAULT_CONTENT_TYPE: &'static str = "application/octet-stream";

/// The content type of an event stream.
pub const EVENT_STREAM: &'static str = "text/event-stream";

/// What a request says before its body: the values of three headers, and its query.
pub struct RequestHead {
    pub upgrade: Option<Vec<u8>>,
    pub content_type: Option<Vec<u8>>,
    pub accept: Option<Vec<u8>>,
    pub query: Option<String>,
}

impl RequestHead {
    /// The request asks for a web socket.
    pub open spec fn wants_socket(self) -> bool {
        match self.upgrade {
            Some(value) => match text_of(value@) {
                Some(text) => same_ignoring_case(text, "websocket"@),
                None => false,
            },
            None => false,
        }
    }

    /// The query, empty where there is none.
    pub open spec fn query_text(self) -> Seq<char> {
        match self.query {
            Some(query) => query@,
            None => ""@,
        }
    }
}

/// Whether the model can be used.
pub enum ReadyModel<M> {
    Ready(Arc<M>),
    Loading,
    Failed(String),
}

/// A [`ReadyModel`] by the characters that it carries.
pub enum ReadyModelView<M> {
    Ready(Arc<M>),
    Loading,
    Failed(Seq<char>),
}

impl<M> View for ReadyModel<M> {
    type V = ReadyModelView<M>;

    open spec fn view(&self) -> ReadyModelView<M> {
        match self {
            ReadyModel::Ready(model) => ReadyModelView::Ready(*model),
            ReadyModel::Loading => ReadyModelView::Loading,
            ReadyModel::Failed(error) => ReadyModelView::Failed(error@),
        }
    }
}

/// A request whose head is read.
pub enum ListenCall {
    /// It is answered.
    Answered(Reply),
    /// It needs the model.
    NeedsModel(PendingCall),
}

/// A request that waits for the model.
pub struct PendingCall {
    pub is_ws: bool,
    pub params: ListenParams,
    pub content_type: String,
    pub accept: String,
}

/// A [`PendingCall`] by the characters that it carries.
pub struct PendingCallView {
    pub is_ws: bool,
    pub params: ListenParamsView,
    pub content_type: Seq<char>,
    pub accept: Seq<char>,
}

impl View for PendingCall {
    type V = PendingCallView;

    open spec fn view(&self) -> PendingCallView {
        PendingCallView {
            is_ws: self.is_ws,
            params: self.params@,
            content_type: self.content_type@,
            accept: self.accept@,
        }
    }
}

/// A request for which the model was looked up.
pub enum ModelCall<M> {
    /// It is answered.
    Answered(Reply),
    /// The connection is to be upgraded.
    Upgrade(UpgradeCall<M>),
    /// The body is to be read, up to [`MAX_BODY_BYTES`].
    ReadBody(BodyCall<M>),
}

/// A request for a web socket, with the model that serves it.
pub struct UpgradeCall<M> {
    pub params: ListenParams,
    pub model: Arc<M>,
}

/// A request with a body, with the model that serves it.
pub struct BodyCall<M> {
    pub params: ListenParams,
    pub model: Arc<M>,
    pub content_type: String,
    pub accept: String,
}

/// What is done with a request once its connection was upgraded.
pub enum SocketAction<M> {
    /// It is answered.
    Answered(Reply),
    /// A session runs on the socket.
    Serve(UpgradeCall<M>),
}

/// A body to transcribe.
pub struct BatchCall<M> {
    pub body: Vec<u8>,
    pub content_type: String,
    pub params: ListenParams,
    pub model: Arc<M>,
    /// The result goes out as an event stream.
    pub event_stream: bool,
}

/// What is done with a request once its body was read.
pub enum BodyAction<M> {
    /// It is answered.
    Answered(Reply),
    /// The body is transcribed.
    Transcribe(BatchCall<M>),
}

/// What a look-up of the model came to, by the characters that it carries.
pub open spec fn found_view<M>(found: Result<ReadyModel<M>, Error>) -> Result<
    ReadyModelView<M>,
    ErrorView,
> {
    match found {
        Ok(model) => Ok(model@),
        Err(error) => Err(error@),
    }
}

/// The reply that a failed look-up of the model, or one that found no model, is answered with.
pub open spec fn refusal<M>(
    is_ws: bool,
    found: Result<ReadyModelView<M>, ErrorView>,
) -> Option<ReplyView> {
    match found {
        Ok(ReadyModelView::Ready(_)) => None,
        Ok(ReadyModelView::Loading) => Some(not_ready_reply(is_ws)),
        Ok(ReadyModelView::Failed(error)) => Some(load_failed_reply(is_ws, error)),
        Err(error) => Some(load_failed_reply(is_ws, error.message())),
    }
}

impl ListenCall {
    /// Goes on with what reading the query came to. A query that does not do is answered at once.
    pub fn with_params(
        head: &RequestHead,
        params: Result<ListenParams, ListenParamsError>,
    ) -> (call: ListenCall)
        ensures
            match params {
                Err(error) => call matches ListenCall::Answered(reply) && reply@ == text_reply(
                    STATUS_BAD_REQUEST,
                    error.message_text(),
                ),
                Ok(params) => call matches ListenCall::NeedsModel(pending) && pending@ == (
                PendingCallView {
                    is_ws: head.wants_socket(),
                    params: params@,
                    content_type: text_or(head.content_type, DEFAULT_CONTENT_TYPE@),
                    accept: text_or(head.accept, ""@),
                }),
            },
    {
        proof {
            reveal_strlit("");
            reveal_strlit("websocket");
        }
        let upgrade = header_or(&head.upgrade, "");
        let is_ws = eq_ignore_ascii_case(upgrade.as_str(), "websocket");
        match params {
            Ok(params) => ListenCall::NeedsModel(
                PendingCall {
                    is_ws,
                    params,
                    content_type: header_or(&head.content_type, DEFAULT_CONTENT_TYPE),
                    accept: header_or(&head.accept, ""),
                },
            ),
            Err(error) => ListenCall::Answered(text_response(STATUS_BAD_REQUEST, error.message())),
        }
    }
}

impl PendingCall {
    /// Goes on with what the look-up of the model came to.
    pub fn with_model<M>(self, found: Result<ReadyModel<M>, Error>) -> (call: ModelCall<M>)
        ensures
            match refusal(self.is_ws, found_view(found)) {
                Some(reply) => call matches ModelCall::Answered(r) && r@ == reply,
                None => if self.is_ws {
                    call matches ModelCall::Upgrade(next) && next == (UpgradeCall {
                        params: self.params,
                        model: found->Ok_0->Ready_0,
                    })
                } else {
                    call matches ModelCall::ReadBody(next) && next == (BodyCall {
                        params: self.params,
                        model: found->Ok_0->Ready_0,
                        content_type: self.content_type,
                        accept: self.accept,
                    })
                },
            },
    {
        let model = match found {
            Ok(ReadyModel::Ready(model)) => model,
            Ok(ReadyModel::Loading) => {
                return ModelCall::Answered(not_ready_response(self.is_ws));
            },
            Ok(ReadyModel::Failed(error)) => {
                return ModelCall::Answered(load_failed_response(self.is_ws, error.as_str()));
            },
            Err(error) => {
                let message = error.message();
                return ModelCall::Answered(load_failed_response(self.is_ws, message.as_str()));
            },
        };
        if self.is_ws {
            ModelCall::Upgrade(UpgradeCall { params: self.params, model })
        } else {
            ModelCall::ReadBody(
                BodyCall {
                    params: self.params,
                    model,
                    content_type: self.content_type,
                    accept: self.accept,
                },
            )
        }
    }
}

impl<M> UpgradeCall<M> {
    /// Goes on with what the upgrade of the connection came to.
    pub fn upgraded(self, upgrade: Result<(), String>) -> (action: SocketAction<M>)
        ensures
            match upgrade {
                Ok(_) => action == SocketAction::Serve(self),
                Err(message) => action matches SocketAction::Answered(reply)
                    && reply@ == text_reply(STATUS_BAD_REQUEST, message@),
            },
    {
        match upgrade {
            Ok(_) => SocketAction::Serve(self),
            Err(message) => SocketAction::Answered(text_response(STATUS_BAD_REQUEST, message)),
        }
    }
}

impl<M> BodyCall<M> {
    /// Goes on with what reading the body came to.
    pub fn with_body(self, body: Result<Vec<u8>, String>) -> (action: BodyAction<M>)
        ensures
            match body {
                Err(message) => action matches BodyAction::Answered(reply)
                    && reply@ == text_reply(STATUS_BAD_REQUEST, message@),
                Ok(bytes) => if bytes@.len() == 0 {
                    action matches BodyAction::Answered(reply) && reply@ == text_reply(
                        STATUS_BAD_REQUEST,
                        "request body is empty"@,
                    )
                } else {
                    action == BodyAction::Transcribe(
                        BatchCall {
                            body: bytes,
                            content_type: self.content_type,
                            params: self.params,
                            model: self.model,
                            event_stream: occurs_in(self.accept@, EVENT_STREAM@),
                        },
                    )
                },
            },
    {
        match body {
            Err(message) => BodyAction::Answered(text_response(STATUS_BAD_REQUEST, message)),
            Ok(bytes) => if bytes.len() == 0 {
                BodyAction::Answered(
                    text_response(STATUS_BAD_REQUEST, "request body is empty".to_string()),
                )
            } else {
                let event_stream = contains(self.accept.as_str(), EVENT_STREAM);
                BodyAction::Transcribe(
                    BatchCall {
                        body: bytes,
                        content_type: self.content_type,
                        params: self.params,
                        model: self.model,
                        event_stream,
                    },
                )
            },
        }
    }
}

} // verus!
