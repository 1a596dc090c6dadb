//! Why a model could not be handed out.

use vstd::prelude::*;

verus! {

/// Text in front of the reason for which a model's own loader gave up.
pub const LOAD_FAILURE_PREFIX: &'static str = "failed to load model: ";

/// What can go wrong between asking for a model and having it.
#[derive(Debug, Clone, PartialEq, Eq)]
pub enum Error {
    /// No name was given and no default model is set.
    NoDefaultModel,
    /// No model of this name is registered.
    ModelNotRegistered(String),
    /// Nothing exists at the path registered for the model.
    ModelFileNotFound(String),
    /// The thread that loaded the model panicked.
    WorkerPanicked,
    /// The model's loader failed for this reason.
    Load(String),
    /// The load that was waited for failed with this message.
    StoredLoadFailure(String),
}

/// An [`Error`] by the characters that it carries.
pub enum ErrorView {
    NoDefaultModel,
    ModelNotRegistered(Seq<char>),
    ModelFileNotFound(Seq<char>),
    WorkerPanicked,
    Load(Seq<char>),
    StoredLoadFailure(Seq<char>),
}

impl ErrorView {
    /// The message shown for the error. A stored failure shows the message it was stored with.
    pub open spec fn message(self) -> Seq<char> {
        match self {
            ErrorView::NoDefaultModel => "no default model is set"@,
            ErrorView::ModelNotRegistered(name) => "model not registered: "@ + name,
            ErrorView::ModelFileNotFound(path) => "model file not found: "@ + path,
            ErrorView::WorkerPanicked => "model loading worker panicked"@,
            ErrorView::Load(reason) => LOAD_FAILURE_PREFIX@ + reason,
            ErrorView::StoredLoadFailure(message) => message,
        }
    }
}

impl View for Error {
    type V = ErrorView;

    open spec fn view(&self) -> ErrorView {
        match self {
            Error::NoDefaultModel => ErrorView::NoDefaultModel,
            Error::ModelNotRegistered(name) => ErrorView::ModelNotRegistered(name@),
            Error::ModelFileNotFound(path) => ErrorView::ModelFileNotFound(path@),
            Error::WorkerPanicked => ErrorView::WorkerPanicked,
            Error::Load(reason) => ErrorView::Load(reason@),
            Error::StoredLoadFailure(message) => ErrorView::StoredLoadFailure(message@),
        }
    }
}

impl Error {
    /// The message shown for the error.
    pub fn message(&self) -> (message: String)
        ensures
            message@ == self@.message(),
    {
        match self {
            Error::NoDefaultModel => "no default model is set".to_string(),
            Error::ModelNotRegistered(name) => {
                "model not registered: ".to_string().concat(name.as_str())
            },
            Error::ModelFileNotFound(path) => {
                "model file not found: ".to_string().concat(path.as_str())
            },
            Error::WorkerPanicked => "model loading worker panicked".to_string(),
            Error::Load(reason) => LOAD_FAILURE_PREFIX.to_string().concat(reason.as_str()),
            Error::StoredLoadFailure(message) => message.clone(),
        }
    }
}

} // verus!
