//! Whether transcription can start, as clients are told.

use vstd::prelude::*;

use crate::error::Error;
use crate::manager::{ManagerView, ModelLoadState, ModelLoadStateView, ModelManager, Observed};
use crate::text::opt_string;

verus! {

/// Seconds after which a client that came too early may ask again.
pub const RETRY_AFTER_SECS: u64 = 5;

/// The state of the default model.
#[derive(Debug, Clone, Copy, PartialEq, Eq, Structural)]
pub enum TranscribeReadinessState {
    Idle,
    Loading,
    Ready,
    Failed,
}

/// The state of the default model, why it failed, and when to ask again.
#[derive(Debug, Clone, PartialEq, Eq)]
pub struct TranscribeReadiness {
    pub status: TranscribeReadinessState,
    pub error: Option<String>,
    pub retry_after_secs: Option<u64>,
}

/// A [`TranscribeReadiness`] by the characters that it carries.
pub struct TranscribeReadinessView {
    pub status: TranscribeReadinessState,
    pub error: Option<Seq<char>>,
    pub retry_after_secs: Option<u64>,
}

impl View for TranscribeReadiness {
    type V = TranscribeReadinessView;

    open spec fn view(&self) -> TranscribeReadinessView {
        TranscribeReadinessView {
            status: self.status,
            error: opt_string(self.error),
            retry_after_secs: self.retry_after_secs,
        }
    }
}

/// What clients are told of a load state.
pub open spec fn readiness_of(state: ModelLoadStateView) -> TranscribeReadinessView {
    match state {
        ModelLoadStateView::Idle => TranscribeReadinessView {
            status: TranscribeReadinessState::Idle,
            error: None,
            retry_after_secs: Some(RETRY_AFTER_SECS),
        },
        ModelLoadStateView::Loading => TranscribeReadinessView {
            status: TranscribeReadinessState::Loading,
            error: None,
            retry_after_secs: Some(RETRY_AFTER_SECS),
        },
        ModelLoadStateView::Ready => TranscribeReadinessView {
            status: TranscribeReadinessState::Ready,
            error: None,
            retry_after_secs: None,
        },
        ModelLoadStateView::Failed { error } => TranscribeReadinessView {
            status: TranscribeReadinessState::Failed,
            error: Some(error),
            retry_after_secs: None,
        },
    }
}

/// Reads the readiness of the default model off a manager.
pub struct TranscribeReadinessHandle<'a, M> {
    pub manager: &'a mut ModelManager<M>,
}

impl<'a, M> TranscribeReadinessHandle<'a, M> {
    /// The manager as it is now.
    pub open spec fn current(self) -> ManagerView<M> {
        self.manager@
    }

    /// What clients are told of the default model at `now`.
    pub fn snapshot(&mut self, now: u128) -> (seen: Result<Observed<TranscribeReadiness>, Error>)
        ensures
            *final(final(self).manager) == *final(old(self).manager),
            old(self).current().wf() ==> final(self).current().wf(),
            match old(self).current().resolve_name(None) {
                Err(error) => {
                    &&& seen matches Err(e) && e@ == error
                    &&& final(self).current() == old(self).current()
                },
                Ok(name) => {
                    &&& seen matches Ok(s) && s.value@ == readiness_of(
                        old(self).current().expired(now).report(name),
                    ) && s.notify == old(self).current().expires(now)
                    &&& final(self).current() == old(self).current().expired(now)
                },
            },
    {
        match self.manager.snapshot(None, now) {
            Ok(seen) => Ok(
                Observed { value: TranscribeReadiness::of(seen.value), notify: seen.notify },
            ),
            Err(error) => Err(error),
        }
    }
}

impl TranscribeReadiness {
    /// What clients are told of a load state.
    pub fn of(state: ModelLoadState) -> (readiness: Self)
        ensures
            readiness@ == readiness_of(state@),
    {
        match state {
            ModelLoadState::Idle => TranscribeReadiness {
                status: TranscribeReadinessState::Idle,
                error: None,
                retry_after_secs: Some(RETRY_AFTER_SECS),
            },
            ModelLoadState::Loading => TranscribeReadiness {
                status: TranscribeReadinessState::Loading,
                error: None,
                retry_after_secs: Some(RETRY_AFTER_SECS),
            },
            ModelLoadState::Ready => TranscribeReadiness {
                status: TranscribeReadinessState::Ready,
                error: None,
                retry_after_secs: None,
            },
            ModelLoadState::Failed { error } => TranscribeReadiness {
                status: TranscribeReadinessState::Failed,
                error: Some(error),
                retry_after_secs: None,
            },
        }
    }
}

} // verus!
