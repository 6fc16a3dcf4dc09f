//! What can go wrong, and how it is told to the caller.

use vstd::prelude::*;
use vstd::string::StringExecFns;

verus! {

/// The status a failed request is answered with.
#[derive(Clone, Copy, Debug, PartialEq, Eq)]
pub enum StatusCode {
    NotFound,
    Internal,
    Unimplemented,
}

/// Why a request was not answered.
#[derive(Clone, Debug, PartialEq, Eq)]
pub enum DispatchError {
    /// No shard is loaded for the country of the request. This is an
    /// everyday answer, not a fault of the dispatcher.
    ShardUnavailable { country: String },
    /// The shard was asked and failed; `detail` is the reason it gave.
    EngineFailure { detail: String },
    /// The endpoint is not built yet.
    Unimplemented,
}

/// A [`DispatchError`] with each string read as its characters.
pub enum DispatchErrorView {
    ShardUnavailable { country: Seq<char> },
    EngineFailure { detail: Seq<char> },
    Unimplemented,
}

impl View for DispatchError {
    type V = DispatchErrorView;

    open spec fn view(&self) -> DispatchErrorView {
        match self {
            DispatchError::ShardUnavailable { country } => DispatchErrorView::ShardUnavailable {
                country: country@,
            },
            DispatchError::EngineFailure { detail } => DispatchErrorView::EngineFailure {
                detail: detail@,
            },
            DispatchError::Unimplemented => DispatchErrorView::Unimplemented,
        }
    }
}

impl DispatchErrorView {
    /// The status that tells this error to the caller.
    pub open spec fn code(self) -> StatusCode {
        match self {
            DispatchErrorView::ShardUnavailable { .. } => StatusCode::NotFound,
            DispatchErrorView::EngineFailure { .. } => StatusCode::Internal,
            DispatchErrorView::Unimplemented => StatusCode::Unimplemented,
        }
    }

    /// The message that tells this error to the caller.
    pub open spec fn message(self) -> Seq<char> {
        match self {
            DispatchErrorView::ShardUnavailable { country } => "country "@ + country
                + " not available"@,
            DispatchErrorView::EngineFailure { detail } => detail,
            DispatchErrorView::Unimplemented => Seq::empty(),
        }
    }
}

impl DispatchError {
    /// The status that tells this error to the caller: not found for a
    /// country without a shard, internal for a failure of the engine.
    pub fn code(&self) -> (code: StatusCode)
        ensures
            code == self@.code(),
    {
        match self {
            DispatchError::ShardUnavailable { .. } => StatusCode::NotFound,
            DispatchError::EngineFailure { .. } => StatusCode::Internal,
            DispatchError::Unimplemented => StatusCode::Unimplemented,
        }
    }

    /// The message that tells this error to the caller. For a failure of the
    /// engine it is the engine's own reason, word for word.
    pub fn message(&self) -> (message: String)
        ensures
            message@ == self@.message(),
    {
        match self {
            DispatchError::ShardUnavailable { country } => {
                let mut message = String::from_str("country ");
                message.append(country.as_str());
                message.append(" not available");
                message
            },
            DispatchError::EngineFailure { detail } => detail.clone(),
            DispatchError::Unimplemented => String::new(),
        }
    }
}

/// A country whose shard could not be loaded, with the engine's reason.
#[derive(Clone, Debug, PartialEq, Eq)]
pub struct LoadFailure {
    pub country: String,
    pub detail: String,
}

/// A [`LoadFailure`] with each string read as its characters.
pub struct LoadFailureView {
    pub country: Seq<char>,
    pub detail: Seq<char>,
}

impl View for LoadFailure {
    type V = LoadFailureView;

    open spec fn view(&self) -> LoadFailureView {
        LoadFailureView { country: self.country@, detail: self.detail@ }
    }
}

/// Some countries could not be loaded. The others were: a load goes on past
/// a country that fails. `failures` names every country that failed, in the
/// order in which the countries were configured, and is never empty.
#[derive(Clone, Debug, PartialEq, Eq)]
pub struct LoadError {
    pub failures: Vec<LoadFailure>,
}

impl View for LoadError {
    type V = Seq<LoadFailureView>;

    open spec fn view(&self) -> Seq<LoadFailureView> {
        self.failures@.map_values(|failure: LoadFailure| failure@)
    }
}

} // verus!
