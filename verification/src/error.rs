//! The ways in which starting and stopping the service fail, and the
//! messages that callers are shown for them.

use crate::launch::LaunchKind;
use vstd::prelude::*;
use vstd::string::*;

verus! {

/// Why a start failed. Each of these ends the start; none is retried.
#[derive(Debug)]
pub enum StartError {
    /// The operating system had no port to give at all; its reason.
    PortUnavailable(String),
    /// No launch target was found.
    ResolutionFailure,
    /// The operating system refused to create the process; its reason.
    SpawnFailure { kind: LaunchKind, reason: String },
    /// The service at `url` never answered with success within the attempts
    /// allowed. The child is left running.
    ReadinessTimeout { url: String },
}

/// A start error as a mathematical value.
pub ghost enum StartErrorView {
    PortUnavailable(Seq<char>),
    ResolutionFailure,
    SpawnFailure { kind: LaunchKind, reason: Seq<char> },
    ReadinessTimeout { url: Seq<char> },
}

impl View for StartError {
    type V = StartErrorView;

    open spec fn view(&self) -> StartErrorView {
        match self {
            StartError::PortUnavailable(reason) => StartErrorView::PortUnavailable(reason@),
            StartError::ResolutionFailure => StartErrorView::ResolutionFailure,
            StartError::SpawnFailure { kind, reason } => StartErrorView::SpawnFailure {
                kind: *kind,
                reason: reason@,
            },
            StartError::ReadinessTimeout { url } => StartErrorView::ReadinessTimeout { url: url@ },
        }
    }
}

impl StartErrorView {
    /// The message shown for this error.
    pub open spec fn message(self) -> Seq<char> {
        match self {
            StartErrorView::PortUnavailable(reason) => "Failed to acquire a free port: "@ + reason,
            StartErrorView::ResolutionFailure => "No launch target found"@,
            StartErrorView::SpawnFailure { kind, reason } => match kind {
                LaunchKind::Sidecar => "Failed to spawn sidecar: "@ + reason,
                LaunchKind::Script => "Failed to spawn Python process: "@ + reason,
            },
            StartErrorView::ReadinessTimeout { url } =>
                "Server failed to start or is not responding at "@ + url,
        }
    }
}

impl Clone for StartError {
    fn clone(&self) -> (r: Self)
        ensures
            r@ == self@,
    {
        match self {
            StartError::PortUnavailable(reason) => StartError::PortUnavailable(reason.clone()),
            StartError::ResolutionFailure => StartError::ResolutionFailure,
            StartError::SpawnFailure { kind, reason } => StartError::SpawnFailure {
                kind: *kind,
                reason: reason.clone(),
            },
            StartError::ReadinessTimeout { url } => StartError::ReadinessTimeout {
                url: url.clone(),
            },
        }
    }
}

impl StartError {
    /// The message shown for this error.
    pub fn message(&self) -> (r: String)
        ensures
            r@ == self@.message(),
    {
        match self {
            StartError::PortUnavailable(reason) => {
                String::from_str("Failed to acquire a free port: ").concat(reason.as_str())
            },
            StartError::ResolutionFailure => String::from_str("No launch target found"),
            StartError::SpawnFailure { kind, reason } => match kind {
                LaunchKind::Sidecar => {
                    String::from_str("Failed to spawn sidecar: ").concat(reason.as_str())
                },
                LaunchKind::Script => {
                    String::from_str("Failed to spawn Python process: ").concat(reason.as_str())
                },
            },
            StartError::ReadinessTimeout { url } => {
                String::from_str("Server failed to start or is not responding at ").concat(
                    url.as_str(),
                )
            },
        }
    }
}

/// Why a stop failed.
#[derive(Debug)]
pub enum StopError {
    /// No process is tracked.
    NotFound,
    /// The operating system's call to end the process failed; its reason.
    KillFailed(String),
}

/// A stop error as a mathematical value.
pub ghost enum StopErrorView {
    NotFound,
    KillFailed(Seq<char>),
}

impl View for StopError {
    type V = StopErrorView;

    open spec fn view(&self) -> StopErrorView {
        match self {
            StopError::NotFound => StopErrorView::NotFound,
            StopError::KillFailed(reason) => StopErrorView::KillFailed(reason@),
        }
    }
}

impl StopErrorView {
    /// The message shown for this error.
    pub open spec fn message(self) -> Seq<char> {
        match self {
            StopErrorView::NotFound => "No server process found"@,
            StopErrorView::KillFailed(reason) => "Failed to kill process: "@ + reason,
        }
    }
}

impl StopError {
    /// The message shown for this error.
    pub fn message(&self) -> (r: String)
        ensures
            r@ == self@.message(),
    {
        match self {
            StopError::NotFound => String::from_str("No server process found"),
            StopError::KillFailed(reason) => {
                String::from_str("Failed to kill process: ").concat(reason.as_str())
            },
        }
    }
}

} // verus!
