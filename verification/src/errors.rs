//! The error kinds a `build` or `run` invocation can surface to its caller.

use vstd::prelude::*;

verus! {

/// Spec-level value of an [`EngineError`].
pub ghost enum EngineErrorModel {
    /// The engine was unreachable or a connection dropped mid-stream.
    Transport(Seq<char>),
    /// The engine returned a well-formed error for a request.
    Rejection(Seq<char>),
    /// An event was forwarded to a disconnected sink.
    SinkClosed,
}

/// Why a `build` or `run` invocation failed. None of these are retried:
/// the first error encountered ends the invocation.
#[derive(Clone, PartialEq, Eq, Debug)]
pub enum EngineError {
    /// The engine was unreachable or a connection dropped mid-stream.
    Transport(String),
    /// The engine returned a well-formed error for a request
    /// (bad image, bad configuration, and the like).
    Rejection(String),
    /// An event was forwarded to a sink whose consumer has disconnected.
    SinkClosed,
}

impl View for EngineError {
    type V = EngineErrorModel;

    open spec fn view(&self) -> EngineErrorModel {
        match self {
            EngineError::Transport(m) => EngineErrorModel::Transport(m@),
            EngineError::Rejection(m) => EngineErrorModel::Rejection(m@),
            EngineError::SinkClosed => EngineErrorModel::SinkClosed,
        }
    }
}

impl EngineError {
    /// A human-readable description of the error.
    pub fn describe(&self) -> (r: String)
        ensures
            match self {
                EngineError::Transport(m) => r@ == m@,
                EngineError::Rejection(m) => r@ == m@,
                EngineError::SinkClosed => r@ == "event sink is closed"@,
            },
    {
        match self {
            EngineError::Transport(m) => m.clone(),
            EngineError::Rejection(m) => m.clone(),
            EngineError::SinkClosed => "event sink is closed".to_owned(),
        }
    }
}

} // verus!
