//! Errors of the agent.

use vstd::prelude::*;

verus! {

/// The four families of failure.
#[derive(Clone, Copy, Debug, PartialEq, Eq, Structural)]
pub enum ErrorKind {
    /// Unsupported or malformed request or configuration; never retried.
    Configuration,
    /// The attester failed to extend a register or to produce evidence.
    Attester,
    /// The event log could not be written.
    LogIo,
    /// The order of the extension protocol was not followed.
    Protocol,
}

/// An error of the agent, carrying what triggered it.
#[derive(Clone, Debug, PartialEq, Eq)]
pub enum AgentError {
    /// The token type names no supported backend.
    UnsupportedTokenType(String),
    /// The token backend is supported but has no configuration.
    TokenNotConfigured(String),
    /// An event field holds a separator or a line break.
    InvalidEvent,
    /// The initial entry can only open an empty log.
    AlreadyInitialized,
    /// An extension is in progress.
    Busy,
    /// No extension is waiting for this step.
    NoPendingExtension,
    /// A register was extended without its log entry: log and register differ.
    Diverged,
    /// The attester failed.
    Attester(String),
    /// Writing the log failed after the register had been extended.
    LogWrite(String),
}

impl AgentError {
    pub open spec fn spec_kind(&self) -> ErrorKind {
        match self {
            AgentError::UnsupportedTokenType(_) => ErrorKind::Configuration,
            AgentError::TokenNotConfigured(_) => ErrorKind::Configuration,
            AgentError::InvalidEvent => ErrorKind::Configuration,
            AgentError::AlreadyInitialized => ErrorKind::Protocol,
            AgentError::Busy => ErrorKind::Protocol,
            AgentError::NoPendingExtension => ErrorKind::Protocol,
            AgentError::Diverged => ErrorKind::LogIo,
            AgentError::Attester(_) => ErrorKind::Attester,
            AgentError::LogWrite(_) => ErrorKind::LogIo,
        }
    }

    /// The family this error belongs to.
    pub fn kind(&self) -> (r: ErrorKind)
        ensures
            r == self.spec_kind(),
    {
        match self {
            AgentError::UnsupportedTokenType(_) => ErrorKind::Configuration,
            AgentError::TokenNotConfigured(_) => ErrorKind::Configuration,
            AgentError::InvalidEvent => ErrorKind::Configuration,
            AgentError::AlreadyInitialized => ErrorKind::Protocol,
            AgentError::Busy => ErrorKind::Protocol,
            AgentError::NoPendingExtension => ErrorKind::Protocol,
            AgentError::Diverged => ErrorKind::LogIo,
            AgentError::Attester(_) => ErrorKind::Attester,
            AgentError::LogWrite(_) => ErrorKind::LogIo,
        }
    }
}

} // verus!
