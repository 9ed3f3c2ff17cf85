//! Errors reported by the library.
use vstd::prelude::*;

verus! {

/// An error of the agent framework.
#[derive(Debug)]
pub enum AgentError {
    /// Invalid configuration or input (bad session id, missing API key, ...).
    ConfigError(String),
    /// A resource is held by someone else (a locked session, ...).
    ResourceUnavailable(String),
    /// An internal failure.
    Internal(String),
    /// A file-system or other I/O failure.
    Io(String),
    /// The operation was cancelled.
    Cancelled,
}

/// Result type of the agent framework.
pub type AgentResult<T> = Result<T, AgentError>;

impl AgentError {
    /// A configuration error with the given message.
    pub fn config_error(message: String) -> (e: AgentError)
        ensures
            e matches AgentError::ConfigError(m) && m@ == message@,
    {
        AgentError::ConfigError(message)
    }

    /// A resource-unavailable error with the given message.
    pub fn resource_unavailable(message: String) -> (e: AgentError)
        ensures
            e matches AgentError::ResourceUnavailable(m) && m@ == message@,
    {
        AgentError::ResourceUnavailable(message)
    }

    /// An internal error with the given message.
    pub fn internal(message: String) -> (e: AgentError)
        ensures
            e matches AgentError::Internal(m) && m@ == message@,
    {
        AgentError::Internal(message)
    }

    /// The error's message (a fixed text for `Cancelled`).
    pub fn message(&self) -> (m: &str)
        ensures
            m@ == match *self {
                AgentError::ConfigError(s) => s@,
                AgentError::ResourceUnavailable(s) => s@,
                AgentError::Internal(s) => s@,
                AgentError::Io(s) => s@,
                AgentError::Cancelled => "operation cancelled"@,
            },
    {
        match self {
            AgentError::ConfigError(s) => s.as_str(),
            AgentError::ResourceUnavailable(s) => s.as_str(),
            AgentError::Internal(s) => s.as_str(),
            AgentError::Io(s) => s.as_str(),
            AgentError::Cancelled => "operation cancelled",
        }
    }
}

} // verus!
