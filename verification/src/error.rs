//! The errors of the framework.
use vstd::prelude::*;
use crate::text::concat2;
use crate::executor::{ToolError, tool_error_message};

verus! {

/// An error of the framework; outside errors are carried as their messages.
#[derive(Debug, Clone)]
pub enum MentalistError {
    ConfigError(String),
    ExecutorError(ToolError),
    AgentError(String),
    MiddlewareError { middleware: String, source: String },
    ProviderError(String),
    Internal(String),
    Io(String),
}

/// The message of an error as it is displayed.
pub open spec fn mentalist_error_message(e: MentalistError) -> Seq<char> {
    match e {
        MentalistError::ConfigError(m) => "Configuration error: "@ + m@,
        MentalistError::ExecutorError(t) => "Executor error: "@ + tool_error_message(t),
        MentalistError::AgentError(m) => "Agent error: "@ + m@,
        MentalistError::MiddlewareError { middleware, source } =>
            "Middleware '"@ + middleware@ + "' failure: "@ + source@,
        MentalistError::ProviderError(m) => "Model provider error: "@ + m@,
        MentalistError::Internal(m) => "Internal error: "@ + m@,
        MentalistError::Io(m) => "IO error: "@ + m@,
    }
}

impl MentalistError {
    /// The displayed message.
    pub fn message(&self) -> (res: String)
        ensures
            res@ == mentalist_error_message(*self),
    {
        match self {
            MentalistError::ConfigError(m) => concat2("Configuration error: ", m.as_str()),
            MentalistError::ExecutorError(t) => {
                let inner = t.message();
                concat2("Executor error: ", inner.as_str())
            },
            MentalistError::AgentError(m) => concat2("Agent error: ", m.as_str()),
            MentalistError::MiddlewareError { middleware, source } => {
                proof {
                    reveal_strlit("");
                }
                let r = crate::text::concat5("Middleware '", middleware.as_str(), "' failure: ", source.as_str(), "");
                assert(r@ =~= "Middleware '"@ + middleware@ + "' failure: "@ + source@);
                r
            },
            MentalistError::ProviderError(m) => concat2("Model provider error: ", m.as_str()),
            MentalistError::Internal(m) => concat2("Internal error: ", m.as_str()),
            MentalistError::Io(m) => concat2("IO error: ", m.as_str()),
        }
    }
}

} // verus!
