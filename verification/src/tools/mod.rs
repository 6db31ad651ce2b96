//! Tool descriptions and the registry of callable tools.
use vstd::prelude::*;
use crate::context::ToolDefinition;

pub mod registry;
pub mod mcp_adapter;

pub use registry::ToolRegistry;

verus! {

/// What a model is told about a tool; `parameters` is a JSON schema in text form.
#[derive(Debug, Clone)]
pub struct ToolSchema {
    pub name: String,
    pub description: String,
    pub parameters: String,
    pub source: String,
}

impl ToolSchema {
    /// The tool as offered to a model: its name, description and parameters.
    pub fn into_definition(self) -> (res: ToolDefinition)
        ensures
            res.name == self.name,
            res.description == self.description,
            res.parameters == self.parameters,
    {
        ToolDefinition { name: self.name, description: self.description, parameters: self.parameters }
    }
}

/// The source recorded for tools that do not name one.
pub fn default_tool_source() -> (res: String)
    ensures
        res@ == "builtin"@,
{
    crate::text::owned("builtin")
}

} // verus!
