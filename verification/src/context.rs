//! Conversation context, model requests and responses, and tool calls.
use vstd::prelude::*;

verus! {

/// Who produced a context item.
#[derive(Debug, Clone, Copy, PartialEq, Eq, Structural)]
pub enum MemoryRole {
    System,
    User,
    Assistant,
    Tool,
}

/// The `Debug` name of a role.
pub open spec fn role_name(role: MemoryRole) -> Seq<char> {
    match role {
        MemoryRole::System => "System"@,
        MemoryRole::User => "User"@,
        MemoryRole::Assistant => "Assistant"@,
        MemoryRole::Tool => "Tool"@,
    }
}

impl MemoryRole {
    /// The role's name as `Debug` prints it.
    pub fn name(&self) -> (res: &'static str)
        ensures
            res@ == role_name(*self),
    {
        match self {
            MemoryRole::System => "System",
            MemoryRole::User => "User",
            MemoryRole::Assistant => "Assistant",
            MemoryRole::Tool => "Tool",
        }
    }
}

/// One entry of the conversation; `metadata` is JSON text.
#[derive(Debug, Clone)]
pub struct MemoryItem {
    pub role: MemoryRole,
    pub content: String,
    pub timestamp: u64,
    pub metadata: String,
}

/// The conversation so far.
#[derive(Debug, Clone)]
pub struct Context {
    pub items: Vec<MemoryItem>,
}

impl Context {
    pub fn new() -> (res: Self)
        ensures
            res.items@.len() == 0,
    {
        Context { items: Vec::new() }
    }
}

/// A request to call a tool; `arguments` is JSON text.
#[derive(Debug, Clone)]
pub struct ToolCall {
    pub name: String,
    pub arguments: String,
}

/// A tool as offered to a model; `parameters` is a JSON schema in text form.
#[derive(Debug, Clone)]
pub struct ToolDefinition {
    pub name: String,
    pub description: String,
    pub parameters: String,
}

/// Token usage reported by a model.
#[derive(Debug, Clone, Copy)]
pub struct Usage {
    pub prompt_tokens: u64,
    pub completion_tokens: u64,
}

/// A request to a model.
#[derive(Debug, Clone)]
pub struct Request {
    pub prompt: String,
    pub context: Context,
    pub tools: Vec<ToolDefinition>,
}

/// A model's complete answer.
#[derive(Debug, Clone)]
pub struct Response {
    pub content: String,
    pub tool_calls: Vec<ToolCall>,
    pub usage: Option<Usage>,
}

/// A fragment of a streamed tool call.
#[derive(Debug, Clone)]
pub struct ToolCallDelta {
    pub name: Option<String>,
    pub arguments_delta: Option<String>,
}

/// One chunk of a streamed model answer.
#[derive(Debug, Clone)]
pub struct ResponseChunk {
    pub content_delta: Option<String>,
    pub tool_call_delta: Option<ToolCallDelta>,
    pub usage: Option<Usage>,
    pub is_final: bool,
}

} // verus!
