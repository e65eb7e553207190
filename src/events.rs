//! Response events produced by a backend and relayed by a session.
use vstd::prelude::*;

verus! {

/// The JSON value type used for tool arguments and outputs.
#[verifier::external_type_specification]
#[verifier::external_body]
pub struct ExJsonValue(serde_json::Value);

/// A structured tool invocation requested by a backend.
#[derive(Debug)]
pub struct ToolCall {
    pub name: String,
    pub arguments: serde_json::Value,
}

/// The structured result of a tool invocation.
#[derive(Debug)]
pub struct ToolResult {
    pub name: String,
    pub output: serde_json::Value,
    pub is_error: bool,
}

/// One response event of a backend.
#[derive(Debug)]
pub enum AgentEvent {
    MessageDelta(String),
    ToolRequest(ToolCall),
    ToolResult(ToolResult),
    Done,
}

/// The text fragment carried by an event, if it is a `MessageDelta`.
pub open spec fn delta_text(e: AgentEvent) -> Option<Seq<char>> {
    match e {
        AgentEvent::MessageDelta(s) => Some(s@),
        _ => None,
    }
}

/// What a session hands to its consumer: a relayed backend event, or the
/// signal that the turn was cancelled.
#[derive(Debug)]
pub enum SessionEvent {
    Agent(AgentEvent),
    Cancelled,
}

} // verus!
