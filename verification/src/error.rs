//! Client-level error taxonomy and the messages each error displays.
use vstd::prelude::*;
use vstd::string::*;

use crate::text::{append_str, join, joined, owned, views};

verus! {

/// Capability names used in client-level unsupported or unavailable errors.
#[derive(Clone, Copy, Debug, PartialEq, Eq)]
pub enum Capability {
    /// One-shot chat completion execution.
    ChatCompletion,
    /// Incremental chat completion streaming.
    StreamingChatCompletion,
    /// Model catalog listing.
    ModelCatalog,
    /// Balance or quota inspection.
    Balance,
}

/// The human-readable label of a capability.
pub open spec fn capability_label(c: Capability) -> Seq<char> {
    match c {
        Capability::ChatCompletion => "chat completion"@,
        Capability::StreamingChatCompletion => "streaming chat completion"@,
        Capability::ModelCatalog => "model catalog"@,
        Capability::Balance => "balance"@,
    }
}

impl Capability {
    /// Returns the label used when the capability is displayed.
    pub fn label(&self) -> (r: &'static str)
        ensures
            r@ == capability_label(*self),
    {
        match self {
            Capability::ChatCompletion => "chat completion",
            Capability::StreamingChatCompletion => "streaming chat completion",
            Capability::ModelCatalog => "model catalog",
            Capability::Balance => "balance",
        }
    }
}

/// LLM client-layer error taxonomy: capability-level failures stay distinct from
/// provider transport or protocol failures. `Backend` carries the provider error's
/// displayed text.
#[derive(Clone, Debug, PartialEq, Eq)]
pub enum LlmError {
    /// The request was invalid before it reached the provider.
    InvalidRequest(String),
    /// The backend never offers the requested capability.
    UnsupportedCapability { backend: &'static str, capability: Capability },
    /// The backend is expected to offer the capability but has not implemented it yet.
    UnimplementedCapability { backend: &'static str, capability: Capability },
    /// The backend can offer the capability in principle, but not in the current state.
    UnavailableCapability { backend: &'static str, capability: Capability, message: String },
    /// The underlying provider returned an error (its displayed text).
    Backend { backend: &'static str, source: String },
}

/// The text an error displays.
pub open spec fn llm_error_message(e: LlmError) -> Seq<char> {
    match e {
        LlmError::InvalidRequest(m) => "invalid request: "@ + m@,
        LlmError::UnsupportedCapability { backend, capability } => backend@ + " does not support "@
            + capability_label(capability),
        LlmError::UnimplementedCapability { backend, capability } => backend@
            + " has not implemented "@ + capability_label(capability),
        LlmError::UnavailableCapability { backend, capability, message } => backend@
            + " cannot currently provide "@ + capability_label(capability) + ": "@ + message@,
        LlmError::Backend { backend, source } => backend@ + " backend error: "@ + source@,
    }
}

impl LlmError {
    /// Creates an invalid-request error with a stable, user-facing message.
    pub fn invalid_request(message: &str) -> (r: Self)
        ensures
            r matches LlmError::InvalidRequest(m) && m@ == message@,
    {
        LlmError::InvalidRequest(owned(message))
    }

    /// Creates an unsupported-capability error for the given backend.
    pub fn unsupported(backend: &'static str, capability: Capability) -> (r: Self)
        ensures
            r == (LlmError::UnsupportedCapability { backend, capability }),
    {
        LlmError::UnsupportedCapability { backend, capability }
    }

    /// Creates an unimplemented-capability error for the given backend.
    pub fn unimplemented(backend: &'static str, capability: Capability) -> (r: Self)
        ensures
            r == (LlmError::UnimplementedCapability { backend, capability }),
    {
        LlmError::UnimplementedCapability { backend, capability }
    }

    /// Creates an unavailable-capability error for the given backend.
    pub fn unavailable(backend: &'static str, capability: Capability, message: &str) -> (r: Self)
        ensures
            r matches LlmError::UnavailableCapability { backend: b, capability: c, message: m }
                && b == backend && c == capability && m@ == message@,
    {
        LlmError::UnavailableCapability { backend, capability, message: owned(message) }
    }

    /// Wraps a provider-specific error, given as its displayed text.
    pub fn backend(backend: &'static str, source: &str) -> (r: Self)
        ensures
            r matches LlmError::Backend { backend: b, source: s } && b == backend && s@ == source@,
    {
        LlmError::Backend { backend, source: owned(source) }
    }

    /// The text this error displays.
    pub fn message(&self) -> (r: String)
        ensures
            r@ == llm_error_message(*self),
    {
        match self {
            LlmError::InvalidRequest(m) => {
                let mut s = owned("invalid request: ");
                append_str(&mut s, m.as_str());
                s
            },
            LlmError::UnsupportedCapability { backend, capability } => {
                let mut s = owned(backend);
                append_str(&mut s, " does not support ");
                append_str(&mut s, capability.label());
                s
            },
            LlmError::UnimplementedCapability { backend, capability } => {
                let mut s = owned(backend);
                append_str(&mut s, " has not implemented ");
                append_str(&mut s, capability.label());
                s
            },
            LlmError::UnavailableCapability { backend, capability, message } => {
                let mut s = owned(backend);
                append_str(&mut s, " cannot currently provide ");
                append_str(&mut s, capability.label());
                append_str(&mut s, ": ");
                append_str(&mut s, message.as_str());
                s
            },
            LlmError::Backend { backend, source } => {
                let mut s = owned(backend);
                append_str(&mut s, " backend error: ");
                append_str(&mut s, source.as_str());
                s
            },
        }
    }
}

/// Registration errors emitted by a tool dispatcher.
#[derive(Clone, Debug, PartialEq, Eq)]
pub enum ToolRegistrationError {
    /// Attempted to register two tools with the same name.
    DuplicateTool { name: String },
}

impl ToolRegistrationError {
    /// Creates a duplicate-tool registration error.
    pub fn duplicate_tool(name: &str) -> (r: Self)
        ensures
            r matches ToolRegistrationError::DuplicateTool { name: n } && n@ == name@,
    {
        ToolRegistrationError::DuplicateTool { name: owned(name) }
    }

    /// The text this error displays.
    pub fn message(&self) -> (r: String)
        ensures
            self matches ToolRegistrationError::DuplicateTool { name } && r@ == "duplicate tool name '"@
                + name@ + "'"@,
    {
        match self {
            ToolRegistrationError::DuplicateTool { name } => {
                let mut s = owned("duplicate tool name '");
                append_str(&mut s, name.as_str());
                append_str(&mut s, "'");
                s
            },
        }
    }
}

/// Call-time errors emitted by a tool dispatcher. `Execution` carries the failing
/// tool's error text.
#[derive(Clone, Debug, PartialEq, Eq)]
pub enum ToolCallError {
    /// Attempted to execute an unknown tool.
    UnknownTool { name: String, available: String },
    /// Registered tool execution failed abnormally.
    Execution { name: String, source: String },
}

/// The `available` text of an unknown-tool error: the names joined with `, `, or
/// `(none)` when there are none.
pub open spec fn available_tools_text(names: Seq<Seq<char>>) -> Seq<char> {
    if names.len() == 0 {
        "(none)"@
    } else {
        joined(names, ", "@)
    }
}

/// The text a tool-call error displays.
pub open spec fn tool_call_error_message(e: ToolCallError) -> Seq<char> {
    match e {
        ToolCallError::UnknownTool { name, available } => "unknown tool '"@ + name@
            + "'. available tools: "@ + available@,
        ToolCallError::Execution { name, source } => "tool '"@ + name@ + "' execution failed: "@
            + source@,
    }
}

impl ToolCallError {
    /// Creates an unknown-tool call error listing the available tool names.
    pub fn unknown_tool(name: &str, available: &Vec<String>) -> (r: Self)
        ensures
            r matches ToolCallError::UnknownTool { name: n, available: a } && n@ == name@ && a@
                == available_tools_text(views(available@)),
    {
        let text = if available.len() == 0 {
            owned("(none)")
        } else {
            join(available, ", ")
        };
        ToolCallError::UnknownTool { name: owned(name), available: text }
    }

    /// Creates a tool-execution error from the failing tool's error text.
    pub fn execution(name: &str, source: &str) -> (r: Self)
        ensures
            r matches ToolCallError::Execution { name: n, source: s } && n@ == name@ && s@
                == source@,
    {
        ToolCallError::Execution { name: owned(name), source: owned(source) }
    }

    /// The text this error displays.
    pub fn message(&self) -> (r: String)
        ensures
            r@ == tool_call_error_message(*self),
    {
        match self {
            ToolCallError::UnknownTool { name, available } => {
                let mut s = owned("unknown tool '");
                append_str(&mut s, name.as_str());
                append_str(&mut s, "'. available tools: ");
                append_str(&mut s, available.as_str());
                s
            },
            ToolCallError::Execution { name, source } => {
                let mut s = owned("tool '");
                append_str(&mut s, name.as_str());
                append_str(&mut s, "' execution failed: ");
                append_str(&mut s, source.as_str());
                s
            },
        }
    }
}

} // verus!
