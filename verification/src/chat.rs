//! Normalized chat-completion types: request messages, tool calls, responses
//! and streaming chunks.
//!
//! Field names mirror the common OpenAI-like wire shape. Sampling parameters and
//! log-probabilities that the wire format carries as IEEE-754 numbers are held here
//! as their bit patterns (`f32::to_bits` / `f64::to_bits`), so that the values pass
//! through unchanged.
use vstd::prelude::*;
use vstd::string::*;

use crate::text::owned;

verus! {

// ---------------------------------------------------------------------------
// Shared value types
// ---------------------------------------------------------------------------

/// Structured response-format request.
#[derive(Clone, Debug, PartialEq, Eq)]
pub struct ResponseFormat {
    pub kind: ResponseFormatType,
}

/// Response-format families shared across normalized backends.
#[derive(Clone, Copy, Debug, PartialEq, Eq)]
#[non_exhaustive]
pub enum ResponseFormatType {
    Text,
    JsonObject,
}

/// Stop sequence configuration.
#[derive(Clone, Debug, PartialEq, Eq)]
#[non_exhaustive]
pub enum StopSequence {
    Single(String),
    Multiple(Vec<String>),
}

/// Streaming-specific options.
#[derive(Clone, Debug, PartialEq, Eq)]
pub struct StreamOptions {
    pub include_usage: Option<bool>,
}

/// Callable function schema exposed to the model. `parameters` holds the JSON
/// schema as JSON text.
#[derive(Clone, Debug, PartialEq)]
pub struct FunctionDefinition {
    pub name: String,
    pub description: Option<String>,
    pub parameters: Option<String>,
    pub strict: Option<bool>,
}

/// Tool definition passed to the model.
#[derive(Clone, Debug, PartialEq)]
pub struct ToolDefinition {
    pub kind: ToolType,
    pub function: FunctionDefinition,
}

/// Explicit named tool-choice request.
#[derive(Clone, Debug, PartialEq, Eq)]
pub struct NamedToolChoice {
    pub kind: ToolType,
    pub function: NamedToolChoiceFunction,
}

/// Named function used in a named tool-choice request.
#[derive(Clone, Debug, PartialEq, Eq)]
pub struct NamedToolChoiceFunction {
    pub name: String,
}

/// Tool choice configuration.
#[derive(Clone, Debug, PartialEq)]
#[non_exhaustive]
pub enum ToolChoice {
    Mode(ToolChoiceMode),
    Named(NamedToolChoice),
}

/// Common tool-choice modes.
#[derive(Clone, Copy, Debug, PartialEq, Eq)]
#[non_exhaustive]
pub enum ToolChoiceMode {
    /// The model must not call tools (wire value `none`).
    Disabled,
    Auto,
    Required,
}

/// Tool families currently normalized by the client layer.
#[derive(Clone, Copy, Debug, PartialEq, Eq)]
#[non_exhaustive]
pub enum ToolType {
    Function,
}

/// Function invocation payload.
#[derive(Clone, Debug, PartialEq)]
pub struct FunctionCall {
    pub name: String,
    pub arguments: String,
}

/// Tool call emitted in a non-streaming assistant response.
#[derive(Clone, Debug, PartialEq)]
pub struct ChatToolCall {
    pub id: String,
    pub kind: ToolType,
    pub function: FunctionCall,
}

/// Incremental function-call payload emitted during streaming.
#[derive(Clone, Debug, PartialEq)]
pub struct FunctionCallDelta {
    pub name: Option<String>,
    pub arguments: Option<String>,
}

/// Incremental tool-call payload emitted during streaming.
#[derive(Clone, Debug, PartialEq)]
pub struct ChatCompletionChunkToolCall {
    pub index: Option<u32>,
    pub id: Option<String>,
    pub kind: Option<ToolType>,
    pub function: Option<FunctionCallDelta>,
}

/// Common completion stop reasons normalized by the client layer.
#[derive(Clone, Copy, Debug, PartialEq, Eq)]
#[non_exhaustive]
pub enum FinishReason {
    Stop,
    Length,
    ContentFilter,
    ToolCalls,
    InsufficientSystemResource,
}

/// Additional completion-token details when the provider exposes them.
#[derive(Clone, Debug, PartialEq)]
pub struct CompletionTokensDetails {
    pub reasoning_tokens: Option<u32>,
}

/// Token usage metadata. Cache fields are optional because some providers cannot
/// report them faithfully.
#[derive(Clone, Debug, PartialEq)]
pub struct Usage {
    pub completion_tokens: u32,
    pub prompt_tokens: u32,
    pub prompt_cache_hit_tokens: Option<u32>,
    pub prompt_cache_miss_tokens: Option<u32>,
    pub total_tokens: u32,
    pub completion_tokens_details: Option<CompletionTokensDetails>,
}

/// Top alternative log-probability for a token (`logprob_bits` is the `f64` bit pattern).
#[derive(Clone, Debug, PartialEq)]
pub struct TopLogprob {
    pub token: String,
    pub logprob_bits: u64,
    pub bytes: Option<Vec<u8>>,
}

/// Log-probability metadata for a single token (`logprob_bits` is the `f64` bit pattern).
#[derive(Clone, Debug, PartialEq)]
pub struct TokenLogprob {
    pub token: String,
    pub logprob_bits: u64,
    pub bytes: Option<Vec<u8>>,
    pub top_logprobs: Vec<TopLogprob>,
}

/// Log-probability payload for completion tokens.
#[derive(Clone, Debug, PartialEq)]
pub struct ChatCompletionLogprobs {
    pub content: Option<Vec<TokenLogprob>>,
    pub reasoning_content: Option<Vec<TokenLogprob>>,
}

// ---------------------------------------------------------------------------
// Request messages
// ---------------------------------------------------------------------------

/// Plain role/content message. Roles stay free-form strings so that roles such as
/// `developer` pass through unchanged.
#[derive(Clone, Debug, PartialEq)]
pub struct TextMessage {
    pub role: String,
    pub content: String,
    pub name: Option<String>,
    pub reasoning_content: Option<String>,
}

/// Assistant message that includes one or more tool calls.
#[derive(Clone, Debug, PartialEq)]
pub struct ToolCallsMessage {
    pub role: String,
    pub content: Option<String>,
    pub name: Option<String>,
    pub tool_calls: Vec<ChatToolCall>,
    pub reasoning_content: Option<String>,
}

/// Tool result message sent back to the model.
#[derive(Clone, Debug, PartialEq)]
pub struct ToolResultMessage {
    pub role: String,
    pub content: String,
    pub tool_call_id: String,
}

/// One request-side chat message in normalized form.
#[derive(Clone, Debug, PartialEq)]
pub enum ChatMessage {
    ToolCalls(ToolCallsMessage),
    ToolResult(ToolResultMessage),
    Message(TextMessage),
}

/// The view of an optional string.
pub open spec fn opt_view(o: Option<String>) -> Option<Seq<char>> {
    match o {
        Some(s) => Some(s@),
        None => None,
    }
}

/// The view of an optional string slice.
pub open spec fn opt_str_view(o: Option<&str>) -> Option<Seq<char>> {
    match o {
        Some(s) => Some(s@),
        None => None,
    }
}

impl ChatMessage {
    /// The role string of any variant.
    pub open spec fn spec_role(self) -> Seq<char> {
        match self {
            ChatMessage::Message(m) => m.role@,
            ChatMessage::ToolCalls(m) => m.role@,
            ChatMessage::ToolResult(m) => m.role@,
        }
    }

    /// The text content, where the variant carries one.
    pub open spec fn spec_content(self) -> Option<Seq<char>> {
        match self {
            ChatMessage::Message(m) => Some(m.content@),
            ChatMessage::ToolCalls(m) => opt_view(m.content),
            ChatMessage::ToolResult(m) => Some(m.content@),
        }
    }

    /// The optional provider-level `name` field.
    pub open spec fn spec_name(self) -> Option<Seq<char>> {
        match self {
            ChatMessage::Message(m) => opt_view(m.name),
            ChatMessage::ToolCalls(m) => opt_view(m.name),
            ChatMessage::ToolResult(_) => None,
        }
    }

    /// The reasoning content, where the variant carries one.
    pub open spec fn spec_reasoning_content(self) -> Option<Seq<char>> {
        match self {
            ChatMessage::Message(m) => opt_view(m.reasoning_content),
            ChatMessage::ToolCalls(m) => opt_view(m.reasoning_content),
            ChatMessage::ToolResult(_) => None,
        }
    }

    /// The tool-call identifier of a tool result message.
    pub open spec fn spec_tool_call_id(self) -> Option<Seq<char>> {
        match self {
            ChatMessage::ToolResult(m) => Some(m.tool_call_id@),
            _ => None,
        }
    }

    /// The tool calls of an assistant tool-call message.
    pub open spec fn spec_tool_calls(self) -> Option<Seq<ChatToolCall>> {
        match self {
            ChatMessage::ToolCalls(m) => Some(m.tool_calls@),
            _ => None,
        }
    }

    /// Creates a message with an explicit role string.
    pub fn new(role: &str, content: &str) -> (r: Self)
        ensures
            r matches ChatMessage::Message(m) && m.role@ == role@ && m.content@ == content@
                && m.name is None && m.reasoning_content is None,
    {
        ChatMessage::Message(TextMessage {
            role: owned(role),
            content: owned(content),
            name: None,
            reasoning_content: None,
        })
    }

    /// Creates a named message for providers that support the `name` field.
    pub fn named(role: &str, content: &str, name: &str) -> (r: Self)
        ensures
            r matches ChatMessage::Message(m) && m.role@ == role@ && m.content@ == content@
                && opt_view(m.name) == Some(name@) && m.reasoning_content is None,
    {
        ChatMessage::Message(TextMessage {
            role: owned(role),
            content: owned(content),
            name: Some(owned(name)),
            reasoning_content: None,
        })
    }

    /// Creates a system message.
    pub fn system(content: &str) -> (r: Self)
        ensures
            r matches ChatMessage::Message(m) && m.role@ == "system"@ && m.content@ == content@
                && m.name is None && m.reasoning_content is None,
    {
        Self::new("system", content)
    }

    /// Creates a user message.
    pub fn user(content: &str) -> (r: Self)
        ensures
            r matches ChatMessage::Message(m) && m.role@ == "user"@ && m.content@ == content@
                && m.name is None && m.reasoning_content is None,
    {
        Self::new("user", content)
    }

    /// Creates an assistant message without tool calls.
    pub fn assistant(content: &str) -> (r: Self)
        ensures
            r matches ChatMessage::Message(m) && m.role@ == "assistant"@ && m.content@
                == content@ && m.name is None && m.reasoning_content is None,
    {
        Self::new("assistant", content)
    }

    /// Creates an assistant tool-call message without extra text content.
    pub fn assistant_tool_calls(tool_calls: Vec<ChatToolCall>) -> (r: Self)
        ensures
            r matches ChatMessage::ToolCalls(m) && m.role@ == "assistant"@ && m.content is None
                && m.name is None && m.tool_calls == tool_calls && m.reasoning_content is None,
    {
        ChatMessage::ToolCalls(ToolCallsMessage {
            role: owned("assistant"),
            content: None,
            name: None,
            tool_calls,
            reasoning_content: None,
        })
    }

    /// Creates an assistant tool-call message with accompanying text content.
    pub fn assistant_tool_calls_with_content(content: &str, tool_calls: Vec<ChatToolCall>) -> (r:
        Self)
        ensures
            r matches ChatMessage::ToolCalls(m) && m.role@ == "assistant"@ && opt_view(m.content)
                == Some(content@) && m.name is None && m.tool_calls == tool_calls
                && m.reasoning_content is None,
    {
        ChatMessage::ToolCalls(ToolCallsMessage {
            role: owned("assistant"),
            content: Some(owned(content)),
            name: None,
            tool_calls,
            reasoning_content: None,
        })
    }

    /// Creates an assistant tool-call message with reasoning content.
    pub fn assistant_tool_calls_with_reasoning(
        tool_calls: Vec<ChatToolCall>,
        reasoning_content: &str,
    ) -> (r: Self)
        ensures
            r matches ChatMessage::ToolCalls(m) && m.role@ == "assistant"@ && m.content is None
                && m.name is None && m.tool_calls == tool_calls && opt_view(m.reasoning_content)
                == Some(reasoning_content@),
    {
        ChatMessage::ToolCalls(ToolCallsMessage {
            role: owned("assistant"),
            content: None,
            name: None,
            tool_calls,
            reasoning_content: Some(owned(reasoning_content)),
        })
    }

    /// Creates an assistant message with reasoning content and no tool calls.
    pub fn assistant_with_reasoning(content: &str, reasoning_content: &str) -> (r: Self)
        ensures
            r matches ChatMessage::Message(m) && m.role@ == "assistant"@ && m.content@
                == content@ && m.name is None && opt_view(m.reasoning_content) == Some(
                reasoning_content@,
            ),
    {
        ChatMessage::Message(TextMessage {
            role: owned("assistant"),
            content: owned(content),
            name: None,
            reasoning_content: Some(owned(reasoning_content)),
        })
    }

    /// Creates a tool result message.
    pub fn tool_result(content: &str, tool_call_id: &str) -> (r: Self)
        ensures
            r matches ChatMessage::ToolResult(m) && m.role@ == "tool"@ && m.content@ == content@
                && m.tool_call_id@ == tool_call_id@,
    {
        ChatMessage::ToolResult(ToolResultMessage {
            role: owned("tool"),
            content: owned(content),
            tool_call_id: owned(tool_call_id),
        })
    }

    /// Alias for [`Self::tool_result`].
    pub fn tool(content: &str, tool_call_id: &str) -> (r: Self)
        ensures
            r matches ChatMessage::ToolResult(m) && m.role@ == "tool"@ && m.content@ == content@
                && m.tool_call_id@ == tool_call_id@,
    {
        Self::tool_result(content, tool_call_id)
    }

    /// Returns the message role regardless of which variant is stored.
    pub fn role(&self) -> (r: &str)
        ensures
            r@ == self.spec_role(),
    {
        match self {
            ChatMessage::Message(m) => m.role.as_str(),
            ChatMessage::ToolCalls(m) => m.role.as_str(),
            ChatMessage::ToolResult(m) => m.role.as_str(),
        }
    }

    /// Returns the text content when the variant carries it.
    pub fn content(&self) -> (r: Option<&str>)
        ensures
            opt_str_view(r) == self.spec_content(),
    {
        match self {
            ChatMessage::Message(m) => Some(m.content.as_str()),
            ChatMessage::ToolCalls(m) => match &m.content {
                Some(c) => Some(c.as_str()),
                None => None,
            },
            ChatMessage::ToolResult(m) => Some(m.content.as_str()),
        }
    }

    /// Returns the optional provider-level `name` field when present.
    pub fn name(&self) -> (r: Option<&str>)
        ensures
            opt_str_view(r) == self.spec_name(),
    {
        match self {
            ChatMessage::Message(m) => match &m.name {
                Some(c) => Some(c.as_str()),
                None => None,
            },
            ChatMessage::ToolCalls(m) => match &m.name {
                Some(c) => Some(c.as_str()),
                None => None,
            },
            ChatMessage::ToolResult(_) => None,
        }
    }

    /// Returns the tool calls carried by an assistant tool-call message.
    pub fn tool_calls(&self) -> (r: Option<&[ChatToolCall]>)
        ensures
            match r {
                Some(s) => self.spec_tool_calls() == Some(s@),
                None => self.spec_tool_calls() is None,
            },
    {
        match self {
            ChatMessage::ToolCalls(m) => Some(m.tool_calls.as_slice()),
            _ => None,
        }
    }

    /// Returns the tool-call identifier for a tool result message.
    pub fn tool_call_id(&self) -> (r: Option<&str>)
        ensures
            opt_str_view(r) == self.spec_tool_call_id(),
    {
        match self {
            ChatMessage::ToolResult(m) => Some(m.tool_call_id.as_str()),
            _ => None,
        }
    }

    /// Returns the reasoning content carried by an assistant message, if any.
    pub fn reasoning_content(&self) -> (r: Option<&str>)
        ensures
            opt_str_view(r) == self.spec_reasoning_content(),
    {
        match self {
            ChatMessage::Message(m) => match &m.reasoning_content {
                Some(c) => Some(c.as_str()),
                None => None,
            },
            ChatMessage::ToolCalls(m) => match &m.reasoning_content {
                Some(c) => Some(c.as_str()),
                None => None,
            },
            ChatMessage::ToolResult(_) => None,
        }
    }
}

} // verus!
