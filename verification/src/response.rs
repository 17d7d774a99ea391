//! Normalized chat-completion responses and streaming chunks.
use vstd::prelude::*;

use crate::chat::{ChatCompletionChunkToolCall, ChatCompletionLogprobs, ChatToolCall, FinishReason, Usage, opt_str_view, opt_view};

verus! {

/// Assistant role values currently normalized by the client layer.
#[derive(Clone, Copy, Debug, PartialEq, Eq)]
pub enum AssistantRole {
    Assistant,
}

/// Assistant message returned in a non-streaming response.
#[derive(Clone, Debug, PartialEq)]
pub struct AssistantMessage {
    pub content: Option<String>,
    pub reasoning_content: Option<String>,
    pub tool_calls: Option<Vec<ChatToolCall>>,
    pub role: AssistantRole,
}

/// One choice inside a non-streaming response.
#[derive(Clone, Debug, PartialEq)]
pub struct ChatChoice {
    pub finish_reason: Option<FinishReason>,
    pub index: u32,
    pub message: AssistantMessage,
    pub logprobs: Option<ChatCompletionLogprobs>,
}

/// Normalized non-streaming chat completion response.
#[derive(Clone, Debug, PartialEq)]
pub struct ChatCompletionResponse {
    pub id: String,
    pub choices: Vec<ChatChoice>,
    pub created: i64,
    pub model: String,
    pub system_fingerprint: Option<String>,
    pub object: String,
    pub usage: Option<Usage>,
}

/// Incremental assistant delta payload.
#[derive(Clone, Debug, PartialEq)]
pub struct DeltaMessage {
    pub content: Option<String>,
    pub reasoning_content: Option<String>,
    pub role: Option<AssistantRole>,
    pub tool_calls: Option<Vec<ChatCompletionChunkToolCall>>,
}

/// One choice inside a streaming chunk.
#[derive(Clone, Debug, PartialEq)]
pub struct ChatCompletionChunkChoice {
    pub delta: DeltaMessage,
    pub finish_reason: Option<FinishReason>,
    pub index: u32,
    pub logprobs: Option<ChatCompletionLogprobs>,
}

/// Normalized streaming chunk.
#[derive(Clone, Debug, PartialEq)]
pub struct ChatCompletionChunk {
    pub id: String,
    pub choices: Vec<ChatCompletionChunkChoice>,
    pub created: i64,
    pub model: String,
    pub system_fingerprint: Option<String>,
    pub object: String,
    pub usage: Option<Usage>,
}

impl ChatCompletionResponse {
    /// The first assistant message, when the response has a choice.
    pub open spec fn spec_first_message(self) -> Option<AssistantMessage> {
        if self.choices@.len() > 0 {
            Some(self.choices@[0].message)
        } else {
            None
        }
    }

    /// Returns the first response choice when present.
    pub fn first_choice(&self) -> (r: Option<&ChatChoice>)
        ensures
            self.choices@.len() > 0 ==> r == Some(&self.choices@[0]),
            self.choices@.len() == 0 ==> r is None,
    {
        if self.choices.len() > 0 {
            Some(&self.choices[0])
        } else {
            None
        }
    }

    /// Returns the first assistant message when present.
    pub fn first_message(&self) -> (r: Option<&AssistantMessage>)
        ensures
            match r {
                Some(m) => self.spec_first_message() == Some(*m),
                None => self.spec_first_message() is None,
            },
    {
        match self.first_choice() {
            Some(c) => Some(&c.message),
            None => None,
        }
    }

    /// Returns the first choice's text content when present.
    pub fn first_choice_content(&self) -> (r: Option<&str>)
        ensures
            opt_str_view(r) == match self.spec_first_message() {
                Some(m) => opt_view(m.content),
                None => None,
            },
    {
        match self.first_message() {
            Some(m) => match &m.content {
                Some(c) => Some(c.as_str()),
                None => None,
            },
            None => None,
        }
    }

    /// Returns the first choice's reasoning content when present.
    pub fn first_choice_reasoning_content(&self) -> (r: Option<&str>)
        ensures
            opt_str_view(r) == match self.spec_first_message() {
                Some(m) => opt_view(m.reasoning_content),
                None => None,
            },
    {
        match self.first_message() {
            Some(m) => match &m.reasoning_content {
                Some(c) => Some(c.as_str()),
                None => None,
            },
            None => None,
        }
    }

    /// Returns the first choice's tool calls when present.
    pub fn first_choice_tool_calls(&self) -> (r: Option<&[ChatToolCall]>)
        ensures
            match r {
                Some(s) => self.spec_first_message() matches Some(m) && m.tool_calls matches Some(
                    v,
                ) && v@ == s@,
                None => !(self.spec_first_message() matches Some(m) && m.tool_calls is Some),
            },
    {
        match self.first_message() {
            Some(m) => match &m.tool_calls {
                Some(v) => Some(v.as_slice()),
                None => None,
            },
            None => None,
        }
    }
}

} // verus!
