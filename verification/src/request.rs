//! The normalized chat-completion request and its builder helpers.
use vstd::prelude::*;
use vstd::string::*;

use crate::chat::{ChatMessage, ResponseFormat, StopSequence, StreamOptions, ToolChoice, ToolDefinition};
use crate::text::{owned, str_eq};

verus! {

/// Normalized chat completion request understood by LLM client backends.
///
/// `frequency_penalty`, `presence_penalty`, `temperature` and `top_p` hold the bit
/// patterns of the `f32` values sent on the wire (`f32::to_bits`).
#[derive(Clone, Debug, PartialEq)]
pub struct ChatCompletionRequest {
    pub model: String,
    pub messages: Vec<ChatMessage>,
    pub frequency_penalty: Option<u32>,
    pub max_tokens: Option<u32>,
    pub presence_penalty: Option<u32>,
    pub response_format: Option<ResponseFormat>,
    pub stop: Option<StopSequence>,
    pub stream: Option<bool>,
    pub stream_options: Option<StreamOptions>,
    pub temperature: Option<u32>,
    pub top_p: Option<u32>,
    pub tools: Option<Vec<ToolDefinition>>,
    pub tool_choice: Option<ToolChoice>,
    pub logprobs: Option<bool>,
    pub top_logprobs: Option<u8>,
}

/// Index of the first message at or after `i` whose role is not `system`
/// (or the length when there is none).
pub open spec fn system_block_end_from(msgs: Seq<ChatMessage>, i: int) -> int
    decreases msgs.len() - i,
{
    if i < 0 || i >= msgs.len() || msgs[i].spec_role() != "system"@ {
        i
    } else {
        system_block_end_from(msgs, i + 1)
    }
}

/// Length of the leading block of `system` messages.
pub open spec fn system_block_len(msgs: Seq<ChatMessage>) -> int {
    system_block_end_from(msgs, 0)
}

/// `system_block_end_from` stays within `[i, len]`, and every message it skips is a
/// system message.
pub proof fn lemma_system_block_end_bounds(msgs: Seq<ChatMessage>, i: int)
    requires
        0 <= i <= msgs.len(),
    ensures
        i <= system_block_end_from(msgs, i) <= msgs.len(),
        forall|j: int| i <= j < system_block_end_from(msgs, i) ==> #[trigger] msgs[j].spec_role() == "system"@,
        system_block_end_from(msgs, i) < msgs.len() ==> msgs[system_block_end_from(msgs, i)].spec_role() != "system"@,
    decreases msgs.len() - i,
{
    if i < msgs.len() && msgs[i].spec_role() == "system"@ {
        lemma_system_block_end_bounds(msgs, i + 1);
    }
}

/// A block end is determined by the two facts of `lemma_system_block_end_bounds`.
pub proof fn lemma_system_block_end_unique(msgs: Seq<ChatMessage>, i: int, k: int)
    requires
        0 <= i <= k <= msgs.len(),
        forall|j: int| i <= j < k ==> #[trigger] msgs[j].spec_role() == "system"@,
        k < msgs.len() ==> msgs[k].spec_role() != "system"@,
    ensures
        system_block_end_from(msgs, i) == k,
    decreases k - i,
{
    if i < k {
        assert(msgs[i].spec_role() == "system"@);
        lemma_system_block_end_unique(msgs, i + 1, k);
    }
}

/// The messages after a system message is inserted at the end of the leading
/// system block.
pub open spec fn with_system_inserted(msgs: Seq<ChatMessage>, m: ChatMessage) -> Seq<ChatMessage> {
    msgs.insert(system_block_len(msgs), m)
}

impl ChatCompletionRequest {
    /// Creates a minimal request with provider-neutral defaults.
    pub fn new(model: &str, messages: Vec<ChatMessage>) -> (r: Self)
        ensures
            r.model@ == model@,
            r.messages == messages,
            r.frequency_penalty is None,
            r.max_tokens is None,
            r.presence_penalty is None,
            r.response_format is None,
            r.stop is None,
            r.stream is None,
            r.stream_options is None,
            r.temperature is None,
            r.top_p is None,
            r.tools is None,
            r.tool_choice is None,
            r.logprobs is None,
            r.top_logprobs is None,
    {
        ChatCompletionRequest {
            model: owned(model),
            messages,
            frequency_penalty: None,
            max_tokens: None,
            presence_penalty: None,
            response_format: None,
            stop: None,
            stream: None,
            stream_options: None,
            temperature: None,
            top_p: None,
            tools: None,
            tool_choice: None,
            logprobs: None,
            top_logprobs: None,
        }
    }

    /// Sets the configured tools for the request.
    pub fn with_tools(self, tools: Vec<ToolDefinition>) -> (r: Self)
        ensures
            r == (ChatCompletionRequest { tools: Some(tools), ..self }),
    {
        ChatCompletionRequest { tools: Some(tools), ..self }
    }

    /// Sets the tool-choice behavior for the request.
    pub fn with_tool_choice(self, tool_choice: ToolChoice) -> (r: Self)
        ensures
            r == (ChatCompletionRequest { tool_choice: Some(tool_choice), ..self }),
    {
        ChatCompletionRequest { tool_choice: Some(tool_choice), ..self }
    }

    /// Sets the sampling temperature (as `f32` bits) for the request.
    pub fn with_temperature(self, temperature: u32) -> (r: Self)
        ensures
            r == (ChatCompletionRequest { temperature: Some(temperature), ..self }),
    {
        ChatCompletionRequest { temperature: Some(temperature), ..self }
    }

    /// Sets the maximum generated-token count for the request.
    pub fn with_max_tokens(self, max_tokens: u32) -> (r: Self)
        ensures
            r == (ChatCompletionRequest { max_tokens: Some(max_tokens), ..self }),
    {
        ChatCompletionRequest { max_tokens: Some(max_tokens), ..self }
    }

    /// Sets the response-format hint for the request.
    pub fn with_response_format(self, response_format: ResponseFormat) -> (r: Self)
        ensures
            r == (ChatCompletionRequest { response_format: Some(response_format), ..self }),
    {
        ChatCompletionRequest { response_format: Some(response_format), ..self }
    }

    /// Inserts a system message at the end of the leading system-message block.
    ///
    /// Repeated calls preserve the order they are invoked while keeping system
    /// messages grouped at the front of the request.
    pub fn with_system_prompt(self, content: &str) -> (r: Self)
        ensures
            r.messages@ == with_system_inserted(self.messages@, r.messages@[system_block_len(self.messages@)]),
            r.messages@[system_block_len(self.messages@)] matches ChatMessage::Message(m)
                && m.role@ == "system"@ && m.content@ == content@ && m.name is None
                && m.reasoning_content is None,
            r == (ChatCompletionRequest { messages: r.messages, ..self }),
    {
        self.prepend_system_message(content)
    }

    /// Inserts a system message at the end of the leading system-message block.
    pub fn prepend_system_message(self, content: &str) -> (r: Self)
        ensures
            r.messages@ == with_system_inserted(self.messages@, r.messages@[system_block_len(self.messages@)]),
            r.messages@[system_block_len(self.messages@)] matches ChatMessage::Message(m)
                && m.role@ == "system"@ && m.content@ == content@ && m.name is None
                && m.reasoning_content is None,
            r == (ChatCompletionRequest { messages: r.messages, ..self }),
    {
        let mut req = self;
        let ghost msgs = req.messages@;
        let mut i: usize = 0;
        while i < req.messages.len() && str_eq(req.messages[i].role(), "system")
            invariant
                req.messages@ == msgs,
                0 <= i <= msgs.len(),
                system_block_end_from(msgs, 0) == system_block_end_from(msgs, i as int),
            decreases msgs.len() - i,
        {
            i = i + 1;
        }
        proof {
            assert(system_block_end_from(msgs, i as int) == i);
        }
        let sys = ChatMessage::system(content);
        req.messages.insert(i, sys);
        proof {
            assert(req.messages@[i as int] == sys);
        }
        req
    }

    /// Prepends a message to the request.
    pub fn prepend_message(self, message: ChatMessage) -> (r: Self)
        ensures
            r.messages@ == self.messages@.insert(0, message),
            r == (ChatCompletionRequest { messages: r.messages, ..self }),
    {
        let mut req = self;
        req.messages.insert(0, message);
        req
    }
}

/// Law: two successive `with_system_prompt` calls leave both prompts, in call order,
/// directly after the system messages the request already led with, followed by the
/// rest of its earlier messages.
pub proof fn law_system_prompts_keep_insertion_order(msgs: Seq<ChatMessage>, a: ChatMessage, b: ChatMessage)
    requires
        a.spec_role() == "system"@,
        b.spec_role() == "system"@,
    ensures
        ({
            let k = system_block_len(msgs);
            with_system_inserted(with_system_inserted(msgs, a), b)
                == msgs.take(k) + seq![a, b] + msgs.skip(k)
        }),
{
    let k = system_block_len(msgs);
    lemma_system_block_end_bounds(msgs, 0);
    let m1 = msgs.insert(k, a);
    assert forall|j: int| 0 <= j < k + 1 implies #[trigger] m1[j].spec_role() == "system"@ by {
        if j < k {
            assert(m1[j] == msgs[j]);
        }
    }
    if k + 1 < m1.len() {
        assert(m1[k + 1] == msgs[k]);
    }
    lemma_system_block_end_unique(m1, 0, k + 1);
    assert(with_system_inserted(msgs, a) == m1);
    assert(system_block_len(m1) == k + 1);
    let m2 = m1.insert(k + 1, b);
    assert(m2 =~= msgs.take(k) + seq![a, b] + msgs.skip(k));
}

} // verus!
