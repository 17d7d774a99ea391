//! Token estimates for chat messages and pre-turn context compaction.
//!
//! A message is estimated at a quarter token per character of its text content,
//! plus 24 tokens and a quarter token per argument character for each tool call,
//! plus 16 tokens of overhead. Compaction keeps the most recent messages within a
//! token budget verbatim and replaces everything before them by one synthetic
//! assistant message carrying a model-written summary.
use vstd::prelude::*;
use vstd::string::*;

use crate::chat::{ChatMessage, ChatToolCall};
use crate::client::ChatClient;
use crate::request::ChatCompletionRequest;
use crate::text::{append_str, char_count, owned, trim, trimmed};

verus! {

/// Estimated tokens of a list of tool calls.
pub open spec fn tool_calls_tokens(calls: Seq<ChatToolCall>) -> nat
    decreases calls.len(),
{
    if calls.len() == 0 {
        0
    } else {
        tool_calls_tokens(calls.drop_last()) + calls.last().function.arguments@.len() / 4 + 24
    }
}

/// Estimated tokens of one message.
pub open spec fn message_tokens(m: ChatMessage) -> nat {
    let content = match m.spec_content() {
        Some(c) => c.len() / 4,
        None => 0,
    };
    let tools = match m.spec_tool_calls() {
        Some(calls) => tool_calls_tokens(calls),
        None => 0,
    };
    content + tools + 16
}

/// Estimated tokens of a list of messages.
pub open spec fn messages_tokens(ms: Seq<ChatMessage>) -> nat
    decreases ms.len(),
{
    if ms.len() == 0 {
        0
    } else {
        messages_tokens(ms.drop_last()) + message_tokens(ms.last())
    }
}

/// The estimate of a list grows with each message appended at the front.
pub proof fn lemma_messages_tokens_prepend(m: ChatMessage, ms: Seq<ChatMessage>)
    ensures
        messages_tokens(seq![m] + ms) == message_tokens(m) + messages_tokens(ms),
    decreases ms.len(),
{
    if ms.len() > 0 {
        lemma_messages_tokens_prepend(m, ms.drop_last());
        assert((seq![m] + ms).drop_last() =~= seq![m] + ms.drop_last());
    } else {
        assert((seq![m] + ms).drop_last() =~= ms);
    }
}

/// The estimate of a suffix `ms[i..]` in terms of `ms[i+1..]`.
pub proof fn lemma_suffix_tokens_step(ms: Seq<ChatMessage>, i: int)
    requires
        0 <= i < ms.len(),
    ensures
        messages_tokens(ms.skip(i)) == message_tokens(ms[i]) + messages_tokens(ms.skip(i + 1)),
{
    assert(ms.skip(i) =~= seq![ms[i]] + ms.skip(i + 1));
    lemma_messages_tokens_prepend(ms[i], ms.skip(i + 1));
}

/// Suffix estimates shrink as the suffix starts later.
pub proof fn lemma_suffix_tokens_monotone(ms: Seq<ChatMessage>, i: int, j: int)
    requires
        0 <= i <= j <= ms.len(),
    ensures
        messages_tokens(ms.skip(j)) <= messages_tokens(ms.skip(i)),
    decreases j - i,
{
    if i < j {
        lemma_suffix_tokens_step(ms, i);
        lemma_suffix_tokens_monotone(ms, i + 1, j);
    }
}

fn tool_calls_tokens_exec(calls: &[ChatToolCall]) -> (r: usize)
    requires
        tool_calls_tokens(calls@) <= usize::MAX,
    ensures
        r == tool_calls_tokens(calls@),
{
    let mut total: usize = 0;
    let mut i: usize = 0;
    while i < calls.len()
        invariant
            0 <= i <= calls@.len(),
            tool_calls_tokens(calls@) <= usize::MAX,
            total == tool_calls_tokens(calls@.take(i as int)),
        decreases calls@.len() - i,
    {
        proof {
            assert(calls@.take(i + 1).drop_last() =~= calls@.take(i as int));
            lemma_tool_calls_tokens_prefix(calls@, i + 1);
        }
        let n = char_count(calls[i].function.arguments.as_str());
        total = total + n / 4 + 24;
        i = i + 1;
    }
    proof {
        assert(calls@.take(i as int) =~= calls@);
    }
    total
}

/// Law: the estimate of a list of tool calls is the sum of the estimates of its
/// parts.
pub proof fn law_tool_calls_tokens_additive(a: Seq<ChatToolCall>, b: Seq<ChatToolCall>)
    ensures
        tool_calls_tokens(a + b) == tool_calls_tokens(a) + tool_calls_tokens(b),
    decreases b.len(),
{
    if b.len() == 0 {
        assert(a + b =~= a);
    } else {
        law_tool_calls_tokens_additive(a, b.drop_last());
        assert((a + b).drop_last() =~= a + b.drop_last());
        assert((a + b).last() == b.last());
    }
}

/// Law: one tool call counts a quarter token per character of its arguments plus
/// 24.
pub proof fn law_one_tool_call_tokens(c: ChatToolCall)
    ensures
        tool_calls_tokens(seq![c]) == c.function.arguments@.len() / 4 + 24,
{
    assert(seq![c].drop_last() =~= Seq::<ChatToolCall>::empty());
    assert(tool_calls_tokens(Seq::<ChatToolCall>::empty()) == 0);
    assert(seq![c].last() == c);
}

/// Law: replacing one tool call by another changes the estimate by exactly the
/// difference of their arguments' quarter lengths, so longer arguments never
/// count less.
pub proof fn law_tool_call_arguments_count(calls: Seq<ChatToolCall>, i: int, c: ChatToolCall)
    requires
        0 <= i < calls.len(),
    ensures
        tool_calls_tokens(calls.update(i, c)) + calls[i].function.arguments@.len() / 4
            == tool_calls_tokens(calls) + c.function.arguments@.len() / 4,
{
    let pre = calls.take(i);
    let post = calls.skip(i + 1);
    assert(calls =~= pre + seq![calls[i]] + post);
    assert(calls.update(i, c) =~= pre + seq![c] + post);
    law_tool_calls_tokens_additive(pre + seq![calls[i]], post);
    law_tool_calls_tokens_additive(pre, seq![calls[i]]);
    law_tool_calls_tokens_additive(pre + seq![c], post);
    law_tool_calls_tokens_additive(pre, seq![c]);
    law_one_tool_call_tokens(calls[i]);
    law_one_tool_call_tokens(c);
}

/// Law: a message's estimate counts each of its tool calls: at least the fixed
/// message overhead, plus a quarter token per character of the call's arguments
/// and 24 for the call.
pub proof fn law_message_estimate_counts_tool_calls(m: ChatMessage, i: int)
    requires
        m.spec_tool_calls() matches Some(calls) && 0 <= i < calls.len(),
    ensures
        message_tokens(m) >= m.spec_tool_calls()->Some_0[i].function.arguments@.len() / 4 + 24 + 16,
{
    let calls = m.spec_tool_calls()->Some_0;
    let pre = calls.take(i);
    let rest = calls.skip(i);
    assert(calls =~= pre + rest);
    assert(rest =~= seq![calls[i]] + calls.skip(i + 1));
    law_tool_calls_tokens_additive(pre, rest);
    law_tool_calls_tokens_additive(seq![calls[i]], calls.skip(i + 1));
    law_one_tool_call_tokens(calls[i]);
}

/// Law: a message's estimate counts its text: at least a quarter token per
/// character of its content, plus the fixed message overhead; a message without
/// tool calls counts exactly that.
pub proof fn law_message_estimate_counts_content(m: ChatMessage)
    ensures
        m.spec_content() matches Some(c) ==> message_tokens(m) >= c.len() / 4 + 16,
        m.spec_tool_calls() is None ==> message_tokens(m) == match m.spec_content() {
            Some(c) => c.len() / 4 + 16,
            None => 16,
        },
{
}

proof fn lemma_tool_calls_tokens_prefix(calls: Seq<ChatToolCall>, k: int)
    requires
        0 <= k <= calls.len(),
    ensures
        tool_calls_tokens(calls.take(k)) <= tool_calls_tokens(calls),
    decreases calls.len() - k,
{
    if k < calls.len() {
        lemma_tool_calls_tokens_prefix(calls, k + 1);
        assert(calls.take(k + 1).drop_last() =~= calls.take(k));
    } else {
        assert(calls.take(k) =~= calls);
    }
}

/// Estimates the tokens of one message.
pub fn estimate_message_tokens(message: &ChatMessage) -> (r: usize)
    requires
        message_tokens(*message) <= usize::MAX,
    ensures
        r == message_tokens(*message),
{
    let content_tokens = match message.content() {
        Some(c) => char_count(c) / 4,
        None => 0,
    };
    let tool_tokens = match message.tool_calls() {
        Some(calls) => tool_calls_tokens_exec(calls),
        None => 0,
    };
    content_tokens + tool_tokens + 16
}

/// Estimates the tokens of a list of messages.
pub fn estimate_messages_tokens(messages: &[ChatMessage]) -> (r: usize)
    requires
        messages_tokens(messages@) <= usize::MAX,
    ensures
        r == messages_tokens(messages@),
{
    let mut total: usize = 0;
    let mut i: usize = 0;
    while i < messages.len()
        invariant
            0 <= i <= messages@.len(),
            messages_tokens(messages@) <= usize::MAX,
            total == messages_tokens(messages@.take(i as int)),
        decreases messages@.len() - i,
    {
        proof {
            assert(messages@.take(i + 1).drop_last() =~= messages@.take(i as int));
            lemma_messages_tokens_prefix(messages@, i + 1);
        }
        let t = estimate_message_tokens(&messages[i]);
        total = total + t;
        i = i + 1;
    }
    proof {
        assert(messages@.take(i as int) =~= messages@);
    }
    total
}

proof fn lemma_messages_tokens_prefix(ms: Seq<ChatMessage>, k: int)
    requires
        0 <= k <= ms.len(),
    ensures
        messages_tokens(ms.take(k)) <= messages_tokens(ms),
        k > 0 ==> message_tokens(ms[k - 1]) <= messages_tokens(ms),
    decreases ms.len() - k,
{
    if k < ms.len() {
        lemma_messages_tokens_prefix(ms, k + 1);
        assert(ms.take(k + 1).drop_last() =~= ms.take(k));
        assert(ms.take(k + 1).last() == ms[k]);
    } else {
        if k > 0 {
            assert(ms.take(k) =~= ms);
        }
    }
    if k > 0 {
        assert(ms.take(k).drop_last() =~= ms.take(k - 1));
        assert(ms.take(k).last() == ms[k - 1]);
    }
}

/// `r` is where `ms` splits for a recent-message budget of `keep` tokens: the
/// latest index `k` with `0 < k < len` whose suffix exceeds the budget, or `None`
/// when there is none.
pub open spec fn is_split_of(ms: Seq<ChatMessage>, keep: int, r: Option<usize>) -> bool {
    match r {
        Some(k) => {
            &&& 0 < k < ms.len()
            &&& messages_tokens(ms.skip(k as int)) > keep
            &&& messages_tokens(ms.skip(k + 1)) <= keep
        },
        None => ms.len() <= 1 || messages_tokens(ms.skip(1)) <= keep,
    }
}

/// At most one answer meets [`is_split_of`].
pub proof fn law_split_is_unique(ms: Seq<ChatMessage>, keep: int, r1: Option<usize>, r2: Option<usize>)
    requires
        is_split_of(ms, keep, r1),
        is_split_of(ms, keep, r2),
    ensures
        r1 == r2,
{
    match (r1, r2) {
        (Some(a), Some(b)) => {
            if a < b {
                lemma_suffix_tokens_monotone(ms, a + 1, b as int);
            } else if b < a {
                lemma_suffix_tokens_monotone(ms, b + 1, a as int);
            }
        },
        (Some(a), None) => {
            lemma_suffix_tokens_monotone(ms, 1, a as int);
        },
        (None, Some(b)) => {
            lemma_suffix_tokens_monotone(ms, 1, b as int);
        },
        (None, None) => {},
    }
}

/// Index from which the recent messages are kept: the latest index `k` with
/// `0 < k < len` whose suffix `ms[k..]` exceeds the budget, if there is one.
///
/// The suffix from `k` exceeds `keep_recent_tokens` while the suffix from `k + 1`
/// does not; there is no such index exactly when the list has fewer than two
/// messages or everything after the first message fits the budget.
pub fn find_split_index(messages: &[ChatMessage], keep_recent_tokens: usize) -> (r: Option<usize>)
    requires
        messages_tokens(messages@) <= usize::MAX,
    ensures
        is_split_of(messages@, keep_recent_tokens as int, r),
{
    let n = messages.len();
    let mut kept: usize = 0;
    let mut index: usize = n;
    proof {
        assert(messages@.skip(n as int) =~= Seq::<ChatMessage>::empty());
    }
    while index > 0
        invariant
            n == messages@.len(),
            0 <= index <= n,
            messages_tokens(messages@) <= usize::MAX,
            kept == messages_tokens(messages@.skip(index as int)),
            kept <= keep_recent_tokens,
        decreases index,
    {
        let i = index - 1;
        proof {
            lemma_suffix_tokens_step(messages@, i as int);
            lemma_suffix_tokens_monotone(messages@, 0, i as int);
            assert(messages@.skip(0) =~= messages@);
        }
        let t = estimate_message_tokens(&messages[i]);
        kept = kept + t;
        if kept > keep_recent_tokens {
            if i > 0 && i < n {
                return Some(i);
            } else {
                proof {
                    if n > 1 {
                        lemma_suffix_tokens_monotone(messages@, 0, 1);
                    }
                }
                return None;
            }
        }
        index = i;
    }
    proof {
        if n > 1 {
            lemma_suffix_tokens_monotone(messages@, 0, 1);
        }
    }
    None
}

/// Marker that opens a synthetic summary message.
pub const COMPACTION_PREFIX: &'static str = "[COMPRESSED CONTEXT SUMMARY]";
/// Marker that closes a synthetic summary message.
pub const SUMMARY_SUFFIX: &'static str = "[/COMPRESSED CONTEXT SUMMARY]";
/// Prompt asking the model for a summary of the conversation so far.
pub const COMPACT_PROMPT: &'static str = "Summarize the key facts from our conversation so far: user goals, decisions made, important outcomes, and the current state of work. Be concise.";

/// Token thresholds that drive compaction.
#[derive(Clone, Debug, PartialEq, Eq)]
pub struct CompactionConfig {
    pub trigger_tokens: usize,
    pub keep_recent_tokens: usize,
    pub summary_max_tokens: u32,
}

/// Pre-turn context compactor.
///
/// A compaction round is: [`ContextCompactor::plan`] decides whether and where to
/// split; the caller sends [`ContextCompactor::summary_request`] (the history and
/// the prompt, with at most `summary_max_tokens` output tokens) to the model; then
/// [`ContextCompactor::apply_summary`] builds the compacted history from the reply.
#[derive(Clone, Debug, PartialEq, Eq)]
pub struct ContextCompactor {
    config: CompactionConfig,
}

/// Why a compaction round could not complete.
#[derive(Clone, Debug, PartialEq, Eq)]
pub enum CompactionError {
    /// The model's summary was absent or blank.
    EmptySummary,
}

/// The synthetic summary message text for a summary.
pub open spec fn summary_text(summary: Seq<char>) -> Seq<char> {
    "[COMPRESSED CONTEXT SUMMARY]"@ + "\n"@ + summary + "\n"@ + "[/COMPRESSED CONTEXT SUMMARY]"@
}

impl ContextCompactor {
    /// The configured thresholds.
    pub closed spec fn spec_config(self) -> CompactionConfig {
        self.config
    }

    /// Creates a compactor with the given thresholds.
    pub fn new(config: CompactionConfig) -> (r: Self)
        ensures
            r.spec_config() == config,
    {
        ContextCompactor { config }
    }

    /// Returns the configured thresholds.
    pub fn config(&self) -> (r: &CompactionConfig)
        ensures
            *r == self.spec_config(),
    {
        &self.config
    }

    /// Decides whether to compact: `Some(split)` when the estimate reaches the trigger
    /// and [`find_split_index`] finds a split, `None` otherwise.
    pub fn plan(&self, messages: &[ChatMessage]) -> (r: Option<usize>)
        requires
            messages_tokens(messages@) <= usize::MAX,
        ensures
            messages_tokens(messages@) < self.spec_config().trigger_tokens ==> r is None,
            messages_tokens(messages@) >= self.spec_config().trigger_tokens ==> is_split_of(
                messages@,
                self.spec_config().keep_recent_tokens as int,
                r,
            ),
    {
        if estimate_messages_tokens(messages) < self.config.trigger_tokens {
            return None;
        }
        find_split_index(messages, self.config.keep_recent_tokens)
    }

    /// The messages of the summary request: the history followed by the compaction
    /// prompt as a user message.
    pub fn summary_request_messages(&self, messages: Vec<ChatMessage>) -> (r: Vec<ChatMessage>)
        ensures
            r@.len() == messages@.len() + 1,
            r@.take(messages@.len() as int) == messages@,
            r@.last() matches ChatMessage::Message(m) && m.role@ == "user"@ && m.content@
                == COMPACT_PROMPT@ && m.name is None && m.reasoning_content is None,
    {
        let mut r = messages;
        r.push(ChatMessage::user(COMPACT_PROMPT));
        proof {
            assert(r@.take(messages@.len() as int) =~= messages@);
        }
        r
    }

    /// The summary request: `client`'s request for [`Self::summary_request_messages`]
    /// of the history, limited to `summary_max_tokens` output tokens.
    pub fn summary_request<B>(&self, client: &ChatClient<B>, messages: Vec<ChatMessage>) -> (r:
        ChatCompletionRequest)
        ensures
            r.max_tokens == Some(self.spec_config().summary_max_tokens),
            r.model@ == client.spec_model(),
            client.spec_system_prompt() is None ==> {
                &&& r.messages@.len() == messages@.len() + 1
                &&& r.messages@.take(messages@.len() as int) == messages@
                &&& r.messages@.last() matches ChatMessage::Message(m) && m.role@ == "user"@
                    && m.content@ == COMPACT_PROMPT@ && m.name is None && m.reasoning_content is None
            },
    {
        let msgs = self.summary_request_messages(messages);
        client.create_request(msgs).with_max_tokens(self.config.summary_max_tokens)
    }

    /// Builds the compacted history from the model's reply: one assistant message
    /// holding the trimmed summary between the summary markers, followed by the
    /// messages from `split` on. A blank or absent reply is an error.
    pub fn apply_summary(&self, messages: Vec<ChatMessage>, split: usize, summary: Option<&str>) -> (r:
        Result<Vec<ChatMessage>, CompactionError>)
        requires
            split <= messages@.len(),
        ensures
            match summary {
                None => r == Err::<Vec<ChatMessage>, CompactionError>(CompactionError::EmptySummary),
                Some(s) => if trimmed(s@).len() == 0 {
                    r == Err::<Vec<ChatMessage>, CompactionError>(CompactionError::EmptySummary)
                } else {
                    &&& r matches Ok(v)
                    &&& v@.len() == messages@.len() - split + 1
                    &&& v@.skip(1) == messages@.skip(split as int)
                    &&& v@[0] matches ChatMessage::Message(m)
                    &&& m.role@ == "assistant"@
                    &&& m.content@ == summary_text(trimmed(s@))
                    &&& m.name is None
                    &&& m.reasoning_content is None
                },
            },
    {
        let text = match summary {
            None => return Err(CompactionError::EmptySummary),
            Some(s) => trim(s),
        };
        if text.as_str().unicode_len() == 0 {
            return Err(CompactionError::EmptySummary);
        }
        let mut body = owned(COMPACTION_PREFIX);
        append_str(&mut body, "\n");
        append_str(&mut body, text.as_str());
        append_str(&mut body, "\n");
        append_str(&mut body, SUMMARY_SUFFIX);
        let mut rest = messages;
        let mut tail = rest.split_off(split);
        let mut out: Vec<ChatMessage> = Vec::new();
        out.push(ChatMessage::assistant(body.as_str()));
        out.append(&mut tail);
        proof {
            assert(out@.skip(1) =~= messages@.skip(split as int));
        }
        Ok(out)
    }
}

} // verus!
