//! Compaction strategies over conversation turns.
//!
//! When the composed context exceeds its token budget, stored turns are compacted:
//! evicted outright, summarized by the model, or kept with each long message
//! truncated.
use vstd::prelude::*;
use vstd::string::*;

use crate::chat::{ChatMessage, ToolCallsMessage, ToolResultMessage, TextMessage, opt_view};
use crate::compact::{COMPACT_PROMPT, estimate_messages_tokens, estimate_message_tokens, message_tokens, messages_tokens};
use crate::text::{append_str, char_count, chars_of, owned, string_from_chars, trim, trimmed};

verus! {

/// One conversation turn: its messages and their token estimate.
#[derive(Clone, Debug, PartialEq)]
pub struct Turn {
    pub id: u64,
    pub messages: Vec<ChatMessage>,
    pub estimated_tokens: usize,
}

impl Turn {
    /// Estimates the tokens of a turn's messages.
    pub fn estimate_tokens(messages: &Vec<ChatMessage>) -> (r: usize)
        requires
            messages_tokens(messages@) <= usize::MAX,
        ensures
            r == messages_tokens(messages@),
    {
        estimate_messages_tokens(messages.as_slice())
    }
}

/// Result of a compaction operation.
#[derive(Clone, Debug, PartialEq)]
pub struct CompactionResult {
    /// Summary text that replaces compacted turns (if any).
    pub summary: Option<String>,
    /// Estimated tokens in the summary.
    pub summary_tokens: usize,
    /// Number of turns that were compacted.
    pub turns_compacted: usize,
    /// Modified turns to re-insert instead of discarding (truncation).
    pub modified_turns: Option<Vec<Turn>>,
}

/// Estimated tokens of a summary text.
pub open spec fn summary_tokens(s: Seq<char>) -> int {
    (s.len() / 4 + 16) as int
}

fn summary_with_tokens(existing: Option<&str>) -> (r: (Option<String>, usize))
    ensures
        match existing {
            Some(s) => opt_view(r.0) == Some(s@) && r.1 == summary_tokens(s@),
            None => r.0 is None && r.1 == 0,
        },
{
    match existing {
        Some(s) => {
            let n = char_count(s);
            (Some(owned(s)), n / 4 + 16)
        },
        None => (None, 0),
    }
}

/// Drops all provided turns outright, keeping any existing summary.
#[derive(Clone, Copy, Debug, PartialEq, Eq)]
pub struct EvictStrategy;

impl EvictStrategy {
    /// Returns the strategy name.
    pub fn name(&self) -> (r: &'static str)
        ensures
            r@ == "evict"@,
    {
        "evict"
    }

    /// Compacts `turn_count` turns by dropping them.
    pub fn compact(&self, turn_count: usize, existing_summary: Option<&str>) -> (r: CompactionResult)
        ensures
            match existing_summary {
                Some(s) => opt_view(r.summary) == Some(s@) && r.summary_tokens == summary_tokens(s@),
                None => r.summary is None && r.summary_tokens == 0,
            },
            r.turns_compacted == turn_count,
            r.modified_turns is None,
    {
        let (summary, summary_tokens) = summary_with_tokens(existing_summary);
        CompactionResult { summary, summary_tokens, turns_compacted: turn_count, modified_turns: None }
    }
}

/// Number of leading turn estimates that fit one after another into `budget`.
pub open spec fn turns_fitting(ests: Seq<usize>, budget: int) -> nat
    decreases ests.len(),
{
    if ests.len() == 0 || ests[0] > budget {
        0
    } else {
        1 + turns_fitting(ests.drop_first(), budget - ests[0])
    }
}

/// The token estimates of a list of turns.
pub open spec fn turn_estimates(turns: Seq<Turn>) -> Seq<usize> {
    turns.map_values(|t: Turn| t.estimated_tokens)
}

/// The messages of the first `k` turns, in order.
pub open spec fn turn_messages(turns: Seq<Turn>, k: int) -> Seq<ChatMessage>
    decreases k,
{
    if k <= 0 {
        Seq::empty()
    } else {
        turn_messages(turns, k - 1) + turns[k - 1].messages@
    }
}

/// The message that carries an earlier summary into a summary request.
pub open spec fn previous_summary_text(s: Seq<char>) -> Seq<char> {
    "[Previous context summary]\n"@ + s
}

/// Summarizes old turns with the model, folding in any existing summary.
#[derive(Clone, Debug, PartialEq, Eq)]
pub struct SummarizeStrategy {
    /// Maximum tokens for the generated summary.
    pub max_summary_tokens: u32,
    /// Prompt to use when requesting summarization.
    pub prompt: String,
}

/// What a summary request is made of.
#[derive(Clone, Debug, PartialEq)]
pub struct SummaryRequest {
    /// Messages to send to the model.
    pub messages: Vec<ChatMessage>,
    /// Number of leading turns whose messages were included.
    pub turns_used: usize,
    /// The output limit of the summary request, in tokens.
    pub max_tokens: u32,
}

impl SummarizeStrategy {
    /// Creates a summarize strategy with the default prompt.
    pub fn new(max_summary_tokens: u32) -> (r: Self)
        ensures
            r.max_summary_tokens == max_summary_tokens,
            r.prompt@ == COMPACT_PROMPT@,
    {
        SummarizeStrategy { max_summary_tokens, prompt: owned(COMPACT_PROMPT) }
    }

    /// Returns the strategy name.
    pub fn name(&self) -> (r: &'static str)
        ensures
            r@ == "summarize"@,
    {
        "summarize"
    }

    /// Builds the summary request: the earlier summary (if any) as an assistant
    /// message, then the messages of as many leading turns as fit the input budget
    /// (`available` minus the summary's output allowance and the earlier summary's
    /// estimate), then the prompt as a user message; the summary may take at most
    /// `max_summary_tokens` output tokens.
    pub fn prepare(&self, turns: Vec<Turn>, existing_summary: Option<&str>, available: usize) -> (r:
        SummaryRequest)
        requires
            forall|i: int| 0 <= i < turns@.len() ==> messages_tokens(#[trigger] turns@[i].messages@)
                <= usize::MAX,
            existing_summary matches Some(s) ==> s@.len() + 28 <= usize::MAX,
        ensures
            ({
                let after_output = if available >= self.max_summary_tokens { available - self.max_summary_tokens } else { 0 };
                let budget = match existing_summary {
                    Some(s) => {
                        let t = (previous_summary_text(s@).len() / 4 + 16) as int;
                        if after_output >= t { after_output - t } else { 0 }
                    },
                    None => after_output,
                };
                let k = turns_fitting(turn_estimates(turns@), budget);
                let head: Seq<ChatMessage> = match existing_summary {
                    Some(_) => seq![r.messages@[0]],
                    None => Seq::empty(),
                };
                &&& r.turns_used == k
                &&& r.max_tokens == self.max_summary_tokens
                &&& r.messages@ == head + turn_messages(turns@, k as int) + seq![r.messages@.last()]
                &&& existing_summary matches Some(s) ==> (r.messages@[0] matches ChatMessage::Message(m)
                    && m.role@ == "assistant"@ && m.content@ == previous_summary_text(s@)
                    && m.name is None && m.reasoning_content is None)
                &&& r.messages@.last() matches ChatMessage::Message(m) && m.role@ == "user"@
                    && m.content@ == self.prompt@ && m.name is None && m.reasoning_content is None
            }),
    {
        let mut out: Vec<ChatMessage> = Vec::new();
        let max_out = self.max_summary_tokens as usize;
        let mut budget: usize = if available >= max_out { available - max_out } else { 0 };
        match existing_summary {
            Some(s) => {
                let mut text = owned("[Previous context summary]\n");
                append_str(&mut text, s);
                let msg = ChatMessage::assistant(text.as_str());
                proof {
                    reveal_strlit("[Previous context summary]\n");
                    assert(message_tokens(msg) == (previous_summary_text(s@).len() / 4 + 16) as int);
                }
                let t = estimate_message_tokens(&msg);
                budget = if budget >= t { budget - t } else { 0 };
                out.push(msg);
            },
            None => {},
        }
        let ghost head = out@;
        let ghost budget0 = budget as int;
        let ghost all = turns@;
        let total = turns.len();
        let mut rest = turns;
        let mut used: usize = 0;
        let mut done = false;
        while !done && rest.len() > 0
            invariant
                all.len() == total,
                all.len() == used + rest@.len(),
                rest@ == all.skip(used as int),
                forall|i: int| 0 <= i < all.len() ==> messages_tokens(#[trigger] all[i].messages@)
                    <= usize::MAX,
                out@ == head + turn_messages(all, used as int),
                !done ==> turns_fitting(turn_estimates(all), budget0) == used + turns_fitting(
                    turn_estimates(rest@),
                    budget as int,
                ),
                done ==> turns_fitting(turn_estimates(all), budget0) == used,
            decreases rest@.len() + (if done { 0int } else { 1int }),
        {
            proof {
                assert(turn_estimates(rest@)[0] == rest@[0].estimated_tokens);
                assert(turn_estimates(rest@).drop_first() =~= turn_estimates(rest@.drop_first()));
            }
            if rest[0].estimated_tokens > budget {
                done = true;
            } else {
                budget = budget - rest[0].estimated_tokens;
                let turn = rest.remove(0);
                let ghost before = out@;
                let mut msgs = turn.messages;
                out.append(&mut msgs);
                proof {
                    assert(all[used as int] == turn);
                    assert(turn_messages(all, used + 1) == turn_messages(all, used as int) + turn.messages@);
                    assert(out@ =~= head + turn_messages(all, used + 1));
                    assert(rest@ =~= all.skip(used + 1));
                }
                used = used + 1;
            }
        }
        proof {
            if rest@.len() == 0 {
                assert(turn_estimates(rest@).len() == 0);
            }
        }
        let ghost body = out@;
        out.push(ChatMessage::user(self.prompt.as_str()));
        proof {
            assert(out@.last() == out@[out@.len() - 1]);
            match existing_summary {
                Some(_) => {
                    assert(head.len() == 1);
                    assert(head == seq![out@[0]]);
                },
                None => {
                    assert(head.len() == 0);
                },
            }
            assert(out@ =~= head + turn_messages(all, used as int) + seq![out@.last()]);
        }
        SummaryRequest { messages: out, turns_used: used, max_tokens: self.max_summary_tokens }
    }

    /// Builds the result from the model's reply: the trimmed reply as the summary, or
    /// no summary when it is absent or blank.
    pub fn finish(&self, reply: Option<&str>, turns_used: usize) -> (r: CompactionResult)
        ensures
            r.turns_compacted == turns_used,
            r.modified_turns is None,
            match reply {
                Some(s) if trimmed(s@).len() > 0 => opt_view(r.summary) == Some(trimmed(s@))
                    && r.summary_tokens == summary_tokens(trimmed(s@)),
                _ => r.summary is None && r.summary_tokens == 0,
            },
    {
        let trimmed_reply = match reply {
            Some(s) => {
                let t = trim(s);
                if t.as_str().unicode_len() > 0 {
                    Some(t)
                } else {
                    None
                }
            },
            None => None,
        };
        match trimmed_reply {
            Some(t) => {
                let n = char_count(t.as_str());
                CompactionResult {
                    summary: Some(t),
                    summary_tokens: n / 4 + 16,
                    turns_compacted: turns_used,
                    modified_turns: None,
                }
            },
            None => CompactionResult {
                summary: None,
                summary_tokens: 0,
                turns_compacted: turns_used,
                modified_turns: None,
            },
        }
    }
}

/// `r` is `m` with its text content cut to `max_chars` characters followed by
/// `notice`, when it has more than `max_chars` characters of it; otherwise `r` is `m`.
/// Only the text is cut: every other part of the message (its kind, role, name,
/// reasoning, tool calls and call id) is kept.
pub open spec fn is_truncation(m: ChatMessage, r: ChatMessage, max_chars: int, notice: Seq<char>) -> bool {
    match m.spec_content() {
        None => r == m,
        Some(c) => if c.len() <= max_chars {
            r == m
        } else {
            let t = c.take(max_chars) + notice;
            match m {
                ChatMessage::ToolResult(tr) => r matches ChatMessage::ToolResult(o) && o.role
                    == tr.role && o.content@ == t && o.tool_call_id == tr.tool_call_id,
                ChatMessage::ToolCalls(tc) => r matches ChatMessage::ToolCalls(o) && o.role == tc.role
                    && opt_view(o.content) == Some(t) && o.name == tc.name && o.tool_calls
                    == tc.tool_calls && o.reasoning_content == tc.reasoning_content,
                ChatMessage::Message(tm) => r matches ChatMessage::Message(o) && o.role == tm.role
                    && o.content@ == t && o.name == tm.name && o.reasoning_content
                    == tm.reasoning_content,
            }
        },
    }
}

/// Estimated tokens of a message once truncated.
pub open spec fn truncated_message_tokens(m: ChatMessage, max_chars: int, notice_len: int) -> nat {
    let content = match m.spec_content() {
        Some(c) => if c.len() <= max_chars { c.len() / 4 } else { ((max_chars + notice_len) / 4) as nat },
        None => 0,
    };
    let tools = match m.spec_tool_calls() {
        Some(calls) => crate::compact::tool_calls_tokens(calls),
        None => 0,
    };
    content + tools + 16
}

/// Estimated tokens of a list of messages once truncated.
pub open spec fn truncated_messages_tokens(ms: Seq<ChatMessage>, max_chars: int, notice_len: int) -> nat
    decreases ms.len(),
{
    if ms.len() == 0 {
        0
    } else {
        truncated_messages_tokens(ms.drop_last(), max_chars, notice_len) + truncated_message_tokens(
            ms.last(),
            max_chars,
            notice_len,
        )
    }
}

proof fn lemma_truncation_tokens(m: ChatMessage, r: ChatMessage, max_chars: int, notice: Seq<char>)
    requires
        max_chars >= 0,
        is_truncation(m, r, max_chars, notice),
    ensures
        message_tokens(r) == truncated_message_tokens(m, max_chars, notice.len() as int),
{
    match m.spec_content() {
        None => {},
        Some(c) => {
            if c.len() > max_chars {
                let t = c.take(max_chars) + notice;
                assert(t.len() == max_chars + notice.len());
            }
        },
    }
}

proof fn lemma_truncated_messages_tokens(ms: Seq<ChatMessage>, rs: Seq<ChatMessage>, max_chars: int, notice: Seq<char>)
    requires
        max_chars >= 0,
        ms.len() == rs.len(),
        forall|j: int| 0 <= j < ms.len() ==> is_truncation(#[trigger] ms[j], rs[j], max_chars, notice),
    ensures
        messages_tokens(rs) == truncated_messages_tokens(ms, max_chars, notice.len() as int),
    decreases ms.len(),
{
    if ms.len() > 0 {
        let k = ms.len() - 1;
        assert(is_truncation(ms[k], rs[k], max_chars, notice));
        lemma_truncation_tokens(ms[k], rs[k], max_chars, notice);
        assert forall|j: int| 0 <= j < ms.drop_last().len() implies is_truncation(
            #[trigger] ms.drop_last()[j],
            rs.drop_last()[j],
            max_chars,
            notice,
        ) by {
            assert(ms.drop_last()[j] == ms[j]);
            assert(rs.drop_last()[j] == rs[j]);
        }
        lemma_truncated_messages_tokens(ms.drop_last(), rs.drop_last(), max_chars, notice);
    }
}

/// Truncate a message's text content to `max_chars` characters followed by `notice`;
/// only the text is cut, every other part of the message is kept. Messages without
/// text content (tool-call-only messages) pass through unchanged.
pub fn truncate_message(msg: ChatMessage, max_chars: usize, notice: &str) -> (r: ChatMessage)
    ensures
        is_truncation(msg, r, max_chars as int, notice@),
{
    let cut: Option<String> = match msg.content() {
        None => None,
        Some(c) => {
            let cs = chars_of(c);
            if cs.len() <= max_chars {
                None
            } else {
                let mut t = string_from_chars(&cs, 0, max_chars);
                append_str(&mut t, notice);
                proof {
                    assert(cs@.subrange(0, max_chars as int) =~= cs@.take(max_chars as int));
                }
                Some(t)
            }
        },
    };
    match cut {
        None => msg,
        Some(t) => match msg {
            ChatMessage::ToolResult(tr) => ChatMessage::ToolResult(ToolResultMessage { content: t, ..tr }),
            ChatMessage::ToolCalls(tc) => ChatMessage::ToolCalls(ToolCallsMessage { content: Some(t), ..tc }),
            ChatMessage::Message(tm) => ChatMessage::Message(TextMessage { content: t, ..tm }),
        },
    }
}

/// Keeps turn structure but clips each long message to a per-message token budget.
#[derive(Clone, Debug, PartialEq, Eq)]
pub struct TruncateStrategy {
    /// Maximum estimated tokens per individual message.
    pub max_message_tokens: usize,
    /// Notice appended to truncated messages.
    pub truncation_notice: String,
}

/// Characters a message may keep under a per-message token budget.
pub open spec fn max_chars_for(max_message_tokens: usize) -> int {
    if max_message_tokens >= 16 { (max_message_tokens - 16) * 4 } else { 0 }
}

impl TruncateStrategy {
    /// Creates a truncate strategy with the default notice.
    pub fn new(max_message_tokens: usize) -> (r: Self)
        ensures
            r.max_message_tokens == max_message_tokens,
            r.truncation_notice@ == "\n[truncated]"@,
    {
        TruncateStrategy { max_message_tokens, truncation_notice: owned("\n[truncated]") }
    }

    /// Returns the strategy name.
    pub fn name(&self) -> (r: &'static str)
        ensures
            r@ == "truncate"@,
    {
        "truncate"
    }

    /// Truncates every message of every turn and re-estimates each turn; the existing
    /// summary is kept.
    pub fn compact(&self, turns: Vec<Turn>, existing_summary: Option<&str>) -> (r: CompactionResult)
        requires
            max_chars_for(self.max_message_tokens) <= usize::MAX,
            forall|i: int| 0 <= i < turns@.len() ==> truncated_messages_tokens(
                #[trigger] turns@[i].messages@,
                max_chars_for(self.max_message_tokens),
                self.truncation_notice@.len() as int,
            ) <= usize::MAX,
        ensures
            match existing_summary {
                Some(s) => opt_view(r.summary) == Some(s@) && r.summary_tokens == summary_tokens(s@),
                None => r.summary is None && r.summary_tokens == 0,
            },
            r.turns_compacted == turns@.len(),
            r.modified_turns matches Some(v) && v@.len() == turns@.len() && forall|i: int|
                0 <= i < turns@.len() ==> {
                    &&& (#[trigger] v@[i]).id == turns@[i].id
                    &&& v@[i].messages@.len() == turns@[i].messages@.len()
                    &&& forall|j: int| 0 <= j < turns@[i].messages@.len() ==> is_truncation(
                        #[trigger] turns@[i].messages@[j],
                        v@[i].messages@[j],
                        max_chars_for(self.max_message_tokens),
                        self.truncation_notice@,
                    )
                    &&& v@[i].estimated_tokens == truncated_messages_tokens(
                        turns@[i].messages@,
                        max_chars_for(self.max_message_tokens),
                        self.truncation_notice@.len() as int,
                    )
                },
    {
        let (summary, summary_tokens) = summary_with_tokens(existing_summary);
        let max_chars: usize = if self.max_message_tokens >= 16 { (self.max_message_tokens - 16) * 4 } else { 0 };
        let ghost mc = max_chars as int;
        let ghost notice = self.truncation_notice@;
        let ghost all = turns@;
        let count = turns.len();
        let mut rest = turns;
        let mut out: Vec<Turn> = Vec::new();
        while rest.len() > 0
            invariant
                all.len() == count,
                out@.len() + rest@.len() == all.len(),
                rest@ == all.skip(out@.len() as int),
                mc == max_chars,
                notice == self.truncation_notice@,
                forall|i: int| 0 <= i < all.len() ==> truncated_messages_tokens(
                    #[trigger] all[i].messages@,
                    mc,
                    notice.len() as int,
                ) <= usize::MAX,
                forall|i: int| 0 <= i < out@.len() ==> {
                    &&& (#[trigger] out@[i]).id == all[i].id
                    &&& out@[i].messages@.len() == all[i].messages@.len()
                    &&& forall|j: int| 0 <= j < all[i].messages@.len() ==> is_truncation(
                        #[trigger] all[i].messages@[j],
                        out@[i].messages@[j],
                        mc,
                        notice,
                    )
                    &&& out@[i].estimated_tokens == truncated_messages_tokens(
                        all[i].messages@,
                        mc,
                        notice.len() as int,
                    )
                },
            decreases rest@.len(),
        {
            let ghost k = out@.len() as int;
            let turn = rest.remove(0);
            proof {
                assert(turn == all[k]);
                assert(rest@ =~= all.skip(k + 1));
            }
            let ghost src = turn.messages@;
            let mut msgs = turn.messages;
            let mut cut: Vec<ChatMessage> = Vec::new();
            while msgs.len() > 0
                invariant
                    cut@.len() + msgs@.len() == src.len(),
                    msgs@ == src.skip(cut@.len() as int),
                    forall|j: int| 0 <= j < cut@.len() ==> is_truncation(
                        #[trigger] src[j],
                        cut@[j],
                        max_chars as int,
                        self.truncation_notice@,
                    ),
                decreases msgs@.len(),
            {
                let ghost j = cut@.len() as int;
                let m = msgs.remove(0);
                proof {
                    assert(m == src[j]);
                    assert(msgs@ =~= src.skip(j + 1));
                }
                let t = truncate_message(m, max_chars, self.truncation_notice.as_str());
                cut.push(t);
            }
            proof {
                lemma_truncated_messages_tokens(src, cut@, mc, notice);
                assert(src == all[k].messages@);
            }
            let est = Turn::estimate_tokens(&cut);
            out.push(Turn { id: turn.id, messages: cut, estimated_tokens: est });
            proof {
                assert forall|i: int| 0 <= i < out@.len() implies {
                    &&& (#[trigger] out@[i]).id == all[i].id
                    &&& out@[i].messages@.len() == all[i].messages@.len()
                    &&& forall|j: int| 0 <= j < all[i].messages@.len() ==> is_truncation(
                        #[trigger] all[i].messages@[j],
                        out@[i].messages@[j],
                        mc,
                        notice,
                    )
                    &&& out@[i].estimated_tokens == truncated_messages_tokens(
                        all[i].messages@,
                        mc,
                        notice.len() as int,
                    )
                } by {
                    if i == k {
                        assert(out@[i].messages@ == cut@);
                    }
                }
            }
        }
        CompactionResult { summary, summary_tokens, turns_compacted: count, modified_turns: Some(out) }
    }
}

/// A compaction strategy chosen by name.
#[derive(Clone, Debug, PartialEq, Eq)]
pub enum Strategy {
    Evict(EvictStrategy),
    Summarize(SummarizeStrategy),
    Truncate(TruncateStrategy),
}

impl Strategy {
    /// Returns the strategy name.
    pub fn name(&self) -> (r: &'static str)
        ensures
            r@ == match self {
                Strategy::Evict(_) => "evict"@,
                Strategy::Summarize(_) => "summarize"@,
                Strategy::Truncate(_) => "truncate"@,
            },
    {
        match self {
            Strategy::Evict(s) => s.name(),
            Strategy::Summarize(s) => s.name(),
            Strategy::Truncate(s) => s.name(),
        }
    }
}

/// Creates the compaction strategy named by `name`: `evict`, `truncate` (2000 tokens
/// per message), or summarization with `max_summary_tokens` for any other name.
pub fn strategy_from_name(name: &str, max_summary_tokens: u32) -> (r: Strategy)
    ensures
        name@ == "evict"@ ==> r == Strategy::Evict(EvictStrategy),
        name@ == "truncate"@ ==> (r matches Strategy::Truncate(t) && t.max_message_tokens == 2000
            && t.truncation_notice@ == "\n[truncated]"@),
        name@ != "evict"@ && name@ != "truncate"@ ==> (r matches Strategy::Summarize(s)
            && s.max_summary_tokens == max_summary_tokens && s.prompt@ == COMPACT_PROMPT@),
{
    proof {
        reveal_strlit("evict");
        reveal_strlit("truncate");
        assert("evict"@.len() != "truncate"@.len());
    }
    if crate::text::str_eq(name, "evict") {
        Strategy::Evict(EvictStrategy)
    } else if crate::text::str_eq(name, "truncate") {
        Strategy::Truncate(TruncateStrategy::new(2000))
    } else {
        Strategy::Summarize(SummarizeStrategy::new(max_summary_tokens))
    }
}

/// What to write back after a compaction round.
#[derive(Clone, Debug, PartialEq)]
pub enum CompactionUpdate {
    /// Re-insert these turns in front (if any) and store this summary (if any).
    Apply { modified: Option<Vec<Turn>>, summary: Option<String> },
    /// The strategy produced nothing: restore the drained turns and report the error.
    Restore { drained: Vec<Turn>, error: String },
}

/// Decides what a compaction round writes back: when the strategy produced neither a
/// summary nor modified turns, the drained turns are restored with an error naming
/// the strategy; otherwise its modified turns and summary are applied.
pub fn resolve_compaction(drained: Vec<Turn>, result: CompactionResult, strategy_name: &str) -> (r:
    CompactionUpdate)
    ensures
        (result.summary is None && result.modified_turns is None) ==> (r matches CompactionUpdate::Restore {
            drained: d,
            error,
        } && d == drained && error@ == "compaction strategy '"@ + strategy_name@
            + "' produced no summary and no modified turns"@),
        !(result.summary is None && result.modified_turns is None) ==> (r
            == (CompactionUpdate::Apply { modified: result.modified_turns, summary: result.summary })),
{
    if result.summary.is_none() && result.modified_turns.is_none() {
        let mut error = owned("compaction strategy '");
        append_str(&mut error, strategy_name);
        append_str(&mut error, "' produced no summary and no modified turns");
        CompactionUpdate::Restore { drained, error }
    } else {
        CompactionUpdate::Apply { modified: result.modified_turns, summary: result.summary }
    }
}

/// Decides what a compaction round writes back given the strategy's outcome: a
/// failed strategy restores the drained turns with an error that says so and
/// gives the cause; a strategy that ran is resolved by [`resolve_compaction`].
pub fn resolve_compaction_attempt(
    drained: Vec<Turn>,
    attempt: Result<CompactionResult, String>,
    strategy_name: &str,
) -> (r: CompactionUpdate)
    ensures
        match attempt {
            Err(e) => r matches CompactionUpdate::Restore { drained: d, error } && d == drained
                && error@ == "compaction failed; drained turns restored: "@ + e@,
            Ok(result) => {
                &&& (result.summary is None && result.modified_turns is None) ==> (r matches CompactionUpdate::Restore {
                    drained: d,
                    error,
                } && d == drained && error@ == "compaction strategy '"@ + strategy_name@
                    + "' produced no summary and no modified turns"@)
                &&& !(result.summary is None && result.modified_turns is None) ==> (r
                    == (CompactionUpdate::Apply {
                    modified: result.modified_turns,
                    summary: result.summary,
                }))
            },
        },
{
    match attempt {
        Err(e) => {
            let mut error = owned("compaction failed; drained turns restored: ");
            append_str(&mut error, e.as_str());
            CompactionUpdate::Restore { drained, error }
        },
        Ok(result) => resolve_compaction(drained, result, strategy_name),
    }
}

} // verus!
