//! The coding agent's decisions: its configuration, what each model reply leads
//! to in a tool round, the events it reports, and the chat view that shows them.
use vstd::prelude::*;

use crate::chat::{opt_view, ChatMessage, ChatToolCall, FunctionCall, ToolCallsMessage};
use crate::num::{decimal, format_decimal, parse_unsigned, unsigned_value};
use crate::response::AssistantMessage;
use crate::text::{append_str, owned};

verus! {

// ---------------------------------------------------------------------------
// Configuration
// ---------------------------------------------------------------------------

/// System prompt used when none is configured.
pub const DEFAULT_SYSTEM_PROMPT: &'static str = "You are a minimal coding agent. Use shell_session_exec for shell commands. Use shell_session_create to create persistent shell sessions, shell_session_list to inspect them, shell_session_capture to inspect recent output, and shell_session_restart or shell_session_kill when session lifecycle control is necessary. Keep answers concise and prefer the least risky tool that can accomplish the task.";
/// Tool rounds per task when none is configured.
pub const DEFAULT_MAX_TOOL_ROUNDS: usize = 32;
/// Estimated context size that triggers compaction when none is configured.
pub const DEFAULT_COMPACT_TRIGGER_TOKENS: usize = 12000;
/// Recent tokens kept by compaction when none is configured.
pub const DEFAULT_COMPACT_KEEP_RECENT_TOKENS: usize = 4000;
/// Output budget of a compaction summary when none is configured.
pub const DEFAULT_COMPACT_MAX_TOKENS: u32 = 1200;

/// Command-line arguments of the agent.
#[derive(Clone, Debug, PartialEq, Eq)]
pub struct Args {
    /// The prompt to send to the agent (required unless interactive).
    pub prompt: Option<String>,
    /// Whether to prompt for the next input after each task.
    pub interactive: bool,
    /// Skills to activate, by name.
    pub skills: Vec<String>,
}

/// Why the agent's configuration could not be loaded.
#[derive(Clone, Debug, PartialEq, Eq)]
pub enum ConfigError {
    /// The named variable is not a non-negative integer in range.
    InvalidNumber { variable: String },
    /// The current directory could not be determined.
    CurrentDir,
    /// The workspace root could not be resolved to a canonical path.
    UnresolvedWorkspace { path: String },
    /// A compaction token budget is zero.
    ZeroCompactTokens,
    /// The tool-round limit is zero.
    ZeroToolRounds,
}

/// The text of a [`ConfigError`].
pub open spec fn config_error_message(e: ConfigError) -> Seq<char> {
    match e {
        ConfigError::InvalidNumber { variable } => variable@ + " must be a positive integer"@,
        ConfigError::CurrentDir => "failed to determine current directory"@,
        ConfigError::UnresolvedWorkspace { path } => "failed to resolve workspace root "@ + path@,
        ConfigError::ZeroCompactTokens => "JUST_AGENT_COMPACT_*_TOKENS must be greater than zero"@,
        ConfigError::ZeroToolRounds => "JUST_AGENT_MAX_TOOL_ROUNDS must be greater than zero"@,
    }
}

impl ConfigError {
    /// The error's text.
    pub fn message(&self) -> (r: String)
        ensures
            r@ == config_error_message(*self),
    {
        match self {
            ConfigError::InvalidNumber { variable } => {
                let mut r = owned(variable.as_str());
                append_str(&mut r, " must be a positive integer");
                r
            },
            ConfigError::CurrentDir => owned("failed to determine current directory"),
            ConfigError::UnresolvedWorkspace { path } => {
                let mut r = owned("failed to resolve workspace root ");
                append_str(&mut r, path.as_str());
                r
            },
            ConfigError::ZeroCompactTokens => owned(
                "JUST_AGENT_COMPACT_*_TOKENS must be greater than zero",
            ),
            ConfigError::ZeroToolRounds => owned("JUST_AGENT_MAX_TOOL_ROUNDS must be greater than zero"),
        }
    }
}

/// Runtime configuration of the agent.
#[derive(Clone, Debug, PartialEq, Eq)]
pub struct AgentConfig {
    pub prompt: Option<String>,
    pub system_prompt: String,
    pub max_tool_rounds: usize,
    pub workspace_root: String,
    pub compact_trigger_tokens: usize,
    pub compact_keep_recent_tokens: usize,
    pub compact_max_tokens: u32,
}

/// A setting read from an optional variable: its default when unset, its value
/// when it parses within `max`, and `None` when it is malformed.
pub open spec fn setting(value: Option<&str>, default: nat, max: nat) -> Option<nat> {
    match value {
        None => Some(default),
        Some(v) => match unsigned_value(v@) {
            Some(n) => if n <= max {
                Some(n)
            } else {
                None
            },
            None => None,
        },
    }
}

fn read_setting(value: Option<&str>, default: u64, max: u64, variable: &str) -> (r: Result<
    u64,
    ConfigError,
>)
    requires
        default <= max,
    ensures
        match setting(value, default as nat, max as nat) {
            Some(n) => r == Ok::<u64, ConfigError>(n as u64),
            None => r matches Err(ConfigError::InvalidNumber { variable: v }) && v@ == variable@,
        },
{
    match value {
        None => Ok(default),
        Some(v) => match parse_unsigned(v, max) {
            Some(n) => Ok(n),
            None => Err(ConfigError::InvalidNumber { variable: owned(variable) }),
        },
    }
}

impl AgentConfig {
    /// Builds the configuration from the CLI prompt and the values of the
    /// `JUST_AGENT_*` variables (`None` when unset), given the workspace root as
    /// resolved by the caller or the error resolving it.
    ///
    /// Errors come in this order: a malformed `JUST_AGENT_MAX_TOOL_ROUNDS`, an
    /// unknown current directory, a malformed compaction setting (trigger, keep,
    /// max, in that order), an unresolvable workspace root, a zero compaction
    /// budget, and a zero tool-round limit.
    pub fn from_values(
        prompt: Option<String>,
        system_prompt: Option<String>,
        max_tool_rounds: Option<&str>,
        workspace_root: Result<String, ConfigError>,
        compact_trigger_tokens: Option<&str>,
        compact_keep_recent_tokens: Option<&str>,
        compact_max_tokens: Option<&str>,
    ) -> (r: Result<AgentConfig, ConfigError>)
        ensures
            ({
                let rounds = setting(max_tool_rounds, DEFAULT_MAX_TOOL_ROUNDS as nat, usize::MAX as nat);
                let trigger = setting(
                    compact_trigger_tokens,
                    DEFAULT_COMPACT_TRIGGER_TOKENS as nat,
                    usize::MAX as nat,
                );
                let keep = setting(
                    compact_keep_recent_tokens,
                    DEFAULT_COMPACT_KEEP_RECENT_TOKENS as nat,
                    usize::MAX as nat,
                );
                let max = setting(compact_max_tokens, DEFAULT_COMPACT_MAX_TOKENS as nat, u32::MAX as nat);
                if rounds is None {
                    r matches Err(ConfigError::InvalidNumber { variable: v }) && v@
                        == "JUST_AGENT_MAX_TOOL_ROUNDS"@
                } else if workspace_root == Err::<String, ConfigError>(ConfigError::CurrentDir) {
                    r == Err::<AgentConfig, ConfigError>(ConfigError::CurrentDir)
                } else if trigger is None {
                    r matches Err(ConfigError::InvalidNumber { variable: v }) && v@
                        == "JUST_AGENT_COMPACT_TRIGGER_TOKENS"@
                } else if keep is None {
                    r matches Err(ConfigError::InvalidNumber { variable: v }) && v@
                        == "JUST_AGENT_COMPACT_KEEP_RECENT_TOKENS"@
                } else if max is None {
                    r matches Err(ConfigError::InvalidNumber { variable: v }) && v@
                        == "JUST_AGENT_COMPACT_MAX_TOKENS"@
                } else if workspace_root is Err {
                    r == Err::<AgentConfig, ConfigError>(workspace_root->Err_0)
                } else if trigger->0 == 0 || keep->0 == 0 || max->0 == 0 {
                    r == Err::<AgentConfig, ConfigError>(ConfigError::ZeroCompactTokens)
                } else if rounds->0 == 0 {
                    r == Err::<AgentConfig, ConfigError>(ConfigError::ZeroToolRounds)
                } else {
                    &&& r matches Ok(c)
                    &&& c.prompt == prompt
                    &&& c.system_prompt@ == match system_prompt {
                        Some(s) => s@,
                        None => DEFAULT_SYSTEM_PROMPT@,
                    }
                    &&& c.max_tool_rounds == rounds->0
                    &&& c.workspace_root == workspace_root->Ok_0
                    &&& c.compact_trigger_tokens == trigger->0
                    &&& c.compact_keep_recent_tokens == keep->0
                    &&& c.compact_max_tokens == max->0
                }
            }),
    {
        let max_tool_rounds = read_setting(
            max_tool_rounds,
            32,
            usize::MAX as u64,
            "JUST_AGENT_MAX_TOOL_ROUNDS",
        )?;
        if let Err(ConfigError::CurrentDir) = workspace_root {
            return Err(ConfigError::CurrentDir);
        }
        let compact_trigger_tokens = read_setting(
            compact_trigger_tokens,
            12000,
            usize::MAX as u64,
            "JUST_AGENT_COMPACT_TRIGGER_TOKENS",
        )?;
        let compact_keep_recent_tokens = read_setting(
            compact_keep_recent_tokens,
            4000,
            usize::MAX as u64,
            "JUST_AGENT_COMPACT_KEEP_RECENT_TOKENS",
        )?;
        let compact_max_tokens = read_setting(
            compact_max_tokens,
            1200,
            u32::MAX as u64,
            "JUST_AGENT_COMPACT_MAX_TOKENS",
        )?;
        let workspace_root = workspace_root?;
        if compact_trigger_tokens == 0 || compact_keep_recent_tokens == 0 || compact_max_tokens == 0 {
            return Err(ConfigError::ZeroCompactTokens);
        }
        if max_tool_rounds == 0 {
            return Err(ConfigError::ZeroToolRounds);
        }
        let system_prompt = match system_prompt {
            Some(s) => s,
            None => owned(DEFAULT_SYSTEM_PROMPT),
        };
        Ok(AgentConfig {
            prompt,
            system_prompt,
            max_tool_rounds: max_tool_rounds as usize,
            workspace_root,
            compact_trigger_tokens: compact_trigger_tokens as usize,
            compact_keep_recent_tokens: compact_keep_recent_tokens as usize,
            compact_max_tokens: compact_max_tokens as u32,
        })
    }
}

// ---------------------------------------------------------------------------
// Tool rounds
// ---------------------------------------------------------------------------

/// Events sent from the agent task to the user interface.
#[derive(Clone, Debug, PartialEq, Eq)]
pub enum AgentEvent {
    Reasoning(String),
    AssistantContent(String),
    ToolCall { name: String, args: String },
    ToolResult(String),
    Finished(String),
    MaxRoundsExceeded,
    Error(String),
    Status(String),
    Busy,
}

/// Outcome of running the agent round loop.
#[derive(Clone, Debug, PartialEq, Eq)]
pub enum AgentOutcome {
    Finished { content: String },
    MaxRoundsExceeded,
}

/// Why a tool round could not go on.
#[derive(Clone, Debug, PartialEq, Eq)]
pub enum RoundError {
    /// The response had no choices.
    NoChoices,
    /// The reply had neither tool calls nor content.
    EmptyReply,
}

/// The text of a [`RoundError`].
pub open spec fn round_error_message(e: RoundError) -> Seq<char> {
    match e {
        RoundError::NoChoices => "provider returned no completion choices"@,
        RoundError::EmptyReply => "assistant returned neither tool calls nor final content"@,
    }
}

impl RoundError {
    /// The error's text.
    pub fn message(&self) -> (r: String)
        ensures
            r@ == round_error_message(*self),
    {
        match self {
            RoundError::NoChoices => owned("provider returned no completion choices"),
            RoundError::EmptyReply => owned("assistant returned neither tool calls nor final content"),
        }
    }
}

/// What a model reply leads to in a tool round.
#[derive(Clone, Debug, PartialEq)]
pub enum RoundStep {
    /// The reply is the final answer.
    Finished { content: String },
    /// The reply asks for tools: the assistant message to record and the calls
    /// to run, in order.
    ToolCalls { assistant: ChatMessage, calls: Vec<ChatToolCall> },
}

/// The tool calls of a reply (none when absent).
pub open spec fn reply_calls(m: AssistantMessage) -> Seq<ChatToolCall> {
    match m.tool_calls {
        Some(v) => v@,
        None => Seq::empty(),
    }
}

fn copy_calls(calls: &Vec<ChatToolCall>) -> (r: Vec<ChatToolCall>)
    ensures
        r@ == calls@,
{
    let mut r: Vec<ChatToolCall> = Vec::new();
    let mut i: usize = 0;
    while i < calls.len()
        invariant
            0 <= i <= calls@.len(),
            r@ == calls@.take(i as int),
        decreases calls@.len() - i,
    {
        let c = &calls[i];
        let copy = ChatToolCall {
            id: c.id.clone(),
            kind: c.kind,
            function: FunctionCall { name: c.function.name.clone(), arguments: c.function.arguments.clone() },
        };
        proof {
            assert(copy == calls@[i as int]);
            assert(calls@.take(i + 1) =~= calls@.take(i as int).push(copy));
        }
        r.push(copy);
        i = i + 1;
    }
    proof {
        assert(calls@.take(calls@.len() as int) =~= calls@);
    }
    r
}

/// Decides what the first reply of a response leads to: a reply without tool
/// calls is the final answer when it has content and an error otherwise; a reply
/// with tool calls is recorded as an assistant tool-call message.
pub fn round_step(message: Option<AssistantMessage>) -> (r: Result<RoundStep, RoundError>)
    ensures
        match message {
            None => r == Err::<RoundStep, RoundError>(RoundError::NoChoices),
            Some(m) => if reply_calls(m).len() == 0 {
                match m.content {
                    Some(c) => r == Ok::<RoundStep, RoundError>(RoundStep::Finished { content: c }),
                    None => r == Err::<RoundStep, RoundError>(RoundError::EmptyReply),
                }
            } else {
                &&& r matches Ok(RoundStep::ToolCalls { assistant, calls })
                &&& calls@ == reply_calls(m)
                &&& assistant matches ChatMessage::ToolCalls(t)
                &&& t.role@ == "assistant"@
                &&& t.content == m.content
                &&& t.name is None
                &&& t.tool_calls@ == reply_calls(m)
                &&& t.reasoning_content == m.reasoning_content
            },
        },
{
    let m = match message {
        None => return Err(RoundError::NoChoices),
        Some(m) => m,
    };
    let calls = match m.tool_calls {
        Some(v) => v,
        None => Vec::new(),
    };
    if calls.len() == 0 {
        return match m.content {
            Some(c) => Ok(RoundStep::Finished { content: c }),
            None => Err(RoundError::EmptyReply),
        };
    }
    let assistant = ChatMessage::ToolCalls(
        ToolCallsMessage {
            role: owned("assistant"),
            content: m.content,
            name: None,
            tool_calls: copy_calls(&calls),
            reasoning_content: m.reasoning_content,
        },
    );
    Ok(RoundStep::ToolCalls { assistant, calls })
}

/// The events a reply produces before its tools run: its reasoning, and, when it
/// asks for tools, its content.
pub open spec fn reply_event_texts(m: AssistantMessage) -> (Option<Seq<char>>, Option<Seq<char>>) {
    (opt_view(m.reasoning_content), if reply_calls(m).len() > 0 {
        opt_view(m.content)
    } else {
        None
    })
}

/// The reasoning and assistant-content events of a reply, in order.
pub fn reply_events(message: &AssistantMessage) -> (r: Vec<AgentEvent>)
    ensures
        r@.len() == (if reply_event_texts(*message).0 is Some {
            1int
        } else {
            0int
        }) + (if reply_event_texts(*message).1 is Some {
            1int
        } else {
            0int
        }),
        reply_event_texts(*message).0 matches Some(t) ==> r@[0] matches AgentEvent::Reasoning(s) && s@
            == t,
        reply_event_texts(*message).1 matches Some(t) ==> r@.last() matches AgentEvent::AssistantContent(
            s,
        ) && s@ == t,
{
    let mut r: Vec<AgentEvent> = Vec::new();
    match &message.reasoning_content {
        Some(t) => r.push(AgentEvent::Reasoning(t.clone())),
        None => {},
    }
    let has_calls = match &message.tool_calls {
        Some(v) => v.len() > 0,
        None => false,
    };
    if has_calls {
        match &message.content {
            Some(c) => r.push(AgentEvent::AssistantContent(c.clone())),
            None => {},
        }
    }
    r
}

/// Whether a prompt of `prompt_tokens` (0 when unknown) with `output_reserve`
/// tokens for the answer exceeds `context_window`, so the context must be
/// compacted first.
pub fn needs_compaction(prompt_tokens: usize, output_reserve: usize, context_window: usize) -> (r:
    bool)
    ensures
        r == (prompt_tokens > 0 && prompt_tokens + output_reserve > context_window),
{
    if prompt_tokens == 0 {
        return false;
    }
    if output_reserve > context_window {
        return true;
    }
    prompt_tokens > context_window - output_reserve
}

/// The result recorded for a tool that did not answer in time.
pub open spec fn timeout_text(tool_name: Seq<char>, seconds: u64) -> Seq<char> {
    "tool '"@ + tool_name + "' timed out after "@ + decimal(seconds as nat) + "s"@
}

/// Builds the result recorded for a tool that did not answer in time.
pub fn tool_timeout_message(tool_name: &str, seconds: u64) -> (r: String)
    ensures
        r@ == timeout_text(tool_name@, seconds),
{
    let mut r = owned("tool '");
    append_str(&mut r, tool_name);
    append_str(&mut r, "' timed out after ");
    let d = format_decimal(seconds);
    append_str(&mut r, d.as_str());
    append_str(&mut r, "s");
    r
}

/// The error reported when the round limit is reached without an answer.
pub open spec fn max_rounds_text(max_tool_rounds: usize) -> Seq<char> {
    "agent exceeded the maximum number of tool rounds ("@ + decimal(max_tool_rounds as nat)
        + ")"@
}

/// Builds the error reported when the round limit is reached.
pub fn max_rounds_message(max_tool_rounds: usize) -> (r: String)
    ensures
        r@ == max_rounds_text(max_tool_rounds),
{
    let mut r = owned("agent exceeded the maximum number of tool rounds (");
    let d = format_decimal(max_tool_rounds as u64);
    append_str(&mut r, d.as_str());
    append_str(&mut r, ")");
    r
}

/// The line printed for an event in non-interactive mode, if it is printed.
pub open spec fn console_text(event: AgentEvent) -> Option<Seq<char>> {
    match event {
        AgentEvent::Reasoning(t) => Some("[reasoning] "@ + t@),
        AgentEvent::AssistantContent(t) => Some("[assistant] "@ + t@),
        AgentEvent::ToolCall { name, args } => Some("[tool call] "@ + name@ + "("@ + args@ + ")"@),
        AgentEvent::ToolResult(t) => Some("[tool result] "@ + t@),
        _ => None,
    }
}

/// Builds the line printed for an event in non-interactive mode.
pub fn console_line(event: &AgentEvent) -> (r: Option<String>)
    ensures
        match console_text(*event) {
            Some(t) => r matches Some(s) && s@ == t,
            None => r is None,
        },
{
    match event {
        AgentEvent::Reasoning(t) => {
            let mut r = owned("[reasoning] ");
            append_str(&mut r, t.as_str());
            Some(r)
        },
        AgentEvent::AssistantContent(t) => {
            let mut r = owned("[assistant] ");
            append_str(&mut r, t.as_str());
            Some(r)
        },
        AgentEvent::ToolCall { name, args } => {
            let mut r = owned("[tool call] ");
            append_str(&mut r, name.as_str());
            append_str(&mut r, "(");
            append_str(&mut r, args.as_str());
            append_str(&mut r, ")");
            Some(r)
        },
        AgentEvent::ToolResult(t) => {
            let mut r = owned("[tool result] ");
            append_str(&mut r, t.as_str());
            Some(r)
        },
        _ => None,
    }
}

/// The prompt of a non-interactive run, which must be given.
pub fn require_prompt(prompt: Option<String>) -> (r: Result<String, String>)
    ensures
        match prompt {
            Some(p) => r == Ok::<String, String>(p),
            None => r matches Err(m) && m@ == "--prompt is required in non-interactive mode"@,
        },
{
    match prompt {
        Some(p) => Ok(p),
        None => Err(owned("--prompt is required in non-interactive mode")),
    }
}

/// What a non-interactive run reports for the agent's outcome: the answer to
/// print, or the error for reaching the round limit.
pub fn outcome_report(outcome: AgentOutcome, max_tool_rounds: usize) -> (r: Result<String, String>)
    ensures
        match outcome {
            AgentOutcome::Finished { content } => r == Ok::<String, String>(content),
            AgentOutcome::MaxRoundsExceeded => r matches Err(m) && m@ == max_rounds_text(
                max_tool_rounds,
            ),
        },
{
    match outcome {
        AgentOutcome::Finished { content } => Ok(content),
        AgentOutcome::MaxRoundsExceeded => Err(max_rounds_message(max_tool_rounds)),
    }
}

/// The event announcing a tool call.
pub fn tool_call_event(call: &ChatToolCall) -> (r: AgentEvent)
    ensures
        r matches AgentEvent::ToolCall { name, args } && name@ == call.function.name@ && args@
            == call.function.arguments@,
{
    AgentEvent::ToolCall { name: call.function.name.clone(), args: call.function.arguments.clone() }
}

/// The messages a tool round records: the assistant's tool-call message, then one
/// tool-result message per call, in order, answering the call's id.
pub fn tool_round_messages(assistant: ChatMessage, results: Vec<(String, String)>) -> (r: Vec<
    ChatMessage,
>)
    ensures
        r@.len() == results@.len() + 1,
        r@[0] == assistant,
        forall|i: int|
            0 <= i < results@.len() ==> (#[trigger] r@[i + 1] matches ChatMessage::ToolResult(m)
                && m.role@ == "tool"@ && m.tool_call_id@ == results@[i].0@ && m.content@
                == results@[i].1@),
{
    let mut r: Vec<ChatMessage> = Vec::new();
    r.push(assistant);
    let mut i: usize = 0;
    while i < results.len()
        invariant
            0 <= i <= results@.len(),
            r@.len() == i + 1,
            r@[0] == assistant,
            forall|j: int|
                0 <= j < i ==> (#[trigger] r@[j + 1] matches ChatMessage::ToolResult(m) && m.role@
                    == "tool"@ && m.tool_call_id@ == results@[j].0@ && m.content@
                    == results@[j].1@),
        decreases results@.len() - i,
    {
        let (id, content) = &results[i];
        let msg = ChatMessage::tool_result(content.as_str(), id.as_str());
        let ghost before = r@;
        r.push(msg);
        proof {
            assert forall|j: int| 0 <= j < i + 1 implies (#[trigger] r@[j + 1] matches ChatMessage::ToolResult(
                m,
            ) && m.role@ == "tool"@ && m.tool_call_id@ == results@[j].0@ && m.content@
                == results@[j].1@) by {
                if j < i {
                    assert(r@[j + 1] == before[j + 1]);
                }
            }
        }
        i = i + 1;
    }
    r
}

/// Whether a round starts over after compacting: only when compaction ran; when
/// there was nothing to compact, or it failed, the request is sent as it is.
pub fn retry_after_compaction(outcome: &Result<bool, String>) -> (r: bool)
    ensures
        r == (*outcome == Ok::<bool, String>(true)),
{
    match outcome {
        Ok(b) => *b,
        Err(_) => false,
    }
}

/// How many model requests a run may still send: a run sends at most
/// `max_tool_rounds` requests and then ends with `MaxRoundsExceeded`.
pub struct RoundBudget {
    round: usize,
    max_tool_rounds: usize,
}

impl RoundBudget {
    /// Rounds begun so far.
    pub closed spec fn spec_round(&self) -> nat {
        self.round as nat
    }

    /// The round limit.
    pub closed spec fn spec_max_tool_rounds(&self) -> nat {
        self.max_tool_rounds as nat
    }

    /// A budget of `max_tool_rounds` rounds, none begun.
    pub fn new(max_tool_rounds: usize) -> (r: Self)
        ensures
            r.spec_round() == 0,
            r.spec_max_tool_rounds() == max_tool_rounds,
    {
        RoundBudget { round: 0, max_tool_rounds }
    }

    /// Begins another round when the limit allows one: `true` then, with one more
    /// round counted; `false` once all rounds are spent, and the run is over.
    pub fn begin_round(&mut self) -> (r: bool)
        ensures
            r == (old(self).spec_round() < old(self).spec_max_tool_rounds()),
            final(self).spec_max_tool_rounds() == old(self).spec_max_tool_rounds(),
            final(self).spec_round() == if r {
                old(self).spec_round() + 1
            } else {
                old(self).spec_round()
            },
    {
        if self.round < self.max_tool_rounds {
            self.round = self.round + 1;
            true
        } else {
            false
        }
    }
}

/// One tool round in progress: the assistant's tool-call message, the calls it
/// asks for, and the outputs of the calls run so far, in order. A call is
/// announced (its `ToolCall` event) before it runs, and its result is recorded
/// (its `ToolResult` event) after; the finished round is one turn.
pub struct ToolRound {
    assistant: ChatMessage,
    calls: Vec<ChatToolCall>,
    results: Vec<(String, String)>,
    running: bool,
}

impl ToolRound {
    /// The assistant's tool-call message.
    pub closed spec fn spec_assistant(&self) -> ChatMessage {
        self.assistant
    }

    /// The calls of the round, in order.
    pub closed spec fn spec_calls(&self) -> Seq<ChatToolCall> {
        self.calls@
    }

    /// The outputs recorded so far, one per call run, in call order.
    pub closed spec fn spec_outputs(&self) -> Seq<Seq<char>> {
        self.results@.map_values(|p: (String, String)| p.1@)
    }

    /// Whether the next call has been announced and is running.
    pub closed spec fn spec_running(&self) -> bool {
        self.running
    }

    /// Outputs never outnumber calls, a running call is one not yet recorded, and
    /// each recorded output answers its call's id.
    pub closed spec fn wf(&self) -> bool {
        &&& self.results@.len() <= self.calls@.len()
        &&& self.running ==> self.results@.len() < self.calls@.len()
        &&& forall|i: int|
            0 <= i < self.results@.len() ==> #[trigger] self.results@[i].0@ == self.calls@[i].id@
    }

    /// A round of `calls` recorded after `assistant`, none run yet.
    pub fn new(assistant: ChatMessage, calls: Vec<ChatToolCall>) -> (r: Self)
        ensures
            r.wf(),
            r.spec_assistant() == assistant,
            r.spec_calls() == calls@,
            r.spec_outputs().len() == 0,
            !r.spec_running(),
    {
        let r = ToolRound { assistant, calls, results: Vec::new(), running: false };
        proof {
            assert(r.spec_outputs() =~= Seq::<Seq<char>>::empty());
        }
        r
    }

    /// Announces the next call: its `ToolCall` event, or `None` when every call
    /// has run.
    pub fn start_call(&mut self) -> (r: Option<AgentEvent>)
        requires
            old(self).wf(),
            !old(self).spec_running(),
        ensures
            final(self).wf(),
            final(self).spec_assistant() == old(self).spec_assistant(),
            final(self).spec_calls() == old(self).spec_calls(),
            final(self).spec_outputs() == old(self).spec_outputs(),
            old(self).spec_outputs().len() < old(self).spec_calls().len() ==> {
                let c = old(self).spec_calls()[old(self).spec_outputs().len() as int];
                &&& r matches Some(AgentEvent::ToolCall { name, args })
                &&& name@ == c.function.name@
                &&& args@ == c.function.arguments@
                &&& final(self).spec_running()
            },
            old(self).spec_outputs().len() == old(self).spec_calls().len() ==> r is None
                && !final(self).spec_running(),
    {
        let done = self.results.len();
        if done < self.calls.len() {
            let e = tool_call_event(&self.calls[done]);
            self.running = true;
            Some(e)
        } else {
            None
        }
    }

    /// Records the running call's output (the tool's or the timeout text): its
    /// `ToolResult` event.
    pub fn record(&mut self, output: String) -> (r: AgentEvent)
        requires
            old(self).wf(),
            old(self).spec_running(),
        ensures
            final(self).wf(),
            !final(self).spec_running(),
            final(self).spec_assistant() == old(self).spec_assistant(),
            final(self).spec_calls() == old(self).spec_calls(),
            final(self).spec_outputs() == old(self).spec_outputs().push(output@),
            r matches AgentEvent::ToolResult(t) && t@ == output@,
    {
        let done = self.results.len();
        let id = self.calls[done].id.clone();
        let event = AgentEvent::ToolResult(output.clone());
        let ghost before = self.results@;
        self.results.push((id, output));
        self.running = false;
        proof {
            assert(self.spec_outputs() =~= before.map_values(|p: (String, String)| p.1@).push(
                output@,
            ));
        }
        event
    }

    /// The round's turn once every call has run: the assistant's message, then
    /// one tool-result message per call, in order, answering the call's id with
    /// its recorded output.
    pub fn finish(self) -> (r: Vec<ChatMessage>)
        requires
            self.wf(),
            !self.spec_running(),
            self.spec_outputs().len() == self.spec_calls().len(),
        ensures
            r@.len() == self.spec_calls().len() + 1,
            r@[0] == self.spec_assistant(),
            forall|i: int|
                0 <= i < self.spec_calls().len() ==> (#[trigger] r@[i + 1] matches ChatMessage::ToolResult(m)
                    && m.role@ == "tool"@ && m.tool_call_id@ == self.spec_calls()[i].id@
                    && m.content@ == self.spec_outputs()[i]),
    {
        let ghost calls = self.calls@;
        let ghost results = self.results@;
        let ghost outputs = self.spec_outputs();
        let r = tool_round_messages(self.assistant, self.results);
        proof {
            assert forall|i: int| 0 <= i < calls.len() implies (#[trigger] r@[i + 1] matches ChatMessage::ToolResult(m)
                && m.role@ == "tool"@ && m.tool_call_id@ == calls[i].id@
                && m.content@ == outputs[i]) by {
                assert(results[i].0@ == calls[i].id@);
                assert(outputs[i] == results[i].1@);
            }
        }
        r
    }
}

} // verus!
