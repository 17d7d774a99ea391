use just_llm_client::agent::{RoundBudget, ToolRound};
use just_llm_client::agent::{retry_after_compaction, tool_call_event, tool_round_messages};
use just_llm_client::agent::{outcome_report, require_prompt, AgentOutcome};
use just_llm_client::agent::{
    console_line, max_rounds_message, needs_compaction, reply_events, round_step,
    tool_timeout_message, AgentConfig, AgentEvent, ConfigError, RoundError, RoundStep,
    DEFAULT_SYSTEM_PROMPT,
};
use just_llm_client::chat::{ChatToolCall, FunctionCall, ToolType};
use just_llm_client::response::{AssistantMessage, AssistantRole};

fn reply(content: Option<&str>, calls: Option<Vec<ChatToolCall>>) -> AssistantMessage {
    AssistantMessage {
        content: content.map(str::to_owned),
        reasoning_content: Some("thinking".to_owned()),
        tool_calls: calls,
        role: AssistantRole::Assistant,
    }
}

fn call() -> ChatToolCall {
    ChatToolCall {
        id: "c1".to_owned(),
        kind: ToolType::Function,
        function: FunctionCall { name: "shell".to_owned(), arguments: "{}".to_owned() },
    }
}

#[test]
fn config_defaults_and_overrides() {
    let c = AgentConfig::from_values(None, None, None, Ok("/ws".to_owned()), None, None, None).unwrap();
    assert_eq!(c.system_prompt, DEFAULT_SYSTEM_PROMPT);
    assert_eq!(c.max_tool_rounds, 32);
    assert_eq!(c.compact_trigger_tokens, 12000);
    assert_eq!(c.compact_keep_recent_tokens, 4000);
    assert_eq!(c.compact_max_tokens, 1200);
    assert_eq!(c.workspace_root, "/ws");
    let c = AgentConfig::from_values(
        Some("go".to_owned()),
        Some("sys".to_owned()),
        Some("+5"),
        Ok("/w".to_owned()),
        Some("100"),
        Some("10"),
        Some("7"),
    )
    .unwrap();
    assert_eq!(c.prompt.as_deref(), Some("go"));
    assert_eq!(c.system_prompt, "sys");
    assert_eq!((c.max_tool_rounds, c.compact_trigger_tokens, c.compact_keep_recent_tokens, c.compact_max_tokens), (5, 100, 10, 7));
}

#[test]
fn config_errors_come_in_order() {
    let e = AgentConfig::from_values(None, None, Some("x"), Err(ConfigError::CurrentDir), None, None, None).unwrap_err();
    assert_eq!(e.message(), "JUST_AGENT_MAX_TOOL_ROUNDS must be a positive integer");
    let e = AgentConfig::from_values(None, None, None, Err(ConfigError::CurrentDir), Some("x"), None, None).unwrap_err();
    assert_eq!(e, ConfigError::CurrentDir);
    let e = AgentConfig::from_values(None, None, None, Ok("/".to_owned()), None, None, Some("4294967296")).unwrap_err();
    assert_eq!(e.message(), "JUST_AGENT_COMPACT_MAX_TOKENS must be a positive integer");
    let unresolved = ConfigError::UnresolvedWorkspace { path: "/nope".to_owned() };
    let e = AgentConfig::from_values(None, None, None, Err(unresolved.clone()), None, None, Some("0")).unwrap_err();
    assert_eq!(e, unresolved);
    assert_eq!(e.message(), "failed to resolve workspace root /nope");
    let e = AgentConfig::from_values(None, None, Some("0"), Ok("/".to_owned()), None, Some("0"), None).unwrap_err();
    assert_eq!(e, ConfigError::ZeroCompactTokens);
    let e = AgentConfig::from_values(None, None, Some("0"), Ok("/".to_owned()), None, None, None).unwrap_err();
    assert_eq!(e.message(), "JUST_AGENT_MAX_TOOL_ROUNDS must be greater than zero");
}

#[test]
fn round_step_classifies_replies() {
    assert_eq!(round_step(None), Err(RoundError::NoChoices));
    assert_eq!(
        round_step(Some(reply(Some("done"), None))),
        Ok(RoundStep::Finished { content: "done".to_owned() })
    );
    assert_eq!(round_step(Some(reply(Some("done"), Some(vec![])))), Ok(RoundStep::Finished { content: "done".to_owned() }));
    let err = round_step(Some(reply(None, None))).unwrap_err();
    assert_eq!(err.message(), "assistant returned neither tool calls nor final content");
    match round_step(Some(reply(Some("working"), Some(vec![call()])))).unwrap() {
        RoundStep::ToolCalls { assistant, calls } => {
            assert_eq!(calls, vec![call()]);
            assert_eq!(assistant.role(), "assistant");
            assert_eq!(assistant.content(), Some("working"));
            assert_eq!(assistant.tool_calls(), Some([call()].as_slice()));
            assert_eq!(assistant.reasoning_content(), Some("thinking"));
        }
        other => panic!("unexpected {other:?}"),
    }
}

#[test]
fn reply_events_and_console_lines() {
    let ev = reply_events(&reply(Some("working"), Some(vec![call()])));
    assert_eq!(ev, vec![AgentEvent::Reasoning("thinking".to_owned()), AgentEvent::AssistantContent("working".to_owned())]);
    let ev = reply_events(&reply(Some("final"), None));
    assert_eq!(ev, vec![AgentEvent::Reasoning("thinking".to_owned())]);
    assert_eq!(
        console_line(&AgentEvent::ToolCall { name: "shell".to_owned(), args: "{}".to_owned() }),
        Some("[tool call] shell({})".to_owned())
    );
    assert_eq!(console_line(&AgentEvent::Busy), None);
    assert_eq!(console_line(&AgentEvent::Reasoning("r".to_owned())), Some("[reasoning] r".to_owned()));
}

#[test]
fn compaction_budget_and_messages() {
    assert!(!needs_compaction(0, 100, 10));
    assert!(needs_compaction(50, 60, 100));
    assert!(!needs_compaction(40, 60, 100));
    assert!(needs_compaction(1, usize::MAX, 5));
    assert_eq!(tool_timeout_message("shell", 120), "tool 'shell' timed out after 120s");
    assert_eq!(max_rounds_message(32), "agent exceeded the maximum number of tool rounds (32)");
}

#[test]
fn non_interactive_reports() {
    assert_eq!(require_prompt(Some("x".to_owned())), Ok("x".to_owned()));
    assert_eq!(require_prompt(None), Err("--prompt is required in non-interactive mode".to_owned()));
    assert_eq!(outcome_report(AgentOutcome::Finished { content: "done".to_owned() }, 3), Ok("done".to_owned()));
    assert_eq!(
        outcome_report(AgentOutcome::MaxRoundsExceeded, 3),
        Err("agent exceeded the maximum number of tool rounds (3)".to_owned())
    );
}

#[test]
fn tool_rounds_record_results_in_call_order() {
    let assistant = just_llm_client::chat::ChatMessage::assistant_tool_calls(vec![call()]);
    let msgs = tool_round_messages(
        assistant.clone(),
        vec![("c1".to_owned(), "out1".to_owned()), ("c2".to_owned(), "out2".to_owned())],
    );
    assert_eq!(msgs.len(), 3);
    assert_eq!(msgs[0], assistant);
    assert_eq!(msgs[2].tool_call_id(), Some("c2"));
    assert_eq!(msgs[2].content(), Some("out2"));
    assert_eq!(tool_call_event(&call()), AgentEvent::ToolCall { name: "shell".to_owned(), args: "{}".to_owned() });
    assert!(retry_after_compaction(&Ok(true)));
    assert!(!retry_after_compaction(&Ok(false)));
    assert!(!retry_after_compaction(&Err("x".to_owned())));
}

#[test]
fn tool_round_runs_calls_in_order_within_the_round_budget() {
    let second = ChatToolCall {
        id: "c2".to_owned(),
        kind: ToolType::Function,
        function: FunctionCall { name: "read".to_owned(), arguments: "{\"p\":1}".to_owned() },
    };
    let mut budget = RoundBudget::new(2);
    assert!(budget.begin_round());
    let step = round_step(Some(reply(Some("looking"), Some(vec![call(), second.clone()])))).unwrap();
    let (assistant, calls) = match step {
        RoundStep::ToolCalls { assistant, calls } => (assistant, calls),
        other => panic!("unexpected step {:?}", other),
    };
    let mut round = ToolRound::new(assistant.clone(), calls);
    let mut events = Vec::new();
    let mut n = 0;
    while let Some(announce) = round.start_call() {
        events.push(announce);
        n += 1;
        events.push(round.record(format!("out{}", n)));
    }
    assert_eq!(
        events,
        vec![
            AgentEvent::ToolCall { name: "shell".to_owned(), args: "{}".to_owned() },
            AgentEvent::ToolResult("out1".to_owned()),
            AgentEvent::ToolCall { name: "read".to_owned(), args: "{\"p\":1}".to_owned() },
            AgentEvent::ToolResult("out2".to_owned()),
        ]
    );
    let turn = round.finish();
    assert_eq!(turn.len(), 3);
    assert_eq!(turn[0], assistant);
    assert_eq!(turn[1].tool_call_id(), Some("c1"));
    assert_eq!(turn[1].content(), Some("out1"));
    assert_eq!(turn[2].tool_call_id(), Some("c2"));
    assert_eq!(turn[2].content(), Some("out2"));
    assert!(budget.begin_round());
    assert!(!budget.begin_round());
}
