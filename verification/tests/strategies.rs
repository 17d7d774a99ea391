use just_llm_client::chat::{ChatMessage, TextMessage};
use just_llm_client::strategies::{
    resolve_compaction, resolve_compaction_attempt, strategy_from_name, truncate_message,
    CompactionResult, CompactionUpdate, EvictStrategy, Strategy, SummarizeStrategy, TruncateStrategy,
    Turn,
};

fn turn(id: u64, text: &str) -> Turn {
    let messages = vec![ChatMessage::user(text)];
    let estimated_tokens = Turn::estimate_tokens(&messages);
    Turn { id, messages, estimated_tokens }
}

#[test]
fn evict_keeps_the_existing_summary() {
    let r = EvictStrategy.compact(3, Some("abcdefgh"));
    assert_eq!(r.summary.as_deref(), Some("abcdefgh"));
    assert_eq!(r.summary_tokens, 2 + 16);
    assert_eq!(r.turns_compacted, 3);
    assert!(r.modified_turns.is_none());
    assert_eq!(EvictStrategy.compact(0, None).summary, None);
}

#[test]
fn summarize_fills_the_budget_from_the_oldest_turn() {
    let s = SummarizeStrategy::new(100);
    let turns = vec![turn(1, &"a".repeat(40)), turn(2, &"b".repeat(40)), turn(3, &"c".repeat(40))];
    // each turn estimates 26 tokens; 160 - 100 leaves room for two of them
    let req = s.prepare(turns.clone(), None, 160);
    assert_eq!(req.turns_used, 2);
    assert_eq!(req.max_tokens, 100);
    assert_eq!(req.messages.len(), 3);
    assert_eq!(req.messages[2].role(), "user");
    let req = s.prepare(turns, Some("old"), 200);
    assert_eq!(req.messages[0].content(), Some("[Previous context summary]\nold"));
    assert_eq!(req.turns_used, 2);
    let done = s.finish(Some("  gist  "), 2);
    assert_eq!(done.summary.as_deref(), Some("gist"));
    assert_eq!(done.summary_tokens, 1 + 16);
    assert_eq!(s.finish(Some("   "), 2).summary, None);
}

#[test]
fn truncate_clips_long_messages_and_reestimates() {
    let t = TruncateStrategy::new(17);
    let r = t.compact(vec![turn(7, "123456789")], None);
    let modified = r.modified_turns.unwrap();
    assert_eq!(modified[0].id, 7);
    assert_eq!(modified[0].messages[0].content(), Some("1234\n[truncated]"));
    assert_eq!(modified[0].estimated_tokens, 16 / 4 + 16);
    let m = truncate_message(ChatMessage::tool_result("abcdef", "c1"), 2, "…");
    assert_eq!(m.content(), Some("ab…"));
    assert_eq!(m.tool_call_id(), Some("c1"));
}

#[test]
fn strategies_by_name() {
    assert_eq!(strategy_from_name("evict", 5), Strategy::Evict(EvictStrategy));
    assert_eq!(strategy_from_name("truncate", 5).name(), "truncate");
    assert_eq!(strategy_from_name("anything", 5), Strategy::Summarize(SummarizeStrategy::new(5)));
}

#[test]
fn compaction_outcomes_are_resolved() {
    let empty = CompactionResult { summary: None, summary_tokens: 0, turns_compacted: 0, modified_turns: None };
    match resolve_compaction(vec![turn(1, "x")], empty.clone(), "summarize") {
        CompactionUpdate::Restore { drained, error } => {
            assert_eq!(drained.len(), 1);
            assert_eq!(error, "compaction strategy 'summarize' produced no summary and no modified turns");
        }
        other => panic!("unexpected {other:?}"),
    }
    let with_summary = CompactionResult { summary: Some("s".to_owned()), ..empty };
    assert_eq!(
        resolve_compaction(vec![], with_summary.clone(), "x"),
        CompactionUpdate::Apply { modified: None, summary: Some("s".to_owned()) }
    );
    match resolve_compaction_attempt(vec![turn(1, "x")], Err("timeout".to_owned()), "summarize") {
        CompactionUpdate::Restore { error, .. } => {
            assert_eq!(error, "compaction failed; drained turns restored: timeout")
        }
        other => panic!("unexpected {other:?}"),
    }
    assert_eq!(
        resolve_compaction_attempt(vec![], Ok(with_summary), "x"),
        CompactionUpdate::Apply { modified: None, summary: Some("s".to_owned()) }
    );
}

#[test]
fn truncation_cuts_only_the_text() {
    let msg = ChatMessage::named("user", "abcdef", "bob");
    assert_eq!(truncate_message(msg, 3, "!"), ChatMessage::named("user", "abc!", "bob"));
    let msg = ChatMessage::Message(TextMessage {
        role: "assistant".to_owned(),
        content: "abcdef".to_owned(),
        name: None,
        reasoning_content: Some("why".to_owned()),
    });
    let cut = truncate_message(msg, 2, "...");
    assert_eq!(
        cut,
        ChatMessage::Message(TextMessage {
            role: "assistant".to_owned(),
            content: "ab...".to_owned(),
            name: None,
            reasoning_content: Some("why".to_owned()),
        })
    );
    let short = ChatMessage::named("user", "abc", "bob");
    assert_eq!(truncate_message(short.clone(), 3, "!"), short);
}
