use just_llm_client::client::{ChatClient, ChatClientOptions};
use just_llm_client::compact::COMPACT_PROMPT;
use just_llm_client::chat::ChatMessage;
use just_llm_client::compact::{
    estimate_message_tokens, estimate_messages_tokens, find_split_index, CompactionConfig,
    CompactionError, ContextCompactor,
};

fn user_message(content: &str) -> ChatMessage {
    ChatMessage::user(content)
}

#[test]
fn estimate_tokens_scales_with_content() {
    let short = estimate_messages_tokens(&[user_message("hello")]);
    let long = estimate_messages_tokens(&[user_message(&"x".repeat(400))]);
    assert!(long > short);
}

#[test]
fn split_index_keeps_recent_budget() {
    let messages = (0..10)
        .map(|index| user_message(&format!("message {index} {}", "x".repeat(300))))
        .collect::<Vec<_>>();

    let split = find_split_index(&messages, 300).unwrap();
    assert!(split < messages.len());
    let suffix_tokens = estimate_messages_tokens(&messages[split..]);
    assert!(suffix_tokens > 300);
}

#[test]
fn message_estimate_is_quarter_of_characters_plus_overhead() {
    assert_eq!(estimate_message_tokens(&user_message(&"x".repeat(40))), 10 + 16);
    assert_eq!(estimate_message_tokens(&user_message("abc")), 16);
}

#[test]
fn split_index_is_none_when_everything_fits() {
    let messages = vec![user_message("a"), user_message("b")];
    assert_eq!(find_split_index(&messages, 1000), None);
    assert_eq!(find_split_index(&[], 0), None);
}

#[test]
fn compactor_plans_only_above_trigger() {
    let compactor = ContextCompactor::new(CompactionConfig {
        trigger_tokens: 1000,
        keep_recent_tokens: 20,
        summary_max_tokens: 100,
    });
    let small = vec![user_message("a"), user_message("b")];
    assert_eq!(compactor.plan(&small), None);
    let big = (0..10).map(|_| user_message(&"y".repeat(400))).collect::<Vec<_>>();
    assert_eq!(compactor.plan(&big), Some(9));
}

#[test]
fn apply_summary_wraps_trimmed_summary_and_keeps_suffix() {
    let compactor = ContextCompactor::new(CompactionConfig {
        trigger_tokens: 1,
        keep_recent_tokens: 1,
        summary_max_tokens: 1,
    });
    let messages = vec![user_message("old"), user_message("recent")];
    let request = compactor.summary_request_messages(messages.clone());
    assert_eq!(request.len(), 3);
    assert_eq!(request[2].role(), "user");
    let out = compactor.apply_summary(messages.clone(), 1, Some("  the gist \n")).unwrap();
    assert_eq!(out.len(), 2);
    assert_eq!(out[0].role(), "assistant");
    assert_eq!(
        out[0].content(),
        Some("[COMPRESSED CONTEXT SUMMARY]\nthe gist\n[/COMPRESSED CONTEXT SUMMARY]")
    );
    assert_eq!(out[1].content(), Some("recent"));
    assert_eq!(compactor.apply_summary(messages.clone(), 1, Some("   ")), Err(CompactionError::EmptySummary));
    assert_eq!(compactor.apply_summary(messages, 1, None), Err(CompactionError::EmptySummary));
}

#[test]
fn summary_request_is_limited_to_the_summary_budget() {
    let compactor = ContextCompactor::new(CompactionConfig {
        trigger_tokens: 10,
        keep_recent_tokens: 5,
        summary_max_tokens: 321,
    });
    let client = ChatClient::new("p", ChatClientOptions::new("m"), ());
    let req = compactor.summary_request(&client, vec![user_message("hello")]);
    assert_eq!(req.max_tokens, Some(321));
    assert_eq!(req.model, "m");
    assert_eq!(req.messages, vec![user_message("hello"), ChatMessage::user(COMPACT_PROMPT)]);
}
