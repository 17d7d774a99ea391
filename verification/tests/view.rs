use just_llm_client::view::{classify_key, Key, KeyAction, KeyPress};
use just_llm_client::view::{chat_line_rows, Tone};
use just_llm_client::view::approval_popup;
use just_llm_client::agent::AgentEvent;
use just_llm_client::policy::ApprovalDecision;
use just_llm_client::view::{truncate_str, ApprovalState, ChatLine, ChatView, SlashCommand};

#[test]
fn agent_events_fill_the_chat() {
    let mut v = ChatView::new();
    v.handle_agent_event(AgentEvent::Busy);
    assert!(v.agent_busy);
    assert!(v.chat_lines.is_empty());
    v.handle_agent_event(AgentEvent::ToolCall { name: "n".to_owned(), args: "a".to_owned() });
    v.auto_scroll = false;
    v.handle_agent_event(AgentEvent::Finished("done".to_owned()));
    assert!(!v.agent_busy);
    assert!(v.auto_scroll);
    v.handle_agent_event(AgentEvent::MaxRoundsExceeded);
    assert_eq!(
        v.chat_lines,
        vec![
            ChatLine::ToolCall { name: "n".to_owned(), args: "a".to_owned() },
            ChatLine::Assistant("done".to_owned()),
            ChatLine::Error("max rounds exceeded".to_owned()),
        ]
    );
}

#[test]
fn scrolling_and_layout() {
    let mut v = ChatView::new();
    assert_eq!(v.layout(100, 20), (80, 80));
    v.page_up();
    assert!(!v.auto_scroll);
    assert_eq!(v.layout(100, 20), (70, 80));
    v.wheel_down();
    assert!(!v.auto_scroll);
    v.page_down();
    v.wheel_down();
    assert!(v.auto_scroll);
    assert_eq!(v.layout(10, 20), (0, 0));
    v.wheel_up();
    assert_eq!(v.scroll_pos, 0);
}

#[test]
fn slash_commands() {
    let mut v = ChatView::new();
    assert_eq!(v.dispatch_command(SlashCommand::Help, "help!"), None);
    assert_eq!(v.chat_lines, vec![ChatLine::System("help!".to_owned())]);
    assert_eq!(
        v.dispatch_command(SlashCommand::Skill { name: "rust".to_owned() }, ""),
        Some(SlashCommand::Skill { name: "rust".to_owned() })
    );
    assert_eq!(v.chat_lines.last(), Some(&ChatLine::System("loading skill: rust...".to_owned())));
    assert_eq!(v.dispatch_command(SlashCommand::Status, ""), Some(SlashCommand::Status));
    assert_eq!(v.dispatch_command(SlashCommand::Clear, ""), None);
    assert!(v.chat_lines.is_empty());
    assert_eq!(v.dispatch_command(SlashCommand::Quit, ""), None);
    assert!(v.should_quit);
}

#[test]
fn approval_popup_keys() {
    let mut s: ApprovalState<u32> = ApprovalState::new();
    assert!(!s.is_pending());
    assert_eq!(s.handle_key('1'), None);
    s.show(7);
    assert!(s.is_pending());
    assert_eq!(s.handle_key('x'), None);
    assert!(s.is_pending());
    assert_eq!(s.handle_key('2'), Some((7, ApprovalDecision::AlwaysAllow)));
    assert!(!s.is_pending());
    s.show(8);
    assert_eq!(s.cancel(), Some((8, ApprovalDecision::Deny)));
}

#[test]
fn truncation_for_display() {
    assert_eq!(truncate_str("short", 10), "short");
    assert_eq!(truncate_str("abcdefghij", 5), "abcd\u{2026}");
    assert_eq!(truncate_str("héllo", 5), "héll\u{2026}");
    assert_eq!(truncate_str("abc", 0), "\u{2026}");
}

#[test]
fn keys_map_to_actions() {
    let press = |key| KeyPress { key, ctrl: false, shift: false, is_press: true };
    assert_eq!(classify_key(KeyPress { is_press: false, ..press(Key::Enter) }, false, false, false), KeyAction::Ignore);
    assert_eq!(classify_key(press(Key::Char('2')), true, true, true), KeyAction::ApprovalKey('2'));
    assert_eq!(classify_key(press(Key::Esc), true, false, false), KeyAction::ApprovalCancel);
    assert_eq!(classify_key(press(Key::Enter), true, false, false), KeyAction::Ignore);
    assert_eq!(classify_key(KeyPress { ctrl: true, ..press(Key::Char('c')) }, false, true, false), KeyAction::HideCompletion);
    assert_eq!(classify_key(KeyPress { ctrl: true, ..press(Key::Char('c')) }, false, false, false), KeyAction::Ignore);
    assert_eq!(classify_key(press(Key::PageUp), false, true, false), KeyAction::PageUp);
    assert_eq!(classify_key(press(Key::Up), false, false, false), KeyAction::HistoryUp);
    assert_eq!(classify_key(press(Key::Up), false, true, false), KeyAction::CompletionUp);
    assert_eq!(classify_key(press(Key::Tab), false, true, true), KeyAction::CompletionAccept);
    assert_eq!(classify_key(press(Key::Tab), false, true, false), KeyAction::Edit);
    assert_eq!(classify_key(press(Key::Esc), false, true, false), KeyAction::CompletionHide);
    assert_eq!(classify_key(press(Key::Enter), false, false, false), KeyAction::Submit);
    assert_eq!(classify_key(KeyPress { shift: true, ..press(Key::Enter) }, false, false, false), KeyAction::Edit);
    assert_eq!(classify_key(press(Key::Char('a')), false, false, false), KeyAction::Edit);
}

#[test]
fn submission_and_rows() {
    let mut v = ChatView::new();
    v.auto_scroll = false;
    assert!(!v.submit(""));
    assert!(!v.auto_scroll);
    assert!(v.submit("hi"));
    assert!(v.auto_scroll);
    v.agent_busy = true;
    v.auto_scroll = false;
    assert!(!v.submit("again"));
    assert!(!v.auto_scroll);
    assert!(v.chat_lines.is_empty());
    v.show_prompt("hi".to_owned());
    v.show_input_error("unknown command".to_owned());
    assert_eq!(v.chat_lines, vec![ChatLine::User("hi".to_owned()), ChatLine::Error("unknown command".to_owned())]);

    let rows = chat_line_rows(&ChatLine::System("one\ntwo".to_owned()));
    assert_eq!(rows.len(), 2);
    assert_eq!(rows[0][0].text, "[system] ");
    assert_eq!(rows[1][0].text, "          ");
    assert_eq!(rows[1][1].text, "two");
    assert_eq!(rows[1][1].tone, Tone::System);
    let rows = chat_line_rows(&ChatLine::ToolCall { name: "shell".to_owned(), args: "{}".to_owned() });
    assert_eq!(rows[0][1].text, "shell({})");
    assert_eq!(rows[0][0].tone, Tone::ToolLabel);
}

#[test]
fn approval_popup_layout() {
    let p = approval_popup(0, 20, 100, &"a".repeat(80), false);
    assert_eq!((p.x, p.y, p.width, p.height), (1, 12, 60, 8));
    assert_eq!(p.args_preview.chars().count(), 50);
    assert_eq!(p.title, " Approval ");
    let p = approval_popup(5, 3, 30, "{}", true);
    assert_eq!((p.x, p.y, p.width), (6, 0, 30));
    assert_eq!(p.options, "  [1] Allow   [3] Deny");
    assert_eq!(p.args_preview, "{}");
}
