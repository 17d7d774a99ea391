//! State of the interactive chat view: the lines shown, scrolling, and how agent
//! events and slash commands change them. Drawing is left to the terminal layer.
use vstd::prelude::*;

use vstd::utf8::encode_utf8;

use crate::agent::AgentEvent;
use crate::policy::ApprovalDecision;
use crate::text::{
    append_str, chars_of, owned, push_char, split_lines, string_from_chars, text_lines, views,
};
use vstd::string::*;

verus! {

/// A line in the chat output area.
#[derive(Clone, Debug, PartialEq, Eq)]
pub enum ChatLine {
    User(String),
    Assistant(String),
    ToolCall { name: String, args: String },
    ToolResult(String),
    Reasoning(String),
    Status(String),
    Error(String),
    System(String),
}

/// A slash command typed into the input box.
#[derive(Clone, Debug, PartialEq, Eq)]
pub enum SlashCommand {
    Help,
    Quit,
    Clear,
    Status,
    Compact,
    Skill { name: String },
}

/// Lines scrolled by a page key.
pub const PAGE_SCROLL: usize = 10;

/// Lines scrolled by a mouse wheel step.
pub const WHEEL_SCROLL: usize = 3;

/// `a - b`, or 0 when `b > a`.
pub open spec fn sat_sub(a: nat, b: nat) -> nat {
    if a >= b {
        (a - b) as nat
    } else {
        0
    }
}

/// `a + b`, or `usize::MAX` when the sum does not fit.
pub open spec fn sat_add(a: nat, b: nat) -> nat {
    if a + b <= usize::MAX {
        a + b
    } else {
        usize::MAX as nat
    }
}

/// The chat view's state.
pub struct ChatView {
    pub chat_lines: Vec<ChatLine>,
    pub auto_scroll: bool,
    pub agent_busy: bool,
    pub should_quit: bool,
    pub scroll_pos: usize,
    pub content_length: usize,
    pub visible_height: usize,
}

/// The line an agent event adds to the chat, if any (the round-limit event adds
/// an error line of its own, handled apart).
pub open spec fn event_line(event: AgentEvent) -> Option<ChatLine> {
    match event {
        AgentEvent::Reasoning(t) => Some(ChatLine::Reasoning(t)),
        AgentEvent::AssistantContent(t) => Some(ChatLine::Assistant(t)),
        AgentEvent::ToolCall { name, args } => Some(ChatLine::ToolCall { name, args }),
        AgentEvent::ToolResult(t) => Some(ChatLine::ToolResult(t)),
        AgentEvent::Finished(t) => Some(ChatLine::Assistant(t)),
        AgentEvent::Error(t) => Some(ChatLine::Error(t)),
        AgentEvent::Status(t) => Some(ChatLine::Status(t)),
        _ => None,
    }
}

impl ChatView {
    /// First wrapped line shown.
    pub open spec fn spec_scroll_pos(&self) -> nat {
        self.scroll_pos as nat
    }

    /// Number of wrapped lines at the last layout.
    pub open spec fn spec_content_length(&self) -> nat {
        self.content_length as nat
    }

    /// Height of the chat area at the last layout.
    pub open spec fn spec_visible_height(&self) -> nat {
        self.visible_height as nat
    }

    /// An empty view that follows new output.
    pub fn new() -> (r: Self)
        ensures
            r.chat_lines@.len() == 0,
            r.auto_scroll,
            !r.agent_busy,
            !r.should_quit,
            r.spec_scroll_pos() == 0,
            r.spec_content_length() == 0,
            r.spec_visible_height() == 0,
    {
        ChatView {
            chat_lines: Vec::new(),
            auto_scroll: true,
            agent_busy: false,
            should_quit: false,
            scroll_pos: 0,
            content_length: 0,
            visible_height: 0,
        }
    }

    /// Shows an agent event: each event but `Busy` adds its line and follows the
    /// output; the end of a task (answer, round limit or error) clears the busy
    /// flag and `Busy` sets it.
    pub fn handle_agent_event(&mut self, event: AgentEvent)
        ensures
            final(self).should_quit == old(self).should_quit,
            final(self).spec_scroll_pos() == old(self).spec_scroll_pos(),
            final(self).spec_content_length() == old(self).spec_content_length(),
            final(self).spec_visible_height() == old(self).spec_visible_height(),
            match event {
                AgentEvent::Busy => {
                    &&& final(self).chat_lines@ == old(self).chat_lines@
                    &&& final(self).agent_busy
                    &&& final(self).auto_scroll == old(self).auto_scroll
                },
                AgentEvent::MaxRoundsExceeded => {
                    &&& final(self).chat_lines@.len() == old(self).chat_lines@.len() + 1
                    &&& final(self).chat_lines@.drop_last() == old(self).chat_lines@
                    &&& final(self).chat_lines@.last() matches ChatLine::Error(t) && t@
                        == "max rounds exceeded"@
                    &&& !final(self).agent_busy
                    &&& final(self).auto_scroll
                },
                _ => {
                    &&& final(self).chat_lines@ == old(self).chat_lines@.push(
                        event_line(event)->Some_0,
                    )
                    &&& final(self).agent_busy == (if event is Finished || event is Error {
                        false
                    } else {
                        old(self).agent_busy
                    })
                    &&& final(self).auto_scroll
                },
            },
    {
        match event {
            AgentEvent::Reasoning(text) => {
                self.chat_lines.push(ChatLine::Reasoning(text));
                self.auto_scroll = true;
            },
            AgentEvent::AssistantContent(text) => {
                self.chat_lines.push(ChatLine::Assistant(text));
                self.auto_scroll = true;
            },
            AgentEvent::ToolCall { name, args } => {
                self.chat_lines.push(ChatLine::ToolCall { name, args });
                self.auto_scroll = true;
            },
            AgentEvent::ToolResult(result) => {
                self.chat_lines.push(ChatLine::ToolResult(result));
                self.auto_scroll = true;
            },
            AgentEvent::Finished(content) => {
                self.chat_lines.push(ChatLine::Assistant(content));
                self.agent_busy = false;
                self.auto_scroll = true;
            },
            AgentEvent::MaxRoundsExceeded => {
                self.chat_lines.push(ChatLine::Error(owned("max rounds exceeded")));
                self.agent_busy = false;
                self.auto_scroll = true;
                proof {
                    assert(self.chat_lines@.drop_last() =~= old(self).chat_lines@);
                }
            },
            AgentEvent::Error(err) => {
                self.chat_lines.push(ChatLine::Error(err));
                self.agent_busy = false;
                self.auto_scroll = true;
            },
            AgentEvent::Status(msg) => {
                self.chat_lines.push(ChatLine::Status(msg));
                self.auto_scroll = true;
            },
            AgentEvent::Busy => {
                self.agent_busy = true;
            },
        }
    }

    /// Page-up key: scrolls up a page and stops following the output.
    pub fn page_up(&mut self)
        ensures
            final(self).spec_scroll_pos() == sat_sub(old(self).spec_scroll_pos(), PAGE_SCROLL as nat),
            !final(self).auto_scroll,
            final(self).chat_lines == old(self).chat_lines,
            final(self).agent_busy == old(self).agent_busy,
            final(self).should_quit == old(self).should_quit,
            final(self).spec_content_length() == old(self).spec_content_length(),
            final(self).spec_visible_height() == old(self).spec_visible_height(),
    {
        self.scroll_pos = self.scroll_pos.saturating_sub(PAGE_SCROLL);
        self.auto_scroll = false;
    }

    /// Page-down key: scrolls down a page and stops following the output.
    pub fn page_down(&mut self)
        ensures
            final(self).spec_scroll_pos() == sat_add(old(self).spec_scroll_pos(), PAGE_SCROLL as nat),
            !final(self).auto_scroll,
            final(self).chat_lines == old(self).chat_lines,
            final(self).agent_busy == old(self).agent_busy,
            final(self).should_quit == old(self).should_quit,
            final(self).spec_content_length() == old(self).spec_content_length(),
            final(self).spec_visible_height() == old(self).spec_visible_height(),
    {
        self.scroll_pos = self.scroll_pos.saturating_add(PAGE_SCROLL);
        self.auto_scroll = false;
    }

    /// Mouse wheel up: scrolls up and stops following the output.
    pub fn wheel_up(&mut self)
        ensures
            final(self).spec_scroll_pos() == sat_sub(old(self).spec_scroll_pos(), WHEEL_SCROLL as nat),
            !final(self).auto_scroll,
            final(self).chat_lines == old(self).chat_lines,
            final(self).agent_busy == old(self).agent_busy,
            final(self).should_quit == old(self).should_quit,
            final(self).spec_content_length() == old(self).spec_content_length(),
            final(self).spec_visible_height() == old(self).spec_visible_height(),
    {
        self.scroll_pos = self.scroll_pos.saturating_sub(WHEEL_SCROLL);
        self.auto_scroll = false;
    }

    /// Mouse wheel down: scrolls down, and follows the output again once the
    /// bottom is reached.
    pub fn wheel_down(&mut self)
        ensures
            final(self).spec_scroll_pos() == sat_add(old(self).spec_scroll_pos(), WHEEL_SCROLL as nat),
            final(self).auto_scroll == (old(self).auto_scroll || final(self).spec_scroll_pos()
                >= sat_sub(old(self).spec_content_length(), old(self).spec_visible_height())),
            final(self).chat_lines == old(self).chat_lines,
            final(self).agent_busy == old(self).agent_busy,
            final(self).should_quit == old(self).should_quit,
            final(self).spec_content_length() == old(self).spec_content_length(),
            final(self).spec_visible_height() == old(self).spec_visible_height(),
    {
        self.scroll_pos = self.scroll_pos.saturating_add(WHEEL_SCROLL);
        let max_pos = self.content_length.saturating_sub(self.visible_height);
        if self.scroll_pos >= max_pos {
            self.auto_scroll = true;
        }
    }

    /// Lays out `total` wrapped lines in an area `visible` lines high: returns the
    /// first line to show (the bottom when following the output, else the kept
    /// position, at most the bottom) and the scroll range (a scrollbar is drawn
    /// when it is positive), and records the layout.
    pub fn layout(&mut self, total: usize, visible: usize) -> (r: (usize, usize))
        ensures
            r.1 == sat_sub(total as nat, visible as nat),
            r.0 == if old(self).auto_scroll {
                r.1 as nat
            } else if old(self).spec_scroll_pos() <= r.1 {
                old(self).spec_scroll_pos()
            } else {
                r.1 as nat
            },
            final(self).spec_scroll_pos() == r.0,
            final(self).spec_content_length() == total,
            final(self).spec_visible_height() == visible,
            final(self).chat_lines == old(self).chat_lines,
            final(self).auto_scroll == old(self).auto_scroll,
            final(self).agent_busy == old(self).agent_busy,
            final(self).should_quit == old(self).should_quit,
    {
        let range = total.saturating_sub(visible);
        let pos = if self.auto_scroll {
            range
        } else if self.scroll_pos <= range {
            self.scroll_pos
        } else {
            range
        };
        self.scroll_pos = pos;
        self.content_length = total;
        self.visible_height = visible;
        (pos, range)
    }

    /// Runs a slash command on the view and returns the command the agent must
    /// carry out, if any: help shows `help_text`, quit ends the session, clear
    /// empties the chat; status, compact and skill are announced and forwarded.
    pub fn dispatch_command(&mut self, cmd: SlashCommand, help_text: &str) -> (r: Option<
        SlashCommand,
    >)
        ensures
            final(self).agent_busy == old(self).agent_busy,
            final(self).spec_scroll_pos() == old(self).spec_scroll_pos(),
            final(self).spec_content_length() == old(self).spec_content_length(),
            final(self).spec_visible_height() == old(self).spec_visible_height(),
            match cmd {
                SlashCommand::Help => {
                    &&& r is None
                    &&& final(self).chat_lines@.drop_last() == old(self).chat_lines@
                    &&& final(self).chat_lines@.len() == old(self).chat_lines@.len() + 1
                    &&& final(self).chat_lines@.last() matches ChatLine::System(t) && t@ == help_text@
                    &&& final(self).auto_scroll
                    &&& final(self).should_quit == old(self).should_quit
                },
                SlashCommand::Quit => {
                    &&& r is None
                    &&& final(self).chat_lines@ == old(self).chat_lines@
                    &&& final(self).should_quit
                    &&& final(self).auto_scroll == old(self).auto_scroll
                },
                SlashCommand::Clear => {
                    &&& r is None
                    &&& final(self).chat_lines@.len() == 0
                    &&& final(self).should_quit == old(self).should_quit
                    &&& final(self).auto_scroll == old(self).auto_scroll
                },
                SlashCommand::Status => {
                    &&& r == Some(SlashCommand::Status)
                    &&& final(self).chat_lines@.drop_last() == old(self).chat_lines@
                    &&& final(self).chat_lines@.len() == old(self).chat_lines@.len() + 1
                    &&& final(self).chat_lines@.last() matches ChatLine::System(t) && t@
                        == "requesting status..."@
                    &&& final(self).auto_scroll
                    &&& final(self).should_quit == old(self).should_quit
                },
                SlashCommand::Compact => {
                    &&& r == Some(SlashCommand::Compact)
                    &&& final(self).chat_lines@.drop_last() == old(self).chat_lines@
                    &&& final(self).chat_lines@.len() == old(self).chat_lines@.len() + 1
                    &&& final(self).chat_lines@.last() matches ChatLine::System(t) && t@
                        == "running compaction..."@
                    &&& final(self).auto_scroll
                    &&& final(self).should_quit == old(self).should_quit
                },
                SlashCommand::Skill { name } => {
                    &&& r matches Some(SlashCommand::Skill { name: n }) && n@ == name@
                    &&& final(self).chat_lines@.drop_last() == old(self).chat_lines@
                    &&& final(self).chat_lines@.len() == old(self).chat_lines@.len() + 1
                    &&& final(self).chat_lines@.last() matches ChatLine::System(t) && t@
                        == "loading skill: "@ + name@ + "..."@
                    &&& final(self).auto_scroll
                    &&& final(self).should_quit == old(self).should_quit
                },
            },
    {
        let ghost before = self.chat_lines@;
        match cmd {
            SlashCommand::Help => {
                self.chat_lines.push(ChatLine::System(owned(help_text)));
                self.auto_scroll = true;
                proof {
                    assert(self.chat_lines@.drop_last() =~= before);
                }
                None
            },
            SlashCommand::Quit => {
                self.should_quit = true;
                None
            },
            SlashCommand::Clear => {
                self.chat_lines.clear();
                None
            },
            SlashCommand::Status => {
                self.chat_lines.push(ChatLine::System(owned("requesting status...")));
                self.auto_scroll = true;
                proof {
                    assert(self.chat_lines@.drop_last() =~= before);
                }
                Some(SlashCommand::Status)
            },
            SlashCommand::Compact => {
                self.chat_lines.push(ChatLine::System(owned("running compaction...")));
                self.auto_scroll = true;
                proof {
                    assert(self.chat_lines@.drop_last() =~= before);
                }
                Some(SlashCommand::Compact)
            },
            SlashCommand::Skill { name } => {
                let mut text = owned("loading skill: ");
                append_str(&mut text, name.as_str());
                append_str(&mut text, "...");
                self.chat_lines.push(ChatLine::System(text));
                self.auto_scroll = true;
                proof {
                    assert(self.chat_lines@.drop_last() =~= before);
                }
                Some(SlashCommand::Skill { name })
            },
        }
    }
}

// ---------------------------------------------------------------------------
// Approval popup
// ---------------------------------------------------------------------------

/// The decision a key press at the approval popup stands for: `1` allows, `2`
/// always allows, `3` denies; other keys decide nothing.
pub open spec fn key_decision(ch: char) -> Option<ApprovalDecision> {
    if ch == '1' {
        Some(ApprovalDecision::Allow)
    } else if ch == '2' {
        Some(ApprovalDecision::AlwaysAllow)
    } else if ch == '3' {
        Some(ApprovalDecision::Deny)
    } else {
        None
    }
}

/// Law: at the approval popup exactly the key `1` allows, exactly `2` always
/// allows and exactly `3` denies; no other key decides anything.
pub proof fn law_approval_keys(ch: char)
    ensures
        (key_decision(ch) == Some(ApprovalDecision::Allow)) == (ch == '1'),
        (key_decision(ch) == Some(ApprovalDecision::AlwaysAllow)) == (ch == '2'),
        (key_decision(ch) == Some(ApprovalDecision::Deny)) == (ch == '3'),
        (key_decision(ch) is None) == (ch != '1' && ch != '2' && ch != '3'),
{
}

/// The approval popup: the request waiting for an answer, if any. While a request
/// is pending, the popup takes every key.
pub struct ApprovalState<R> {
    request: Option<R>,
}

impl<R> ApprovalState<R> {
    /// The pending request.
    pub closed spec fn spec_request(&self) -> Option<R> {
        self.request
    }

    /// No request pending.
    pub fn new() -> (r: Self)
        ensures
            r.spec_request() is None,
    {
        ApprovalState { request: None }
    }

    /// Shows the popup for `req`.
    pub fn show(&mut self, req: R)
        ensures
            final(self).spec_request() == Some(req),
    {
        self.request = Some(req);
    }

    /// The request waiting for an answer, if any.
    pub fn pending(&self) -> (r: Option<&R>)
        ensures
            r is None <==> self.spec_request() is None,
            r matches Some(req) ==> self.spec_request() == Some(*req),
    {
        self.request.as_ref()
    }

    /// Whether a request waits for an answer.
    pub fn is_pending(&self) -> (r: bool)
        ensures
            r == self.spec_request() is Some,
    {
        self.request.is_some()
    }

    /// Answers the pending request with `decision`: returns the request to send the
    /// decision to, and closes the popup.
    pub fn resolve(&mut self, decision: ApprovalDecision) -> (r: Option<(R, ApprovalDecision)>)
        ensures
            final(self).spec_request() is None,
            match old(self).spec_request() {
                Some(req) => r == Some((req, decision)),
                None => r is None,
            },
    {
        match self.request.take() {
            Some(req) => Some((req, decision)),
            None => None,
        }
    }

    /// Handles a key press while the popup is shown: `1`, `2` and `3` answer the
    /// request; other keys are swallowed.
    pub fn handle_key(&mut self, ch: char) -> (r: Option<(R, ApprovalDecision)>)
        ensures
            match key_decision(ch) {
                None => r is None && final(self).spec_request() == old(self).spec_request(),
                Some(d) => final(self).spec_request() is None && match old(self).spec_request() {
                    Some(req) => r == Some((req, d)),
                    None => r is None,
                },
            },
    {
        let decision = if ch == '1' {
            ApprovalDecision::Allow
        } else if ch == '2' {
            ApprovalDecision::AlwaysAllow
        } else if ch == '3' {
            ApprovalDecision::Deny
        } else {
            return None;
        };
        self.resolve(decision)
    }

    /// Escape: denies the pending request.
    pub fn cancel(&mut self) -> (r: Option<(R, ApprovalDecision)>)
        ensures
            final(self).spec_request() is None,
            match old(self).spec_request() {
                Some(req) => r == Some((req, ApprovalDecision::Deny)),
                None => r is None,
            },
    {
        self.resolve(ApprovalDecision::Deny)
    }
}

/// `s` shortened for display: unchanged when its UTF-8 encoding fits in
/// `max_len` bytes, otherwise its first `max_len - 1` characters followed by `…`.
pub open spec fn truncated_text(s: Seq<char>, max_len: nat) -> Seq<char> {
    if encode_utf8(s).len() <= max_len {
        s
    } else {
        let keep = sat_sub(max_len, 1);
        (if keep < s.len() {
            s.take(keep as int)
        } else {
            s
        }) + seq!['\u{2026}']
    }
}

/// Shortens `s` for display.
pub fn truncate_str(s: &str, max_len: usize) -> (r: String)
    ensures
        r@ == truncated_text(s@, max_len as nat),
{
    let byte_len = s.as_bytes().len();
    proof {
        assert(s.spec_bytes() == encode_utf8(s@));
    }
    if byte_len <= max_len {
        return owned(s);
    }
    let cs = chars_of(s);
    let keep: usize = if max_len > 0 { max_len - 1 } else { 0 };
    let end: usize = if keep < cs.len() { keep } else { cs.len() };
    let mut r = string_from_chars(&cs, 0, end);
    push_char(&mut r, '\u{2026}');
    proof {
        if keep < s@.len() {
            assert(cs@.subrange(0, end as int) =~= s@.take(keep as int));
        } else {
            assert(cs@.subrange(0, end as int) =~= s@);
        }
    }
    r
}

// ---------------------------------------------------------------------------
// Keys
// ---------------------------------------------------------------------------

/// A key of the chat input, as far as the view tells keys apart.
#[derive(Clone, Copy, Debug, PartialEq, Eq, Structural)]
pub enum Key {
    Char(char),
    Esc,
    Enter,
    Tab,
    Up,
    Down,
    PageUp,
    PageDown,
    Other,
}

/// A key event: the key, its modifiers, and whether it is a press (not a repeat
/// or a release).
#[derive(Clone, Copy, Debug, PartialEq, Eq)]
pub struct KeyPress {
    pub key: Key,
    pub ctrl: bool,
    pub shift: bool,
    pub is_press: bool,
}

/// What a key event does.
#[derive(Clone, Copy, Debug, PartialEq, Eq, Structural)]
pub enum KeyAction {
    /// Nothing.
    Ignore,
    /// A character for the approval popup.
    ApprovalKey(char),
    /// Escape at the approval popup: deny.
    ApprovalCancel,
    /// Ctrl-C: hide the completion popup.
    HideCompletion,
    /// Scroll the chat up a page.
    PageUp,
    /// Scroll the chat down a page.
    PageDown,
    /// Recall the previous input.
    HistoryUp,
    /// Recall the next input.
    HistoryDown,
    /// Move the completion selection up.
    CompletionUp,
    /// Move the completion selection down.
    CompletionDown,
    /// Put the selected command into the input.
    CompletionAccept,
    /// Hide the completion popup.
    CompletionHide,
    /// Submit the input.
    Submit,
    /// Edit the input with the key, then refresh the completions.
    Edit,
}

/// What a key event does, given whether an approval is pending, whether the
/// completion popup is visible and whether it has a selected command: the popup
/// takes every key while a request waits; Ctrl-C only hides completions; page keys
/// scroll; arrows walk the history, or the completions when they are shown; Tab
/// accepts a selected completion and Escape hides them; Enter without Shift or
/// Ctrl submits; anything else edits the input.
pub open spec fn key_action(
    k: KeyPress,
    approval_pending: bool,
    completion_visible: bool,
    has_selection: bool,
) -> KeyAction {
    if !k.is_press {
        KeyAction::Ignore
    } else if approval_pending {
        match k.key {
            Key::Char(c) => KeyAction::ApprovalKey(c),
            Key::Esc => KeyAction::ApprovalCancel,
            _ => KeyAction::Ignore,
        }
    } else if k.key == Key::Char('c') && k.ctrl {
        if completion_visible {
            KeyAction::HideCompletion
        } else {
            KeyAction::Ignore
        }
    } else if k.key == Key::PageUp {
        KeyAction::PageUp
    } else if k.key == Key::PageDown {
        KeyAction::PageDown
    } else if !completion_visible && k.key == Key::Up {
        KeyAction::HistoryUp
    } else if !completion_visible && k.key == Key::Down {
        KeyAction::HistoryDown
    } else if completion_visible && k.key == Key::Up {
        KeyAction::CompletionUp
    } else if completion_visible && k.key == Key::Down {
        KeyAction::CompletionDown
    } else if completion_visible && k.key == Key::Tab && has_selection {
        KeyAction::CompletionAccept
    } else if completion_visible && k.key == Key::Esc {
        KeyAction::CompletionHide
    } else if k.key == Key::Enter && !k.shift && !k.ctrl {
        KeyAction::Submit
    } else {
        KeyAction::Edit
    }
}

/// Decides what a key event does.
pub fn classify_key(
    k: KeyPress,
    approval_pending: bool,
    completion_visible: bool,
    has_selection: bool,
) -> (r: KeyAction)
    ensures
        r == key_action(k, approval_pending, completion_visible, has_selection),
{
    if !k.is_press {
        return KeyAction::Ignore;
    }
    if approval_pending {
        return match k.key {
            Key::Char(c) => KeyAction::ApprovalKey(c),
            Key::Esc => KeyAction::ApprovalCancel,
            _ => KeyAction::Ignore,
        };
    }
    if k.key == Key::Char('c') && k.ctrl {
        return if completion_visible {
            KeyAction::HideCompletion
        } else {
            KeyAction::Ignore
        };
    }
    match k.key {
        Key::PageUp => return KeyAction::PageUp,
        Key::PageDown => return KeyAction::PageDown,
        _ => {},
    }
    if !completion_visible {
        match k.key {
            Key::Up => return KeyAction::HistoryUp,
            Key::Down => return KeyAction::HistoryDown,
            _ => {},
        }
    } else {
        match k.key {
            Key::Up => return KeyAction::CompletionUp,
            Key::Down => return KeyAction::CompletionDown,
            Key::Tab => {
                if has_selection {
                    return KeyAction::CompletionAccept;
                }
            },
            Key::Esc => return KeyAction::CompletionHide,
            _ => {},
        }
    }
    if k.key == Key::Enter && !k.shift && !k.ctrl {
        return KeyAction::Submit;
    }
    KeyAction::Edit
}

impl ChatView {
    /// Whether the typed input is taken: it is when it is not empty and the agent
    /// is idle, in which case the view follows the output again. The input is
    /// only borrowed, so a refused input stays with the caller, to be kept in the
    /// editor.
    pub fn submit(&mut self, text: &str) -> (r: bool)
        ensures
            r == (text@.len() > 0 && !old(self).agent_busy),
            r ==> final(self).auto_scroll,
            !r ==> final(self).auto_scroll == old(self).auto_scroll,
            final(self).chat_lines == old(self).chat_lines,
            final(self).agent_busy == old(self).agent_busy,
            final(self).should_quit == old(self).should_quit,
            final(self).scroll_pos == old(self).scroll_pos,
            final(self).content_length == old(self).content_length,
            final(self).visible_height == old(self).visible_height,
    {
        if text.unicode_len() > 0 && !self.agent_busy {
            self.auto_scroll = true;
            true
        } else {
            false
        }
    }

    /// Shows a prompt the user sent.
    pub fn show_prompt(&mut self, text: String)
        ensures
            final(self).chat_lines@ == old(self).chat_lines@.push(ChatLine::User(text)),
            final(self).auto_scroll == old(self).auto_scroll,
            final(self).agent_busy == old(self).agent_busy,
            final(self).should_quit == old(self).should_quit,
            final(self).scroll_pos == old(self).scroll_pos,
            final(self).content_length == old(self).content_length,
            final(self).visible_height == old(self).visible_height,
    {
        self.chat_lines.push(ChatLine::User(text));
    }

    /// Shows an error about the user's input.
    pub fn show_input_error(&mut self, message: String)
        ensures
            final(self).chat_lines@ == old(self).chat_lines@.push(ChatLine::Error(message)),
            final(self).auto_scroll == old(self).auto_scroll,
            final(self).agent_busy == old(self).agent_busy,
            final(self).should_quit == old(self).should_quit,
            final(self).scroll_pos == old(self).scroll_pos,
            final(self).content_length == old(self).content_length,
            final(self).visible_height == old(self).visible_height,
    {
        self.chat_lines.push(ChatLine::Error(message));
    }
}

// ---------------------------------------------------------------------------
// Chat rows
// ---------------------------------------------------------------------------

/// How a piece of a chat row is drawn.
#[derive(Clone, Copy, Debug, PartialEq, Eq, Structural)]
pub enum Tone {
    /// The `>> ` marker of a user line (bold green).
    UserMarker,
    /// Text drawn as is.
    Plain,
    /// The `[tool] ` label (dim yellow).
    ToolLabel,
    /// The `[result] ` label (dim cyan).
    ResultLabel,
    /// The `[think] ` label (dim magenta).
    ThinkLabel,
    /// Dimmed text.
    Dim,
    /// Dimmed italic text.
    DimItalic,
    /// Red text.
    Error,
    /// Dark gray text.
    System,
    /// Markdown, rendered by the terminal layer.
    Markdown,
}

/// A piece of a chat row.
#[derive(Clone, Debug, PartialEq, Eq)]
pub struct Span {
    pub text: String,
    pub tone: Tone,
}

/// The text and tone of each piece of the rows a chat line is drawn as.
pub open spec fn line_rows(line: ChatLine) -> Seq<Seq<(Seq<char>, Tone)>> {
    match line {
        ChatLine::User(t) => seq![seq![(">> "@, Tone::UserMarker), (t@, Tone::Plain)]],
        ChatLine::Assistant(t) => seq![seq![(t@, Tone::Markdown)]],
        ChatLine::ToolCall { name, args } => seq![
            seq![("[tool] "@, Tone::ToolLabel), (name@ + "("@ + args@ + ")"@, Tone::Dim)],
        ],
        ChatLine::ToolResult(t) => seq![seq![("[result] "@, Tone::ResultLabel), (t@, Tone::Dim)]],
        ChatLine::Reasoning(t) => seq![seq![("[think] "@, Tone::ThinkLabel), (t@, Tone::DimItalic)]],
        ChatLine::Status(t) => seq![seq![(t@, Tone::DimItalic)]],
        ChatLine::Error(t) => seq![seq![("[error] "@, Tone::Error), (t@, Tone::Error)]],
        ChatLine::System(t) => Seq::new(
            text_lines(t@).len(),
            |i: int|
                seq![
                    (if i == 0 {
                        "[system] "@
                    } else {
                        "          "@
                    }, Tone::System),
                    (text_lines(t@)[i], Tone::System),
                ],
        ),
    }
}

/// The text and tone of a row's pieces.
pub open spec fn row_view(row: Seq<Span>) -> Seq<(Seq<char>, Tone)> {
    row.map_values(|s: Span| (s.text@, s.tone))
}

fn span(text: &str, tone: Tone) -> (r: Span)
    ensures
        r.text@ == text@,
        r.tone == tone,
{
    Span { text: owned(text), tone }
}

/// The rows a chat line is drawn as.
pub fn chat_line_rows(line: &ChatLine) -> (r: Vec<Vec<Span>>)
    ensures
        r@.len() == line_rows(*line).len(),
        forall|i: int| 0 <= i < r@.len() ==> row_view(#[trigger] r@[i]@) == line_rows(*line)[i],
{
    let mut rows: Vec<Vec<Span>> = Vec::new();
    match line {
        ChatLine::User(t) => {
            rows.push(vec![span(">> ", Tone::UserMarker), span(t.as_str(), Tone::Plain)]);
        },
        ChatLine::Assistant(t) => {
            rows.push(vec![span(t.as_str(), Tone::Markdown)]);
        },
        ChatLine::ToolCall { name, args } => {
            let mut call = owned(name.as_str());
            append_str(&mut call, "(");
            append_str(&mut call, args.as_str());
            append_str(&mut call, ")");
            rows.push(vec![span("[tool] ", Tone::ToolLabel), Span { text: call, tone: Tone::Dim }]);
        },
        ChatLine::ToolResult(t) => {
            rows.push(vec![span("[result] ", Tone::ResultLabel), span(t.as_str(), Tone::Dim)]);
        },
        ChatLine::Reasoning(t) => {
            rows.push(vec![span("[think] ", Tone::ThinkLabel), span(t.as_str(), Tone::DimItalic)]);
        },
        ChatLine::Status(t) => {
            rows.push(vec![span(t.as_str(), Tone::DimItalic)]);
        },
        ChatLine::Error(t) => {
            rows.push(vec![span("[error] ", Tone::Error), span(t.as_str(), Tone::Error)]);
        },
        ChatLine::System(t) => {
            let lines = split_lines(t.as_str());
            let ghost ls = text_lines(t@);
            let mut i: usize = 0;
            while i < lines.len()
                invariant
                    views(lines@) == ls,
                    ls == text_lines(t@),
                    *line == ChatLine::System(*t),
                    0 <= i <= ls.len(),
                    rows@.len() == i,
                    forall|j: int| 0 <= j < i ==> row_view(#[trigger] rows@[j]@) == line_rows(*line)[j],
                decreases ls.len() - i,
            {
                let prefix = if i == 0 {
                    "[system] "
                } else {
                    "          "
                };
                let row = vec![span(prefix, Tone::System), span(lines[i].as_str(), Tone::System)];
                proof {
                    assert(lines@[i as int]@ == ls[i as int]);
                    assert(row_view(row@) =~= line_rows(*line)[i as int]);
                }
                let ghost before = rows@;
                rows.push(row);
                proof {
                    assert forall|j: int| 0 <= j < i + 1 implies row_view(#[trigger] rows@[j]@)
                        == line_rows(*line)[j] by {
                        if j < i {
                            assert(rows@[j] == before[j]);
                        }
                    }
                }
                i = i + 1;
            }
        },
    }
    proof {
        if !(line is System) {
            assert forall|i: int| 0 <= i < rows@.len() implies row_view(#[trigger] rows@[i]@)
                == line_rows(*line)[i] by {
                assert(row_view(rows@[i]@) =~= line_rows(*line)[i]);
            }
        }
    }
    rows
}

// ---------------------------------------------------------------------------
// Approval popup layout
// ---------------------------------------------------------------------------

/// Widest the approval popup gets.
pub const POPUP_MAX_WIDTH: u16 = 60;

/// Height of the approval popup: borders, tool, reason, args, a blank line and
/// the options.
pub const POPUP_HEIGHT: u16 = 8;

/// Where the approval popup goes and what it says.
#[derive(Clone, Debug, PartialEq, Eq)]
pub struct ApprovalPopup {
    pub x: u16,
    pub y: u16,
    pub width: u16,
    pub height: u16,
    pub title: &'static str,
    pub args_preview: String,
    pub options: &'static str,
}

/// Lays out the approval popup above an input area at `(input_x, input_y)` that is
/// `input_width` wide: at most 60 columns, eight rows, one column in, with the
/// arguments shortened to the popup's inner width less the label.
pub fn approval_popup(
    input_x: u16,
    input_y: u16,
    input_width: u16,
    args: &str,
    dangerous: bool,
) -> (r: ApprovalPopup)
    requires
        input_x < u16::MAX,
        input_width >= 10,
    ensures
        r.width == if input_width < POPUP_MAX_WIDTH {
            input_width
        } else {
            POPUP_MAX_WIDTH
        },
        r.height == POPUP_HEIGHT,
        r.x == input_x + 1,
        r.y == sat_sub(input_y as nat, POPUP_HEIGHT as nat),
        r.args_preview@ == truncated_text(args@, (r.width - 4 - 6) as nat),
        r.title@ == if dangerous {
            " DANGER "@
        } else {
            " Approval "@
        },
        r.options@ == if dangerous {
            "  [1] Allow   [3] Deny"@
        } else {
            "  [1] Allow   [2] Always   [3] Deny"@
        },
{
    let width: u16 = if input_width < POPUP_MAX_WIDTH {
        input_width
    } else {
        POPUP_MAX_WIDTH
    };
    let preview_len: usize = (width - 4) as usize - 6;
    let args_preview = truncate_str(args, preview_len);
    let (title, options) = if dangerous {
        (" DANGER ", "  [1] Allow   [3] Deny")
    } else {
        (" Approval ", "  [1] Allow   [2] Always   [3] Deny")
    };
    ApprovalPopup {
        x: input_x + 1,
        y: input_y.saturating_sub(POPUP_HEIGHT),
        width,
        height: POPUP_HEIGHT,
        title,
        args_preview,
        options,
    }
}

} // verus!
