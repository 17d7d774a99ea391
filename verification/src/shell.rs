//! Bookkeeping for persistent PTY-backed shell sessions: the scrollback buffer
//! that collects a session's output, the sentinel protocol that frames each
//! command's output, and the table of named sessions.
//!
//! The terminals, child processes and reader threads themselves live with the
//! caller; every decision about them is made here.
use vstd::prelude::*;

use crate::num::{
    decimal, format_decimal, format_hex_padded, hex_padded, i32_value, law_hex_padded_injective,
    parse_i32,
};
use vstd::utf8::{decode_utf8, encode_utf8, valid_utf8};
use crate::text::{
    append_str, chars_of, contains_chars, contains_seq, has_prefix, join, join_range, joined,
    matches_at, occurs_at, owned, position_from, lemma_position_from, split_lines, str_eq, string_from_chars, text_lines, trim,
    trimmed, views,
};

verus! {

/// Marker printed with the exit status after every command.
pub const EC_PREFIX: &'static str = "__JUST_EC__:";

/// Marker printed, followed by the command's sentinel, before every command.
pub const START_PREFIX: &'static str = "__JUST_OUT_S__:";

/// Lines a session's scrollback keeps.
pub const SCROLLBACK_LINES: usize = 10000;

/// The most recent `max` of `lines`.
pub open spec fn most_recent(lines: Seq<Seq<char>>, max: nat) -> Seq<Seq<char>> {
    if lines.len() > max {
        lines.skip(lines.len() - max)
    } else {
        lines
    }
}

/// Line-oriented ring buffer that accumulates a session's output.
pub struct ScrollbackBuffer {
    lines: Vec<String>,
    max_lines: usize,
}

impl ScrollbackBuffer {
    /// The buffered lines, oldest first.
    pub closed spec fn spec_lines(&self) -> Seq<Seq<char>> {
        views(self.lines@)
    }

    /// The number of lines the buffer keeps.
    pub closed spec fn spec_max_lines(&self) -> nat {
        self.max_lines as nat
    }

    /// The buffer never holds more lines than its limit.
    pub open spec fn wf(&self) -> bool {
        self.spec_lines().len() <= self.spec_max_lines()
    }

    /// An empty buffer that keeps at most `max_lines` lines.
    pub fn new(max_lines: usize) -> (r: Self)
        ensures
            r.wf(),
            r.spec_lines() == Seq::<Seq<char>>::empty(),
            r.spec_max_lines() == max_lines,
    {
        let r = ScrollbackBuffer { lines: Vec::with_capacity(1024), max_lines };
        proof {
            assert(r.spec_lines() =~= Seq::<Seq<char>>::empty());
        }
        r
    }

    /// Appends a line, dropping the oldest lines beyond the limit.
    pub fn append_line(&mut self, line: &str)
        ensures
            final(self).spec_max_lines() == old(self).spec_max_lines(),
            final(self).spec_lines() == most_recent(
                old(self).spec_lines().push(line@),
                old(self).spec_max_lines(),
            ),
            final(self).wf(),
    {
        let ghost pushed = old(self).spec_lines().push(line@);
        self.lines.push(owned(line));
        proof {
            assert(views(self.lines@) =~= pushed);
        }
        if self.lines.len() > self.max_lines {
            let excess = self.lines.len() - self.max_lines;
            let kept = self.lines.split_off(excess);
            self.lines = kept;
            proof {
                assert(views(self.lines@) =~= pushed.skip(excess as int));
            }
        }
    }

    /// The last `n` lines joined with `'\n'`.
    pub fn last_n(&self, n: usize) -> (r: String)
        ensures
            r@ == joined(
                if n < self.spec_lines().len() {
                    self.spec_lines().skip(self.spec_lines().len() - n)
                } else {
                    self.spec_lines()
                },
                "\n"@,
            ),
    {
        let len = self.lines.len();
        let start: usize = if n < len { len - n } else { 0 };
        let r = join_range(&self.lines, start, len, "\n");
        proof {
            assert(views(self.lines@.subrange(start as int, len as int)) =~= (if n < len {
                views(self.lines@).skip(len - n)
            } else {
                views(self.lines@)
            }));
        }
        r
    }

    /// All buffered lines joined with `'\n'`.
    pub fn snapshot(&self) -> (r: String)
        ensures
            r@ == joined(self.spec_lines(), "\n"@),
    {
        join(&self.lines, "\n")
    }
}

/// A scrollback never holds more lines than its limit, and after any sequence of
/// appends it holds exactly the most recent of them.
pub proof fn law_scrollback_keeps_most_recent(
    lines: Seq<Seq<char>>,
    max: nat,
    line: Seq<char>,
)
    requires
        lines.len() <= max,
    ensures
        most_recent(lines.push(line), max).len() <= max,
        most_recent(lines.push(line), max).len() > 0 ==> most_recent(lines.push(line), max).last()
            == line,
        max > 0 ==> most_recent(lines.push(line), max).last() == line,
{
}

/// Asking for at least as many lines as the buffer holds gives the whole buffer.
pub proof fn law_last_n_of_all_is_snapshot(lines: Seq<Seq<char>>, n: nat)
    requires
        n >= lines.len(),
    ensures
        (if n < lines.len() {
            lines.skip(lines.len() - n)
        } else {
            lines
        }) == lines,
{
}

// ---------------------------------------------------------------------------
// Sentinel protocol
// ---------------------------------------------------------------------------

/// Index of the first line at or after `i` that starts with the exit-code marker,
/// or `ls.len()` when there is none.
pub open spec fn exit_line_from(ls: Seq<Seq<char>>, i: int) -> int
    decreases ls.len() - i,
{
    if i >= ls.len() {
        ls.len() as int
    } else if has_prefix(ls[i], EC_PREFIX@) {
        i
    } else {
        exit_line_from(ls, i + 1)
    }
}

/// The start marker of the command with the given sentinel.
pub open spec fn start_marker(sentinel: Seq<char>) -> Seq<char> {
    START_PREFIX@ + sentinel
}

/// Whether an output line between the markers belongs to the command's output:
/// it is not a repeated start marker and not an echo of a marker command, which
/// a shell that still echoes its input prints.
pub open spec fn is_output_line(line: Seq<char>, marker: Seq<char>) -> bool {
    &&& line != marker
    &&& !contains_seq(line, "echo "@ + START_PREFIX@)
    &&& !contains_seq(line, "echo "@ + EC_PREFIX@)
}

/// [`is_output_line`] as a predicate on lines.
pub open spec fn output_line_pred(marker: Seq<char>) -> spec_fn(Seq<char>) -> bool {
    |line: Seq<char>| is_output_line(line, marker)
}

/// The command's output lines: those after the first start marker and before the
/// first exit-code line, without markers and echoed marker commands. Nothing when
/// no start marker comes before the first exit-code line.
pub open spec fn command_output_lines(ls: Seq<Seq<char>>, marker: Seq<char>) -> Seq<Seq<char>> {
    let e = exit_line_from(ls, 0);
    let f = position_from(ls, marker, 0);
    if f < e {
        ls.subrange(f + 1, e).filter(output_line_pred(marker))
    } else {
        Seq::empty()
    }
}

/// The exit status on the first exit-code line, when that line carries one.
pub open spec fn command_exit_code(ls: Seq<Seq<char>>) -> Option<i32> {
    let e = exit_line_from(ls, 0);
    if e < ls.len() {
        i32_value(trimmed(ls[e].skip(EC_PREFIX@.len() as int)))
    } else {
        None
    }
}

proof fn lemma_marker_not_exit_line(sentinel: Seq<char>)
    ensures
        !has_prefix(start_marker(sentinel), EC_PREFIX@),
{
    reveal_strlit("__JUST_EC__:");
    reveal_strlit("__JUST_OUT_S__:");
    let m = start_marker(sentinel);
    if has_prefix(m, EC_PREFIX@) {
        assert(m.take(12)[7] == m[7]);
        assert(m[7] == 'O');
    }
}

proof fn lemma_exit_line_bounds(ls: Seq<Seq<char>>, i: int)
    requires
        0 <= i <= ls.len(),
    ensures
        i <= exit_line_from(ls, i) <= ls.len(),
    decreases ls.len() - i,
{
    if i < ls.len() && !has_prefix(ls[i], EC_PREFIX@) {
        lemma_exit_line_bounds(ls, i + 1);
    }
}

/// Extracts a command's output and exit status from a session transcript: the
/// lines between the start marker with `sentinel` and the first exit-code line,
/// joined with `'\n'`, and the status that line carries.
pub fn extract_output(output: &str, sentinel: &str) -> (r: (String, Option<i32>))
    ensures
        r.0@ == joined(command_output_lines(text_lines(output@), start_marker(sentinel@)), "\n"@),
        r.1 == command_exit_code(text_lines(output@)),
{
    let lines = split_lines(output);
    let ghost ls = text_lines(output@);
    let mut marker = owned(START_PREFIX);
    append_str(&mut marker, sentinel);
    let ghost m = start_marker(sentinel@);
    let ec = chars_of(EC_PREFIX);
    let mut echo_start = owned("echo ");
    append_str(&mut echo_start, START_PREFIX);
    let echo_start = chars_of(echo_start.as_str());
    let mut echo_ec = owned("echo ");
    append_str(&mut echo_ec, EC_PREFIX);
    let echo_ec = chars_of(echo_ec.as_str());
    let mut kept: Vec<String> = Vec::new();
    let mut exit_code: Option<i32> = None;
    let mut in_range = false;
    let n = lines.len();
    let mut i: usize = 0;
    proof {
        lemma_marker_not_exit_line(sentinel@);
        lemma_position_from(ls, m, 0);
        reveal(Seq::filter);
    }
    while i < n
        invariant_except_break
            n == ls.len(),
            views(lines@) == ls,
            marker@ == m,
            ec@ == EC_PREFIX@,
            echo_start@ == "echo "@ + START_PREFIX@,
            echo_ec@ == "echo "@ + EC_PREFIX@,
            !has_prefix(m, EC_PREFIX@),
            0 <= i <= n,
            exit_code is None,
            0 <= position_from(ls, m, 0) <= n,
            exit_line_from(ls, 0) == exit_line_from(ls, i as int),
            !in_range ==> position_from(ls, m, 0) == position_from(ls, m, i as int)
                && kept@.len() == 0,
            in_range ==> position_from(ls, m, 0) < i && views(kept@) == ls.subrange(
                position_from(ls, m, 0) + 1,
                i as int,
            ).filter(output_line_pred(m)),
        ensures
            exit_code == command_exit_code(ls),
            views(kept@) == command_output_lines(ls, m),
        decreases n - i,
    {
        let line = lines[i].as_str();
        proof {
            assert(line@ == ls[i as int]);
        }
        if str_eq(line, marker.as_str()) {
            proof {
                if !in_range {
                    assert(position_from(ls, m, i as int) == i);
                }
                assert(exit_line_from(ls, i as int) == exit_line_from(ls, i + 1));
                reveal(Seq::filter);
                let f = position_from(ls, m, 0);
                if in_range {
                    let old_part = ls.subrange(f + 1, i as int);
                    let new_part = ls.subrange(f + 1, i + 1);
                    assert(new_part.drop_last() =~= old_part);
                    assert(new_part.last() == m);
                    assert(!output_line_pred(m)(m));
                    assert(new_part.filter(output_line_pred(m)) == old_part.filter(output_line_pred(m)));
                } else {
                    assert(ls.subrange(f + 1, i + 1) =~= Seq::<Seq<char>>::empty());
                    assert(views(kept@) =~= Seq::<Seq<char>>::empty());
                }
            }
            in_range = true;
            i = i + 1;
            continue;
        }
        let cs = chars_of(line);
        let is_exit_line = matches_at(&cs, &ec, 0);
        proof {
            if EC_PREFIX@.len() <= cs@.len() {
                assert(cs@.subrange(0, EC_PREFIX@.len() as int) =~= cs@.take(
                    EC_PREFIX@.len() as int,
                ));
            }
            assert(is_exit_line == has_prefix(ls[i as int], EC_PREFIX@));
        }
        if is_exit_line {
            proof {
                assert(exit_line_from(ls, i as int) == i);
            }
            let rest = string_from_chars(&cs, ec.len(), cs.len());
            let t = trim(rest.as_str());
            exit_code = parse_i32(t.as_str());
            proof {
                assert(rest@ =~= ls[i as int].skip(EC_PREFIX@.len() as int));
                lemma_exit_line_bounds(ls, 0);
                let f = position_from(ls, m, 0);
                if !in_range {
                    lemma_position_from(ls, m, i as int);
                    assert(views(kept@) =~= Seq::<Seq<char>>::empty());
                }
            }
            break;
        }
        proof {
            assert(exit_line_from(ls, i as int) == exit_line_from(ls, i + 1));
            if !in_range {
                assert(position_from(ls, m, i as int) == position_from(ls, m, i + 1));
            }
        }
        if in_range {
            let a = contains_chars(&cs, &echo_start);
            let b = contains_chars(&cs, &echo_ec);
            let ghost f = position_from(ls, m, 0);
            let ghost old_part = ls.subrange(f + 1, i as int);
            let ghost new_part = ls.subrange(f + 1, i + 1);
            proof {
                reveal(Seq::filter);
                assert(new_part.drop_last() =~= old_part);
                assert(new_part.last() == ls[i as int]);
            }
            if !a && !b {
                kept.push(lines[i].clone());
                proof {
                    assert(output_line_pred(m)(ls[i as int]));
                    assert(views(kept@) =~= views(kept@.drop_last()).push(ls[i as int]));
                }
            } else {
                proof {
                    assert(!output_line_pred(m)(ls[i as int]));
                }
            }
        }
        i = i + 1;
    }
    let text = join(&kept, "\n");
    (text, exit_code)
}

proof fn lemma_exit_line_skip(ls: Seq<Seq<char>>, i: int, j: int)
    requires
        0 <= i <= j <= ls.len(),
        forall|k: int| i <= k < j ==> !has_prefix(#[trigger] ls[k], EC_PREFIX@),
    ensures
        exit_line_from(ls, i) == exit_line_from(ls, j),
    decreases j - i,
{
    if i < j {
        lemma_exit_line_skip(ls, i + 1, j);
    }
}

proof fn lemma_position_skip(ls: Seq<Seq<char>>, x: Seq<char>, i: int, j: int)
    requires
        0 <= i <= j <= ls.len(),
        forall|k: int| i <= k < j ==> #[trigger] ls[k] != x,
    ensures
        position_from(ls, x, i) == position_from(ls, x, j),
    decreases j - i,
{
    if i < j {
        lemma_position_skip(ls, x, i + 1, j);
    }
}

proof fn lemma_filter_keeps_all(s: Seq<Seq<char>>, p: spec_fn(Seq<char>) -> bool)
    requires
        forall|k: int| 0 <= k < s.len() ==> p(#[trigger] s[k]),
    ensures
        s.filter(p) == s,
    decreases s.len(),
{
    reveal(Seq::filter);
    if s.len() > 0 {
        lemma_filter_keeps_all(s.drop_last(), p);
        assert(s.drop_last().push(s.last()) =~= s);
    }
}

proof fn lemma_digits_not_trimmed(d: Seq<char>)
    requires
        d.len() > 0,
        crate::num::all_digits(d),
    ensures
        trimmed(d) == d,
{
    assert('0' <= d[0] <= '9');
    assert('0' <= d.last() <= '9');
    assert(!crate::text::is_space(d[0]));
    assert(!crate::text::is_space(d.last()));
    assert(d.skip(0) =~= d);
    assert(d.take(d.len() as int) =~= d);
}

/// What a shell prints for a framed command reads back as that command's result:
/// when the transcript holds, after lines that are neither the command's start
/// marker nor exit lines, the start marker, the command's output lines, and the
/// exit line with its status, extraction gives exactly those output lines (empty
/// ones included) and that status, whatever follows. Output lines are any lines
/// other than the start marker, exit lines and echoed marker commands.
pub proof fn law_extraction_recovers_command_result(
    pre: Seq<Seq<char>>,
    body: Seq<Seq<char>>,
    post: Seq<Seq<char>>,
    sentinel: Seq<char>,
    status: nat,
)
    requires
        status <= i32::MAX,
        forall|k: int|
            0 <= k < pre.len() ==> #[trigger] pre[k] != start_marker(sentinel) && !has_prefix(
                pre[k],
                EC_PREFIX@,
            ),
        forall|k: int|
            0 <= k < body.len() ==> #[trigger] body[k] != start_marker(sentinel) && !contains_seq(
                body[k],
                "echo "@ + START_PREFIX@,
            ) && !contains_seq(body[k], "echo "@ + EC_PREFIX@) && !has_prefix(body[k], EC_PREFIX@),
    ensures
        ({
            let ls = pre + seq![start_marker(sentinel)] + body + seq![EC_PREFIX@ + decimal(status)]
                + post;
            &&& command_output_lines(ls, start_marker(sentinel)) == body
            &&& command_exit_code(ls) == Some(status as i32)
        }),
{
    let m = start_marker(sentinel);
    let exit = EC_PREFIX@ + decimal(status);
    let ls = pre + seq![m] + body + seq![exit] + post;
    let f = pre.len() as int;
    let e = f + 1 + body.len();
    assert(ls[f] == m);
    assert(ls[e] == exit);
    assert forall|k: int| 0 <= k < f implies #[trigger] ls[k] != m by {
        assert(ls[k] == pre[k]);
    }
    lemma_position_skip(ls, m, 0, f);
    assert(position_from(ls, m, 0) == f);
    lemma_marker_not_exit_line(sentinel);
    assert forall|k: int| 0 <= k < e implies !has_prefix(#[trigger] ls[k], EC_PREFIX@) by {
        if k < f {
            assert(ls[k] == pre[k]);
        } else if k == f {
            assert(ls[k] == m);
        } else {
            assert(ls[k] == body[k - f - 1]);
        }
    }
    lemma_exit_line_skip(ls, 0, e);
    assert(exit.take(EC_PREFIX@.len() as int) =~= EC_PREFIX@);
    assert(has_prefix(ls[e], EC_PREFIX@));
    assert(exit_line_from(ls, 0) == e);
    assert(ls.subrange(f + 1, e) =~= body);
    lemma_filter_keeps_all(body, output_line_pred(m));
    crate::num::lemma_decimal_value(status);
    assert(exit.skip(EC_PREFIX@.len() as int) =~= decimal(status));
    lemma_digits_not_trimmed(decimal(status));
}

// ---------------------------------------------------------------------------
// Errors and results
// ---------------------------------------------------------------------------

/// Failure of a shell-session operation.
#[derive(Clone, Debug, PartialEq, Eq)]
pub enum ShellError {
    /// No session has the given name.
    SessionNotFound { name: String },
    /// A session with the given name already exists.
    SessionExists { name: String },
    /// The terminal or the shell process of a new session could not be started.
    SessionCreateFailed { name: String, reason: String },
    /// The command did not complete within the given number of seconds.
    Timeout { seconds: u64 },
    /// Writing to a session's terminal failed.
    Io(String),
}

/// The text of a [`ShellError`].
pub open spec fn shell_error_message(e: ShellError) -> Seq<char> {
    match e {
        ShellError::SessionNotFound { name } => "shell session not found: "@ + name@,
        ShellError::SessionExists { name } => "shell session already exists: "@ + name@,
        ShellError::SessionCreateFailed { name, reason } => "failed to create shell session "@
            + name@ + ": "@ + reason@,
        ShellError::Timeout { seconds } => "shell command timed out after "@ + decimal(
            seconds as nat,
        ) + "s"@,
        ShellError::Io(message) => "shell I/O error: "@ + message@,
    }
}

impl ShellError {
    /// No session named `name`.
    pub fn session_not_found(name: &str) -> (r: Self)
        ensures
            r matches ShellError::SessionNotFound { name: n } && n@ == name@,
    {
        ShellError::SessionNotFound { name: owned(name) }
    }

    /// A session named `name` already exists.
    pub fn session_exists(name: &str) -> (r: Self)
        ensures
            r matches ShellError::SessionExists { name: n } && n@ == name@,
    {
        ShellError::SessionExists { name: owned(name) }
    }

    /// Session `name` could not be started, for `reason`.
    pub fn session_create_failed(name: &str, reason: &str) -> (r: Self)
        ensures
            r matches ShellError::SessionCreateFailed { name: n, reason: m } && n@ == name@ && m@
                == reason@,
    {
        ShellError::SessionCreateFailed { name: owned(name), reason: owned(reason) }
    }

    /// The command timed out after `seconds`.
    pub fn timeout(seconds: u64) -> (r: Self)
        ensures
            r == (ShellError::Timeout { seconds }),
    {
        ShellError::Timeout { seconds }
    }

    /// The error's text.
    pub fn message(&self) -> (r: String)
        ensures
            r@ == shell_error_message(*self),
    {
        match self {
            ShellError::SessionNotFound { name } => {
                let mut r = owned("shell session not found: ");
                append_str(&mut r, name.as_str());
                r
            },
            ShellError::SessionExists { name } => {
                let mut r = owned("shell session already exists: ");
                append_str(&mut r, name.as_str());
                r
            },
            ShellError::SessionCreateFailed { name, reason } => {
                let mut r = owned("failed to create shell session ");
                append_str(&mut r, name.as_str());
                append_str(&mut r, ": ");
                append_str(&mut r, reason.as_str());
                r
            },
            ShellError::Timeout { seconds } => {
                let mut r = owned("shell command timed out after ");
                let d = format_decimal(*seconds);
                append_str(&mut r, d.as_str());
                append_str(&mut r, "s");
                r
            },
            ShellError::Io(message) => {
                let mut r = owned("shell I/O error: ");
                append_str(&mut r, message.as_str());
                r
            },
        }
    }
}

/// Result of running one command in a session.
#[derive(Clone, Debug, PartialEq, Eq)]
pub struct ShellOutput {
    /// The command's output lines joined with `'\n'`.
    pub output: String,
    /// The command's exit status, when it was read back.
    pub exit_code: Option<i32>,
    /// Whether the command did not complete in time.
    pub timed_out: bool,
}

impl ShellOutput {
    /// The result of a command started in the background: nothing is waited for.
    pub fn background() -> (r: Self)
        ensures
            r.output@ == Seq::<char>::empty(),
            r.exit_code is None,
            !r.timed_out,
    {
        ShellOutput { output: String::new(), exit_code: None, timed_out: false }
    }

    /// The result of a command that did not complete in time.
    pub fn timed_out() -> (r: Self)
        ensures
            r.output@ == Seq::<char>::empty(),
            r.exit_code is None,
            r.timed_out,
    {
        ShellOutput { output: String::new(), exit_code: None, timed_out: true }
    }

    /// The result of a completed command, read from the session transcript.
    pub fn completed(transcript: &str, sentinel: &str) -> (r: Self)
        ensures
            r.output@ == joined(
                command_output_lines(text_lines(transcript@), start_marker(sentinel@)),
                "\n"@,
            ),
            r.exit_code == command_exit_code(text_lines(transcript@)),
            !r.timed_out,
    {
        let (output, exit_code) = extract_output(transcript, sentinel);
        ShellOutput { output, exit_code, timed_out: false }
    }
}

/// What [`SessionTable::list_sessions`] reports of a session.
#[derive(Clone, Debug, PartialEq, Eq)]
pub struct SessionInfo {
    pub name: String,
    pub cwd: String,
    pub is_current: bool,
    pub window_count: usize,
}

// ---------------------------------------------------------------------------
// Command framing and completion
// ---------------------------------------------------------------------------

/// The text written to a session to run `command`: an echo of the start marker
/// with `sentinel`, the command, and an echo of the exit-code marker with `$?`.
pub open spec fn payload_text(sentinel: Seq<char>, command: Seq<char>) -> Seq<char> {
    "echo "@ + START_PREFIX@ + sentinel + "\n"@ + command + "\n"@ + "echo "@ + EC_PREFIX@ + "$?\n"@
}

/// Builds the text written to a session to run `command`.
pub fn command_payload(sentinel: &str, command: &str) -> (r: String)
    ensures
        r@ == payload_text(sentinel@, command@),
{
    let mut r = owned("echo ");
    append_str(&mut r, START_PREFIX);
    append_str(&mut r, sentinel);
    append_str(&mut r, "\n");
    append_str(&mut r, command);
    append_str(&mut r, "\n");
    append_str(&mut r, "echo ");
    append_str(&mut r, EC_PREFIX);
    append_str(&mut r, "$?\n");
    r
}

/// Number of consecutive identical snapshots, after the first one that shows the
/// exit-code marker, that make a command count as complete.
pub const STABLE_CHECKS: usize = 3;

/// Decides when a command has completed, from successive snapshots of the
/// session's scrollback: once the exit-code marker shows and the snapshot has not
/// changed for [`STABLE_CHECKS`] consecutive polls.
pub struct CompletionWatcher {
    last_output: String,
    stable_checks: usize,
}

impl CompletionWatcher {
    /// The previous snapshot.
    pub closed spec fn spec_last_output(&self) -> Seq<char> {
        self.last_output@
    }

    /// How many consecutive polls have seen the same marked snapshot.
    pub closed spec fn spec_stable_checks(&self) -> nat {
        self.stable_checks as nat
    }

    /// The count stays below the threshold between polls.
    pub open spec fn wf(&self) -> bool {
        self.spec_stable_checks() < STABLE_CHECKS
    }

    /// A watcher that has seen nothing yet.
    pub fn new() -> (r: Self)
        ensures
            r.wf(),
            r.spec_last_output() == Seq::<char>::empty(),
            r.spec_stable_checks() == 0,
    {
        CompletionWatcher { last_output: String::new(), stable_checks: 0 }
    }

    /// Takes the next snapshot; returns it when the command counts as complete.
    pub fn observe(&mut self, output: String) -> (r: Option<String>)
        requires
            old(self).wf(),
        ensures
            final(self).wf(),
            ({
                let marked = contains_seq(output@, EC_PREFIX@);
                let same = output@ == old(self).spec_last_output();
                if marked && same && old(self).spec_stable_checks() + 1 >= STABLE_CHECKS {
                    &&& r == Some(output)
                    &&& *final(self) == *old(self)
                } else {
                    &&& r is None
                    &&& final(self).spec_last_output() == output@
                    &&& final(self).spec_stable_checks() == if marked && same {
                        old(self).spec_stable_checks() + 1
                    } else {
                        0
                    }
                }
            }),
    {
        let cs = chars_of(output.as_str());
        let ec = chars_of(EC_PREFIX);
        let marked = contains_chars(&cs, &ec);
        let same = str_eq(output.as_str(), self.last_output.as_str());
        if marked && same {
            if self.stable_checks + 1 >= STABLE_CHECKS {
                return Some(output);
            }
            self.stable_checks = self.stable_checks + 1;
        } else {
            self.stable_checks = 0;
        }
        self.last_output = output;
        None
    }
}

// ---------------------------------------------------------------------------
// Terminal output lines
// ---------------------------------------------------------------------------

/// The bytes `strip_ansi_escapes::strip` leaves of `data`.
pub uninterp spec fn ansi_stripped(data: Seq<u8>) -> Seq<u8>;

/// `strip_ansi_escapes::strip`: removes ANSI escape sequences from `data`. The
/// result is the named function of the input; it is valid UTF-8, since the crate
/// writes it only as formatted characters and line feeds.
#[verifier::external_body]
fn strip_ansi(data: &[u8]) -> (r: Vec<u8>)
    ensures
        r@ == ansi_stripped(data@),
        valid_utf8(r@),
{
    strip_ansi_escapes::strip(data)
}

/// The text `String::from_utf8_lossy` makes of `bytes`.
pub uninterp spec fn lossy_utf8(bytes: Seq<u8>) -> Seq<char>;

/// `String::from_utf8_lossy`: decodes `bytes`, replacing invalid sequences; valid
/// UTF-8 is decoded unchanged.
#[verifier::external_body]
fn utf8_lossy(bytes: &[u8]) -> (r: String)
    ensures
        r@ == lossy_utf8(bytes@),
        valid_utf8(bytes@) ==> r@ == decode_utf8(bytes@),
{
    String::from_utf8_lossy(bytes).into_owned()
}

/// `line` without one trailing `'\n'` and then one trailing `'\r'`.
pub open spec fn without_line_ending(line: Seq<char>) -> Seq<char> {
    let a = if line.len() > 0 && line.last() == '\n' {
        line.drop_last()
    } else {
        line
    };
    if a.len() > 0 && a.last() == '\r' {
        a.drop_last()
    } else {
        a
    }
}

/// The scrollback line for one line read from a terminal: without its line
/// ending and without ANSI escape sequences.
pub fn clean_terminal_line(raw: &str) -> (r: String)
    ensures
        r@ == decode_utf8(ansi_stripped(encode_utf8(without_line_ending(raw@)))),
{
    let cs = chars_of(raw);
    let mut end = cs.len();
    if end > 0 && cs[end - 1] == '\n' {
        end = end - 1;
    }
    if end > 0 && cs[end - 1] == '\r' {
        end = end - 1;
    }
    let line = string_from_chars(&cs, 0, end);
    proof {
        let a = if raw@.len() > 0 && raw@.last() == '\n' {
            raw@.drop_last()
        } else {
            raw@
        };
        if a.len() > 0 && a.last() == '\r' {
            assert(a.drop_last() =~= cs@.subrange(0, end as int));
        } else {
            assert(a =~= cs@.subrange(0, end as int));
        }
    }
    let stripped = strip_ansi(line.as_str().as_bytes());
    utf8_lossy(stripped.as_slice())
}

// ---------------------------------------------------------------------------
// Session table
// ---------------------------------------------------------------------------

/// Name of the session that becomes current when the last one is killed.
pub const FALLBACK_SESSION: &'static str = "main";

/// The named shell sessions, their working directories, the current session and
/// the sentinel counter.
pub struct SessionTable {
    names: Vec<String>,
    cwds: Vec<String>,
    current: String,
    next_sentinel: u64,
}

/// The sessions left after removing the one at `k`, with the current session
/// moved to the first remaining one (or the fallback name) when it was removed.
pub open spec fn current_after_removal(
    names: Seq<Seq<char>>,
    current: Seq<char>,
    removed: Seq<char>,
    k: int,
) -> Seq<char> {
    if current == removed {
        let rest = names.remove(k);
        if rest.len() > 0 {
            rest[0]
        } else {
            FALLBACK_SESSION@
        }
    } else {
        current
    }
}

impl SessionTable {
    /// Session names, in creation order.
    pub closed spec fn spec_names(&self) -> Seq<Seq<char>> {
        views(self.names@)
    }

    /// Working directory of each session, in the same order.
    pub closed spec fn spec_cwds(&self) -> Seq<Seq<char>> {
        views(self.cwds@)
    }

    /// Name of the current session.
    pub closed spec fn spec_current(&self) -> Seq<char> {
        self.current@
    }

    /// The counter the next sentinel is made from.
    pub closed spec fn spec_next_sentinel(&self) -> u64 {
        self.next_sentinel
    }

    /// One working directory per session, and no name twice.
    pub open spec fn wf(&self) -> bool {
        &&& self.spec_names().len() == self.spec_cwds().len()
        &&& self.spec_names().no_duplicates()
    }

    /// Index of session `name`, or the number of sessions when there is none.
    pub open spec fn position(&self, name: Seq<char>) -> int {
        position_from(self.spec_names(), name, 0)
    }

    /// An empty table whose current session is `default_name`.
    pub fn new(default_name: &str) -> (r: Self)
        ensures
            r.wf(),
            r.spec_names() == Seq::<Seq<char>>::empty(),
            r.spec_cwds() == Seq::<Seq<char>>::empty(),
            r.spec_current() == default_name@,
            r.spec_next_sentinel() == 0,
    {
        let r = SessionTable {
            names: Vec::new(),
            cwds: Vec::new(),
            current: owned(default_name),
            next_sentinel: 0,
        };
        proof {
            assert(r.spec_names() =~= Seq::<Seq<char>>::empty());
            assert(r.spec_cwds() =~= Seq::<Seq<char>>::empty());
        }
        r
    }

    /// Index of session `name`, if there is one.
    fn find(&self, name: &str) -> (r: Option<usize>)
        ensures
            match r {
                Some(k) => k == self.position(name@) && k < self.spec_names().len(),
                None => self.position(name@) == self.spec_names().len() && !self.spec_names().contains(name@),
            },
    {
        let n = self.names.len();
        let mut k: usize = 0;
        let ghost ls = self.spec_names();
        proof {
            lemma_position_from(ls, name@, 0);
        }
        while k < n
            invariant
                n == ls.len(),
                ls == self.spec_names(),
                0 <= k <= n,
                position_from(ls, name@, 0) == position_from(ls, name@, k as int),
                forall|j: int| 0 <= j < k ==> ls[j] != name@,
            decreases n - k,
        {
            proof {
                assert(self.names@[k as int]@ == ls[k as int]);
            }
            if str_eq(self.names[k].as_str(), name) {
                return Some(k);
            }
            k = k + 1;
        }
        proof {
            if ls.contains(name@) {
                let j = choose|j: int| 0 <= j < ls.len() && ls[j] == name@;
                assert(ls[j] == name@);
            }
        }
        None
    }

    /// Whether a session named `name` exists.
    pub fn contains(&self, name: &str) -> (r: bool)
        ensures
            r == self.spec_names().contains(name@),
    {
        match self.find(name) {
            Some(k) => {
                proof {
                    lemma_position_from(self.spec_names(), name@, 0);
                }
                true
            },
            None => false,
        }
    }

    /// Checks that a session named `name` may be created: it must not exist yet.
    pub fn check_create(&self, name: &str) -> (r: Result<(), ShellError>)
        ensures
            r is Ok <==> !self.spec_names().contains(name@),
            r matches Err(e) ==> e matches ShellError::SessionExists { name: n } && n@ == name@,
    {
        if self.contains(name) {
            Err(ShellError::session_exists(name))
        } else {
            Ok(())
        }
    }

    /// Records a session that was started for `name` in `cwd`.
    pub fn add_session(&mut self, name: &str, cwd: &str)
        requires
            old(self).wf(),
            !old(self).spec_names().contains(name@),
        ensures
            final(self).wf(),
            final(self).spec_names() == old(self).spec_names().push(name@),
            final(self).spec_cwds() == old(self).spec_cwds().push(cwd@),
            final(self).spec_current() == old(self).spec_current(),
            final(self).spec_next_sentinel() == old(self).spec_next_sentinel(),
    {
        let ghost names0 = self.spec_names();
        let ghost cwds0 = self.spec_cwds();
        self.names.push(owned(name));
        self.cwds.push(owned(cwd));
        proof {
            assert(self.spec_names() =~= names0.push(name@));
            assert(self.spec_cwds() =~= cwds0.push(cwd@));
            assert forall|i: int, j: int|
                0 <= i < self.spec_names().len() && 0 <= j < self.spec_names().len() && i != j
                    implies self.spec_names()[i] != self.spec_names()[j] by {
                if i == names0.len() as int {
                    assert(!names0.contains(name@));
                    assert(names0[j] == self.spec_names()[j]);
                } else if j == names0.len() as int {
                    assert(!names0.contains(name@));
                    assert(names0[i] == self.spec_names()[i]);
                }
            }
        }
    }

    /// Makes `name` the current session.
    pub fn switch_session(&mut self, name: &str) -> (r: Result<(), ShellError>)
        ensures
            r is Ok <==> old(self).spec_names().contains(name@),
            r is Ok ==> final(self).spec_current() == name@,
            r is Err ==> final(self).spec_current() == old(self).spec_current(),
            r matches Err(e) ==> e matches ShellError::SessionNotFound { name: n } && n@ == name@,
            final(self).spec_names() == old(self).spec_names(),
            final(self).spec_cwds() == old(self).spec_cwds(),
            final(self).spec_next_sentinel() == old(self).spec_next_sentinel(),
    {
        if !self.contains(name) {
            return Err(ShellError::session_not_found(name));
        }
        self.current = owned(name);
        Ok(())
    }

    /// Removes the session at `k`, moving the current session on if it was removed.
    fn remove_at(&mut self, k: usize)
        requires
            old(self).wf(),
            k < old(self).spec_names().len(),
        ensures
            final(self).wf(),
            final(self).spec_names() == old(self).spec_names().remove(k as int),
            final(self).spec_cwds() == old(self).spec_cwds().remove(k as int),
            final(self).spec_current() == current_after_removal(
                old(self).spec_names(),
                old(self).spec_current(),
                old(self).spec_names()[k as int],
                k as int,
            ),
            final(self).spec_next_sentinel() == old(self).spec_next_sentinel(),
    {
        let ghost names0 = self.spec_names();
        let ghost cwds0 = self.spec_cwds();
        let removed = self.names.remove(k);
        self.cwds.remove(k);
        proof {
            assert(removed@ == names0[k as int]);
            assert(self.spec_names() =~= names0.remove(k as int));
            assert(self.spec_cwds() =~= cwds0.remove(k as int));
            assert forall|i: int, j: int|
                0 <= i < self.spec_names().len() && 0 <= j < self.spec_names().len() && i != j
                    implies self.spec_names()[i] != self.spec_names()[j] by {
                let i0 = if i < k { i } else { i + 1 };
                let j0 = if j < k { j } else { j + 1 };
                assert(self.spec_names()[i] == names0[i0]);
                assert(self.spec_names()[j] == names0[j0]);
            }
        }
        if str_eq(self.current.as_str(), removed.as_str()) {
            if self.names.len() > 0 {
                self.current = self.names[0].clone();
            } else {
                self.current = owned(FALLBACK_SESSION);
            }
        }
    }

    /// Removes session `name`; when it was current, the first remaining session
    /// (or `"main"` when none remains) becomes current.
    pub fn kill_session(&mut self, name: &str) -> (r: Result<(), ShellError>)
        requires
            old(self).wf(),
        ensures
            final(self).wf(),
            r is Ok <==> old(self).spec_names().contains(name@),
            r matches Err(e) ==> e matches ShellError::SessionNotFound { name: n } && n@ == name@,
            r is Err ==> *final(self) == *old(self),
            r is Ok ==> {
                let k = old(self).position(name@);
                &&& final(self).spec_names() == old(self).spec_names().remove(k)
                &&& final(self).spec_cwds() == old(self).spec_cwds().remove(k)
                &&& final(self).spec_current() == current_after_removal(
                    old(self).spec_names(),
                    old(self).spec_current(),
                    name@,
                    k,
                )
                &&& final(self).spec_next_sentinel() == old(self).spec_next_sentinel()
            },
    {
        match self.find(name) {
            None => Err(ShellError::session_not_found(name)),
            Some(k) => {
                proof {
                    lemma_position_from(self.spec_names(), name@, 0);
                }
                self.remove_at(k);
                Ok(())
            },
        }
    }

    /// First half of a restart: removes session `name` as [`Self::kill_session`]
    /// does and returns its working directory and whether it was current. The
    /// caller starts a new shell there and calls [`Self::finish_restart`].
    pub fn begin_restart(&mut self, name: &str) -> (r: Result<(String, bool), ShellError>)
        requires
            old(self).wf(),
        ensures
            final(self).wf(),
            r is Ok <==> old(self).spec_names().contains(name@),
            r matches Err(e) ==> e matches ShellError::SessionNotFound { name: n } && n@ == name@,
            r is Err ==> *final(self) == *old(self),
            r matches Ok((cwd, was_current)) ==> {
                let k = old(self).position(name@);
                &&& cwd@ == old(self).spec_cwds()[k]
                &&& was_current == (old(self).spec_current() == name@)
                &&& final(self).spec_names() == old(self).spec_names().remove(k)
                &&& final(self).spec_cwds() == old(self).spec_cwds().remove(k)
                &&& final(self).spec_current() == current_after_removal(
                    old(self).spec_names(),
                    old(self).spec_current(),
                    name@,
                    k,
                )
                &&& final(self).spec_next_sentinel() == old(self).spec_next_sentinel()
            },
    {
        match self.find(name) {
            None => Err(ShellError::session_not_found(name)),
            Some(k) => {
                proof {
                    lemma_position_from(self.spec_names(), name@, 0);
                }
                let was_current = str_eq(self.current.as_str(), name);
                let cwd = self.cwds[k].clone();
                self.remove_at(k);
                Ok((cwd, was_current))
            },
        }
    }

    /// Second half of a restart: records the new session and makes it current
    /// again when it was current before.
    pub fn finish_restart(&mut self, name: &str, cwd: &str, was_current: bool)
        requires
            old(self).wf(),
            !old(self).spec_names().contains(name@),
        ensures
            final(self).wf(),
            final(self).spec_names() == old(self).spec_names().push(name@),
            final(self).spec_cwds() == old(self).spec_cwds().push(cwd@),
            final(self).spec_current() == if was_current {
                name@
            } else {
                old(self).spec_current()
            },
            final(self).spec_next_sentinel() == old(self).spec_next_sentinel(),
    {
        self.add_session(name, cwd);
        if was_current {
            self.current = owned(name);
        }
    }

    /// Whether the sentinel counter can still advance.
    pub fn has_sentinel(&self) -> (r: bool)
        ensures
            r == (self.spec_next_sentinel() < u64::MAX),
    {
        self.next_sentinel < u64::MAX
    }

    /// The next sentinel: the counter in eight-digit lowercase hexadecimal.
    pub fn generate_sentinel(&mut self) -> (r: String)
        requires
            old(self).spec_next_sentinel() < u64::MAX,
        ensures
            r@ == hex_padded(old(self).spec_next_sentinel() as nat, 8),
            final(self).spec_next_sentinel() == old(self).spec_next_sentinel() + 1,
            final(self).spec_names() == old(self).spec_names(),
            final(self).spec_cwds() == old(self).spec_cwds(),
            final(self).spec_current() == old(self).spec_current(),
    {
        let r = format_hex_padded(self.next_sentinel, 8);
        self.next_sentinel = self.next_sentinel + 1;
        r
    }

    /// Prepares a command for the current session: draws a sentinel (also when the
    /// session is missing) and returns it with the text to write to the session.
    pub fn begin_execute(&mut self, command: &str) -> (r: Result<(String, String), ShellError>)
        requires
            old(self).spec_next_sentinel() < u64::MAX,
        ensures
            final(self).spec_next_sentinel() == old(self).spec_next_sentinel() + 1,
            final(self).spec_names() == old(self).spec_names(),
            final(self).spec_cwds() == old(self).spec_cwds(),
            final(self).spec_current() == old(self).spec_current(),
            r is Ok <==> old(self).spec_names().contains(old(self).spec_current()),
            r matches Err(e) ==> e matches ShellError::SessionNotFound { name: n } && n@
                == old(self).spec_current(),
            r matches Ok((sentinel, payload)) ==> {
                &&& sentinel@ == hex_padded(old(self).spec_next_sentinel() as nat, 8)
                &&& payload@ == payload_text(sentinel@, command@)
            },
    {
        let sentinel = self.generate_sentinel();
        let current = self.current.clone();
        if !self.contains(current.as_str()) {
            return Err(ShellError::session_not_found(current.as_str()));
        }
        let payload = command_payload(sentinel.as_str(), command);
        Ok((sentinel, payload))
    }

    /// Checks that the current session exists.
    pub fn require_current(&self) -> (r: Result<(), ShellError>)
        ensures
            r is Ok <==> self.spec_names().contains(self.spec_current()),
            r matches Err(e) ==> e matches ShellError::SessionNotFound { name: n } && n@
                == self.spec_current(),
    {
        if self.contains(self.current.as_str()) {
            Ok(())
        } else {
            Err(ShellError::session_not_found(self.current.as_str()))
        }
    }

    /// Name of the current session.
    pub fn current_session(&self) -> (r: &str)
        ensures
            r@ == self.spec_current(),
    {
        self.current.as_str()
    }

    /// Working directory of session `name`, if it exists.
    pub fn session_cwd(&self, name: &str) -> (r: Option<String>)
        requires
            self.wf(),
        ensures
            r is Some <==> self.spec_names().contains(name@),
            r matches Some(c) ==> c@ == self.spec_cwds()[self.position(name@)],
    {
        match self.find(name) {
            None => None,
            Some(k) => {
                proof {
                    lemma_position_from(self.spec_names(), name@, 0);
                }
                Some(self.cwds[k].clone())
            },
        }
    }

    /// One entry per session, in order: its name, working directory, whether it is
    /// current, and one window.
    pub fn list_sessions(&self) -> (r: Vec<SessionInfo>)
        requires
            self.wf(),
        ensures
            r@.len() == self.spec_names().len(),
            forall|i: int|
                0 <= i < r@.len() ==> {
                    &&& #[trigger] r@[i].name@ == self.spec_names()[i]
                    &&& r@[i].cwd@ == self.spec_cwds()[i]
                    &&& r@[i].is_current == (self.spec_names()[i] == self.spec_current())
                    &&& r@[i].window_count == 1
                },
    {
        let mut r: Vec<SessionInfo> = Vec::new();
        let n = self.names.len();
        let mut i: usize = 0;
        while i < n
            invariant
                n == self.spec_names().len(),
                self.wf(),
                0 <= i <= n,
                r@.len() == i,
                forall|j: int|
                    0 <= j < i ==> {
                        &&& #[trigger] r@[j].name@ == self.spec_names()[j]
                        &&& r@[j].cwd@ == self.spec_cwds()[j]
                        &&& r@[j].is_current == (self.spec_names()[j] == self.spec_current())
                        &&& r@[j].window_count == 1
                    },
            decreases n - i,
        {
            proof {
                assert(self.names@[i as int]@ == self.spec_names()[i as int]);
                assert(self.cwds@[i as int]@ == self.spec_cwds()[i as int]);
            }
            let is_current = str_eq(self.names[i].as_str(), self.current.as_str());
            let info = SessionInfo {
                name: self.names[i].clone(),
                cwd: self.cwds[i].clone(),
                is_current,
                window_count: 1,
            };
            let ghost r0 = r@;
            r.push(info);
            proof {
                assert forall|j: int| 0 <= j < i + 1 implies {
                    &&& #[trigger] r@[j].name@ == self.spec_names()[j]
                    &&& r@[j].cwd@ == self.spec_cwds()[j]
                    &&& r@[j].is_current == (self.spec_names()[j] == self.spec_current())
                    &&& r@[j].window_count == 1
                } by {
                    if j < i {
                        assert(r@[j] == r0[j]);
                    }
                }
            }
            i = i + 1;
        }
        r
    }
}

// ---------------------------------------------------------------------------
// Starting shells
// ---------------------------------------------------------------------------

/// The program a session runs.
#[derive(Clone, Debug, PartialEq, Eq)]
pub struct CommandConfig {
    /// Full argument vector; the first element is the program.
    pub argv: Vec<String>,
    /// Whether shell flags are appended (`--login`, or `--noprofile --norc` with a
    /// clean environment); off when the wrapper already passes its own.
    pub login_shell: bool,
}

impl CommandConfig {
    /// `bash` as a login shell.
    pub fn default_config() -> (r: Self)
        ensures
            views(r.argv@) == seq!["bash"@],
            r.login_shell,
    {
        let r = CommandConfig { argv: vec![owned("bash")], login_shell: true };
        proof {
            assert(views(r.argv@) =~= seq!["bash"@]);
        }
        r
    }
}

/// Rows of a session's terminal.
pub const PTY_ROWS: u16 = 24;

/// Columns of a session's terminal, wide enough that output lines are not wrapped.
pub const PTY_COLS: u16 = 500;

/// Written to a new session to turn off prompts and input echo.
pub const SHELL_SETUP: &'static str = "export PS1='' PS2=''; stty -echo 2>/dev/null\n";

/// How to start a session's shell.
#[derive(Clone, Debug, PartialEq, Eq)]
pub struct SpawnPlan {
    /// The argument vector.
    pub argv: Vec<String>,
    /// Whether the inherited environment is cleared first.
    pub clear_env: bool,
    /// Environment variables to set, in order.
    pub env: Vec<(String, String)>,
    /// The working directory.
    pub cwd: String,
}

/// The views of name and value pairs.
pub open spec fn pair_views(v: Seq<(String, String)>) -> Seq<(Seq<char>, Seq<char>)> {
    v.map_values(|p: (String, String)| (p.0@, p.1@))
}

/// The flags appended to the configured command.
pub open spec fn shell_flags(login_shell: bool, clean_env: bool) -> Seq<Seq<char>> {
    if !login_shell {
        Seq::empty()
    } else if clean_env {
        seq!["--noprofile"@, "--norc"@]
    } else {
        seq!["--login"@]
    }
}

/// The variables a new shell gets: with a clean environment, the caller's `HOME`
/// and `PATH` (when set) and its `SHELL` (default `/bin/bash`); then, always,
/// settings that turn colored output off.
pub open spec fn spawn_env(
    clean_env: bool,
    home: Option<Seq<char>>,
    path: Option<Seq<char>>,
    shell: Option<Seq<char>>,
) -> Seq<(Seq<char>, Seq<char>)> {
    let kept = if clean_env {
        (match home {
            Some(h) => seq![("HOME"@, h)],
            None => Seq::empty(),
        }) + (match path {
            Some(p) => seq![("PATH"@, p)],
            None => Seq::empty(),
        }) + seq![
            ("SHELL"@, match shell {
                Some(s) => s,
                None => "/bin/bash"@,
            }),
        ]
    } else {
        Seq::empty()
    };
    kept + seq![("TERM"@, "dumb"@), ("NO_COLOR"@, "1"@), ("LS_COLORS"@, ""@), ("CLICOLOR"@, "0"@)]
}

fn push_pair(env: &mut Vec<(String, String)>, name: &str, value: &str)
    ensures
        pair_views(final(env)@) == pair_views(old(env)@).push((name@, value@)),
{
    let ghost before = pair_views(env@);
    env.push((owned(name), owned(value)));
    proof {
        assert(pair_views(env@) =~= before.push((name@, value@)));
    }
}

fn push_arg(argv: &mut Vec<String>, arg: &str)
    ensures
        views(final(argv)@) == views(old(argv)@).push(arg@),
{
    let ghost before = views(argv@);
    argv.push(owned(arg));
    proof {
        assert(views(argv@) =~= before.push(arg@));
    }
}

/// Plans how a session's shell is started: the configured command with its
/// shell flags, the environment, and the working directory (the one asked for,
/// else the caller's current directory, else `/tmp`).
pub fn spawn_plan(
    config: &CommandConfig,
    clean_env: bool,
    home: Option<&str>,
    path: Option<&str>,
    shell: Option<&str>,
    requested_cwd: Option<&str>,
    current_dir: Option<&str>,
) -> (r: SpawnPlan)
    ensures
        views(r.argv@) == views(config.argv@) + shell_flags(config.login_shell, clean_env),
        r.clear_env == clean_env,
        pair_views(r.env@) == spawn_env(
            clean_env,
            crate::chat::opt_str_view(home),
            crate::chat::opt_str_view(path),
            crate::chat::opt_str_view(shell),
        ),
        r.cwd@ == match requested_cwd {
            Some(c) => c@,
            None => match current_dir {
                Some(c) => c@,
                None => "/tmp"@,
            },
        },
{
    let mut argv: Vec<String> = Vec::new();
    let mut i: usize = 0;
    while i < config.argv.len()
        invariant
            0 <= i <= config.argv@.len(),
            views(argv@) == views(config.argv@).take(i as int),
        decreases config.argv@.len() - i,
    {
        let ghost before = views(argv@);
        argv.push(config.argv[i].clone());
        proof {
            assert(views(argv@) =~= before.push(config.argv@[i as int]@));
            assert(views(config.argv@).take(i + 1) =~= views(config.argv@).take(i as int).push(
                config.argv@[i as int]@,
            ));
        }
        i = i + 1;
    }
    proof {
        assert(views(config.argv@).take(i as int) =~= views(config.argv@));
    }
    let ghost base = views(argv@);
    if config.login_shell {
        if clean_env {
            push_arg(&mut argv, "--noprofile");
            push_arg(&mut argv, "--norc");
        } else {
            push_arg(&mut argv, "--login");
        }
    }
    proof {
        assert(views(argv@) =~= base + shell_flags(config.login_shell, clean_env));
    }
    let mut env: Vec<(String, String)> = Vec::new();
    if clean_env {
        match home {
            Some(h) => push_pair(&mut env, "HOME", h),
            None => {},
        }
        match path {
            Some(p) => push_pair(&mut env, "PATH", p),
            None => {},
        }
        match shell {
            Some(s) => push_pair(&mut env, "SHELL", s),
            None => push_pair(&mut env, "SHELL", "/bin/bash"),
        }
    }
    let ghost kept = pair_views(env@);
    push_pair(&mut env, "TERM", "dumb");
    push_pair(&mut env, "NO_COLOR", "1");
    push_pair(&mut env, "LS_COLORS", "");
    push_pair(&mut env, "CLICOLOR", "0");
    proof {
        let colors = seq![("TERM"@, "dumb"@), ("NO_COLOR"@, "1"@), ("LS_COLORS"@, ""@), ("CLICOLOR"@, "0"@)];
        assert(pair_views(env@) =~= kept + colors);
        let expected_kept = if clean_env {
            (match crate::chat::opt_str_view(home) {
                Some(h) => seq![("HOME"@, h)],
                None => Seq::empty(),
            }) + (match crate::chat::opt_str_view(path) {
                Some(p) => seq![("PATH"@, p)],
                None => Seq::empty(),
            }) + seq![
                ("SHELL"@, match crate::chat::opt_str_view(shell) {
                    Some(s) => s,
                    None => "/bin/bash"@,
                }),
            ]
        } else {
            Seq::empty()
        };
        assert(kept =~= expected_kept);
    }
    let cwd = match requested_cwd {
        Some(c) => owned(c),
        None => match current_dir {
            Some(c) => owned(c),
            None => owned("/tmp"),
        },
    };
    SpawnPlan { argv, clear_env: clean_env, env, cwd }
}

/// Restarting a session leaves the current session as it was: a restarted current
/// session is current again, and any other current session is untouched.
pub proof fn law_restart_keeps_current(names: Seq<Seq<char>>, current: Seq<char>, name: Seq<char>)
    requires
        names.contains(name),
    ensures
        ({
            let k = position_from(names, name, 0);
            let was_current = current == name;
            let after_kill = current_after_removal(names, current, name, k);
            (if was_current {
                name
            } else {
                after_kill
            }) == current
        }),
{
}

/// Sentinels drawn from different counter values differ, so each command's output
/// is framed by a marker no other command uses.
pub proof fn law_sentinels_are_unique(a: u64, b: u64)
    requires
        a != b,
    ensures
        hex_padded(a as nat, 8) != hex_padded(b as nat, 8),
{
    law_hex_padded_injective(a as nat, b as nat, 8);
}

} // verus!
