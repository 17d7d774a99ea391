use just_llm_client::shell::{spawn_plan, CommandConfig};
use just_llm_client::shell::{
    clean_terminal_line, command_payload, extract_output, CompletionWatcher, ScrollbackBuffer,
    SessionTable, ShellError, ShellOutput,
};

#[test]
fn scrollback_last_n_returns_recent_lines() {
    let mut buf = ScrollbackBuffer::new(100);
    for i in 0..5 {
        buf.append_line(&format!("line{i}"));
    }
    assert_eq!(buf.last_n(3), "line2\nline3\nline4");
}

#[test]
fn scrollback_trims_oldest_on_overflow() {
    let mut buf = ScrollbackBuffer::new(3);
    for i in 0..5 {
        buf.append_line(&format!("line{i}"));
    }
    assert_eq!(buf.snapshot(), "line2\nline3\nline4");
}

#[test]
fn scrollback_last_n_beyond_length_is_snapshot() {
    let mut buf = ScrollbackBuffer::new(10);
    buf.append_line("a");
    buf.append_line("b");
    assert_eq!(buf.last_n(50), buf.snapshot());
    assert_eq!(buf.last_n(0), "");
    let mut none = ScrollbackBuffer::new(0);
    none.append_line("x");
    assert_eq!(none.snapshot(), "");
}

#[test]
fn extract_output_returns_content_between_sentinels() {
    let output = "__JUST_OUT_S__:00000001\nhello\nworld\n__JUST_EC__:0\n";
    let (cleaned, code) = extract_output(output, "00000001");
    assert_eq!(code, Some(0));
    assert_eq!(cleaned, "hello\nworld");
}

#[test]
fn extract_output_returns_empty_when_markers_missing() {
    let output = "no markers here\n";
    let (cleaned, code) = extract_output(output, "00000001");
    assert_eq!(code, None);
    assert_eq!(cleaned, "");
}

#[test]
fn extract_output_strips_echo_artifacts_as_fallback() {
    let output = "bash-5.3$ echo __JUST_OUT_S__:00000001\n__JUST_OUT_S__:00000001\nbash-5.3$ mkdir foo\nfoo created\nbash-5.3$ echo __JUST_EC__:0\n__JUST_EC__:0\n";
    let (cleaned, code) = extract_output(output, "00000001");
    assert_eq!(code, Some(0));
    assert_eq!(cleaned, "bash-5.3$ mkdir foo\nfoo created");
}

#[test]
fn extract_output_with_nonzero_exit_code() {
    let output = "__JUST_OUT_S__:00000042\nerror: something failed\n__JUST_EC__:1\n";
    let (cleaned, code) = extract_output(output, "00000042");
    assert_eq!(code, Some(1));
    assert_eq!(cleaned, "error: something failed");
}

#[test]
fn extract_output_handles_crlf_and_unparsable_status() {
    let output = "__JUST_OUT_S__:7\r\nx\r\n__JUST_EC__: -3 \r\n";
    assert_eq!(extract_output(output, "7"), ("x".to_owned(), Some(-3)));
    let output = "__JUST_OUT_S__:7\nx\n__JUST_EC__:oops\n";
    assert_eq!(extract_output(output, "7"), ("x".to_owned(), None));
}

#[test]
fn command_payload_frames_the_command() {
    assert_eq!(
        command_payload("0000000a", "ls -l"),
        "echo __JUST_OUT_S__:0000000a\nls -l\necho __JUST_EC__:$?\n"
    );
}

#[test]
fn session_table_tracks_sessions_and_current() {
    let mut table = SessionTable::new("main");
    assert_eq!(table.current_session(), "main");
    assert!(table.check_create("main").is_ok());
    table.add_session("main", "/work");
    assert_eq!(table.check_create("main"), Err(ShellError::session_exists("main")));
    table.add_session("build", "/tmp");
    assert_eq!(table.switch_session("nope"), Err(ShellError::session_not_found("nope")));
    assert!(table.switch_session("build").is_ok());
    assert_eq!(table.current_session(), "build");
    let list = table.list_sessions();
    assert_eq!(list.len(), 2);
    assert_eq!(list[0].name, "main");
    assert_eq!(list[0].cwd, "/work");
    assert!(!list[0].is_current);
    assert!(list[1].is_current);
    assert_eq!(list[1].window_count, 1);
    assert!(table.kill_session("build").is_ok());
    assert_eq!(table.current_session(), "main");
    assert!(table.kill_session("main").is_ok());
    assert_eq!(table.current_session(), "main");
    assert!(table.list_sessions().is_empty());
    assert_eq!(table.kill_session("main"), Err(ShellError::session_not_found("main")));
}

#[test]
fn restart_keeps_cwd_and_current_session() {
    let mut table = SessionTable::new("a");
    table.add_session("a", "/one");
    table.add_session("b", "/two");
    let (cwd, was_current) = table.begin_restart("a").unwrap();
    assert_eq!(cwd, "/one");
    assert!(was_current);
    assert_eq!(table.current_session(), "b");
    table.finish_restart("a", &cwd, was_current);
    assert_eq!(table.current_session(), "a");
    assert_eq!(table.session_cwd("a"), Some("/one".to_owned()));
    assert_eq!(table.begin_restart("zzz"), Err(ShellError::session_not_found("zzz")));
}

#[test]
fn sentinels_count_up_in_hex() {
    let mut table = SessionTable::new("main");
    table.add_session("main", "/");
    assert_eq!(table.generate_sentinel(), "00000000");
    let (sentinel, payload) = table.begin_execute("pwd").unwrap();
    assert_eq!(sentinel, "00000001");
    assert_eq!(payload, "echo __JUST_OUT_S__:00000001\npwd\necho __JUST_EC__:$?\n");
    for _ in 0..9 {
        table.generate_sentinel();
    }
    assert_eq!(table.generate_sentinel(), "0000000b");
    let mut empty = SessionTable::new("ghost");
    assert_eq!(empty.begin_execute("pwd"), Err(ShellError::session_not_found("ghost")));
    assert_eq!(empty.generate_sentinel(), "00000001");
    assert_eq!(empty.require_current(), Err(ShellError::session_not_found("ghost")));
}

#[test]
fn completion_needs_marker_and_stable_snapshots() {
    let mut w = CompletionWatcher::new();
    assert_eq!(w.observe("running".to_owned()), None);
    assert_eq!(w.observe("__JUST_EC__:0".to_owned()), None);
    assert_eq!(w.observe("__JUST_EC__:0".to_owned()), None);
    assert_eq!(w.observe("__JUST_EC__:0".to_owned()), None);
    assert_eq!(w.observe("__JUST_EC__:0".to_owned()), Some("__JUST_EC__:0".to_owned()));
    let mut w = CompletionWatcher::new();
    assert_eq!(w.observe("same".to_owned()), None);
    for _ in 0..10 {
        assert_eq!(w.observe("same".to_owned()), None);
    }
}

#[test]
fn shell_errors_and_outputs() {
    assert_eq!(ShellError::timeout(30).message(), "shell command timed out after 30s");
    assert_eq!(ShellError::session_not_found("x").message(), "shell session not found: x");
    assert_eq!(
        ShellError::session_create_failed("x", "no pty").message(),
        "failed to create shell session x: no pty"
    );
    assert!(ShellOutput::timed_out().timed_out);
    assert_eq!(ShellOutput::background().output, "");
    let done = ShellOutput::completed("__JUST_OUT_S__:1\nok\n__JUST_EC__:0", "1");
    assert_eq!(done, ShellOutput { output: "ok".to_owned(), exit_code: Some(0), timed_out: false });
}

#[test]
fn terminal_lines_lose_line_endings_and_escapes() {
    assert_eq!(clean_terminal_line("\u{1b}[32mfoo\u{1b}[m bar\r\n"), "foo bar");
    assert_eq!(clean_terminal_line("plain\n"), "plain");
    assert_eq!(clean_terminal_line("no newline"), "no newline");
}

#[test]
fn spawn_plan_builds_command_and_environment() {
    let config = CommandConfig::default_config();
    let plan = spawn_plan(&config, false, Some("/home/u"), Some("/bin"), None, None, Some("/work"));
    assert_eq!(plan.argv, vec!["bash".to_owned(), "--login".to_owned()]);
    assert!(!plan.clear_env);
    assert_eq!(plan.env[0], ("TERM".to_owned(), "dumb".to_owned()));
    assert_eq!(plan.env.len(), 4);
    assert_eq!(plan.cwd, "/work");
    let plan = spawn_plan(&config, true, Some("/home/u"), None, None, Some("/req"), None);
    assert_eq!(plan.argv, vec!["bash".to_owned(), "--noprofile".to_owned(), "--norc".to_owned()]);
    assert!(plan.clear_env);
    assert_eq!(
        plan.env[..2],
        [("HOME".to_owned(), "/home/u".to_owned()), ("SHELL".to_owned(), "/bin/bash".to_owned())]
    );
    assert_eq!(plan.cwd, "/req");
    let wrapped = CommandConfig { argv: vec!["bwrap".to_owned(), "bash".to_owned()], login_shell: false };
    let plan = spawn_plan(&wrapped, true, None, None, Some("/bin/zsh"), None, None);
    assert_eq!(plan.argv, vec!["bwrap".to_owned(), "bash".to_owned()]);
    assert_eq!(plan.env[0], ("SHELL".to_owned(), "/bin/zsh".to_owned()));
    assert_eq!(plan.cwd, "/tmp");
}
