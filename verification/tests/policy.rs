use just_llm_client::error::ToolCallError;
use just_llm_client::policy::{
    approval_key, error_result, is_truthy, success_result, ApprovalController, ApprovalDecision,
    ApprovalProvider, AuthorizedToolExecutor, StdinApprovalProvider, ToolDecision,
};

struct Scripted {
    answers: Vec<ApprovalDecision>,
    asked: usize,
}

impl ApprovalProvider for Scripted {
    fn request_approval(&mut self, _tool: &str, _args: &str, _reason: &str, _dangerous: bool) -> ApprovalDecision {
        let d = self.answers[self.asked];
        self.asked += 1;
        d
    }
}

#[test]
fn approval_key_joins_tool_and_args() {
    assert_eq!(approval_key("shell", "{\"cmd\":\"ls\"}"), "shell:{\"cmd\":\"ls\"}");
}

#[test]
fn always_allow_is_remembered_per_key() {
    let mut c = ApprovalController::new(Scripted {
        answers: vec![ApprovalDecision::AlwaysAllow, ApprovalDecision::Deny, ApprovalDecision::Allow],
        asked: 0,
    });
    assert_eq!(c.approve("k", "t", "a", "r", false), ApprovalDecision::AlwaysAllow);
    assert_eq!(c.approve("k", "t", "a", "r", false), ApprovalDecision::Allow);
    assert_eq!(c.approve("other", "t", "b", "r", true), ApprovalDecision::Deny);
    assert_eq!(c.approve("other", "t", "b", "r", true), ApprovalDecision::Allow);
}

#[test]
fn result_envelopes_are_compact_json_with_sorted_keys() {
    assert_eq!(success_result("shell", "{\"b\": 2, \"a\": 1}"), "{\"ok\":true,\"result\":{\"a\":1,\"b\":2},\"tool_name\":\"shell\"}");
    assert_eq!(success_result("shell", "plain \"text\""), "{\"ok\":true,\"result\":\"plain \\\"text\\\"\",\"tool_name\":\"shell\"}");
    assert_eq!(error_result("shell", "boom"), "{\"error\":\"boom\",\"ok\":false,\"tool_name\":\"shell\"}");
}

#[test]
fn executor_refuses_by_policy_and_by_approval() {
    let mut ex = AuthorizedToolExecutor::new(Scripted {
        answers: vec![ApprovalDecision::Deny, ApprovalDecision::AlwaysAllow],
        asked: 0,
    });
    assert_eq!(ex.authorize("t", "{}", Ok(ToolDecision::Allow)), Ok(()));
    assert_eq!(
        ex.authorize("t", "{}", Ok(ToolDecision::Deny { reason: "no".to_owned() })),
        Err("{\"error\":\"tool denied: no\",\"ok\":false,\"tool_name\":\"t\"}".to_owned())
    );
    assert_eq!(
        ex.authorize("t", "{}", Err("bad rules".to_owned())),
        Err("{\"error\":\"policy evaluation failed: bad rules\",\"ok\":false,\"tool_name\":\"t\"}".to_owned())
    );
    let ask = || Ok(ToolDecision::Ask { reason: "writes".to_owned(), dangerous: false });
    assert_eq!(
        ex.authorize("t", "{}", ask()),
        Err("{\"error\":\"approval denied: writes\",\"ok\":false,\"tool_name\":\"t\"}".to_owned())
    );
    assert_eq!(ex.authorize("t", "{}", ask()), Ok(()));
    assert_eq!(ex.authorize("t", "{}", ask()), Ok(()));
}

#[test]
fn executor_wraps_tool_outcomes() {
    type Ex = AuthorizedToolExecutor<Scripted>;
    assert_eq!(Ex::finish("t", Ok("[1,2]".to_owned())), "{\"ok\":true,\"result\":[1,2],\"tool_name\":\"t\"}");
    let err = ToolCallError::execution("t", "exit 1");
    assert_eq!(
        Ex::finish("t", Err(err)),
        "{\"error\":\"tool 't' execution failed: exit 1\",\"ok\":false,\"tool_name\":\"t\"}"
    );
}

#[test]
fn truthy_values_ignore_ascii_case() {
    for v in ["1", "true", "TRUE", "Yes", "on", "On"] {
        assert!(is_truthy(Some(v)), "{v}");
    }
    for v in ["", "0", "no", "off", " true", "yes!"] {
        assert!(!is_truthy(Some(v)), "{v}");
    }
    assert!(!is_truthy(None));
}

#[test]
fn console_approvals() {
    assert_eq!(StdinApprovalProvider::new(true, true).preset_decision(), Some(ApprovalDecision::Allow));
    assert_eq!(StdinApprovalProvider::new(false, false).preset_decision(), Some(ApprovalDecision::Deny));
    assert_eq!(StdinApprovalProvider::new(true, false).preset_decision(), None);
    assert_eq!(StdinApprovalProvider::decision_for_input("1\n"), ApprovalDecision::Allow);
    assert_eq!(StdinApprovalProvider::decision_for_input(" 2 "), ApprovalDecision::AlwaysAllow);
    assert_eq!(StdinApprovalProvider::decision_for_input("3"), ApprovalDecision::Deny);
    assert_eq!(StdinApprovalProvider::decision_for_input("yes"), ApprovalDecision::Deny);
    assert_eq!(
        StdinApprovalProvider::prompt("rm", "{}", "deletes", true),
        "[DANGER] tool: rm\n[DANGER] reason: deletes\n[approval] args: {}\n[DANGER] [1] Allow  [3] Deny: "
    );
    assert_eq!(
        StdinApprovalProvider::prompt("ls", "{}", "reads", false),
        "[approval] tool: ls\n[approval] reason: reads\n[approval] args: {}\n[approval] [1] Allow  [2] Always allow  [3] Deny: "
    );
}

#[test]
fn envelope_strings_use_json_escapes() {
    assert_eq!(
        error_result("t/x", "a\u{1}\n\t\\\"é\u{7f}"),
        "{\"error\":\"a\\u0001\\n\\t\\\\\\\"é\u{7f}\",\"ok\":false,\"tool_name\":\"t/x\"}"
    );
    assert_eq!(
        success_result("t", "not json \u{8}\u{c}\r\u{1f}"),
        "{\"ok\":true,\"result\":\"not json \\b\\f\\r\\u001f\",\"tool_name\":\"t\"}"
    );
}
