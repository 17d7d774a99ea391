//! Tool authorization: policy decisions, interactive approvals remembered per
//! tool call, and the JSON envelopes returned to the model for each tool call.
use vstd::prelude::*;
use vstd::string::*;

use crate::common_prepared::{json_array_member_len, json_is_object, json_str_member};
use crate::error::{tool_call_error_message, ToolCallError};
use crate::num::hex_digit;
use crate::text::{
    append_str, chars_of, is_space, lemma_leading_space_facts, lemma_leading_space_is,
    lemma_trailing_space_facts, lemma_trailing_space_is, owned, str_eq, trim, trimmed, views,
};

verus! {

/// User response to a tool approval prompt.
#[derive(Clone, Copy, Debug, PartialEq, Eq, Structural)]
pub enum ApprovalDecision {
    Allow,
    AlwaysAllow,
    Deny,
}

/// Authorization decision for a tool invocation.
#[derive(Clone, Debug, PartialEq, Eq)]
pub enum ToolDecision {
    Allow,
    Ask { reason: String, dangerous: bool },
    Deny { reason: String },
}

/// Something that can ask a person whether a tool call may run.
pub trait ApprovalProvider {
    /// Whether `decision` is an answer this provider, in its present state, may
    /// give when asked about `tool_name` with `args`, `reason` and `dangerous`.
    /// A provider that states nothing of its answers admits every answer.
    open spec fn allows_answer(
        &self,
        tool_name: Seq<char>,
        args: Seq<char>,
        reason: Seq<char>,
        dangerous: bool,
        decision: ApprovalDecision,
    ) -> bool {
        true
    }

    /// Asks whether `tool_name` may run with `args`; `reason` says why approval
    /// is needed, `dangerous` whether the call is considered destructive.
    fn request_approval(
        &mut self,
        tool_name: &str,
        args: &str,
        reason: &str,
        dangerous: bool,
    ) -> (r: ApprovalDecision)
        ensures
            old(self).allows_answer(tool_name@, args@, reason@, dangerous, r),
    ;
}

/// The key under which an "always allow" answer is remembered: the tool name and
/// its arguments, separated by `':'`.
pub open spec fn approval_key_text(tool_name: Seq<char>, args_json: Seq<char>) -> Seq<char> {
    tool_name + ":"@ + args_json
}

/// Builds the approval key of a tool call.
pub fn approval_key(tool_name: &str, args_json: &str) -> (r: String)
    ensures
        r@ == approval_key_text(tool_name@, args_json@),
{
    let mut r = owned(tool_name);
    append_str(&mut r, ":");
    append_str(&mut r, args_json);
    r
}

/// Asks a provider for approvals and remembers the calls that were always allowed.
pub struct ApprovalController<P: ApprovalProvider> {
    provider: P,
    approved: Vec<String>,
}

impl<P: ApprovalProvider> ApprovalController<P> {
    /// Keys of the calls that were always allowed.
    pub closed spec fn approved_keys(&self) -> Set<Seq<char>> {
        views(self.approved@).to_set()
    }

    /// The provider that is asked.
    pub closed spec fn spec_provider(&self) -> P {
        self.provider
    }

    /// A controller that has approved nothing yet.
    pub fn new(provider: P) -> (r: Self)
        ensures
            r.approved_keys() == Set::<Seq<char>>::empty(),
            r.spec_provider() == provider,
    {
        let r = ApprovalController { provider, approved: Vec::new() };
        proof {
            assert(views(r.approved@) =~= Seq::<Seq<char>>::empty());
            assert(r.approved_keys() =~= Set::<Seq<char>>::empty());
        }
        r
    }

    fn is_approved(&self, key: &str) -> (r: bool)
        ensures
            r == self.approved_keys().contains(key@),
    {
        let n = self.approved.len();
        let mut i: usize = 0;
        while i < n
            invariant
                n == self.approved@.len(),
                0 <= i <= n,
                forall|j: int| 0 <= j < i ==> self.approved@[j]@ != key@,
            decreases n - i,
        {
            if str_eq(self.approved[i].as_str(), key) {
                proof {
                    assert(views(self.approved@)[i as int] == key@);
                }
                return true;
            }
            i = i + 1;
        }
        proof {
            if self.approved_keys().contains(key@) {
                let j = choose|j: int| 0 <= j < views(self.approved@).len() && views(self.approved@)[j] == key@;
                assert(self.approved@[j]@ == key@);
            }
        }
        false
    }

    /// Decides on a tool call whose policy asks for approval: a call always allowed
    /// before is allowed without asking; otherwise the provider is asked, and an
    /// "always allow" answer is remembered for the key.
    pub fn approve(
        &mut self,
        key: &str,
        tool_name: &str,
        args_json: &str,
        reason: &str,
        dangerous: bool,
    ) -> (r: ApprovalDecision)
        ensures
            old(self).approved_keys().contains(key@) ==> r == ApprovalDecision::Allow
                && final(self).approved_keys() == old(self).approved_keys()
                && final(self).spec_provider() == old(self).spec_provider(),
            !old(self).approved_keys().contains(key@) ==> old(self).spec_provider().allows_answer(
                tool_name@,
                args_json@,
                reason@,
                dangerous,
                r,
            ),
            !old(self).approved_keys().contains(key@) ==> final(self).approved_keys() == if r
                == ApprovalDecision::AlwaysAllow {
                old(self).approved_keys().insert(key@)
            } else {
                old(self).approved_keys()
            },
    {
        if self.is_approved(key) {
            return ApprovalDecision::Allow;
        }
        let decision = self.provider.request_approval(tool_name, args_json, reason, dangerous);
        if decision == ApprovalDecision::AlwaysAllow {
            let ghost before = views(self.approved@);
            self.approved.push(owned(key));
            proof {
                assert(views(self.approved@) =~= before.push(key@));
                assert(views(self.approved@).to_set() =~= before.to_set().insert(key@)) by {
                    broadcast use vstd::seq_lib::group_seq_properties;
                }
            }
        }
        decision
    }
}

// ---------------------------------------------------------------------------
// Result envelopes
// ---------------------------------------------------------------------------

/// The JSON string literal serde_json writes for `s`.
pub open spec fn json_string(s: Seq<char>) -> Seq<char> {
    seq!['"'] + json_escaped(s) + seq!['"']
}

/// How serde_json writes `c` inside a string literal: `"` and `\` behind a
/// backslash, the controls with a short escape by it, the other controls below
/// U+0020 as `\u00` and two lowercase hexadecimal digits, any other character as
/// it is.
pub open spec fn json_escaped_char(c: char) -> Seq<char> {
    if c == '"' {
        seq!['\\', '"']
    } else if c == '\\' {
        seq!['\\', '\\']
    } else if c == '\u{8}' {
        seq!['\\', 'b']
    } else if c == '\t' {
        seq!['\\', 't']
    } else if c == '\n' {
        seq!['\\', 'n']
    } else if c == '\u{c}' {
        seq!['\\', 'f']
    } else if c == '\r' {
        seq!['\\', 'r']
    } else if (c as u32) < 0x20 {
        seq!['\\', 'u', '0', '0', hex_digit((c as nat) / 16), hex_digit((c as nat) % 16)]
    } else {
        seq![c]
    }
}

/// The characters of `s`, each as serde_json writes it inside a string literal.
pub open spec fn json_escaped(s: Seq<char>) -> Seq<char>
    decreases s.len(),
{
    if s.len() == 0 {
        Seq::empty()
    } else {
        json_escaped(s.drop_last()) + json_escaped_char(s.last())
    }
}

/// `serde_json::to_string` on a string slice: the JSON string literal of `s`, as
/// its string formatter writes it.
/// Serializing a `str` into memory cannot fail, so the empty fallback is never
/// taken.
#[verifier::external_body]
fn json_string_literal(s: &str) -> (r: String)
    ensures
        r@ == json_string(s@),
{
    match serde_json::to_string(s) {
        Ok(text) => text,
        Err(_) => String::new(),
    }
}

/// The compact text serde_json writes back for the JSON document `text`, when
/// `text` parses as one.
pub uninterp spec fn json_reencoded(text: Seq<char>) -> Option<Seq<char>>;

/// `serde_json::from_str::<serde_json::Value>` followed by the value's `Display`:
/// the document re-serialized compactly, or `None` when it does not parse. The
/// text written for a value parses back to that same value, so it is an object
/// exactly when the input is, with the same string and array members.
#[verifier::external_body]
pub(crate) fn reencode_json(text: &str) -> (r: Option<String>)
    ensures
        match r {
            Some(t) => json_reencoded(text@) == Some(t@),
            None => json_reencoded(text@) is None,
        },
        r matches Some(t) ==> {
            &&& json_is_object(t@) == json_is_object(text@)
            &&& forall|k: Seq<char>| #[trigger] json_str_member(t@, k) == json_str_member(text@, k)
            &&& forall|k: Seq<char>|
                #[trigger] json_array_member_len(t@, k) == json_array_member_len(text@, k)
        },
{
    match serde_json::from_str::<serde_json::Value>(text) {
        Ok(value) => Some(value.to_string()),
        Err(_) => None,
    }
}

/// The `result` member of a successful call: the output itself when it is JSON,
/// the output as a JSON string otherwise.
pub open spec fn result_member(output: Seq<char>) -> Seq<char> {
    match json_reencoded(output) {
        Some(t) => t,
        None => json_string(output),
    }
}

/// The envelope of a successful tool call.
pub open spec fn success_envelope(tool_name: Seq<char>, output: Seq<char>) -> Seq<char> {
    "{\"ok\":true,\"result\":"@ + result_member(output) + ",\"tool_name\":"@ + json_string(
        tool_name,
    ) + "}"@
}

/// The envelope of a failed or refused tool call.
pub open spec fn error_envelope(tool_name: Seq<char>, error: Seq<char>) -> Seq<char> {
    "{\"error\":"@ + json_string(error) + ",\"ok\":false,\"tool_name\":"@ + json_string(tool_name)
        + "}"@
}

/// `{"ok":true,"result":…,"tool_name":…}` for a tool's output.
pub fn success_result(tool_name: &str, output: &str) -> (r: String)
    ensures
        r@ == success_envelope(tool_name@, output@),
{
    let result = match reencode_json(output) {
        Some(t) => t,
        None => json_string_literal(output),
    };
    let mut r = owned("{\"ok\":true,\"result\":");
    append_str(&mut r, result.as_str());
    append_str(&mut r, ",\"tool_name\":");
    let name = json_string_literal(tool_name);
    append_str(&mut r, name.as_str());
    append_str(&mut r, "}");
    r
}

/// `{"error":…,"ok":false,"tool_name":…}` for a tool call that did not run or failed.
pub fn error_result(tool_name: &str, error: &str) -> (r: String)
    ensures
        r@ == error_envelope(tool_name@, error@),
{
    let mut r = owned("{\"error\":");
    let e = json_string_literal(error);
    append_str(&mut r, e.as_str());
    append_str(&mut r, ",\"ok\":false,\"tool_name\":");
    let name = json_string_literal(tool_name);
    append_str(&mut r, name.as_str());
    append_str(&mut r, "}");
    r
}

// ---------------------------------------------------------------------------
// Executor
// ---------------------------------------------------------------------------

/// What the executor answers a tool call that is not allowed to run, given the
/// policy outcome and, when the policy asked, the approval decision.
pub open spec fn refusal(
    tool_name: Seq<char>,
    policy: Result<ToolDecision, String>,
    approval: ApprovalDecision,
) -> Option<Seq<char>> {
    match policy {
        Err(e) => Some(error_envelope(tool_name, "policy evaluation failed: "@ + e@)),
        Ok(ToolDecision::Allow) => None,
        Ok(ToolDecision::Deny { reason }) => Some(
            error_envelope(tool_name, "tool denied: "@ + reason@),
        ),
        Ok(ToolDecision::Ask { reason, dangerous }) => if approval == ApprovalDecision::Deny {
            Some(error_envelope(tool_name, "approval denied: "@ + reason@))
        } else {
            None
        },
    }
}

/// Runs tool calls behind a policy and an approval provider.
///
/// A call is handled in two steps: [`Self::authorize`] takes the policy's
/// decision and asks for approval when needed; when it allows the call, the
/// caller runs the tool and hands the outcome to [`Self::finish`].
pub struct AuthorizedToolExecutor<P: ApprovalProvider> {
    approval: ApprovalController<P>,
}

impl<P: ApprovalProvider> AuthorizedToolExecutor<P> {
    /// Keys of the calls that were always allowed.
    pub closed spec fn approved_keys(&self) -> Set<Seq<char>> {
        self.approval.approved_keys()
    }

    /// The provider that is asked for approvals.
    pub closed spec fn spec_provider(&self) -> P {
        self.approval.spec_provider()
    }

    /// An executor that asks `provider` for approvals.
    pub fn new(provider: P) -> (r: Self)
        ensures
            r.approved_keys() == Set::<Seq<char>>::empty(),
            r.spec_provider() == provider,
    {
        AuthorizedToolExecutor { approval: ApprovalController::new(provider) }
    }

    /// Replaces the approval provider; approvals remembered so far are dropped.
    pub fn set_approval_provider(&mut self, provider: P)
        ensures
            final(self).approved_keys() == Set::<Seq<char>>::empty(),
            final(self).spec_provider() == provider,
    {
        self.approval = ApprovalController::new(provider);
    }

    /// Decides whether a tool call may run, given the policy's outcome: `Ok(())`
    /// when it may, otherwise the error envelope to return to the model. A
    /// policy that asks is answered from the remembered approvals or the provider.
    pub fn authorize(
        &mut self,
        tool_name: &str,
        args_json: &str,
        policy: Result<ToolDecision, String>,
    ) -> (r: Result<(), String>)
        ensures
            !(policy matches Ok(ToolDecision::Ask { .. })) ==> final(self).approved_keys()
                == old(self).approved_keys() && final(self).spec_provider()
                == old(self).spec_provider() && match refusal(
                tool_name@,
                policy,
                ApprovalDecision::Allow,
            ) {
                Some(e) => r matches Err(t) && t@ == e,
                None => r is Ok,
            },
            policy matches Ok(ToolDecision::Ask { reason, dangerous }) ==> {
                let key = approval_key_text(tool_name@, args_json@);
                &&& old(self).approved_keys().contains(key) ==> r is Ok
                    && final(self).approved_keys() == old(self).approved_keys()
                    && final(self).spec_provider() == old(self).spec_provider()
                &&& !old(self).approved_keys().contains(key) ==> exists|d: ApprovalDecision|
                    {
                        &&& old(self).spec_provider().allows_answer(
                            tool_name@,
                            args_json@,
                            reason@,
                            dangerous,
                            d,
                        )
                        &&& final(self).approved_keys() == if d == ApprovalDecision::AlwaysAllow {
                            old(self).approved_keys().insert(key)
                        } else {
                            old(self).approved_keys()
                        }
                        &&& match #[trigger] refusal(tool_name@, policy, d) {
                            Some(e) => r matches Err(t) && t@ == e,
                            None => r is Ok,
                        }
                    }
            },
    {
        let key = approval_key(tool_name, args_json);
        match policy {
            Err(e) => {
                let mut msg = owned("policy evaluation failed: ");
                append_str(&mut msg, e.as_str());
                Err(error_result(tool_name, msg.as_str()))
            },
            Ok(ToolDecision::Allow) => Ok(()),
            Ok(ToolDecision::Deny { reason }) => {
                let mut msg = owned("tool denied: ");
                append_str(&mut msg, reason.as_str());
                Err(error_result(tool_name, msg.as_str()))
            },
            Ok(ToolDecision::Ask { reason, dangerous }) => {
                let decision = self.approval.approve(
                    key.as_str(),
                    tool_name,
                    args_json,
                    reason.as_str(),
                    dangerous,
                );
                proof {
                    let _ = refusal(tool_name@, policy, decision);
                }
                match decision {
                    ApprovalDecision::Deny => {
                        let mut msg = owned("approval denied: ");
                        append_str(&mut msg, reason.as_str());
                        Err(error_result(tool_name, msg.as_str()))
                    },
                    _ => Ok(()),
                }
            },
        }
    }

    /// The envelope returned to the model for a tool that ran: its output, or the
    /// error's text.
    pub fn finish(tool_name: &str, outcome: Result<String, ToolCallError>) -> (r: String)
        ensures
            match outcome {
                Ok(output) => r@ == success_envelope(tool_name@, output@),
                Err(e) => r@ == error_envelope(tool_name@, tool_call_error_message(e)),
            },
    {
        match outcome {
            Ok(output) => success_result(tool_name, output.as_str()),
            Err(e) => {
                let text = e.message();
                error_result(tool_name, text.as_str())
            },
        }
    }
}

// ---------------------------------------------------------------------------
// Console approvals
// ---------------------------------------------------------------------------

/// `c` with ASCII upper-case letters mapped to lower case.
pub open spec fn ascii_lower(c: char) -> char {
    if 'A' <= c <= 'Z' {
        ((c as u32) + 32) as char
    } else {
        c
    }
}

/// Whether an environment value switches a flag on: `1`, `true`, `yes` or `on`,
/// in any ASCII case.
pub open spec fn truthy(value: Seq<char>) -> bool {
    let lower = value.map_values(|c: char| ascii_lower(c));
    lower == "1"@ || lower == "true"@ || lower == "yes"@ || lower == "on"@
}

/// Whether an environment variable's value, when it is set, switches a flag on.
pub fn is_truthy(value: Option<&str>) -> (r: bool)
    ensures
        r == match value {
            Some(v) => truthy(v@),
            None => false,
        },
{
    let v = match value {
        None => return false,
        Some(v) => v,
    };
    let cs = chars_of(v);
    let mut lower = String::new();
    let mut i: usize = 0;
    while i < cs.len()
        invariant
            cs@ == v@,
            0 <= i <= cs@.len(),
            lower@ == v@.take(i as int).map_values(|c: char| ascii_lower(c)),
        decreases cs@.len() - i,
    {
        let c = cs[i];
        let l = if 'A' <= c && c <= 'Z' {
            ((c as u32 + 32) as u8) as char
        } else {
            c
        };
        proof {
            assert(l == ascii_lower(c));
            assert(v@.take(i + 1).map_values(|c: char| ascii_lower(c)) =~= v@.take(
                i as int,
            ).map_values(|c: char| ascii_lower(c)).push(l));
        }
        crate::text::push_char(&mut lower, l);
        i = i + 1;
    }
    proof {
        assert(v@.take(cs@.len() as int) =~= v@);
    }
    let s = lower.as_str();
    str_eq(s, "1") || str_eq(s, "true") || str_eq(s, "yes") || str_eq(s, "on")
}

/// The decision typed at an approval prompt: `1` allows, `2` always allows,
/// anything else denies (surrounding white space ignored).
pub open spec fn decision_for(input: Seq<char>) -> ApprovalDecision {
    let t = trimmed(input);
    if t == "1"@ {
        ApprovalDecision::Allow
    } else if t == "2"@ {
        ApprovalDecision::AlwaysAllow
    } else {
        ApprovalDecision::Deny
    }
}

/// `trimmed(s)` is the single non-space character `c` exactly when `s` holds `c`
/// once and nothing else but white space.
proof fn lemma_trimmed_is_lone(s: Seq<char>, c: char)
    requires
        !is_space(c),
    ensures
        (trimmed(s) =~= seq![c]) == exists|k: int|
            0 <= k < s.len() && s[k] == c && forall|j: int|
                0 <= j < s.len() && j != k ==> is_space(#[trigger] s[j]),
{
    let a = crate::text::leading_space(s);
    lemma_leading_space_facts(s);
    let rest = s.skip(a);
    lemma_trailing_space_facts(rest);
    let b = crate::text::trailing_space(rest);
    if trimmed(s) =~= seq![c] {
        assert(rest.len() - b == 1);
        assert(rest.take(rest.len() - b)[0] == c);
        assert(s[a] == rest[0]);
        assert forall|j: int| 0 <= j < s.len() && j != a implies is_space(#[trigger] s[j]) by {
            if j > a {
                assert(rest[j - a] == s[j]);
            }
        }
    }
    if exists|k: int|
        0 <= k < s.len() && s[k] == c && forall|j: int|
            0 <= j < s.len() && j != k ==> is_space(#[trigger] s[j]) {
        let k = choose|k: int|
            0 <= k < s.len() && s[k] == c && forall|j: int|
                0 <= j < s.len() && j != k ==> is_space(#[trigger] s[j]);
        lemma_leading_space_is(s, k);
        let r = s.skip(k);
        assert(r[0] == c);
        assert forall|j: int| r.len() - (r.len() - 1) <= j < r.len() implies is_space(#[trigger] r[j]) by {
            assert(r[j] == s[j + k]);
        }
        lemma_trailing_space_is(r, r.len() - 1);
        assert(trimmed(s) =~= seq![c]);
    }
}

/// Law: at the console prompt, the answer allows exactly when the line is a
/// single `1` with nothing but white space around it, always allows exactly when
/// it is a single `2` so surrounded, and a blank line (only white space, or
/// nothing) denies.
pub proof fn law_console_answers(input: Seq<char>)
    ensures
        (decision_for(input) == ApprovalDecision::Allow) == exists|k: int|
            0 <= k < input.len() && input[k] == '1' && forall|j: int|
                0 <= j < input.len() && j != k ==> is_space(#[trigger] input[j]),
        (decision_for(input) == ApprovalDecision::AlwaysAllow) == exists|k: int|
            0 <= k < input.len() && input[k] == '2' && forall|j: int|
                0 <= j < input.len() && j != k ==> is_space(#[trigger] input[j]),
        (forall|j: int| 0 <= j < input.len() ==> is_space(#[trigger] input[j])) ==> decision_for(
            input,
        ) == ApprovalDecision::Deny,
{
    reveal_strlit("1");
    reveal_strlit("2");
    assert("1"@ =~= seq!['1']);
    assert("2"@ =~= seq!['2']);
    lemma_trimmed_is_lone(input, '1');
    lemma_trimmed_is_lone(input, '2');
    if forall|j: int| 0 <= j < input.len() ==> is_space(#[trigger] input[j]) {
        lemma_leading_space_is(input, input.len() as int);
        assert(trimmed(input).len() == 0);
    }
}

/// Console approvals: automatic when auto-approval is on, denied when there is
/// no terminal to ask on, otherwise read from a prompt.
#[derive(Clone, Copy, Debug, PartialEq, Eq)]
pub struct StdinApprovalProvider {
    interactive: bool,
    auto_approve: bool,
}

/// The prompt shown for a tool call.
pub open spec fn prompt_text(
    tool_name: Seq<char>,
    args: Seq<char>,
    reason: Seq<char>,
    dangerous: bool,
) -> Seq<char> {
    if dangerous {
        "[DANGER] tool: "@ + tool_name + "\n[DANGER] reason: "@ + reason + "\n[approval] args: "@
            + args + "\n[DANGER] [1] Allow  [3] Deny: "@
    } else {
        "[approval] tool: "@ + tool_name + "\n[approval] reason: "@ + reason
            + "\n[approval] args: "@ + args
            + "\n[approval] [1] Allow  [2] Always allow  [3] Deny: "@
    }
}

impl StdinApprovalProvider {
    /// Whether stdin and stderr are terminals.
    pub closed spec fn spec_interactive(&self) -> bool {
        self.interactive
    }

    /// Whether every call is approved without asking.
    pub closed spec fn spec_auto_approve(&self) -> bool {
        self.auto_approve
    }

    /// A provider for a console that is (or is not) interactive, with automatic
    /// approval on or off.
    pub fn new(interactive: bool, auto_approve: bool) -> (r: Self)
        ensures
            r.spec_interactive() == interactive,
            r.spec_auto_approve() == auto_approve,
    {
        StdinApprovalProvider { interactive, auto_approve }
    }

    /// The decision made without asking: allow when auto-approval is on, deny when
    /// the console is not interactive; `None` when the user must be asked.
    pub fn preset_decision(&self) -> (r: Option<ApprovalDecision>)
        ensures
            r == if self.spec_auto_approve() {
                Some(ApprovalDecision::Allow)
            } else if !self.spec_interactive() {
                Some(ApprovalDecision::Deny)
            } else {
                None::<ApprovalDecision>
            },
    {
        if self.auto_approve {
            Some(ApprovalDecision::Allow)
        } else if !self.interactive {
            Some(ApprovalDecision::Deny)
        } else {
            None
        }
    }

    /// The prompt printed for a tool call.
    pub fn prompt(tool_name: &str, args: &str, reason: &str, dangerous: bool) -> (r: String)
        ensures
            r@ == prompt_text(tool_name@, args@, reason@, dangerous),
    {
        let label = if dangerous {
            "[DANGER]"
        } else {
            "[approval]"
        };
        let mut r = owned(label);
        append_str(&mut r, " tool: ");
        append_str(&mut r, tool_name);
        append_str(&mut r, "\n");
        append_str(&mut r, label);
        append_str(&mut r, " reason: ");
        append_str(&mut r, reason);
        append_str(&mut r, "\n[approval] args: ");
        append_str(&mut r, args);
        if dangerous {
            append_str(&mut r, "\n[DANGER] [1] Allow  [3] Deny: ");
        } else {
            append_str(&mut r, "\n[approval] [1] Allow  [2] Always allow  [3] Deny: ");
        }
        proof {
            reveal_strlit("[DANGER]");
            reveal_strlit("[approval]");
            reveal_strlit(" tool: ");
            reveal_strlit("\n");
            reveal_strlit(" reason: ");
            reveal_strlit("[DANGER] tool: ");
            reveal_strlit("\n[DANGER] reason: ");
            reveal_strlit("[approval] tool: ");
            reveal_strlit("\n[approval] reason: ");
            assert(r@ =~= prompt_text(tool_name@, args@, reason@, dangerous));
        }
        r
    }

    /// The decision for the line typed at the prompt.
    pub fn decision_for_input(input: &str) -> (r: ApprovalDecision)
        ensures
            r == decision_for(input@),
    {
        let t = trim(input);
        if str_eq(t.as_str(), "1") {
            ApprovalDecision::Allow
        } else if str_eq(t.as_str(), "2") {
            ApprovalDecision::AlwaysAllow
        } else {
            ApprovalDecision::Deny
        }
    }
}

} // verus!
