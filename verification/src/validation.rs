//! Request validation shared by streaming and non-streaming backends.
use vstd::prelude::*;
use vstd::string::*;

use crate::chat::{ToolChoice, ToolDefinition};
use crate::error::LlmError;
use crate::request::ChatCompletionRequest;
use crate::text::{append_str, owned, str_eq};

verus! {

/// Whether some configured tool has the given function name.
pub open spec fn has_tool_named(tools: Option<Vec<ToolDefinition>>, name: Seq<char>) -> bool {
    match tools {
        Some(ts) => exists|i: int| 0 <= i < ts@.len() && #[trigger] ts@[i].function.name@ == name,
        None => false,
    }
}

/// The message of the first rule of the shared request checks that `r` breaks, if any.
pub open spec fn common_request_violation(r: ChatCompletionRequest) -> Option<Seq<char>> {
    if r.tool_choice is Some && match r.tools {
        Some(ts) => ts@.len() == 0,
        None => true,
    } {
        Some("tool_choice requires at least one configured tool"@)
    } else if r.tool_choice matches Some(ToolChoice::Named(c)) && !has_tool_named(
        r.tools,
        c.function.name@,
    ) {
        Some("tool_choice references unknown tool '"@ + r.tool_choice->Some_0->Named_0.function.name@ + "'"@)
    } else if r.top_logprobs is Some && r.logprobs != Some(true) {
        Some("top_logprobs requires logprobs=true"@)
    } else {
        None
    }
}

/// The message of the first rule a non-streaming request breaks, if any.
pub open spec fn non_streaming_violation(
    r: ChatCompletionRequest,
    method_name: Seq<char>,
    streaming_method_name: Seq<char>,
) -> Option<Seq<char>> {
    if common_request_violation(r) is Some {
        common_request_violation(r)
    } else if r.stream == Some(true) {
        Some("stream=true is not supported by "@ + method_name + "; use "@ + streaming_method_name
            + " instead"@)
    } else if r.stream_options is Some {
        Some("stream_options require stream=true"@)
    } else {
        None
    }
}

/// The message of the first rule a streaming request breaks, if any.
pub open spec fn streaming_violation(r: ChatCompletionRequest, method_name: Seq<char>) -> Option<
    Seq<char>,
> {
    if common_request_violation(r) is Some {
        common_request_violation(r)
    } else if r.stream == Some(false) {
        Some("stream=false is not supported by "@ + method_name)
    } else {
        None
    }
}

fn find_tool(tools: &Vec<ToolDefinition>, name: &str) -> (r: bool)
    ensures
        r == has_tool_named(Some(*tools), name@),
{
    let mut i: usize = 0;
    while i < tools.len()
        invariant
            0 <= i <= tools@.len(),
            forall|j: int| 0 <= j < i ==> tools@[j].function.name@ != name@,
        decreases tools@.len() - i,
    {
        if str_eq(tools[i].function.name.as_str(), name) {
            return true;
        }
        i = i + 1;
    }
    false
}

/// Validates request fields shared by streaming and non-streaming paths.
pub fn validate_common_request(request: &ChatCompletionRequest) -> (r: Result<(), LlmError>)
    ensures
        match common_request_violation(*request) {
            None => r is Ok,
            Some(msg) => r matches Err(LlmError::InvalidRequest(m)) && m@ == msg,
        },
{
    let no_tools = match &request.tools {
        Some(ts) => ts.len() == 0,
        None => true,
    };
    if request.tool_choice.is_some() && no_tools {
        return Err(LlmError::invalid_request("tool_choice requires at least one configured tool"));
    }
    match &request.tool_choice {
        Some(ToolChoice::Named(choice)) => {
            let exists = match &request.tools {
                Some(ts) => find_tool(ts, choice.function.name.as_str()),
                None => false,
            };
            if !exists {
                let mut msg = owned("tool_choice references unknown tool '");
                append_str(&mut msg, choice.function.name.as_str());
                append_str(&mut msg, "'");
                return Err(LlmError::InvalidRequest(msg));
            }
        },
        _ => {},
    }
    let logprobs_on = match request.logprobs {
        Some(b) => b,
        None => false,
    };
    if request.top_logprobs.is_some() && !logprobs_on {
        return Err(LlmError::invalid_request("top_logprobs requires logprobs=true"));
    }
    Ok(())
}

/// Validates that a request is suitable for a non-streaming endpoint.
pub fn validate_non_streaming_request(
    request: &ChatCompletionRequest,
    method_name: &str,
    streaming_method_name: &str,
) -> (r: Result<(), LlmError>)
    ensures
        match non_streaming_violation(*request, method_name@, streaming_method_name@) {
            None => r is Ok,
            Some(msg) => r matches Err(LlmError::InvalidRequest(m)) && m@ == msg,
        },
{
    validate_common_request(request)?;
    let streaming = match request.stream {
        Some(b) => b,
        None => false,
    };
    if streaming {
        let mut msg = owned("stream=true is not supported by ");
        append_str(&mut msg, method_name);
        append_str(&mut msg, "; use ");
        append_str(&mut msg, streaming_method_name);
        append_str(&mut msg, " instead");
        return Err(LlmError::InvalidRequest(msg));
    }
    if request.stream_options.is_some() {
        return Err(LlmError::invalid_request("stream_options require stream=true"));
    }
    Ok(())
}

/// Validates a request and ensures streaming is enabled, returning the modified request.
pub fn into_validated_streaming_request(request: ChatCompletionRequest, method_name: &str) -> (r:
    Result<ChatCompletionRequest, LlmError>)
    ensures
        match streaming_violation(request, method_name@) {
            None => r == Ok::<ChatCompletionRequest, LlmError>(
                ChatCompletionRequest { stream: Some(true), ..request },
            ),
            Some(msg) => r matches Err(LlmError::InvalidRequest(m)) && m@ == msg,
        },
{
    validate_common_request(&request)?;
    match request.stream {
        Some(false) => {
            let mut msg = owned("stream=false is not supported by ");
            append_str(&mut msg, method_name);
            return Err(LlmError::InvalidRequest(msg));
        },
        _ => {},
    }
    Ok(ChatCompletionRequest { stream: Some(true), ..request })
}

/// Law: a request whose tool choice names a function is accepted only when one of
/// its configured tools is that function; when no configured tool has the name,
/// validation refuses it, naming the missing tool (or the lack of any tool).
pub proof fn law_named_tool_choice_must_exist(r: ChatCompletionRequest, name: Seq<char>)
    requires
        r.tool_choice matches Some(ToolChoice::Named(c)) && c.function.name@ == name,
    ensures
        common_request_violation(r) is None ==> (r.tools matches Some(ts) && exists|i: int|
            0 <= i < ts@.len() && #[trigger] ts@[i].function.name@ == name),
        (match r.tools {
            Some(ts) => ts@.len() > 0 && forall|i: int|
                0 <= i < ts@.len() ==> #[trigger] ts@[i].function.name@ != name,
            None => false,
        }) ==> common_request_violation(r) == Some(
            "tool_choice references unknown tool '"@ + name + "'"@,
        ),
{
}

/// Law: the shared checks accept a request exactly when a tool choice comes with
/// at least one configured tool, a named choice names one of them, and top
/// log-probabilities come only with log-probabilities switched on.
pub proof fn law_common_request_acceptance(r: ChatCompletionRequest)
    ensures
        (common_request_violation(r) is None) == {
            &&& r.tool_choice is Some ==> (r.tools matches Some(ts) && ts@.len() > 0)
            &&& r.tool_choice matches Some(ToolChoice::Named(c)) ==> (r.tools matches Some(ts)
                && exists|i: int| 0 <= i < ts@.len() && #[trigger] ts@[i].function.name@ == c.function.name@)
            &&& r.top_logprobs is Some ==> r.logprobs == Some(true)
        },
{
}

} // verus!
