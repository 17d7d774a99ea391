//! Local tools the model can call, and an adapter that exposes a tool under
//! another name.
use vstd::prelude::*;

use crate::chat::opt_str_view;
use crate::text::owned;

verus! {

/// An executable tool offered to the model.
pub trait LlmTool {
    /// The name the model calls the tool by.
    fn name(&self) -> &str;

    /// Whether `description` is a description this tool may give. A tool that
    /// states nothing of its description admits every text.
    open spec fn allows_description(&self, description: Seq<char>) -> bool {
        true
    }

    /// What the tool does, for the model.
    fn description(&self) -> (r: &str)
        ensures
            self.allows_description(r@),
    ;

    /// Whether `schema` is a JSON schema text this tool may give for its
    /// arguments. A tool that states nothing of its schema admits every text.
    open spec fn allows_schema(&self, schema: Seq<char>) -> bool {
        true
    }

    /// Whether `result` is an outcome this tool may give for the arguments
    /// `args_json`: its output, or the error's text. A tool that states nothing
    /// of its outcomes admits every outcome.
    open spec fn allows_call_outcome(&self, args_json: Seq<char>, result: Result<String, String>) -> bool {
        true
    }

    /// The JSON schema of the tool's arguments, as JSON text.
    fn parameters_schema(&self) -> (r: String)
        ensures
            self.allows_schema(r@),
    ;

    /// Runs the tool on its JSON arguments; the output, or the error's text.
    fn call(&self, args_json: &str) -> (r: Result<String, String>)
        ensures
            self.allows_call_outcome(args_json@, r),
    ;
}

/// Adapter that exposes a tool under another name and, optionally, another
/// description; everything else is the inner tool's.
pub struct RenamedTool<T: LlmTool> {
    inner: T,
    name: String,
    description: Option<String>,
}

impl<T: LlmTool> RenamedTool<T> {
    /// The wrapped tool.
    pub closed spec fn spec_inner(&self) -> T {
        self.inner
    }

    /// The overriding description, if any.
    pub closed spec fn spec_description_override(&self) -> Option<Seq<char>> {
        match self.description {
            Some(d) => Some(d@),
            None => None,
        }
    }

    /// The exposed name.
    pub closed spec fn spec_exposed_name(&self) -> Seq<char> {
        self.name@
    }

    /// Wraps `inner` under `name`; `description`, when given, replaces the inner
    /// tool's description.
    pub fn new(inner: T, name: &str, description: Option<&str>) -> (r: Self)
        ensures
            r.spec_inner() == inner,
            r.spec_exposed_name() == name@,
            r.spec_description_override() == opt_str_view(description),
    {
        let description = match description {
            Some(d) => Some(owned(d)),
            None => None,
        };
        RenamedTool { inner, name: owned(name), description }
    }
}

impl<T: LlmTool> LlmTool for RenamedTool<T> {
    /// The exposed name.
    fn name(&self) -> (r: &str)
        ensures
            r@ == self.spec_exposed_name(),
    {
        self.name.as_str()
    }

    /// The overriding description when there is one, else the inner tool's.
    open spec fn allows_description(&self, description: Seq<char>) -> bool {
        match self.spec_description_override() {
            Some(d) => description == d,
            None => self.spec_inner().allows_description(description),
        }
    }

    /// The overriding description when there is one, else the inner tool's.
    fn description(&self) -> (r: &str)
        ensures
            self.spec_description_override() matches Some(d) ==> r@ == d,
            self.spec_description_override() is None ==> self.spec_inner().allows_description(r@),
    {
        match &self.description {
            Some(d) => d.as_str(),
            None => self.inner.description(),
        }
    }

    /// The inner tool's schemas.
    open spec fn allows_schema(&self, schema: Seq<char>) -> bool {
        self.spec_inner().allows_schema(schema)
    }

    /// The outcomes of the inner tool.
    open spec fn allows_call_outcome(&self, args_json: Seq<char>, result: Result<String, String>) -> bool {
        self.spec_inner().allows_call_outcome(args_json, result)
    }

    /// The inner tool's schema.
    fn parameters_schema(&self) -> (r: String)
        ensures
            self.spec_inner().allows_schema(r@),
    {
        self.inner.parameters_schema()
    }

    /// Runs the inner tool: what it gives for the same arguments.
    fn call(&self, args_json: &str) -> (r: Result<String, String>)
        ensures
            self.spec_inner().allows_call_outcome(args_json@, r),
    {
        self.inner.call(args_json)
    }
}

} // verus!
