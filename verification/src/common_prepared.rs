//! Backend-agnostic prepared chat requests: a serialized JSON body checked for
//! the shape every chat request has, plus extra HTTP headers.
use vstd::prelude::*;

use crate::chat::opt_view;
use crate::policy::json_reencoded;
use crate::text::owned;

verus! {

/// Whether serde_json reads `text` as a JSON object.
pub uninterp spec fn json_is_object(text: Seq<char>) -> bool;

/// `serde_json::Value::is_object` on the value parsed from `text` (false when it
/// does not parse).
#[verifier::external_body]
fn is_json_object(text: &str) -> (r: bool)
    ensures
        r == json_is_object(text@),
{
    match serde_json::from_str::<serde_json::Value>(text) {
        Ok(v) => v.is_object(),
        Err(_) => false,
    }
}

/// The string member `key` of the JSON value `text`, if it has one.
pub uninterp spec fn json_str_member(text: Seq<char>, key: Seq<char>) -> Option<Seq<char>>;

/// `serde_json::Value::get` then `as_str` on the value parsed from `text`.
#[verifier::external_body]
fn str_member(text: &str, key: &str) -> (r: Option<String>)
    ensures
        opt_view(r) == json_str_member(text@, key@),
{
    match serde_json::from_str::<serde_json::Value>(text) {
        Ok(v) => match v.get(key) {
            Some(m) => match m.as_str() {
                Some(s) => Some(s.to_owned()),
                None => None,
            },
            None => None,
        },
        Err(_) => None,
    }
}

/// The length of the array member `key` of the JSON value `text`, if it has one.
pub uninterp spec fn json_array_member_len(text: Seq<char>, key: Seq<char>) -> Option<nat>;

/// `serde_json::Value::get` then `as_array` on the value parsed from `text`.
#[verifier::external_body]
fn array_member_len(text: &str, key: &str) -> (r: Option<usize>)
    ensures
        match r {
            Some(n) => json_array_member_len(text@, key@) == Some(n as nat),
            None => json_array_member_len(text@, key@) is None,
        },
{
    match serde_json::from_str::<serde_json::Value>(text) {
        Ok(v) => match v.get(key) {
            Some(m) => match m.as_array() {
                Some(a) => Some(a.len()),
                None => None,
            },
            None => None,
        },
        Err(_) => None,
    }
}

/// The boolean member `key` of the JSON value `text`, if it has one.
pub uninterp spec fn json_bool_member(text: Seq<char>, key: Seq<char>) -> Option<bool>;

/// `serde_json::Value::get` then `as_bool` on the value parsed from `text`.
#[verifier::external_body]
fn bool_member(text: &str, key: &str) -> (r: Option<bool>)
    ensures
        r == json_bool_member(text@, key@),
{
    match serde_json::from_str::<serde_json::Value>(text) {
        Ok(v) => match v.get(key) {
            Some(m) => m.as_bool(),
            None => None,
        },
        Err(_) => None,
    }
}

/// Why a request body is not a chat request.
#[derive(Clone, Copy, Debug, PartialEq, Eq, Structural)]
pub enum PreparedRequestError {
    /// The body is not a JSON object.
    NotJsonObject,
    /// The body has no string `model` field.
    MissingModelField,
    /// The body has no `messages` array.
    MissingMessagesArray,
}

/// The text of a [`PreparedRequestError`].
pub open spec fn prepared_error_message(e: PreparedRequestError) -> Seq<char> {
    match e {
        PreparedRequestError::NotJsonObject => "request body must be a JSON object"@,
        PreparedRequestError::MissingModelField => "request body must have a string `model` field"@,
        PreparedRequestError::MissingMessagesArray => "request body must have a `messages` array"@,
    }
}

impl PreparedRequestError {
    /// The error's text.
    pub fn message(&self) -> (r: &'static str)
        ensures
            r@ == prepared_error_message(*self),
    {
        match self {
            PreparedRequestError::NotJsonObject => "request body must be a JSON object",
            PreparedRequestError::MissingModelField => "request body must have a string `model` field",
            PreparedRequestError::MissingMessagesArray => "request body must have a `messages` array",
        }
    }
}

/// How a body is judged: the first shape problem it has, if any.
pub open spec fn body_problem(text: Seq<char>) -> Option<PreparedRequestError> {
    if json_reencoded(text) is None || !json_is_object(text) {
        Some(PreparedRequestError::NotJsonObject)
    } else if json_str_member(text, "model"@) is None {
        Some(PreparedRequestError::MissingModelField)
    } else if json_array_member_len(text, "messages"@) is None {
        Some(PreparedRequestError::MissingMessagesArray)
    } else {
        None
    }
}

/// Backend-agnostic prepared chat request: the canonical JSON body and the extra
/// HTTP headers to send with it.
#[derive(Clone, Debug, PartialEq, Eq)]
pub struct PreparedChatRequest {
    request_body: String,
    extra_headers: Vec<(String, String)>,
}

impl PreparedChatRequest {
    /// The canonical (compact) JSON body.
    pub closed spec fn spec_body(&self) -> Seq<char> {
        self.request_body@
    }

    /// The extra headers, as name and value pairs.
    pub closed spec fn spec_headers(&self) -> Seq<(String, String)> {
        self.extra_headers@
    }

    /// Creates a prepared request from a JSON body, which must be an object with a
    /// `model` string and a `messages` array (checked in that order); it is kept in
    /// compact form, with the same members.
    pub fn from_request_body(request_body: &str) -> (r: Result<Self, PreparedRequestError>)
        ensures
            match body_problem(request_body@) {
                Some(e) => r == Err::<Self, PreparedRequestError>(e),
                None => r matches Ok(p) && Some(p.spec_body()) == json_reencoded(request_body@)
                    && p.spec_headers().len() == 0 && json_is_object(p.spec_body())
                    && json_str_member(p.spec_body(), "model"@) == json_str_member(
                    request_body@,
                    "model"@,
                ) && json_array_member_len(p.spec_body(), "messages"@) == json_array_member_len(
                    request_body@,
                    "messages"@,
                ),
            },
    {
        let canonical = match crate::policy::reencode_json(request_body) {
            Some(t) => t,
            None => return Err(PreparedRequestError::NotJsonObject),
        };
        if !is_json_object(request_body) {
            return Err(PreparedRequestError::NotJsonObject);
        }
        if str_member(request_body, "model").is_none() {
            return Err(PreparedRequestError::MissingModelField);
        }
        if array_member_len(request_body, "messages").is_none() {
            return Err(PreparedRequestError::MissingMessagesArray);
        }
        Ok(PreparedChatRequest { request_body: canonical, extra_headers: Vec::new() })
    }

    /// The body's `model`, when it is a string.
    pub fn model(&self) -> (r: Option<String>)
        ensures
            opt_view(r) == json_str_member(self.spec_body(), "model"@),
    {
        str_member(self.request_body.as_str(), "model")
    }

    /// The number of messages in the body (0 when it has no `messages` array).
    pub fn message_count(&self) -> (r: usize)
        ensures
            r == match json_array_member_len(self.spec_body(), "messages"@) {
                Some(n) => n,
                None => 0,
            },
    {
        match array_member_len(self.request_body.as_str(), "messages") {
            Some(n) => n,
            None => 0,
        }
    }

    /// Whether the body enables streaming (`stream` is `true`).
    pub fn has_stream(&self) -> (r: bool)
        ensures
            r == (json_bool_member(self.spec_body(), "stream"@) == Some(true)),
    {
        match bool_member(self.request_body.as_str(), "stream") {
            Some(b) => b,
            None => false,
        }
    }

    /// The body as compact JSON text.
    pub fn request_body_text(&self) -> (r: String)
        ensures
            r@ == self.spec_body(),
    {
        owned(self.request_body.as_str())
    }

    /// The extra headers.
    pub fn headers(&self) -> (r: &Vec<(String, String)>)
        ensures
            r@ == self.spec_headers(),
    {
        &self.extra_headers
    }

    /// The same request with `headers` in place of the extra headers.
    pub fn with_headers(self, headers: Vec<(String, String)>) -> (r: Self)
        ensures
            r.spec_body() == self.spec_body(),
            r.spec_headers() == headers@,
    {
        PreparedChatRequest { request_body: self.request_body, extra_headers: headers }
    }
}

} // verus!
