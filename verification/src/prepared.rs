//! Prepared chat requests bound to the backend that prepared them, so that a
//! request prepared by one backend is refused by another.
use vstd::prelude::*;

use crate::chat::opt_view;
use crate::common_prepared::{
    body_problem, json_array_member_len, json_bool_member, json_str_member, PreparedChatRequest
        as CommonPrepared, PreparedRequestError,
};
use crate::error::LlmError;
use crate::policy::json_reencoded;
use crate::text::{append_str, owned, str_eq};

verus! {

/// A prepared request with the identity of the backend that prepared it.
#[derive(Clone, Debug, PartialEq, Eq)]
pub struct PreparedChatRequest {
    backend_id: String,
    inner: CommonPrepared,
}

/// The error text for a request prepared by `prepared_by` and sent through `used_by`.
pub open spec fn backend_mismatch_text(prepared_by: Seq<char>, used_by: Seq<char>) -> Seq<char> {
    "prepared request for backend '"@ + prepared_by + "' cannot be used by '"@ + used_by + "'"@
}

impl PreparedChatRequest {
    /// The backend that prepared the request.
    pub closed spec fn spec_backend_id(&self) -> Seq<char> {
        self.backend_id@
    }

    /// The backend-agnostic request.
    pub closed spec fn spec_inner(&self) -> CommonPrepared {
        self.inner
    }

    /// Checks the body and binds it to `backend_id`.
    pub fn from_request_body(backend_id: &str, request_body: &str) -> (r: Result<
        Self,
        PreparedRequestError,
    >)
        ensures
            match body_problem(request_body@) {
                Some(e) => r == Err::<Self, PreparedRequestError>(e),
                None => r matches Ok(p) && p.spec_backend_id() == backend_id@ && Some(
                    p.spec_inner().spec_body(),
                ) == json_reencoded(request_body@) && p.spec_inner().spec_headers().len() == 0,
            },
    {
        let inner = CommonPrepared::from_request_body(request_body)?;
        Ok(PreparedChatRequest { backend_id: owned(backend_id), inner })
    }

    /// Binds an already checked request to `backend_id`.
    pub fn from_common(backend_id: &str, inner: CommonPrepared) -> (r: Self)
        ensures
            r.spec_backend_id() == backend_id@,
            r.spec_inner() == inner,
    {
        PreparedChatRequest { backend_id: owned(backend_id), inner }
    }

    /// The backend that prepared the request.
    pub fn backend_id(&self) -> (r: &str)
        ensures
            r@ == self.spec_backend_id(),
    {
        self.backend_id.as_str()
    }

    /// The backend-agnostic request.
    pub fn inner(&self) -> (r: &CommonPrepared)
        ensures
            *r == self.spec_inner(),
    {
        &self.inner
    }

    /// Accepts execution by `backend_id` only when it prepared the request.
    pub fn ensure_backend(&self, backend_id: &str) -> (r: Result<(), LlmError>)
        ensures
            self.spec_backend_id() == backend_id@ ==> r is Ok,
            self.spec_backend_id() != backend_id@ ==> (r matches Err(LlmError::InvalidRequest(m))
                && m@ == backend_mismatch_text(self.spec_backend_id(), backend_id@)),
    {
        if str_eq(self.backend_id.as_str(), backend_id) {
            return Ok(());
        }
        let mut m = owned("prepared request for backend '");
        append_str(&mut m, self.backend_id.as_str());
        append_str(&mut m, "' cannot be used by '");
        append_str(&mut m, backend_id);
        append_str(&mut m, "'");
        Err(LlmError::InvalidRequest(m))
    }

    /// The body's `model`, when it is a string.
    pub fn model(&self) -> (r: Option<String>)
        ensures
            opt_view(r) == json_str_member(self.spec_inner().spec_body(), "model"@),
    {
        self.inner.model()
    }

    /// The number of messages in the body.
    pub fn message_count(&self) -> (r: usize)
        ensures
            r == match json_array_member_len(self.spec_inner().spec_body(), "messages"@) {
                Some(n) => n,
                None => 0,
            },
    {
        self.inner.message_count()
    }

    /// Whether the body enables streaming.
    pub fn has_stream(&self) -> (r: bool)
        ensures
            r == (json_bool_member(self.spec_inner().spec_body(), "stream"@) == Some(true)),
    {
        self.inner.has_stream()
    }

    /// The body as compact JSON text.
    pub fn request_body_text(&self) -> (r: String)
        ensures
            r@ == self.spec_inner().spec_body(),
    {
        self.inner.request_body_text()
    }

    /// The extra headers.
    pub fn headers(&self) -> (r: &Vec<(String, String)>)
        ensures
            r@ == self.spec_inner().spec_headers(),
    {
        self.inner.headers()
    }

    /// The same request with `headers` in place of the extra headers.
    pub fn with_headers(self, headers: Vec<(String, String)>) -> (r: Self)
        ensures
            r.spec_backend_id() == self.spec_backend_id(),
            r.spec_inner().spec_body() == self.spec_inner().spec_body(),
            r.spec_inner().spec_headers() == headers@,
    {
        PreparedChatRequest { backend_id: self.backend_id, inner: self.inner.with_headers(headers) }
    }
}

} // verus!
