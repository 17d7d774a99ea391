//! Normalized balance, model-catalog, context-metrics and token-estimate types.
use vstd::prelude::*;

use crate::chat::Usage;
use crate::prepared::PreparedChatRequest;

verus! {

/// Currency codes currently normalized by the client layer.
#[derive(Clone, Debug, PartialEq, Eq)]
#[non_exhaustive]
pub enum Currency {
    /// Chinese yuan.
    Cny,
    /// United States dollars.
    Usd,
    /// A currency not explicitly listed above.
    Other(String),
}

/// Normalized balance entry for a specific currency.
#[derive(Clone, Debug, PartialEq, Eq)]
pub struct BalanceEntry {
    /// Currency for the balance values.
    pub currency: Currency,
    /// Total balance reported by the provider.
    pub total_balance: String,
    /// Portion of the balance granted by the provider.
    pub granted_balance: String,
    /// Portion of the balance added through top-up.
    pub topped_up_balance: String,
}

/// Normalized balance snapshot returned by a backend.
#[derive(Clone, Debug, PartialEq, Eq)]
pub struct BalanceSnapshot {
    /// Whether the provider reports the account as currently available for use.
    pub is_available: bool,
    /// Per-currency balance entries.
    pub entries: Vec<BalanceEntry>,
}

/// Minimal normalized model metadata.
#[derive(Clone, Debug, PartialEq, Eq)]
pub struct ModelInfo {
    /// Provider model identifier.
    pub id: String,
    /// Optional provider object label from the upstream API.
    pub object: Option<String>,
    /// Optional owner or namespace metadata from the upstream API.
    pub owned_by: Option<String>,
}

/// Normalized model catalog returned by an LLM client backend.
#[derive(Clone, Debug, PartialEq, Eq)]
pub struct ModelCatalogResponse {
    /// Models currently exposed by the backend.
    pub data: Vec<ModelInfo>,
}

/// Best-effort context metadata returned by a backend.
#[derive(Clone, Debug, PartialEq, Eq)]
pub struct ContextMetricsResult {
    /// Estimated or reported prompt token count.
    pub prompt_tokens: Option<u32>,
    /// Maximum supported context window when the backend can provide it.
    pub max_context_tokens: Option<u32>,
    /// Maximum supported output tokens when the backend can provide it.
    pub max_output_tokens: Option<u32>,
}

/// How trustworthy a token estimate is.
#[derive(Clone, Copy, Debug, PartialEq, Eq)]
pub enum TokenEstimateKind {
    /// Exact provider or protocol-derived value.
    Exact,
    /// Best-effort local estimate.
    Approximate,
    /// Count reported by the provider after execution.
    ProviderReported,
}

/// Token accounting metadata derived before or after request execution.
#[derive(Clone, Debug, PartialEq, Eq)]
pub struct TokenEstimate {
    /// Estimated or reported prompt token count.
    pub prompt_tokens: u32,
    /// Estimated or reported total token count when available.
    pub total_tokens: Option<u32>,
    /// Trust level for this estimate.
    pub kind: TokenEstimateKind,
    /// Name of the estimator or upstream source when useful for diagnostics.
    pub source: Option<String>,
}

impl TokenEstimate {
    /// Creates a token estimate with the supplied metadata.
    pub fn new(
        prompt_tokens: u32,
        total_tokens: Option<u32>,
        kind: TokenEstimateKind,
        source: Option<String>,
    ) -> (r: Self)
        ensures
            r == (TokenEstimate { prompt_tokens, total_tokens, kind, source }),
    {
        TokenEstimate { prompt_tokens, total_tokens, kind, source }
    }

    /// Creates an approximate estimate by running `estimator` on the canonical JSON
    /// text of a prepared request.
    pub fn approximate_from_prepared_text<F: FnOnce(&str) -> u32>(
        request: &PreparedChatRequest,
        estimator: F,
        source: &str,
    ) -> (r: Self)
        requires
            forall|t: &str| estimator.requires((t,)),
        ensures
            exists|t: &str|
                t@ == request.spec_inner().spec_body() && #[trigger] estimator.ensures(
                    (t,),
                    r.prompt_tokens,
                ),
            r.total_tokens is None,
            r.kind == TokenEstimateKind::Approximate,
            crate::chat::opt_view(r.source) == Some(source@),
    {
        let text = request.request_body_text();
        let t = text.as_str();
        let prompt_tokens = estimator(t);
        let r = Self::new(
            prompt_tokens,
            None,
            TokenEstimateKind::Approximate,
            Some(crate::text::owned(source)),
        );
        proof {
            assert(t@ == request.spec_inner().spec_body());
            assert(estimator.ensures((t,), r.prompt_tokens));
        }
        r
    }

    /// Creates a provider-reported estimate from response usage data.
    pub fn from_usage(usage: &Usage, source: &str) -> (r: Self)
        ensures
            r.prompt_tokens == usage.prompt_tokens,
            r.total_tokens == Some(usage.total_tokens),
            r.kind == TokenEstimateKind::ProviderReported,
            crate::chat::opt_view(r.source) == Some(source@),
    {
        Self::new(
            usage.prompt_tokens,
            Some(usage.total_tokens),
            TokenEstimateKind::ProviderReported,
            Some(crate::text::owned(source)),
        )
    }
}

} // verus!
