//! Capability traits that backends implement: identity, model catalog, balance,
//! and explicit negotiation of the optional capabilities.
use vstd::prelude::*;

use crate::error::{Capability, LlmError};
use crate::types::{BalanceSnapshot, ModelCatalogResponse};

verus! {

/// Root identity trait shared by all client capabilities.
pub trait Identifiable {
    /// Whether `id` is a backend identifier this backend may report. A backend
    /// that states nothing of its identifier admits every text.
    open spec fn allows_backend_id(&self, id: Seq<char>) -> bool {
        true
    }

    /// Returns the stable backend identifier used in error attribution and
    /// prepared-request binding.
    fn backend_id(&self) -> (r: &'static str)
        ensures
            self.allows_backend_id(r@),
    ;
}

/// Lists the models available from the provider.
pub trait ModelCatalog: Identifiable {
    /// Returns the provider's current model catalog.
    fn list_models(&self) -> Result<ModelCatalogResponse, LlmError>;
}

/// Queries account balance or quota state.
pub trait Balance: Identifiable {
    /// Returns the provider's current balance snapshot.
    fn get_balance(&self) -> Result<BalanceSnapshot, LlmError>;
}

/// Explicit capability negotiation for runtime-selected backends: each successful
/// negotiation hands out the capability; a backend without it answers with an
/// unsupported-capability error naming itself, which is what the provided methods
/// do.
pub trait CapabilityNegotiation: Identifiable {
    /// The model catalog this backend offers.
    type Catalog: ModelCatalog;

    /// The balance inspection this backend offers.
    type Accounts: Balance;

    /// Returns the model catalog when the backend supports it.
    fn model_catalog(&self) -> (r: Result<&Self::Catalog, LlmError>)
        default_ensures
            r matches Err(LlmError::UnsupportedCapability { backend, capability })
                && self.allows_backend_id(backend@) && capability == Capability::ModelCatalog,
    {
        Err(LlmError::unsupported(self.backend_id(), Capability::ModelCatalog))
    }

    /// Returns balance inspection when the backend supports it.
    fn balance(&self) -> (r: Result<&Self::Accounts, LlmError>)
        default_ensures
            r matches Err(LlmError::UnsupportedCapability { backend, capability })
                && self.allows_backend_id(backend@) && capability == Capability::Balance,
    {
        Err(LlmError::unsupported(self.backend_id(), Capability::Balance))
    }
}

} // verus!
