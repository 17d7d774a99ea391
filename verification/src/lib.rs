//! Provider-neutral LLM client core: normalized chat types, request validation,
//! provider registry, context compaction, tool-approval policy, shell-session
//! bookkeeping and the server-sent-event decoder, each with its contract.
use vstd::prelude::*;

pub mod agent;
pub mod capability;
pub mod chat;
pub mod client;
pub mod common_prepared;
pub mod compact;
pub mod error;
pub mod num;
pub mod policy;
pub mod prepared;
pub mod request;
pub mod response;
pub mod shell;
pub mod sse;
pub mod strategies;
pub mod text;
pub mod tools;
pub mod transport;
pub mod types;
pub mod validation;
pub mod view;

verus! {

} // verus!
