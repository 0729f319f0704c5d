//! Admission-and-metering core of an access-tiered gateway in front of a
//! sandboxed code-execution engine: credential resolution, tier-to-budget
//! policy, credential issuance, the usage ledger, and byte-exact response
//! serialization, each with a verified contract.

use vstd::prelude::*;

pub mod access;
pub mod gateway;
pub mod issuance;
pub mod json;
pub mod ledger;
pub mod store;
pub mod tier;

pub use access::RejectionReason;
pub use access::get_access_level;
pub use access::resolve;
pub use gateway::RuntimeProduct;
pub use gateway::RuntimeSnapshot;
pub use gateway::handle_api_status;
pub use gateway::handle_interpretation;
pub use gateway::handle_limits;
pub use gateway::handle_new_authorization;
pub use gateway::parse_access_request;
pub use gateway::product_to_response;
pub use issuance::insert_api_key;
pub use issuance::issue;
pub use ledger::Counter;
pub use ledger::ServerCounts;
pub use store::CredentialStore;
pub use store::Database;
pub use store::LookupOutcome;
pub use tier::AccessLevel;

verus! {

} // verus!
