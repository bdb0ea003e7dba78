//! A ledger of registered environmental resources governed by a
//! multi-signature transfer workflow.
//!
//! Resources are owned records; changing a resource's owner requires a
//! transfer proposal that gathers signatures from a directory of
//! authorized signers. The signature that reaches the quorum threshold
//! executes the transfer in the same call: the resource's owner is
//! rewritten, a provenance entry is appended to its tracking history,
//! and the proposal is marked executed, never to change again.
//!
//! The whole state lives in an explicitly constructed [`BlocksResources`]
//! value; the host that persists it, authenticates callers and supplies
//! ledger timestamps hands those in as plain values.

pub mod directory;
pub mod engine;
pub mod laws;
pub mod model;
pub mod registry;

pub use model::BlocksResources;
pub use model::ContractData;
pub use model::EnvironmentalResource;
pub use model::Error;
pub use model::Identity;
pub use model::TransactionProposal;
pub use model::TransferRecord;
pub use model::SIGNATURE_THRESHOLD;
