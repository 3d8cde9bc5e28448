//! Custodial escrow for bundles of fungible and non-fungible assets.
//!
//! A party deposits assets into a one-shot [`container::AssetContainer`] and
//! receives a capability token for it. Later, possession of that token lets
//! the party mint a vault-access token and redeem it for the underlying
//! assets, but only inside an unlock cycle that the
//! [`orchestrator::EscrowOrchestrator`] gates with a strict three-step call
//! order and a single scarce mutual-exclusion ticket.
//!
//! The host environment is assumed to run each entry point as one atomic,
//! serializable unit of work: a returned error stands for an aborted unit of
//! work, so every entry point here leaves the state unchanged when it fails.

pub mod assets;
pub mod container;
pub mod errors;
pub mod laws;
pub mod orchestrator;
