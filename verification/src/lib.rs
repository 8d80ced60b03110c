//! Verified models of the MRV and DRWA smart contracts.
pub mod aggregator;
pub mod amount;
pub mod approvals;
pub mod asset_manager;
pub mod atomic_swap;
pub mod attestation;
pub mod buffer_pool;
pub mod bytes;
pub mod config;
pub mod crypto;
pub mod drwa_common;
pub mod env;
pub mod governance;
pub mod governance_multisig;
pub mod gsoc_registry;
pub mod income_distribution;
pub mod ledger;
pub mod mrv_common;
pub mod policy_registry;
pub mod registry;
pub mod reserve_proof_registry;
pub mod table;
