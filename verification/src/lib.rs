//! Verified core of the Vatix prediction-market contracts.
//!
//! Each on-chain contract is modelled here as plain data (the contract's
//! storage, the ledger clock, and the logs of what an invocation writes,
//! publishes and transfers) together with verified entrypoints that compute
//! the next state.  Signature checks, cross-contract calls, token movements, event
//! publication and the host's storage are performed by the host glue that
//! drives these entrypoints.

pub mod address;
pub mod amounts;
pub mod market;
pub mod outcome_token;
pub mod resolution;
pub mod treasury;
