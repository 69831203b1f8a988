//! Data types shared with the market contract.

pub mod error;
pub mod types;
