//! Encoders for ERC-4337 user operations against modular (ERC-7579) smart
//! accounts: nonce keys, `execute` call data, module management call data,
//! counterfactual deployment of a Safe-based account, and assembly of the
//! final operation record.

pub mod abi;
pub mod account;
pub mod config;
pub mod equality;
pub mod error;
pub mod execution;
pub mod hex_text;
pub mod module_ops;
pub mod nonce;
pub mod primitives;
pub mod safe;
pub mod user_operation;
pub mod userop_builder;
pub mod words;
