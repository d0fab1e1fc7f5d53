//! Core cryptographic engine of a confidential-transaction ledger:
//! a hierarchical key manager that issues deterministic key handles
//! without exposing raw secret scalars, and a sender-side transaction
//! builder that assembles a partially- or fully-signed transaction,
//! computing fees, change, and aggregated signatures.

pub mod amount;
pub mod branch;
pub mod byte_codec;
pub mod components;
pub mod crypto_ops;
pub mod crypto_services;
pub mod fee;
pub mod key_id;
pub mod key_manager;
pub mod output_builder;
pub mod sender;
pub mod signature;
pub mod transaction_initializer;
pub mod types;
