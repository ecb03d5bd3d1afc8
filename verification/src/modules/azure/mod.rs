//! Azure Key Vault.
pub mod client;
pub mod vault;
