//! Hashicorp Vault: key/value secrets and AWS credentials.
pub mod auth;
pub mod aws;
pub mod client;
pub mod config;
pub mod kv1;
pub mod kv2;
