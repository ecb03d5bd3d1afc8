//! Inputs that Novops knows how to resolve, one module per kind of source.
pub mod aws;
pub mod azure;
pub mod bitwarden;
pub mod files;
pub mod gcloud;
pub mod hashivault;
pub mod sops;
pub mod variables;
