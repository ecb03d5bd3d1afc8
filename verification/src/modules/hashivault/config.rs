//! Vault settings from the Novops config.
use vstd::prelude::*;
use super::aws::HashiVaultAWSInput;

verus! {

/// Vault inputs of an environment.
#[derive(Debug, Clone, PartialEq)]
pub struct HashiVaultInput {
    /// Use the Vault AWS secret engine to generate temporary AWS credentials.
    pub aws: HashiVaultAWSInput,
}

/// How to log in to Vault when no token is given.
#[derive(Debug, Clone, PartialEq)]
pub enum HashiVaultAuth {
    Kubernetes { mount_path: Option<String>, role: Option<String> },
    AppRole { mount_path: Option<String>, role_id: Option<String>, secret_id_path: Option<String> },
    JWT { token_path: Option<String>, role: Option<String>, mount_path: Option<String> },
}

/// Vault client settings.
#[derive(Debug, Clone, PartialEq)]
pub struct HashivaultConfig {
    /// Address in the form http(s)://HOST:PORT.
    pub address: Option<String>,
    /// Vault token as a plain string (for testing only).
    pub token: Option<String>,
    /// Path of a file holding the Vault token.
    pub token_path: Option<String>,
    /// Whether to verify TLS (true by default).
    pub verify: Option<bool>,
    /// Client timeout in seconds.
    pub timeout: Option<u64>,
    /// Authentication to use when no token is provided.
    pub auth: Option<HashiVaultAuth>,
    /// Vault namespace.
    pub namespace: Option<String>,
}

impl Default for HashivaultConfig {
    /// Settings with nothing set.
    fn default() -> (r: HashivaultConfig)
        ensures
            r.address is None && r.token is None && r.token_path is None && r.verify is None
                && r.timeout is None && r.auth is None && r.namespace is None,
    {
        HashivaultConfig {
            address: None,
            token: None,
            token_path: None,
            verify: None,
            timeout: None,
            auth: None,
            namespace: None,
        }
    }
}

} // verus!
