//! Secrets of Azure Key Vault.
use vstd::prelude::*;
use super::client::{dry_run_secret_spec, DryRunAzureClient};
use crate::export::opt_view;

verus! {

/// Reference to a Key Vault secret.
#[derive(Debug, Clone, PartialEq)]
pub struct AzureKeyvaultSecretInput {
    pub azure_keyvault_secret: AzureKeyvaultSecret,
}

/// A Get Secret request.
#[derive(Debug, Clone, PartialEq)]
pub struct AzureKeyvaultSecret {
    /// The secret's vault name.
    pub vault: String,
    /// Secret name.
    pub name: String,
    /// Secret version; the latest by default.
    pub version: Option<String>,
}

impl AzureKeyvaultSecretInput {
    pub open spec fn dry_run_spec(self) -> Seq<char> {
        dry_run_secret_spec(
            self.azure_keyvault_secret.vault@,
            self.azure_keyvault_secret.name@,
            opt_view(self.azure_keyvault_secret.version),
        )
    }

    /// The value given in dry-run mode.
    pub fn dry_run_value(&self) -> (r: String)
        ensures
            r@ == self.dry_run_spec(),
    {
        let s = &self.azure_keyvault_secret;
        DryRunAzureClient {}.get_keyvault_secret(s.vault.as_str(), s.name.as_str(), &s.version)
    }
}

} // verus!
