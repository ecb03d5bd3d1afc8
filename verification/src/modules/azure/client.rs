//! Which Azure client to use, and what the dry-run client answers.
use vstd::prelude::*;
use crate::export::opt_view;
use crate::novops_core::{Backend, NovopsContext};
use crate::text::push_char;

verus! {

/// The client that calls Azure Key Vault.
#[derive(Debug, Clone, PartialEq)]
pub struct DefaultAzureClient {}

/// The dry-run client, which answers without calling Azure.
#[derive(Debug, Clone, PartialEq)]
pub struct DryRunAzureClient {}

/// The client to use: the dry-run client in dry-run mode, otherwise the one that calls Azure.
pub fn get_client(ctx: &NovopsContext) -> (r: Backend<DryRunAzureClient, DefaultAzureClient>)
    ensures
        ctx.dry_run <==> r is DryRun,
{
    if ctx.dry_run {
        Backend::DryRun(DryRunAzureClient {})
    } else {
        Backend::Live(DefaultAzureClient {})
    }
}

pub open spec fn result_prefix() -> Seq<char> {
    seq!['R', 'E', 'S', 'U', 'L', 'T', ':']
}

/// `RESULT:<vault>/<name>/<version>`, the version empty when not given.
pub open spec fn dry_run_secret_spec(vault: Seq<char>, name: Seq<char>, version: Option<Seq<char>>) -> Seq<char> {
    result_prefix() + vault + seq!['/'] + name + seq!['/'] + match version {
        Some(v) => v,
        None => seq![],
    }
}

impl DefaultAzureClient {
    /// The URL of a vault: `https://<vault>.vault.azure.net`.
    pub fn vault_url(&self, vault: &str) -> (r: String)
        ensures
            r@ == "https://"@ + vault@ + ".vault.azure.net"@,
    {
        let mut u = String::new();
        u.append("https://");
        u.append(vault);
        u.append(".vault.azure.net");
        u
    }

    /// The secret version to ask for: the given one, the empty string (latest) otherwise.
    pub fn version_or_latest(&self, version: &Option<String>) -> (r: String)
        ensures
            r@ == match version {
                Some(v) => v@,
                None => Seq::<char>::empty(),
            },
    {
        match version {
            Some(v) => v.clone(),
            None => String::new(),
        }
    }
}

impl DryRunAzureClient {
    /// The dry-run secret value: `RESULT:<vault>/<name>/<version>`.
    pub fn get_keyvault_secret(&self, vault: &str, name: &str, version: &Option<String>) -> (r: String)
        ensures
            r@ == dry_run_secret_spec(vault@, name@, opt_view(*version)),
    {
        proof {
            reveal_strlit("RESULT:");
            assert("RESULT:"@ =~= result_prefix());
        }
        let mut s = String::new();
        s.append("RESULT:");
        s.append(vault);
        push_char(&mut s, '/');
        s.append(name);
        push_char(&mut s, '/');
        if let Some(v) = version {
            s.append(v.as_str());
        }
        s
    }
}

/// The fixed words this module writes and matches, spelled out as text.
pub proof fn lemma_azure_client_words()
    ensures
        result_prefix() == "RESULT:"@,
{
    reveal_strlit("RESULT:");
    assert(result_prefix() =~= "RESULT:"@);
}

} // verus!
