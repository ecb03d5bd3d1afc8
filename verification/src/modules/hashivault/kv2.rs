//! Key/value secrets of a Vault KV version 2 engine.
use vstd::prelude::*;
use super::client::{dry_run_read_spec, secret_value_for_key, DryRunHashivaultClient};
use crate::error::NovopsError;
use crate::keyed::keyed_map;
use crate::text::copy_string;

verus! {

/// Reference to a KV v2 secret.
#[derive(Debug, Clone, PartialEq)]
pub struct HashiVaultKeyValueV2Input {
    pub hvault_kv2: HashiVaultKeyValueV2,
}

/// Mount, path and key of a KV v2 secret.
#[derive(Debug, Clone, PartialEq)]
pub struct HashiVaultKeyValueV2 {
    /// KV v2 mount point; `secret` by default.
    pub mount: Option<String>,
    /// Path to the secret.
    pub path: String,
    /// Key of the secret to retrieve.
    pub key: String,
}

pub open spec fn default_mount() -> Seq<char> {
    seq!['s', 'e', 'c', 'r', 'e', 't']
}

impl HashiVaultKeyValueV2Input {
    /// The mount point: as configured, `secret` when not set.
    pub open spec fn mount_spec(self) -> Seq<char> {
        match self.hvault_kv2.mount {
            Some(m) => m@,
            None => default_mount(),
        }
    }

    /// The mount point: as configured, `secret` when not set.
    pub fn mount(&self) -> (r: String)
        ensures
            r@ == self.mount_spec(),
    {
        proof {
            reveal_strlit("secret");
            assert("secret"@ =~= default_mount());
        }
        match &self.hvault_kv2.mount {
            Some(m) => copy_string(m.as_str()),
            None => copy_string("secret"),
        }
    }

    /// The value given in dry-run mode: `RESULT:<path>/<key>`.
    pub fn dry_run_value(&self) -> (r: String)
        ensures
            r@ == dry_run_read_spec(self.hvault_kv2.path@, self.hvault_kv2.key@),
    {
        DryRunHashivaultClient {}.kv2_read(self.hvault_kv2.path.as_str(), self.hvault_kv2.key.as_str())
    }

    /// The value of the key in the data read at the secret's path; an error when missing.
    pub fn value_from(&self, data: &Vec<(String, String)>) -> (r: Result<String, NovopsError>)
        ensures
            keyed_map(data@).contains_key(self.hvault_kv2.key@) ==> (r matches Ok(v) && v@
                == keyed_map(data@)[self.hvault_kv2.key@]@),
            !keyed_map(data@).contains_key(self.hvault_kv2.key@) ==> r matches Err(
                NovopsError::SecretKeyNotFound { .. },
            ),
    {
        let mount = self.mount();
        secret_value_for_key(data, mount.as_str(), self.hvault_kv2.path.as_str(), self.hvault_kv2.key.as_str())
    }
}

/// The fixed words this module writes and matches, spelled out as text.
pub proof fn lemma_kv2_words()
    ensures
        default_mount() == "secret"@,
{
    reveal_strlit("secret");
    assert(default_mount() =~= "secret"@);
}

} // verus!
