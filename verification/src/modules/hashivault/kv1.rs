//! Key/value secrets of a Vault KV version 1 engine.
use vstd::prelude::*;
use super::client::{dry_run_read_spec, secret_value_for_key, DryRunHashivaultClient};
use crate::error::NovopsError;
use crate::keyed::keyed_map;
use crate::text::copy_string;

verus! {

/// Reference to a KV v1 secret.
#[derive(Debug, Clone, PartialEq)]
pub struct HashiVaultKeyValueV1Input {
    pub hvault_kv1: HashiVaultKeyValueV1,
}

/// Mount, path and key of a KV v1 secret.
#[derive(Debug, Clone, PartialEq)]
pub struct HashiVaultKeyValueV1 {
    /// KV v1 mount point; `kv` by default.
    pub mount: Option<String>,
    /// Path to the secret.
    pub path: String,
    /// Key of the secret to retrieve.
    pub key: String,
}

pub open spec fn default_mount() -> Seq<char> {
    seq!['k', 'v']
}

impl HashiVaultKeyValueV1Input {
    /// The mount point: as configured, `kv` when not set.
    pub open spec fn mount_spec(self) -> Seq<char> {
        match self.hvault_kv1.mount {
            Some(m) => m@,
            None => default_mount(),
        }
    }

    /// The mount point: as configured, `kv` when not set.
    pub fn mount(&self) -> (r: String)
        ensures
            r@ == self.mount_spec(),
    {
        proof {
            reveal_strlit("kv");
            assert("kv"@ =~= default_mount());
        }
        match &self.hvault_kv1.mount {
            Some(m) => copy_string(m.as_str()),
            None => copy_string("kv"),
        }
    }

    /// The value given in dry-run mode: `RESULT:<path>/<key>`.
    pub fn dry_run_value(&self) -> (r: String)
        ensures
            r@ == dry_run_read_spec(self.hvault_kv1.path@, self.hvault_kv1.key@),
    {
        DryRunHashivaultClient {}.kv1_read(self.hvault_kv1.path.as_str(), self.hvault_kv1.key.as_str())
    }

    /// The value of the key in the data read at the secret's path; an error when missing.
    pub fn value_from(&self, data: &Vec<(String, String)>) -> (r: Result<String, NovopsError>)
        ensures
            keyed_map(data@).contains_key(self.hvault_kv1.key@) ==> (r matches Ok(v) && v@
                == keyed_map(data@)[self.hvault_kv1.key@]@),
            !keyed_map(data@).contains_key(self.hvault_kv1.key@) ==> r matches Err(
                NovopsError::SecretKeyNotFound { .. },
            ),
    {
        let mount = self.mount();
        secret_value_for_key(data, mount.as_str(), self.hvault_kv1.path.as_str(), self.hvault_kv1.key.as_str())
    }
}

/// The fixed words this module writes and matches, spelled out as text.
pub proof fn lemma_kv1_words()
    ensures
        default_mount() == "kv"@,
{
    reveal_strlit("kv");
    assert(default_mount() =~= "kv"@);
}

} // verus!
