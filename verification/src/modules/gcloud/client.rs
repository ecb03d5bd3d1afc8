//! Which Google Cloud client to use, and what the dry-run client answers.
use vstd::prelude::*;
use crate::novops_core::{Backend, NovopsContext};
use crate::text::utf8_bytes;
use vstd::utf8::encode_utf8;

verus! {

/// The client that calls Google Cloud Secret Manager.
#[derive(Debug, Clone, PartialEq)]
pub struct DefaultGCloudClient {}

/// The dry-run client, which answers without calling Google Cloud.
#[derive(Debug, Clone, PartialEq)]
pub struct DryRunGCloudClient {}

/// A secret version's payload: its data and the CRC32C checksum sent with it.
#[derive(Debug, Clone, PartialEq)]
pub struct SecretPayload {
    pub data: Option<Vec<u8>>,
    pub data_crc32c: Option<i64>,
}

/// The CRC32C checksum of the bytes, as the `crc32c` crate computes it.
pub uninterp spec fn crc32c_of(data: Seq<u8>) -> u32;

/// Calls `crc32c::crc32c`; named `crc32c_of`.
#[verifier::external_body]
pub(crate) fn crc32c(data: &Vec<u8>) -> (r: u32)
    ensures
        r == crc32c_of(data@),
{
    crc32c::crc32c(data.as_slice())
}

/// The client to use: the dry-run client in dry-run mode, otherwise the one that calls Google Cloud.
pub fn get_client(ctx: &NovopsContext) -> (r: Backend<DryRunGCloudClient, DefaultGCloudClient>)
    ensures
        ctx.dry_run <==> r is DryRun,
{
    if ctx.dry_run {
        Backend::DryRun(DryRunGCloudClient {})
    } else {
        Backend::Live(DefaultGCloudClient {})
    }
}

pub open spec fn result_prefix() -> Seq<char> {
    seq!['R', 'E', 'S', 'U', 'L', 'T', ':']
}

impl DryRunGCloudClient {
    /// A payload holding `RESULT:<name>` and its checksum.
    pub fn get_secret_version(&self, name: &str) -> (r: SecretPayload)
        ensures
            r.data matches Some(d) && d@ == encode_utf8(result_prefix() + name@),
            r.data_crc32c == Some(crc32c_of(encode_utf8(result_prefix() + name@)) as i64),
    {
        proof {
            reveal_strlit("RESULT:");
            assert("RESULT:"@ =~= result_prefix());
        }
        let mut result = String::new();
        result.append("RESULT:");
        result.append(name);
        let data = utf8_bytes(result.as_str());
        let crc = crc32c(&data);
        SecretPayload { data: Some(data), data_crc32c: Some(crc as i64) }
    }
}

/// The fixed words this module writes and matches, spelled out as text.
pub proof fn lemma_gcloud_client_words()
    ensures
        result_prefix() == "RESULT:"@,
{
    reveal_strlit("RESULT:");
    assert(result_prefix() =~= "RESULT:"@);
}

} // verus!
