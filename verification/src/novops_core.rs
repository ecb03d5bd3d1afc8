//! The Novops configuration, the context an environment is loaded in, and the
//! inputs that resolve to strings or bytes.
use vstd::prelude::*;
use crate::keyed::unique_keys;
use crate::modules::aws::config::{AwsConfig, AwsInput};
use crate::modules::aws::s3::AwsS3ObjectInput;
use crate::modules::aws::secretsmanager::AwsSecretsManagerSecretInput;
use crate::modules::aws::ssm::AwsSSMParamStoreInput;
use crate::modules::azure::vault::AzureKeyvaultSecretInput;
use crate::modules::bitwarden::BitwardenItemInput;
use crate::modules::files::FileInput;
use crate::modules::gcloud::secretmanager::GCloudSecretManagerSecretInput;
use crate::modules::hashivault::config::{HashiVaultInput, HashivaultConfig};
use crate::modules::hashivault::kv1::HashiVaultKeyValueV1Input;
use crate::modules::hashivault::kv2::HashiVaultKeyValueV2Input;
use crate::modules::sops::{SopsDotenvInput, SopsValueInput};
use crate::modules::variables::VariableInput;
use crate::modules::aws::client::{dummy_word, DryRunAwsClient};
use crate::modules::gcloud::client::DryRunGCloudClient;
use crate::modules::hashivault::client::dry_run_read_spec;
use crate::error::NovopsError;
use crate::text::{copy_string, utf8_bytes};
use vstd::utf8::{encode_utf8, encode_utf8_decode_utf8, encode_utf8_valid_utf8};

verus! {

/// The Novops config file.
#[derive(Debug, Clone, PartialEq)]
pub struct NovopsConfigFile {
    /// Application name; the current directory's name when not set.
    pub name: Option<String>,
    /// Environments by name, such as "dev" or "prod"; names are unique.
    pub environments: Vec<(String, NovopsEnvironmentInput)>,
    /// Global settings for Novops and its modules.
    pub config: Option<NovopsConfig>,
}

impl NovopsConfigFile {
    /// Environment names are unique.
    pub open spec fn wf(self) -> bool {
        unique_keys(self.environments@)
    }
}

/// Global settings for Novops and its modules.
#[derive(Debug, Clone, PartialEq)]
pub struct NovopsConfig {
    /// Novops defaults.
    pub default: Option<NovopsConfigDefault>,
    /// Hashicorp Vault settings.
    pub hashivault: Option<HashivaultConfig>,
    /// AWS settings.
    pub aws: Option<AwsConfig>,
}

impl Default for NovopsConfig {
    fn default() -> (r: NovopsConfig)
        ensures
            r.default is None && r.hashivault is None && r.aws is None,
    {
        NovopsConfig { default: None, hashivault: None, aws: None }
    }
}

/// Novops defaults.
#[derive(Debug, Clone, PartialEq)]
pub struct NovopsConfigDefault {
    /// Environment selected when the user makes no choice.
    pub environment: Option<String>,
}

impl Default for NovopsConfigDefault {
    fn default() -> (r: NovopsConfigDefault)
        ensures
            r.environment is None,
    {
        NovopsConfigDefault { environment: None }
    }
}

/// What an environment loads. Each module defines inputs that resolve to files and variables.
#[derive(Debug, Clone, PartialEq)]
pub struct NovopsEnvironmentInput {
    /// Variables resolving to environment variables.
    pub variables: Option<Vec<VariableInput>>,
    /// Files written in the working directory, with variables pointing to them.
    pub files: Option<Vec<FileInput>>,
    /// An AWS role to assume; gives `AWS_ACCESS_KEY_ID`, `AWS_SECRET_ACCESS_KEY`,
    /// `AWS_SESSION_TOKEN` and `AWS_SESSION_EXPIRATION`.
    pub aws: Option<AwsInput>,
    /// Vault secret engines generating variables.
    pub hashivault: Option<HashiVaultInput>,
    /// SOPS dotenv files loaded as variables.
    pub sops_dotenv: Option<Vec<SopsDotenvInput>>,
}

/// The context an environment is loaded in.
#[derive(Debug, Clone, PartialEq)]
pub struct NovopsContext {
    /// Environment name.
    pub env_name: String,
    /// Application name.
    pub app_name: String,
    /// Working directory under which files are written.
    pub workdir: String,
    /// The config loaded at start.
    pub config_file_data: NovopsConfigFile,
    /// Path of the sourceable variable file.
    pub env_var_filepath: String,
    /// Whether no outside service is to be called.
    pub dry_run: bool,
}

/// Any input that resolves to a string.
#[derive(Debug, Clone, PartialEq)]
pub enum StringResolvableInput {
    String(String),
    BitwardeItemInput(BitwardenItemInput),
    HashiVaultKeyValueV2Input(HashiVaultKeyValueV2Input),
    HashiVaultKeyValueV1Input(HashiVaultKeyValueV1Input),
    AwsSSMParamStoreInput(AwsSSMParamStoreInput),
    AwsSecretsManagerSecretInput(AwsSecretsManagerSecretInput),
    GCloudSecretManagerSecretInput(GCloudSecretManagerSecretInput),
    AzureKeyvaultSecretInput(AzureKeyvaultSecretInput),
    SopsValueInput(SopsValueInput),
    AwsS3ObjectInput(AwsS3ObjectInput),
}

/// Any input usable as file content.
#[derive(Debug, Clone, PartialEq)]
pub enum BytesResolvableInput {
    AwsSecretsManagerSecretInput(AwsSecretsManagerSecretInput),
    GCloudSecretManagerSecretInput(GCloudSecretManagerSecretInput),
    StringResolvableInput(StringResolvableInput),
    ByteVec(Vec<u8>),
}

pub open spec fn result_prefix() -> Seq<char> {
    seq!['R', 'E', 'S', 'U', 'L', 'T', ':']
}

/// Resolving an input to a `T` without calling any service, where none is needed:
/// `None` when a service has to be called.
pub trait ResolveTo<T> {
    fn resolve_offline(&self, ctx: &NovopsContext) -> Option<Result<T, NovopsError>>;
}

impl ResolveTo<String> for String {
    /// A plain string resolves to itself.
    fn resolve_offline(&self, ctx: &NovopsContext) -> (r: Option<Result<String, NovopsError>>)
        ensures
            r matches Some(Ok(s)) && s@ == self@,
    {
        Some(Ok(copy_string(self.as_str())))
    }
}

impl StringResolvableInput {
    /// The value in dry-run mode: each module's dummy value, a plain string as it is.
    pub open spec fn dry_run_spec(self) -> Seq<char> {
        match self {
            StringResolvableInput::String(s) => s@,
            StringResolvableInput::BitwardeItemInput(b) => b.dry_run_spec(),
            StringResolvableInput::HashiVaultKeyValueV2Input(k) => dry_run_read_spec(
                k.hvault_kv2.path@,
                k.hvault_kv2.key@,
            ),
            StringResolvableInput::HashiVaultKeyValueV1Input(k) => dry_run_read_spec(
                k.hvault_kv1.path@,
                k.hvault_kv1.key@,
            ),
            StringResolvableInput::AwsSSMParamStoreInput(p) => result_prefix() + p.aws_ssm_parameter.name@,
            StringResolvableInput::AwsSecretsManagerSecretInput(p) => result_prefix() + p.aws_secret.id@,
            StringResolvableInput::GCloudSecretManagerSecretInput(g) => result_prefix() + g.gcloud_secret.name@,
            StringResolvableInput::AzureKeyvaultSecretInput(a) => a.dry_run_spec(),
            StringResolvableInput::SopsValueInput(v) => v.dry_run_spec(),
            StringResolvableInput::AwsS3ObjectInput(_) => dummy_word(),
        }
    }

    /// The value when no service needs to be called: a plain string always, any input
    /// in dry-run mode.
    pub open spec fn offline_spec(self, dry_run: bool) -> Option<Seq<char>> {
        if self is String || dry_run {
            Some(self.dry_run_spec())
        } else {
            None
        }
    }

}

impl ResolveTo<String> for StringResolvableInput {
    /// Resolves the input without calling any service when possible: a plain string
    /// resolves to itself, and in dry-run mode every input resolves to its module's
    /// dummy value. `None` when a service has to be called.
    fn resolve_offline(&self, ctx: &NovopsContext) -> (r: Option<Result<String, NovopsError>>)
        ensures
            match self.offline_spec(ctx.dry_run) {
                Some(v) => r matches Some(Ok(s)) && s@ == v,
                None => r is None,
            },
    {
        if let StringResolvableInput::String(s) = self {
            return Some(Ok(copy_string(s.as_str())));
        }
        if !ctx.dry_run {
            return None;
        }
        proof {
            reveal_strlit("RESULT:");
            assert("RESULT:"@ =~= result_prefix());
        }
        let v = match self {
            StringResolvableInput::String(s) => copy_string(s.as_str()),
            StringResolvableInput::BitwardeItemInput(b) => b.dry_run_value(),
            StringResolvableInput::HashiVaultKeyValueV2Input(k) => k.dry_run_value(),
            StringResolvableInput::HashiVaultKeyValueV1Input(k) => k.dry_run_value(),
            StringResolvableInput::AwsSSMParamStoreInput(p) => {
                let param = DryRunAwsClient {}.get_ssm_parameter(p.aws_ssm_parameter.name.as_str());
                match p.value_from(param) {
                    Ok(v) => v,
                    Err(e) => return Some(Err(e)),
                }
            },
            StringResolvableInput::AwsSecretsManagerSecretInput(p) => {
                let value = DryRunAwsClient {}.get_secret_value(p.aws_secret.id.as_str());
                match p.string_from(value) {
                    Ok(v) => v,
                    Err(e) => return Some(Err(e)),
                }
            },
            StringResolvableInput::GCloudSecretManagerSecretInput(g) => {
                let payload = DryRunGCloudClient {}.get_secret_version(g.gcloud_secret.name.as_str());
                proof {
                    encode_utf8_valid_utf8(result_prefix() + g.gcloud_secret.name@);
                    encode_utf8_decode_utf8(result_prefix() + g.gcloud_secret.name@);
                }
                match g.gcloud_secret.string_from(payload) {
                    Ok(v) => v,
                    Err(e) => return Some(Err(e)),
                }
            },
            StringResolvableInput::AzureKeyvaultSecretInput(a) => a.dry_run_value(),
            StringResolvableInput::SopsValueInput(v) => v.dry_run_value(),
            StringResolvableInput::AwsS3ObjectInput(o) => {
                let body = DryRunAwsClient {}.get_s3_object();
                proof {
                    encode_utf8_valid_utf8(dummy_word());
                    encode_utf8_decode_utf8(dummy_word());
                }
                match o.string_from(body) {
                    Ok(v) => v,
                    Err(e) => return Some(Err(e)),
                }
            },
        };
        Some(Ok(v))
    }
}

impl BytesResolvableInput {
    /// The content when no service needs to be called: raw bytes and plain strings
    /// always, any input in dry-run mode; strings as their UTF-8 bytes.
    pub open spec fn offline_spec(self, dry_run: bool) -> Option<Seq<u8>> {
        match self {
            BytesResolvableInput::ByteVec(b) => Some(b@),
            BytesResolvableInput::StringResolvableInput(s) => match s.offline_spec(dry_run) {
                Some(v) => Some(encode_utf8(v)),
                None => None,
            },
            BytesResolvableInput::AwsSecretsManagerSecretInput(p) => if dry_run {
                Some(encode_utf8(result_prefix() + p.aws_secret.id@))
            } else {
                None
            },
            BytesResolvableInput::GCloudSecretManagerSecretInput(g) => if dry_run {
                Some(encode_utf8(result_prefix() + g.gcloud_secret.name@))
            } else {
                None
            },
        }
    }

}

impl ResolveTo<Vec<u8>> for BytesResolvableInput {
    /// Resolves the content without calling any service when possible; `None` when a
    /// service has to be called.
    fn resolve_offline(&self, ctx: &NovopsContext) -> (r: Option<Result<Vec<u8>, NovopsError>>)
        ensures
            match self.offline_spec(ctx.dry_run) {
                Some(v) => r matches Some(Ok(b)) && b@ == v,
                None => r is None,
            },
    {
        match self {
            BytesResolvableInput::ByteVec(b) => {
                let mut out: Vec<u8> = Vec::new();
                let mut i: usize = 0;
                while i < b.len()
                    invariant
                        i <= b.len(),
                        out@ == b@.take(i as int),
                    decreases b.len() - i,
                {
                    out.push(b[i]);
                    i = i + 1;
                    assert(out@ =~= b@.take(i as int));
                }
                assert(b@.take(b.len() as int) =~= b@);
                Some(Ok(out))
            },
            BytesResolvableInput::StringResolvableInput(s) => match s.resolve_offline(ctx) {
                Some(Ok(v)) => Some(Ok(utf8_bytes(v.as_str()))),
                Some(Err(e)) => Some(Err(e)),
                None => None,
            },
            BytesResolvableInput::AwsSecretsManagerSecretInput(p) => {
                if !ctx.dry_run {
                    return None;
                }
                proof {
                    reveal_strlit("RESULT:");
                    assert("RESULT:"@ =~= result_prefix());
                }
                let value = DryRunAwsClient {}.get_secret_value(p.aws_secret.id.as_str());
                Some(p.bytes_from(value))
            },
            BytesResolvableInput::GCloudSecretManagerSecretInput(g) => {
                if !ctx.dry_run {
                    return None;
                }
                proof {
                    reveal_strlit("RESULT:");
                    assert("RESULT:"@ =~= result_prefix());
                }
                let payload = DryRunGCloudClient {}.get_secret_version(g.gcloud_secret.name.as_str());
                Some(g.gcloud_secret.bytes_from(payload))
            },
        }
    }
}

/// In dry-run mode every input resolves without calling any service.
pub proof fn lemma_dry_run_needs_no_service(s: StringResolvableInput, b: BytesResolvableInput)
    ensures
        s.offline_spec(true) is Some,
        b.offline_spec(true) is Some,
{
}

/// In dry-run mode a Vault key-value read gives `RESULT:<path>/<key>` for every mount,
/// path and key, of either engine version: no Vault server, variable or token file is used.
pub proof fn lemma_dry_run_vault_reads(k2: HashiVaultKeyValueV2Input, k1: HashiVaultKeyValueV1Input)
    ensures
        StringResolvableInput::HashiVaultKeyValueV2Input(k2).offline_spec(true) == Some(
            result_prefix() + k2.hvault_kv2.path@ + seq!['/'] + k2.hvault_kv2.key@,
        ),
        StringResolvableInput::HashiVaultKeyValueV1Input(k1).offline_spec(true) == Some(
            result_prefix() + k1.hvault_kv1.path@ + seq!['/'] + k1.hvault_kv1.key@,
        ),
{
}

/// Outside dry-run mode only what is given in the config itself resolves without a
/// service: a plain string, to itself, and raw bytes, to themselves; every other input
/// needs its service. A string given as file content is its UTF-8 encoding.
pub proof fn lemma_offline_only_literals(s: StringResolvableInput, b: BytesResolvableInput, dry_run: bool)
    ensures
        s.offline_spec(false) is Some <==> s is String,
        match s {
            StringResolvableInput::String(x) => s.offline_spec(dry_run) == Some(x@),
            _ => true,
        },
        b.offline_spec(false) is Some <==> (b is ByteVec || (b matches BytesResolvableInput::StringResolvableInput(x)
            && x is String)),
        match b {
            BytesResolvableInput::ByteVec(x) => b.offline_spec(dry_run) == Some(x@),
            BytesResolvableInput::StringResolvableInput(x) => match x.offline_spec(dry_run) {
                Some(v) => b.offline_spec(dry_run) == Some(encode_utf8(v)),
                None => b.offline_spec(dry_run) is None,
            },
            _ => true,
        },
{
}

/// In dry-run mode each input gives a dummy value that names what it stands for:
/// `RESULT:<parameter>` for SSM, `RESULT:<secret id>` for Secrets Manager,
/// `RESULT:<secret name>` for Google Cloud, `dummy` for an S3 object,
/// `RESULT:<entry>.<field>` for Bitwarden, `RESULT:<vault>/<name>/<version>` for Azure
/// (the version empty when not given), `RESULT:<file>:<field>` for SOPS (the field empty
/// when not given).
pub proof fn lemma_dry_run_values_name_their_source(s: StringResolvableInput)
    ensures
        match s {
            StringResolvableInput::AwsSSMParamStoreInput(p) => s.offline_spec(true) == Some(
                "RESULT:"@ + p.aws_ssm_parameter.name@,
            ),
            StringResolvableInput::AwsSecretsManagerSecretInput(p) => s.offline_spec(true) == Some(
                "RESULT:"@ + p.aws_secret.id@,
            ),
            StringResolvableInput::GCloudSecretManagerSecretInput(g) => s.offline_spec(true) == Some(
                "RESULT:"@ + g.gcloud_secret.name@,
            ),
            StringResolvableInput::AwsS3ObjectInput(_) => s.offline_spec(true) == Some("dummy"@),
            StringResolvableInput::BitwardeItemInput(b) => s.offline_spec(true) == Some(
                "RESULT:"@ + b.bitwarden.entry@ + "."@ + b.bitwarden.field@,
            ),
            StringResolvableInput::AzureKeyvaultSecretInput(a) => s.offline_spec(true) == Some(
                "RESULT:"@ + a.azure_keyvault_secret.vault@ + "/"@ + a.azure_keyvault_secret.name@ + "/"@ + match a.azure_keyvault_secret.version {
                    Some(v) => v@,
                    None => ""@,
                },
            ),
            StringResolvableInput::SopsValueInput(v) => s.offline_spec(true) == Some(
                "RESULT:"@ + v.sops.file@ + ":"@ + match v.sops.extract {
                    Some(e) => e@,
                    None => ""@,
                },
            ),
            _ => true,
        },
{
    reveal_strlit("RESULT:");
    reveal_strlit("dummy");
    reveal_strlit(".");
    reveal_strlit("/");
    reveal_strlit(":");
    reveal_strlit("");
    assert("."@ =~= seq!['.']);
    assert("/"@ =~= seq!['/']);
    assert(":"@ =~= seq![':']);
    assert(""@ =~= Seq::<char>::empty());
    match s {
        StringResolvableInput::BitwardeItemInput(b) => {
            assert(s.offline_spec(true)->0 =~= "RESULT:"@ + b.bitwarden.entry@ + "."@ + b.bitwarden.field@);
        },
        StringResolvableInput::AzureKeyvaultSecretInput(a) => {
            let x = a.azure_keyvault_secret;
            assert(s.offline_spec(true)->0 =~= "RESULT:"@ + x.vault@ + "/"@ + x.name@ + "/"@ + match x.version {
                Some(v) => v@,
                None => ""@,
            });
        },
        StringResolvableInput::SopsValueInput(v) => {
            assert(s.offline_spec(true)->0 =~= "RESULT:"@ + v.sops.file@ + ":"@ + match v.sops.extract {
                Some(e) => e@,
                None => ""@,
            });
        },
        _ => {},
    }
    assert(result_prefix() =~= "RESULT:"@);
    assert(dummy_word() =~= "dummy"@);
}

/// The client a module uses: one that answers without calling anything, or one that calls the service.
#[derive(Debug, Clone, PartialEq)]
pub enum Backend<D, L> {
    DryRun(D),
    Live(L),
}

/// The fixed words this module writes and matches, spelled out as text.
pub proof fn lemma_novops_core_words()
    ensures
        result_prefix() == "RESULT:"@,
{
    reveal_strlit("RESULT:");
    assert(result_prefix() =~= "RESULT:"@);
}

} // verus!
