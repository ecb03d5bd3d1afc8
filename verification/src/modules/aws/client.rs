//! Which AWS client to use, and what the dry-run client answers.
use vstd::prelude::*;
use super::config::{AwsClientConfig, AwsConfig};
use crate::error::NovopsError;
use crate::novops_core::{Backend, NovopsContext};
use crate::text::{copy_string, utf8_bytes};
use vstd::utf8::encode_utf8;

verus! {

/// The client that calls AWS, with its settings.
#[derive(Debug, Clone, PartialEq)]
pub struct DefaultAwsClient {
    pub config: AwsClientConfig,
}

/// The dry-run client, which answers without calling AWS.
#[derive(Debug, Clone, PartialEq)]
pub struct DryRunAwsClient {}

/// The value of a Secrets Manager secret: text, binary data, or neither.
#[derive(Debug, Clone, PartialEq)]
pub struct SecretValue {
    pub secret_string: Option<String>,
    pub secret_binary: Option<Vec<u8>>,
}

/// An SSM parameter as GetParameter returns it.
#[derive(Debug, Clone, PartialEq)]
pub struct SsmParameter {
    pub name: Option<String>,
    pub value: Option<String>,
}

/// Temporary credentials returned by STS AssumeRole.
#[derive(Debug, Clone, PartialEq)]
pub struct StsCredentials {
    pub access_key_id: String,
    pub secret_access_key: String,
    pub session_token: String,
    /// Expiration, in seconds since the Unix epoch.
    pub expiration: i64,
}

/// The seconds since the Unix epoch of an RFC 3339 date without offset, as
/// `aws_smithy_types` parses it; `None` when the text is no such date.
pub uninterp spec fn datetime_epoch_secs(s: Seq<char>) -> Option<int>;

/// Calls `aws_smithy_types::DateTime::from_str` with `Format::DateTime`, then `DateTime::secs`.
/// The answer is named `datetime_epoch_secs`.
#[verifier::external_body]
fn parse_datetime_secs(s: &str) -> (r: Option<i64>)
    ensures
        match r {
            Some(x) => datetime_epoch_secs(s@) == Some(x as int),
            None => datetime_epoch_secs(s@) is None,
        },
{
    aws_smithy_types::DateTime::from_str(s, aws_smithy_types::date_time::Format::DateTime).ok().map(
        |d| d.secs(),
    )
}

pub open spec fn result_prefix() -> Seq<char> {
    seq!['R', 'E', 'S', 'U', 'L', 'T', ':']
}

pub open spec fn dummy_word() -> Seq<char> {
    seq!['d', 'u', 'm', 'm', 'y']
}

/// The expiration date the dry-run client gives its credentials.
pub open spec fn dry_run_expiration() -> Seq<char> {
    seq!['2', '9', '9', '9', '-', '0', '1', '-', '0', '1', 'T', '0', '0', ':', '0', '0', ':', '0', '0', 'Z']
}

/// The client to use: the dry-run client in dry-run mode, otherwise one with the
/// AWS settings of the config.
pub fn get_client(ctx: &NovopsContext) -> (r: Backend<DryRunAwsClient, DefaultAwsClient>)
    ensures
        ctx.dry_run ==> r is DryRun,
        !ctx.dry_run ==> (r matches Backend::Live(c) && c.config == client_config_spec(ctx)),
        !ctx.dry_run ==> match r {
            Backend::Live(c) => match aws_section(ctx) {
                Some(a) => c.config.endpoint == a.endpoint && c.config.profile == a.profile
                    && c.config.region == a.region && c.config.identity_cache == a.identity_cache,
                None => c.config.endpoint is None && c.config.region is None,
            },
            Backend::DryRun(_) => false,
        },
{
    if ctx.dry_run {
        Backend::DryRun(DryRunAwsClient {})
    } else {
        Backend::Live(DefaultAwsClient { config: build_mutable_client_config_from_context(ctx) })
    }
}

/// Like `get_client`, with the profile, when given, overriding the config's.
pub fn get_client_with_profile(ctx: &NovopsContext, profile: &Option<String>) -> (r: Backend<
    DryRunAwsClient,
    DefaultAwsClient,
>)
    ensures
        ctx.dry_run ==> r is DryRun,
        !ctx.dry_run ==> (r matches Backend::Live(c) && c.endpoint_region_cache_of(
            client_config_spec(ctx),
        ) && match profile {
            Some(p) => c.config.profile is Some && c.config.profile->0@ == p@,
            None => c.config.profile == client_config_spec(ctx).profile,
        }),
        !ctx.dry_run ==> match r {
            Backend::Live(c) => c.config.endpoint == client_config_spec(ctx).endpoint && c.config.region
                == client_config_spec(ctx).region && c.config.identity_cache == client_config_spec(ctx).identity_cache,
            Backend::DryRun(_) => false,
        },
{
    if ctx.dry_run {
        Backend::DryRun(DryRunAwsClient {})
    } else {
        let mut config = build_mutable_client_config_from_context(ctx);
        if let Some(p) = profile {
            config.profile(p.as_str());
        }
        Backend::Live(DefaultAwsClient { config })
    }
}

impl DefaultAwsClient {
    /// Endpoint, region and identity cache are those of `c`.
    pub open spec fn endpoint_region_cache_of(self, c: AwsClientConfig) -> bool {
        self.config.endpoint == c.endpoint && self.config.region == c.region
            && self.config.identity_cache == c.identity_cache
    }
}

/// The `aws` section of the config, if any.
pub open spec fn aws_section(ctx: &NovopsContext) -> Option<AwsConfig> {
    match ctx.config_file_data.config {
        Some(config) => config.aws,
        None => None,
    }
}

/// The client settings carry each field of the config's `aws` section unchanged
/// (endpoint, profile, region and identity cache); with no such section, none is set.
pub proof fn lemma_client_config_carries_aws_section(ctx: &NovopsContext)
    ensures
        match aws_section(ctx) {
            Some(a) => {
                &&& client_config_spec(ctx).endpoint == a.endpoint
                &&& client_config_spec(ctx).profile == a.profile
                &&& client_config_spec(ctx).region == a.region
                &&& client_config_spec(ctx).identity_cache == a.identity_cache
            },
            None => {
                &&& client_config_spec(ctx).endpoint is None
                &&& client_config_spec(ctx).profile is None
                &&& client_config_spec(ctx).region is None
                &&& client_config_spec(ctx).identity_cache is None
            },
        },
{
}

/// Client settings from the config: its AWS settings if any, otherwise none.
pub open spec fn client_config_spec(ctx: &NovopsContext) -> AwsClientConfig {
    match ctx.config_file_data.config {
        Some(config) => match config.aws {
            Some(aws) => AwsClientConfig {
                profile: aws.profile,
                endpoint: aws.endpoint,
                region: aws.region,
                identity_cache: aws.identity_cache,
            },
            None => AwsClientConfig { profile: None, endpoint: None, region: None, identity_cache: None },
        },
        None => AwsClientConfig { profile: None, endpoint: None, region: None, identity_cache: None },
    }
}

/// Client settings from the config: its AWS settings if any, otherwise none.
pub fn build_mutable_client_config_from_context(ctx: &NovopsContext) -> (r: AwsClientConfig)
    ensures
        r == client_config_spec(ctx),
        match aws_section(ctx) {
            Some(a) => r.endpoint == a.endpoint && r.profile == a.profile && r.region == a.region
                && r.identity_cache == a.identity_cache,
            None => r.endpoint is None && r.profile is None && r.region is None && r.identity_cache is None,
        },
{
    proof {
        lemma_client_config_carries_aws_section(ctx);
    }
    match &ctx.config_file_data.config {
        Some(config) => match &config.aws {
            Some(aws) => AwsClientConfig::from_aws_config(aws),
            None => AwsClientConfig::default(),
        },
        None => AwsClientConfig::default(),
    }
}

impl DryRunAwsClient {
    /// A secret whose text is `RESULT:<id>`.
    pub fn get_secret_value(&self, id: &str) -> (r: SecretValue)
        ensures
            r.secret_string matches Some(s) && s@ == result_prefix() + id@,
            r.secret_binary is None,
    {
        proof {
            reveal_strlit("RESULT:");
            assert("RESULT:"@ =~= result_prefix());
        }
        let mut s = String::new();
        s.append("RESULT:");
        s.append(id);
        SecretValue { secret_string: Some(s), secret_binary: None }
    }

    /// A parameter named `name` whose value is `RESULT:<name>`.
    pub fn get_ssm_parameter(&self, name: &str) -> (r: Option<SsmParameter>)
        ensures
            r is Some,
            r->0.name is Some && r->0.name->0@ == name@,
            r->0.value is Some && r->0.value->0@ == result_prefix() + name@,
    {
        proof {
            reveal_strlit("RESULT:");
            assert("RESULT:"@ =~= result_prefix());
        }
        let mut v = String::new();
        v.append("RESULT:");
        v.append(name);
        Some(SsmParameter { name: Some(copy_string(name)), value: Some(v) })
    }

    /// Fixed credentials expiring at 2999-01-01T00:00:00Z.
    pub fn assume_role(&self) -> (r: Result<Option<StsCredentials>, NovopsError>)
        ensures
            match datetime_epoch_secs(dry_run_expiration()) {
                Some(secs) => r matches Ok(Some(c)) && c.expiration == secs && c.access_key_id@
                    == "AKIADRYRUNDRYUNDRYRUN"@ && c.secret_access_key@ == "xxx"@ && c.session_token@
                    == "xxx"@,
                None => r is Err,
            },
    {
        proof {
            reveal_strlit("2999-01-01T00:00:00Z");
            assert("2999-01-01T00:00:00Z"@ =~= dry_run_expiration());
        }
        let exp = match parse_datetime_secs("2999-01-01T00:00:00Z") {
            Some(e) => e,
            None => return Err(NovopsError::InvalidDateTime(copy_string("2999-01-01T00:00:00Z"))),
        };
        Ok(
            Some(
                StsCredentials {
                    access_key_id: copy_string("AKIADRYRUNDRYUNDRYRUN"),
                    secret_access_key: copy_string("xxx"),
                    session_token: copy_string("xxx"),
                    expiration: exp,
                },
            ),
        )
    }

    /// An object whose body is `dummy`.
    pub fn get_s3_object(&self) -> (r: Vec<u8>)
        ensures
            r@ == encode_utf8(dummy_word()),
    {
        proof {
            reveal_strlit("dummy");
            assert("dummy"@ =~= dummy_word());
        }
        utf8_bytes("dummy")
    }
}

/// The fixed words this module writes and matches, spelled out as text.
pub proof fn lemma_aws_client_words()
    ensures
        result_prefix() == "RESULT:"@,
        dummy_word() == "dummy"@,
        dry_run_expiration() == "2999-01-01T00:00:00Z"@,
{
    reveal_strlit("RESULT:");
    reveal_strlit("dummy");
    reveal_strlit("2999-01-01T00:00:00Z");
    assert(result_prefix() =~= "RESULT:"@);
    assert(dummy_word() =~= "dummy"@);
    assert(dry_run_expiration() =~= "2999-01-01T00:00:00Z"@);
}

} // verus!
