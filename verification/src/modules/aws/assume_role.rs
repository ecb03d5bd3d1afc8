//! Temporary credentials for an IAM role.
use vstd::prelude::*;
use super::client::{datetime_epoch_secs, dry_run_expiration, DryRunAwsClient, StsCredentials};
use super::config::AwsInput;
use crate::error::NovopsError;
use crate::modules::variables::VariableOutput;
use crate::novops_core::{NovopsContext, ResolveTo};
use crate::text::{
    all_ascii, byte_len, byte_length, copy_string, i64_to_decimal, lemma_byte_len_append, lemma_byte_len_ascii,
    lemma_prefix_within, prefix_within, push_char, signed_decimal_spec, truncatable, truncate_bytes,
};

verus! {

/// Longest role session name STS accepts, in bytes.
pub const STS_ROLE_SESSION_NAME_MAX_LENGTH: usize = 64;

/// Length of the random suffix of a role session name.
pub const SESSION_SUFFIX_LENGTH: usize = 7;

/// An IAM role to assume.
#[derive(Debug, Clone, PartialEq)]
pub struct AwsAssumeRoleInput {
    /// Full IAM role ARN.
    pub role_arn: String,
    /// Source profile; must exist in the AWS config.
    pub source_profile: Option<String>,
    /// Session duration in seconds; 3600 by default.
    pub duration_seconds: Option<i32>,
}

/// What to ask STS for.
#[derive(Debug, Clone, PartialEq)]
pub struct AssumeRoleRequest {
    pub role_arn: String,
    pub role_session_name: String,
    pub duration_seconds: i32,
}

pub open spec fn is_ascii_alphanumeric(c: char) -> bool {
    ('a' <= c && c <= 'z') || ('A' <= c && c <= 'Z') || ('0' <= c && c <= '9')
}

/// Calls `rand::distributions::Alphanumeric::sample_string` with the thread's generator:
/// `n` characters, each an ASCII letter or digit. Which ones is left to chance.
#[verifier::external_body]
fn random_alphanumeric(n: usize) -> (r: String)
    ensures
        r@.len() == n,
        forall|i: int| 0 <= i < n ==> is_ascii_alphanumeric(#[trigger] r@[i]),
{
    rand::distributions::DistString::sample_string(
        &rand::distributions::Alphanumeric,
        &mut rand::thread_rng(),
        n,
    )
}

pub open spec fn novops_dash() -> Seq<char> {
    seq!['n', 'o', 'v', 'o', 'p', 's', '-']
}

/// `novops-<app>-<env>`.
pub open spec fn session_base(app: Seq<char>, env: Seq<char>) -> Seq<char> {
    novops_dash() + app + seq!['-'] + env
}

/// The role session name: `novops-<app>-<env>-<suffix>`; when that is longer than
/// 64 bytes, `novops-<app>-<env>` is cut so that the whole, suffix kept, takes 64 bytes.
pub open spec fn session_name_spec(app: Seq<char>, env: Seq<char>, suffix: Seq<char>) -> Seq<char> {
    let full = session_base(app, env) + seq!['-'] + suffix;
    if byte_len(full) > 64 {
        prefix_within(session_base(app, env), (64 - byte_len(suffix) - 1) as nat) + seq!['-'] + suffix
    } else {
        full
    }
}

/// Computing the session name does not panic: when a cut is needed, it falls on a
/// character boundary of `novops-<app>-<env>`.
pub open spec fn session_name_computable(app: Seq<char>, env: Seq<char>, suffix_len: nat) -> bool {
    byte_len(session_base(app, env)) + 1 + suffix_len <= 64 || truncatable(
        session_base(app, env),
        (64 - suffix_len - 1) as nat,
    )
}

/// The role session name for an application, an environment and a random suffix,
/// cut to the length STS accepts.
pub fn role_session_name(app_name: &str, env_name: &str, suffix: &str) -> (r: String)
    requires
        all_ascii(suffix@),
        suffix@.len() < 64,
        session_name_computable(app_name@, env_name@, suffix@.len()),
    ensures
        r@ == session_name_spec(app_name@, env_name@, suffix@),
        byte_len(r@) <= 64,
        r@.len() > suffix@.len(),
        r@.subrange(r@.len() - suffix@.len(), r@.len() as int) == suffix@,
        byte_len("novops-"@ + app_name@ + "-"@ + env_name@ + "-"@ + suffix@) <= 64 ==> r@ == "novops-"@ + app_name@
            + "-"@ + env_name@ + "-"@ + suffix@,
{
    proof {
        reveal_strlit("-");
        assert("-"@ =~= seq!['-']);
        assert("novops-"@ + app_name@ + "-"@ + env_name@ + "-"@ + suffix@ =~= session_base(app_name@, env_name@)
            + seq!['-'] + suffix@) by {
            reveal_strlit("novops-");
            assert("novops-"@ =~= novops_dash());
        }
    }
    let mut base = String::new();
    base.append("novops-");
    base.append(app_name);
    push_char(&mut base, '-');
    base.append(env_name);
    proof {
        reveal_strlit("novops-");
        assert("novops-"@ =~= novops_dash());
        assert(base@ =~= session_base(app_name@, env_name@));
        lemma_byte_len_ascii(suffix@);
        lemma_byte_len_append(base@, seq!['-']);
        lemma_byte_len_append(base@ + seq!['-'], suffix@);
        lemma_byte_len_ascii(seq!['-']);
    }
    let slen = byte_length(suffix);
    if byte_length(base.as_str()) > STS_ROLE_SESSION_NAME_MAX_LENGTH - 1 - slen {
        let keep = STS_ROLE_SESSION_NAME_MAX_LENGTH - byte_length(suffix) - 1;
        let truncated = truncate_bytes(base.as_str(), keep);
        let mut out = truncated;
        push_char(&mut out, '-');
        out.append(suffix);
        proof {
            lemma_byte_len_append(prefix_within(base@, keep as nat), seq!['-']);
            lemma_byte_len_append(prefix_within(base@, keep as nat) + seq!['-'], suffix@);
            assert(out@ =~= prefix_within(base@, keep as nat) + seq!['-'] + suffix@);
            assert(out@.subrange(out@.len() - suffix@.len(), out@.len() as int) =~= suffix@);
        }
        out
    } else {
        let mut out = base;
        push_char(&mut out, '-');
        out.append(suffix);
        proof {
            assert(out@ =~= session_base(app_name@, env_name@) + seq!['-'] + suffix@);
            assert(out@.subrange(out@.len() - suffix@.len(), out@.len() as int) =~= suffix@);
        }
        out
    }
}

/// Whether a role session name can be computed for this context without a cut falling
/// inside a character (a random suffix is always 7 ASCII characters).
pub fn session_name_computable_for(ctx: &NovopsContext) -> (r: bool)
    ensures
        r == session_name_computable(ctx.app_name@, ctx.env_name@, SESSION_SUFFIX_LENGTH as nat),
{
    let mut base = String::new();
    base.append("novops-");
    base.append(ctx.app_name.as_str());
    push_char(&mut base, '-');
    base.append(ctx.env_name.as_str());
    proof {
        reveal_strlit("novops-");
        assert("novops-"@ =~= novops_dash());
        assert(base@ =~= session_base(ctx.app_name@, ctx.env_name@));
    }
    let blen = byte_length(base.as_str());
    assert(blen == byte_len(base@));
    if blen <= STS_ROLE_SESSION_NAME_MAX_LENGTH - 1 - SESSION_SUFFIX_LENGTH {
        return true;
    }
    let keep = STS_ROLE_SESSION_NAME_MAX_LENGTH - SESSION_SUFFIX_LENGTH - 1;
    crate::text::is_byte_boundary(base.as_str(), keep)
}

impl AwsAssumeRoleInput {
    /// The request for this role in this context: the role ARN, a session name made of
    /// the application and environment names and 7 random letters or digits, and the
    /// duration (3600 seconds by default).
    pub fn request(&self, ctx: &NovopsContext) -> (r: AssumeRoleRequest)
        requires
            session_name_computable(ctx.app_name@, ctx.env_name@, SESSION_SUFFIX_LENGTH as nat),
        ensures
            r.role_arn@ == self.role_arn@,
            exists|suffix: Seq<char>|
                #![trigger session_name_spec(ctx.app_name@, ctx.env_name@, suffix)]
                suffix.len() == SESSION_SUFFIX_LENGTH && (forall|i: int|
                    0 <= i < suffix.len() ==> is_ascii_alphanumeric(#[trigger] suffix[i]))
                    && r.role_session_name@ == session_name_spec(ctx.app_name@, ctx.env_name@, suffix),
            byte_len(r.role_session_name@) <= STS_ROLE_SESSION_NAME_MAX_LENGTH,
            r.duration_seconds == match self.duration_seconds {
                Some(d) => d,
                None => 3600,
            },
    {
        let suffix = random_alphanumeric(SESSION_SUFFIX_LENGTH);
        proof {
            assert forall|i: int| 0 <= i < suffix@.len() implies (#[trigger] suffix@[i] as u32) < 0x80 by {
                assert(is_ascii_alphanumeric(suffix@[i]));
            }
        }
        let name = role_session_name(ctx.app_name.as_str(), ctx.env_name.as_str(), suffix.as_str());
        let duration_seconds = match self.duration_seconds {
            Some(d) => d,
            None => 3600,
        };
        AssumeRoleRequest {
            role_arn: copy_string(self.role_arn.as_str()),
            role_session_name: name,
            duration_seconds,
        }
    }
}

pub open spec fn aws_var_names() -> Seq<Seq<char>> {
    seq![
        "AWS_ACCESS_KEY_ID"@,
        "AWS_SECRET_ACCESS_KEY"@,
        "AWS_SESSION_TOKEN"@,
        "AWS_SESSION_EXPIRATION"@,
    ]
}

/// The variables for assumed-role credentials: access key, secret key, session token
/// and expiration (seconds since the epoch); an error when STS returned no credentials.
pub fn credentials_outputs(creds: Option<StsCredentials>) -> (r: Result<Vec<VariableOutput>, NovopsError>)
    ensures
        match creds {
            None => r == Err::<Vec<VariableOutput>, NovopsError>(NovopsError::CredentialsMissing),
            Some(c) => r matches Ok(v) && v@.len() == 4 && v@[0].name@ == "AWS_ACCESS_KEY_ID"@
                && v@[0].value@ == c.access_key_id@ && v@[1].name@ == "AWS_SECRET_ACCESS_KEY"@
                && v@[1].value@ == c.secret_access_key@ && v@[2].name@ == "AWS_SESSION_TOKEN"@
                && v@[2].value@ == c.session_token@ && v@[3].name@ == "AWS_SESSION_EXPIRATION"@
                && v@[3].value@ == signed_decimal_spec(c.expiration as int) && forall|i: int|
                0 <= i < 4 ==> (#[trigger] v@[i]).quote_method is None,
        },
{
    let c = match creds {
        Some(c) => c,
        None => return Err(NovopsError::CredentialsMissing),
    };
    let mut v: Vec<VariableOutput> = Vec::new();
    v.push(
        VariableOutput {
            name: copy_string("AWS_ACCESS_KEY_ID"),
            value: c.access_key_id,
            quote_method: None,
        },
    );
    v.push(
        VariableOutput {
            name: copy_string("AWS_SECRET_ACCESS_KEY"),
            value: c.secret_access_key,
            quote_method: None,
        },
    );
    v.push(
        VariableOutput {
            name: copy_string("AWS_SESSION_TOKEN"),
            value: c.session_token,
            quote_method: None,
        },
    );
    v.push(
        VariableOutput {
            name: copy_string("AWS_SESSION_EXPIRATION"),
            value: i64_to_decimal(c.expiration),
            quote_method: None,
        },
    );
    Ok(v)
}

impl ResolveTo<Vec<VariableOutput>> for AwsInput {
    /// In dry-run mode, the variables of the dry-run client's fixed credentials;
    /// otherwise STS has to be called.
    fn resolve_offline(&self, ctx: &NovopsContext) -> (r: Option<Result<Vec<VariableOutput>, NovopsError>>)
        ensures
            !ctx.dry_run ==> r is None,
            ctx.dry_run ==> match datetime_epoch_secs(dry_run_expiration()) {
                Some(secs) => r matches Some(Ok(v)) && v@.len() == 4 && v@[0].value@ == "AKIADRYRUNDRYUNDRYRUN"@
                    && v@[1].value@ == "xxx"@ && v@[2].value@ == "xxx"@ && v@[3].value@ == signed_decimal_spec(secs),
                None => r matches Some(Err(_)),
            },
    {
        if !ctx.dry_run {
            return None;
        }
        let client = DryRunAwsClient {};
        match client.assume_role() {
            Ok(creds) => Some(credentials_outputs(creds)),
            Err(e) => Some(Err(e)),
        }
    }
}

/// The fixed words this module writes and matches, spelled out as text.
pub proof fn lemma_assume_role_words()
    ensures
        novops_dash() == "novops-"@,
{
    reveal_strlit("novops-");
    assert(novops_dash() =~= "novops-"@);
}

} // verus!
