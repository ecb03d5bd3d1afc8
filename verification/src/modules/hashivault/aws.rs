//! Temporary AWS credentials from the Vault AWS secret engine.
use vstd::prelude::*;
use super::client::{Creds, DryRunHashivaultClient};
use super::config::HashiVaultInput;
use crate::error::NovopsError;
use crate::modules::variables::VariableOutput;
use crate::novops_core::{NovopsContext, ResolveTo};
use crate::text::copy_string;

verus! {

/// A Vault AWS role to generate credentials for.
#[derive(Debug, Clone, PartialEq)]
pub struct HashiVaultAWSInput {
    /// Engine mount point; `aws` by default.
    pub mount: Option<String>,
    /// Vault role name.
    pub name: String,
    pub role_arn: Option<String>,
    pub role_session_name: Option<String>,
    pub ttl: Option<String>,
}

/// The variables for Vault AWS credentials: access key, secret key, and the session
/// token when there is one.
pub open spec fn creds_outputs_ok(c: Creds, v: Seq<VariableOutput>) -> bool {
    &&& v.len() == (if c.security_token is Some { 3int } else { 2int })
    &&& v[0].name@ == "AWS_ACCESS_KEY_ID"@ && v[0].value@ == c.access_key@
    &&& v[1].name@ == "AWS_SECRET_ACCESS_KEY"@ && v[1].value@ == c.secret_key@
    &&& c.security_token is Some ==> v[2].name@ == "AWS_SESSION_TOKEN"@ && v[2].value@
        == c.security_token->0@
    &&& forall|i: int| 0 <= i < v.len() ==> (#[trigger] v[i]).quote_method is None
}

/// Whatever the credentials, their variables hold the access key as `AWS_ACCESS_KEY_ID`
/// and the secret key as `AWS_SECRET_ACCESS_KEY`, and the session token as
/// `AWS_SESSION_TOKEN` exactly when there is one: two variables without a token, three
/// with one.
pub proof fn lemma_creds_outputs_complete(c: Creds, v: Seq<VariableOutput>)
    requires
        creds_outputs_ok(c, v),
    ensures
        v.len() >= 2,
        v[0].name@ == "AWS_ACCESS_KEY_ID"@,
        v[0].value@ == c.access_key@,
        v[1].name@ == "AWS_SECRET_ACCESS_KEY"@,
        v[1].value@ == c.secret_key@,
        c.security_token is None <==> v.len() == 2,
        c.security_token is Some <==> v.len() == 3,
        match c.security_token {
            Some(t) => v[2].name@ == "AWS_SESSION_TOKEN"@ && v[2].value@ == t@,
            None => true,
        },
{
}

impl HashiVaultAWSInput {
    /// The mount point: as configured, `aws` when not set.
    pub fn mount_or_default(&self) -> (r: String)
        ensures
            r@ == match self.mount {
                Some(m) => m@,
                None => "aws"@,
            },
    {
        match &self.mount {
            Some(m) => copy_string(m.as_str()),
            None => copy_string("aws"),
        }
    }

    /// The variables for credentials Vault generated.
    pub fn outputs_for(&self, creds: Creds) -> (r: Vec<VariableOutput>)
        ensures
            creds_outputs_ok(creds, r@),
            r@.len() >= 2,
            r@[0].name@ == "AWS_ACCESS_KEY_ID"@ && r@[0].value@ == creds.access_key@,
            r@[1].name@ == "AWS_SECRET_ACCESS_KEY"@ && r@[1].value@ == creds.secret_key@,
            creds.security_token is None <==> r@.len() == 2,
            match creds.security_token {
                Some(t) => r@.len() == 3 && r@[2].name@ == "AWS_SESSION_TOKEN"@ && r@[2].value@ == t@,
                None => true,
            },
    {
        let mut result: Vec<VariableOutput> = Vec::new();
        result.push(
            VariableOutput {
                name: copy_string("AWS_ACCESS_KEY_ID"),
                value: creds.access_key,
                quote_method: None,
            },
        );
        result.push(
            VariableOutput {
                name: copy_string("AWS_SECRET_ACCESS_KEY"),
                value: creds.secret_key,
                quote_method: None,
            },
        );
        if let Some(t) = creds.security_token {
            result.push(
                VariableOutput { name: copy_string("AWS_SESSION_TOKEN"), value: t, quote_method: None },
            );
        }
        result
    }

    /// The variables given in dry-run mode: those of the dry-run client's credentials.
    pub fn dry_run_outputs(&self) -> (r: Vec<VariableOutput>)
        ensures
            r@.len() == 3,
            r@[0].name@ == "AWS_ACCESS_KEY_ID"@ && r@[0].value@ == "AKIADRYRUNACCESSKEY"@,
            r@[1].name@ == "AWS_SECRET_ACCESS_KEY"@ && r@[1].value@ == "s3cret"@,
            r@[2].name@ == "AWS_SESSION_TOKEN"@ && r@[2].value@ == "securityToken"@,
    {
        let creds = DryRunHashivaultClient {}.aws_creds(self.name.as_str(), &self.role_session_name);
        self.outputs_for(creds)
    }
}

impl ResolveTo<Vec<VariableOutput>> for HashiVaultInput {
    /// In dry-run mode, the dummy credentials of `dry_run_outputs`; otherwise Vault has to be called.
    fn resolve_offline(&self, ctx: &NovopsContext) -> (r: Option<Result<Vec<VariableOutput>, NovopsError>>)
        ensures
            if ctx.dry_run {
                r matches Some(Ok(v)) && v@.len() == 3 && v@[0].name@ == "AWS_ACCESS_KEY_ID"@ && v@[0].value@
                    == "AKIADRYRUNACCESSKEY"@ && v@[1].name@ == "AWS_SECRET_ACCESS_KEY"@ && v@[1].value@ == "s3cret"@
                    && v@[2].name@ == "AWS_SESSION_TOKEN"@ && v@[2].value@ == "securityToken"@
            } else {
                r is None
            },
    {
        if ctx.dry_run {
            Some(Ok(self.aws.dry_run_outputs()))
        } else {
            None
        }
    }
}

} // verus!
