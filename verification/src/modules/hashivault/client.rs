//! Talking to Vault: which client to use, where the token and address come from,
//! and what the dry-run client answers.
use vstd::prelude::*;
use super::config::HashivaultConfig;
use crate::error::NovopsError;
use crate::export::opt_view;
use crate::keyed::{keyed_get, keyed_map};
use crate::novops_core::{Backend, NovopsContext};
use crate::text::{copy_string, path_join, path_join_spec, push_char, trim, trim_spec};

verus! {

/// The dry-run Vault client, which answers without calling Vault.
#[derive(Debug, Clone, PartialEq)]
pub struct DryRunHashivaultClient {}

/// What the client that calls Vault is built with besides token and address.
#[derive(Debug, Clone, PartialEq)]
pub struct VaultConnection {
    /// Whether to verify TLS; the client's default when not set.
    pub verify: Option<bool>,
}

/// AWS credentials generated by Vault.
#[derive(Debug, Clone, PartialEq)]
pub struct Creds {
    pub access_key: String,
    pub secret_key: String,
    pub security_token: Option<String>,
    pub arn: String,
}

/// Where the Vault token comes from.
#[derive(Debug, Clone, PartialEq)]
pub enum VaultTokenSource {
    /// This token.
    Token(String),
    /// The content of this file, trimmed.
    File(String),
    /// The Vault client's default token.
    ClientDefault,
}

/// The Vault settings of the config, if any.
pub open spec fn hashivault_config_spec(ctx: &NovopsContext) -> Option<HashivaultConfig> {
    match ctx.config_file_data.config {
        Some(c) => c.hashivault,
        None => None,
    }
}

/// The Vault settings of the config, if any.
pub fn hashivault_config(ctx: &NovopsContext) -> (r: Option<&HashivaultConfig>)
    ensures
        match hashivault_config_spec(ctx) {
            Some(c) => r matches Some(d) && *d == c,
            None => r is None,
        },
{
    match &ctx.config_file_data.config {
        Some(c) => match &c.hashivault {
            Some(h) => Some(h),
            None => None,
        },
        None => None,
    }
}

/// The client to use: the dry-run client in dry-run mode, otherwise one that calls
/// Vault with the configured TLS verification.
pub fn get_client(ctx: &NovopsContext) -> (r: Backend<DryRunHashivaultClient, VaultConnection>)
    ensures
        ctx.dry_run ==> r is DryRun,
        !ctx.dry_run ==> (r matches Backend::Live(c) && c.verify == match hashivault_config_spec(ctx) {
            Some(h) => h.verify,
            None => None,
        }),
{
    if ctx.dry_run {
        Backend::DryRun(DryRunHashivaultClient {})
    } else {
        let verify = match hashivault_config(ctx) {
            Some(h) => h.verify,
            None => None,
        };
        Backend::Live(VaultConnection { verify })
    }
}

pub open spec fn vault_token_file_name() -> Seq<char> {
    seq!['.', 'v', 'a', 'u', 'l', 't', '-', 't', 'o', 'k', 'e', 'n']
}

/// The token file in a home directory: `<home>/.vault-token`.
pub fn home_token_path(home: &str) -> (r: String)
    ensures
        r@ == path_join_spec(home@, vault_token_file_name()),
{
    proof {
        reveal_strlit(".vault-token");
        assert(".vault-token"@ =~= vault_token_file_name());
    }
    path_join(home, ".vault-token")
}

/// Where the token comes from, first found first: the `VAULT_TOKEN` variable, the
/// configured token file, the configured plain token, `$HOME/.vault-token` when it
/// exists, and the client's default otherwise.
pub open spec fn token_source_spec(
    config: Option<HashivaultConfig>,
    home: Option<Seq<char>>,
    token_var: Option<Seq<char>>,
    home_token_exists: bool,
) -> VaultTokenSourceView {
    match token_var {
        Some(t) => VaultTokenSourceView::Token(t),
        None => match config {
            Some(c) if c.token_path is Some => VaultTokenSourceView::File(c.token_path->0@),
            Some(c) if c.token is Some => VaultTokenSourceView::Token(c.token->0@),
            _ => match home {
                Some(h) if home_token_exists => VaultTokenSourceView::File(
                    path_join_spec(h, vault_token_file_name()),
                ),
                _ => VaultTokenSourceView::ClientDefault,
            },
        },
    }
}

/// The config names neither a token file nor a plain token.
pub open spec fn no_configured_token(config: Option<HashivaultConfig>) -> bool {
    match config {
        Some(c) => c.token_path is None && c.token is None,
        None => true,
    }
}

/// The order in which the token is looked for: `VAULT_TOKEN` wins; then the configured
/// token file, then the configured plain token; with neither, `$HOME/.vault-token` is used
/// only when that file exists, and the client's default token otherwise. In particular a
/// home token file that does not exist is never chosen: a file source is then the
/// configured one.
pub proof fn lemma_token_source_order(
    config: Option<HashivaultConfig>,
    home: Option<Seq<char>>,
    token_var: Option<Seq<char>>,
    home_token_exists: bool,
)
    ensures
        token_var matches Some(t) ==> token_source_spec(config, home, token_var, home_token_exists)
            == VaultTokenSourceView::Token(t),
        token_var is None ==> match config {
            Some(c) => match (c.token_path, c.token) {
                (Some(p), _) => token_source_spec(config, home, token_var, home_token_exists)
                    == VaultTokenSourceView::File(p@),
                (None, Some(t)) => token_source_spec(config, home, token_var, home_token_exists)
                    == VaultTokenSourceView::Token(t@),
                (None, None) => true,
            },
            None => true,
        },
        token_var is None && no_configured_token(config) && home_token_exists ==> (home matches Some(h)
            ==> token_source_spec(config, home, token_var, home_token_exists) == VaultTokenSourceView::File(
            path_join_spec(h, ".vault-token"@),
        )),
        token_var is None && no_configured_token(config) && (!home_token_exists || home is None)
            ==> token_source_spec(config, home, token_var, home_token_exists) is ClientDefault,
        !home_token_exists ==> match token_source_spec(config, home, token_var, home_token_exists) {
            VaultTokenSourceView::File(f) => token_var is None && (config matches Some(c) && c.token_path is Some
                && f == c.token_path->0@),
            _ => true,
        },
{
    reveal_strlit(".vault-token");
    assert(".vault-token"@ =~= vault_token_file_name());
}

/// A token source, with strings as character sequences.
pub enum VaultTokenSourceView {
    Token(Seq<char>),
    File(Seq<char>),
    ClientDefault,
}

impl VaultTokenSource {
    pub open spec fn view(self) -> VaultTokenSourceView {
        match self {
            VaultTokenSource::Token(t) => VaultTokenSourceView::Token(t@),
            VaultTokenSource::File(f) => VaultTokenSourceView::File(f@),
            VaultTokenSource::ClientDefault => VaultTokenSourceView::ClientDefault,
        }
    }
}

/// Where the Vault token comes from, in this order: the `VAULT_TOKEN` variable
/// (`token_var`), the configured token file, the configured plain token, the file
/// `.vault-token` in the home directory when `home_token_exists` says it exists, and
/// the client's default.
pub fn load_vault_token(
    ctx: &NovopsContext,
    home_var: Option<String>,
    token_var: Option<String>,
    home_token_exists: bool,
) -> (r: VaultTokenSource)
    ensures
        r.view() == token_source_spec(hashivault_config_spec(ctx), opt_view(home_var), opt_view(token_var), home_token_exists),
        token_var matches Some(t) ==> r == VaultTokenSource::Token(t),
        token_var is None && no_configured_token(hashivault_config_spec(ctx)) ==> match home_var {
            Some(h) => if home_token_exists {
                r matches VaultTokenSource::File(f) && f@ == path_join_spec(h@, ".vault-token"@)
            } else {
                r is ClientDefault
            },
            None => r is ClientDefault,
        },
        !home_token_exists ==> match r {
            VaultTokenSource::File(f) => token_var is None && (hashivault_config_spec(ctx) matches Some(c)
                && c.token_path is Some && f@ == c.token_path->0@),
            _ => true,
        },
{
    proof {
        lemma_token_source_order(hashivault_config_spec(ctx), opt_view(home_var), opt_view(token_var), home_token_exists);
    }
    if let Some(t) = token_var {
        return VaultTokenSource::Token(t);
    }
    if let Some(c) = hashivault_config(ctx) {
        if let Some(p) = &c.token_path {
            return VaultTokenSource::File(copy_string(p.as_str()));
        }
        if let Some(t) = &c.token {
            return VaultTokenSource::Token(copy_string(t.as_str()));
        }
    }
    if let Some(h) = home_var {
        if home_token_exists {
            return VaultTokenSource::File(home_token_path(h.as_str()));
        }
    }
    VaultTokenSource::ClientDefault
}

/// A token read from a file: the content without surrounding whitespace, since
/// spaces or line feeds make the Vault client fail.
pub fn read_vault_token_content(content: &str) -> (r: String)
    ensures
        r@ == trim_spec(content@),
{
    trim(content)
}

/// The URL text an address parses to, as the `url` crate normalizes it; `None` when
/// the address is not a URL.
pub uninterp spec fn url_normalized(s: Seq<char>) -> Option<Seq<char>>;

/// Calls `url::Url::parse`, then serializes the URL; named `url_normalized`.
#[verifier::external_body]
fn parse_url(s: &str) -> (r: Option<String>)
    ensures
        match r {
            Some(u) => url_normalized(s@) == Some(u@),
            None => url_normalized(s@) is None,
        },
{
    url::Url::parse(s).ok().map(|u| u.to_string())
}

/// A Vault address parsed as a URL; an error naming the address otherwise.
pub fn parse_vault_addr_str(vault_addr_str: String) -> (r: Result<String, NovopsError>)
    ensures
        match url_normalized(vault_addr_str@) {
            Some(u) => r matches Ok(t) && t@ == u,
            None => r matches Err(NovopsError::InvalidUrl(a)) && a@ == vault_addr_str@,
        },
{
    match parse_url(vault_addr_str.as_str()) {
        Some(u) => Ok(u),
        None => Err(NovopsError::InvalidUrl(vault_addr_str)),
    }
}

/// The Vault address, in this order: the `VAULT_ADDR` variable, the configured address,
/// both parsed as URLs, and the client's default address; `Err` holds an address that is
/// not a URL.
pub open spec fn vault_address_spec(
    config: Option<HashivaultConfig>,
    addr_var: Option<Seq<char>>,
    default_address: Seq<char>,
) -> Result<Seq<char>, Seq<char>> {
    match addr_var {
        Some(a) => match url_normalized(a) {
            Some(u) => Ok(u),
            None => Err(a),
        },
        None => match config {
            Some(c) if c.address is Some => match url_normalized(c.address->0@) {
                Some(u) => Ok(u),
                None => Err(c.address->0@),
            },
            _ => Ok(default_address),
        },
    }
}

/// The configured Vault address, if any.
pub open spec fn configured_address(config: Option<HashivaultConfig>) -> Option<String> {
    match config {
        Some(c) => c.address,
        None => None,
    }
}

/// `VAULT_ADDR` wins over the configured address, which wins over the client's default;
/// the address that is chosen is parsed as a URL, and when it is not one it is the
/// address reported. The default is used, unparsed, only when neither is set.
pub proof fn lemma_vault_address_order(
    config: Option<HashivaultConfig>,
    addr_var: Option<Seq<char>>,
    default_address: Seq<char>,
)
    ensures
        match addr_var {
            Some(a) => match url_normalized(a) {
                Some(u) => vault_address_spec(config, addr_var, default_address) == Ok::<Seq<char>, Seq<char>>(u),
                None => vault_address_spec(config, addr_var, default_address) == Err::<Seq<char>, Seq<char>>(a),
            },
            None => match configured_address(config) {
                Some(c) => match url_normalized(c@) {
                    Some(u) => vault_address_spec(config, addr_var, default_address) == Ok::<Seq<char>, Seq<char>>(u),
                    None => vault_address_spec(config, addr_var, default_address) == Err::<Seq<char>, Seq<char>>(c@),
                },
                None => vault_address_spec(config, addr_var, default_address) == Ok::<Seq<char>, Seq<char>>(default_address),
            },
        },
{
}

/// Whether the result matches an address outcome.
pub open spec fn address_outcome(r: Result<String, NovopsError>, o: Result<Seq<char>, Seq<char>>) -> bool {
    match o {
        Ok(u) => r matches Ok(t) && t@ == u,
        Err(a) => r matches Err(NovopsError::InvalidUrl(e)) && e@ == a,
    }
}

/// The Vault address, in this order: the `VAULT_ADDR` variable (`addr_var`), the
/// configured address, both parsed as URLs, and the client's default address.
pub fn load_vault_address(ctx: &NovopsContext, addr_var: Option<String>, default_address: String) -> (r: Result<String, NovopsError>)
    ensures
        address_outcome(r, vault_address_spec(hashivault_config_spec(ctx), opt_view(addr_var), default_address@)),
        addr_var is None && configured_address(hashivault_config_spec(ctx)) is None ==> (r matches Ok(t)
            && t@ == default_address@),
        match addr_var {
            Some(a) => match url_normalized(a@) {
                Some(u) => r matches Ok(t) && t@ == u,
                None => r matches Err(NovopsError::InvalidUrl(e)) && e@ == a@,
            },
            None => true,
        },
{
    proof {
        lemma_vault_address_order(hashivault_config_spec(ctx), opt_view(addr_var), default_address@);
    }
    if let Some(a) = addr_var {
        return parse_vault_addr_str(a);
    }
    if let Some(c) = hashivault_config(ctx) {
        if let Some(a) = &c.address {
            return parse_vault_addr_str(copy_string(a.as_str()));
        }
    }
    Ok(default_address)
}

/// The token, once its source is known and, for a file, read: the token given, the
/// file's content trimmed, or the client's default token.
pub fn vault_token_from(source: VaultTokenSource, file_content: Option<String>, default_token: String) -> (r: String)
    requires
        source is File ==> file_content is Some,
    ensures
        match source {
            VaultTokenSource::Token(t) => r@ == t@,
            VaultTokenSource::File(_) => r@ == trim_spec(file_content->0@),
            VaultTokenSource::ClientDefault => r@ == default_token@,
        },
{
    match source {
        VaultTokenSource::Token(t) => t,
        VaultTokenSource::File(_) => match file_content {
            Some(c) => read_vault_token_content(c.as_str()),
            None => default_token,
        },
        VaultTokenSource::ClientDefault => default_token,
    }
}

/// What the Vault client is built with.
#[derive(Debug, Clone, PartialEq)]
pub struct VaultSettings {
    pub address: String,
    pub token: String,
    pub verify: bool,
}

/// TLS verification: as configured, the client's default otherwise.
pub open spec fn vault_verify_spec(ctx: &NovopsContext, default_verify: bool) -> bool {
    match hashivault_config_spec(ctx) {
        Some(h) => match h.verify {
            Some(v) => v,
            None => default_verify,
        },
        None => default_verify,
    }
}

/// The settings of the client that calls Vault: the address of `load_vault_address`,
/// the token, and TLS verification as configured; an error exactly when the address is
/// not a URL.
pub fn vault_settings(
    ctx: &NovopsContext,
    token: String,
    addr_var: Option<String>,
    default_address: String,
    default_verify: bool,
) -> (r: Result<VaultSettings, NovopsError>)
    ensures
        match vault_address_spec(hashivault_config_spec(ctx), opt_view(addr_var), default_address@) {
            Ok(a) => r matches Ok(s) && s.address@ == a && s.token@ == token@ && s.verify == vault_verify_spec(
                ctx,
                default_verify,
            ),
            Err(a) => r matches Err(NovopsError::InvalidUrl(e)) && e@ == a,
        },
        r matches Ok(s) ==> s.token == token && s.verify == match hashivault_config_spec(ctx) {
            Some(h) => match h.verify {
                Some(v) => v,
                None => default_verify,
            },
            None => default_verify,
        },
{
    let address = load_vault_address(ctx, addr_var, default_address)?;
    let verify = match hashivault_config(ctx) {
        Some(h) => match h.verify {
            Some(v) => v,
            None => default_verify,
        },
        None => default_verify,
    };
    Ok(VaultSettings { address, token, verify })
}

/// The value of `key` in a secret's data; an error naming mount, path and key when
/// the secret has no such key.
pub fn secret_value_for_key(data: &Vec<(String, String)>, mount: &str, path: &str, key: &str) -> (r: Result<String, NovopsError>)
    ensures
        keyed_map(data@).contains_key(key@) ==> (r matches Ok(v) && v@ == keyed_map(data@)[key@]@),
        !keyed_map(data@).contains_key(key@) ==> (r matches Err(NovopsError::SecretKeyNotFound { mount: m, path: p, key: k })
            && m@ == mount@ && p@ == path@ && k@ == key@),
{
    match keyed_get(data, key) {
        Some(v) => Ok(copy_string(v.as_str())),
        None => Err(
            NovopsError::SecretKeyNotFound {
                mount: copy_string(mount),
                path: copy_string(path),
                key: copy_string(key),
            },
        ),
    }
}

pub open spec fn result_prefix() -> Seq<char> {
    seq!['R', 'E', 'S', 'U', 'L', 'T', ':']
}

/// What the dry-run client reads at a path and key: `RESULT:<path>/<key>`.
pub open spec fn dry_run_read_spec(path: Seq<char>, key: Seq<char>) -> Seq<char> {
    result_prefix() + path + seq!['/'] + key
}

pub open spec fn dry_run_arn_spec(role: Seq<char>, session: Option<Seq<char>>) -> Seq<char> {
    "arn:aws:sts::123456789012:assumed-role/"@ + role + seq!['/'] + match session {
        Some(s) => s,
        None => "dummy-session"@,
    }
}

impl DryRunHashivaultClient {
    /// `RESULT:<path>/<key>`, whatever the mount.
    pub fn kv2_read(&self, path: &str, key: &str) -> (r: String)
        ensures
            r@ == dry_run_read_spec(path@, key@),
    {
        proof {
            reveal_strlit("RESULT:");
            assert("RESULT:"@ =~= result_prefix());
        }
        let mut s = String::new();
        s.append("RESULT:");
        s.append(path);
        push_char(&mut s, '/');
        s.append(key);
        s
    }

    /// `RESULT:<path>/<key>`, whatever the mount.
    pub fn kv1_read(&self, path: &str, key: &str) -> (r: String)
        ensures
            r@ == dry_run_read_spec(path@, key@),
    {
        self.kv2_read(path, key)
    }

    /// Fixed credentials, with an ARN naming the role and the session (`dummy-session` when none).
    pub fn aws_creds(&self, role: &str, role_session_name: &Option<String>) -> (r: Creds)
        ensures
            r.access_key@ == "AKIADRYRUNACCESSKEY"@,
            r.secret_key@ == "s3cret"@,
            r.security_token matches Some(t) && t@ == "securityToken"@,
            r.arn@ == dry_run_arn_spec(role@, opt_view(*role_session_name)),
    {
        let mut arn = String::new();
        arn.append("arn:aws:sts::123456789012:assumed-role/");
        arn.append(role);
        push_char(&mut arn, '/');
        match role_session_name {
            Some(s) => arn.append(s.as_str()),
            None => arn.append("dummy-session"),
        }
        Creds {
            access_key: copy_string("AKIADRYRUNACCESSKEY"),
            secret_key: copy_string("s3cret"),
            security_token: Some(copy_string("securityToken")),
            arn,
        }
    }
}

/// The fixed words this module writes and matches, spelled out as text.
pub proof fn lemma_hashivault_client_words()
    ensures
        vault_token_file_name() == ".vault-token"@,
        result_prefix() == "RESULT:"@,
{
    reveal_strlit(".vault-token");
    reveal_strlit("RESULT:");
    assert(vault_token_file_name() =~= ".vault-token"@);
    assert(result_prefix() =~= "RESULT:"@);
}

} // verus!
