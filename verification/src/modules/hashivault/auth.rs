//! Logging in to Vault with the configured authentication method when no token is given.
use vstd::prelude::*;
use super::client::hashivault_config_spec;
use super::config::HashiVaultAuth;
use crate::error::NovopsError;
use crate::export::opt_view;
use crate::novops_core::NovopsContext;
use crate::text::copy_string;

verus! {

/// Where a login credential comes from: this value, or the content of this file.
#[derive(Debug, Clone, PartialEq)]
pub enum CredentialSource {
    Value(String),
    File(String),
}

/// A login to perform before reading secrets.
#[derive(Debug, Clone, PartialEq)]
pub enum VaultLogin {
    /// AppRole login with a role ID and, when there is one, a secret ID.
    AppRole { mount: String, role_id: String, secret_id: Option<CredentialSource> },
    /// JWT login with a token, for a role when one is named.
    Jwt { mount: String, role: Option<String>, jwt: CredentialSource },
    /// Kubernetes login with the service account token, for a role.
    Kubernetes { mount: String, role: String, jwt: CredentialSource },
}

/// A credential source with strings as character sequences.
pub enum CredentialSourceView {
    Value(Seq<char>),
    File(Seq<char>),
}

/// A login with strings as character sequences.
pub enum VaultLoginView {
    AppRole { mount: Seq<char>, role_id: Seq<char>, secret_id: Option<CredentialSourceView> },
    Jwt { mount: Seq<char>, role: Option<Seq<char>>, jwt: CredentialSourceView },
    Kubernetes { mount: Seq<char>, role: Seq<char>, jwt: CredentialSourceView },
}

impl CredentialSource {
    pub open spec fn view(self) -> CredentialSourceView {
        match self {
            CredentialSource::Value(v) => CredentialSourceView::Value(v@),
            CredentialSource::File(f) => CredentialSourceView::File(f@),
        }
    }
}

pub open spec fn opt_source_view(o: Option<CredentialSource>) -> Option<CredentialSourceView> {
    match o {
        Some(s) => Some(s.view()),
        None => None,
    }
}

impl VaultLogin {
    pub open spec fn view(self) -> VaultLoginView {
        match self {
            VaultLogin::AppRole { mount, role_id, secret_id } => VaultLoginView::AppRole {
                mount: mount@,
                role_id: role_id@,
                secret_id: opt_source_view(secret_id),
            },
            VaultLogin::Jwt { mount, role, jwt } => VaultLoginView::Jwt { mount: mount@, role: opt_view(role), jwt: jwt.view() },
            VaultLogin::Kubernetes { mount, role, jwt } => VaultLoginView::Kubernetes {
                mount: mount@,
                role: role@,
                jwt: jwt.view(),
            },
        }
    }
}

pub open spec fn approle_word() -> Seq<char> {
    seq!['a', 'p', 'p', 'r', 'o', 'l', 'e']
}

pub open spec fn jwt_word() -> Seq<char> {
    seq!['j', 'w', 't']
}

pub open spec fn kubernetes_word() -> Seq<char> {
    seq!['k', 'u', 'b', 'e', 'r', 'n', 'e', 't', 'e', 's']
}

pub open spec fn role_id_word() -> Seq<char> {
    seq!['r', 'o', 'l', 'e', '_', 'i', 'd']
}

pub open spec fn role_word() -> Seq<char> {
    seq!['r', 'o', 'l', 'e']
}

pub open spec fn token_path_word() -> Seq<char> {
    seq!['t', 'o', 'k', 'e', 'n', '_', 'p', 'a', 't', 'h']
}

/// Where Kubernetes mounts a pod's service account token.
pub open spec fn default_sa_token_path() -> Seq<char> {
    "/var/run/secrets/kubernetes.io/serviceaccount/token"@
}

pub open spec fn or_default(o: Option<Seq<char>>, d: Seq<char>) -> Seq<char> {
    match o {
        Some(v) => v,
        None => d,
    }
}

/// The login for an authentication method: the mount defaults to the method's usual
/// mount (`approle`, `jwt`, `kubernetes`).
/// - AppRole needs a role ID; its secret ID is read from `secret_id_path` when set,
///   else taken from `VAULT_AUTH_SECRET_ID` (`secret_id_var`), else there is none.
/// - JWT reads its token from `token_path` when set, else takes `VAULT_AUTH_JWT_TOKEN`
///   (`jwt_var`); without either it cannot log in.
/// - Kubernetes needs a role; the service account token is read from the file named by
///   `KUBERNETES_SA_JWT_PATH` (`sa_path_var`), else from its usual place.
/// `Err` names the missing setting.
pub open spec fn login_spec(
    auth: HashiVaultAuth,
    secret_id_var: Option<Seq<char>>,
    jwt_var: Option<Seq<char>>,
    sa_path_var: Option<Seq<char>>,
) -> Result<VaultLoginView, Seq<char>> {
    match auth {
        HashiVaultAuth::AppRole { mount_path, role_id, secret_id_path } => match role_id {
            None => Err(role_id_word()),
            Some(rid) => Ok(
                VaultLoginView::AppRole {
                    mount: or_default(opt_view(mount_path), approle_word()),
                    role_id: rid@,
                    secret_id: match secret_id_path {
                        Some(p) => Some(CredentialSourceView::File(p@)),
                        None => match secret_id_var {
                            Some(v) => Some(CredentialSourceView::Value(v)),
                            None => None,
                        },
                    },
                },
            ),
        },
        HashiVaultAuth::JWT { token_path, role, mount_path } => match token_path {
            Some(p) => Ok(
                VaultLoginView::Jwt {
                    mount: or_default(opt_view(mount_path), jwt_word()),
                    role: opt_view(role),
                    jwt: CredentialSourceView::File(p@),
                },
            ),
            None => match jwt_var {
                Some(v) => Ok(
                    VaultLoginView::Jwt {
                        mount: or_default(opt_view(mount_path), jwt_word()),
                        role: opt_view(role),
                        jwt: CredentialSourceView::Value(v),
                    },
                ),
                None => Err(token_path_word()),
            },
        },
        HashiVaultAuth::Kubernetes { mount_path, role } => match role {
            None => Err(role_word()),
            Some(r) => Ok(
                VaultLoginView::Kubernetes {
                    mount: or_default(opt_view(mount_path), kubernetes_word()),
                    role: r@,
                    jwt: CredentialSourceView::File(or_default(sa_path_var, default_sa_token_path())),
                },
            ),
        },
    }
}

/// What each method logs in with. AppRole fails only without a role ID; its secret ID
/// comes from `secret_id_path` before `VAULT_AUTH_SECRET_ID`. JWT fails only with
/// neither a token file nor `VAULT_AUTH_JWT_TOKEN`, and prefers the file. Kubernetes
/// fails only without a role, and reads the token from `KUBERNETES_SA_JWT_PATH` before
/// its usual place. The mount is the configured one, else the method's name; the error
/// names the missing setting.
pub proof fn lemma_login_sources(
    auth: HashiVaultAuth,
    secret_id_var: Option<Seq<char>>,
    jwt_var: Option<Seq<char>>,
    sa_path_var: Option<Seq<char>>,
)
    ensures
        match (auth, login_spec(auth, secret_id_var, jwt_var, sa_path_var)) {
            (
                HashiVaultAuth::AppRole { mount_path, role_id, secret_id_path },
                Ok(VaultLoginView::AppRole { mount, role_id: rid, secret_id }),
            ) => {
                &&& role_id is Some && rid == role_id->0@
                &&& mount == (match mount_path {
                    Some(m) => m@,
                    None => "approle"@,
                })
                &&& secret_id == (match secret_id_path {
                    Some(f) => Some(CredentialSourceView::File(f@)),
                    None => match secret_id_var {
                        Some(v) => Some(CredentialSourceView::Value(v)),
                        None => None,
                    },
                })
            },
            (HashiVaultAuth::AppRole { role_id, .. }, Err(f)) => role_id is None && f == "role_id"@,
            (HashiVaultAuth::JWT { token_path, role, mount_path }, Ok(VaultLoginView::Jwt { mount, role: r, jwt })) => {
                &&& token_path is Some || jwt_var is Some
                &&& r == opt_view(role)
                &&& mount == (match mount_path {
                    Some(m) => m@,
                    None => "jwt"@,
                })
                &&& jwt == (match token_path {
                    Some(f) => CredentialSourceView::File(f@),
                    None => CredentialSourceView::Value(jwt_var->0),
                })
            },
            (HashiVaultAuth::JWT { token_path, .. }, Err(f)) => token_path is None && jwt_var is None && f
                == "token_path"@,
            (
                HashiVaultAuth::Kubernetes { mount_path, role },
                Ok(VaultLoginView::Kubernetes { mount, role: r, jwt }),
            ) => {
                &&& role is Some && r == role->0@
                &&& mount == (match mount_path {
                    Some(m) => m@,
                    None => "kubernetes"@,
                })
                &&& jwt == CredentialSourceView::File(match sa_path_var {
                    Some(f) => f,
                    None => "/var/run/secrets/kubernetes.io/serviceaccount/token"@,
                })
            },
            (HashiVaultAuth::Kubernetes { role, .. }, Err(f)) => role is None && f == "role"@,
            _ => false,
        },
{
    reveal_strlit("approle");
    reveal_strlit("jwt");
    reveal_strlit("kubernetes");
    reveal_strlit("role_id");
    reveal_strlit("role");
    reveal_strlit("token_path");
    assert("approle"@ =~= approle_word());
    assert("jwt"@ =~= jwt_word());
    assert("kubernetes"@ =~= kubernetes_word());
    assert("role_id"@ =~= role_id_word());
    assert("role"@ =~= role_word());
    assert("token_path"@ =~= token_path_word());
}

/// The configured authentication method, if any.
pub open spec fn auth_spec(ctx: &NovopsContext) -> Option<HashiVaultAuth> {
    match hashivault_config_spec(ctx) {
        Some(h) => h.auth,
        None => None,
    }
}

fn or_default_string(o: &Option<String>, d: &str) -> (r: String)
    ensures
        r@ == or_default(opt_view(*o), d@),
{
    match o {
        Some(v) => v.clone(),
        None => copy_string(d),
    }
}

/// The login to perform before reading secrets: none when a token was found or no
/// authentication method is configured, otherwise as `login_spec` says; an error naming
/// the setting the method lacks.
pub fn vault_login_plan(
    ctx: &NovopsContext,
    token_found: bool,
    secret_id_var: Option<String>,
    jwt_var: Option<String>,
    sa_path_var: Option<String>,
) -> (r: Result<Option<VaultLogin>, NovopsError>)
    ensures
        token_found || auth_spec(ctx) is None ==> r matches Ok(None),
        !token_found && auth_spec(ctx) is Some ==> match login_spec(
            auth_spec(ctx)->0,
            opt_view(secret_id_var),
            opt_view(jwt_var),
            opt_view(sa_path_var),
        ) {
            Ok(l) => r matches Ok(Some(x)) && x.view() == l,
            Err(f) => r matches Err(NovopsError::VaultAuthIncomplete(g)) && g@ == f,
        },
{
    proof {
        reveal_strlit("approle");
        reveal_strlit("jwt");
        reveal_strlit("kubernetes");
        reveal_strlit("role_id");
        reveal_strlit("role");
        reveal_strlit("token_path");
        assert("approle"@ =~= approle_word());
        assert("jwt"@ =~= jwt_word());
        assert("kubernetes"@ =~= kubernetes_word());
        assert("role_id"@ =~= role_id_word());
        assert("role"@ =~= role_word());
        assert("token_path"@ =~= token_path_word());
    }
    if token_found {
        return Ok(None);
    }
    let auth = match &ctx.config_file_data.config {
        Some(c) => match &c.hashivault {
            Some(h) => match &h.auth {
                Some(a) => a,
                None => return Ok(None),
            },
            None => return Ok(None),
        },
        None => return Ok(None),
    };
    match auth {
        HashiVaultAuth::AppRole { mount_path, role_id, secret_id_path } => {
            let rid = match role_id {
                Some(r) => r.clone(),
                None => return Err(NovopsError::VaultAuthIncomplete(copy_string("role_id"))),
            };
            let secret_id = match secret_id_path {
                Some(p) => Some(CredentialSource::File(p.clone())),
                None => match secret_id_var {
                    Some(v) => Some(CredentialSource::Value(v)),
                    None => None,
                },
            };
            Ok(Some(VaultLogin::AppRole { mount: or_default_string(mount_path, "approle"), role_id: rid, secret_id }))
        },
        HashiVaultAuth::JWT { token_path, role, mount_path } => {
            let jwt = match token_path {
                Some(p) => CredentialSource::File(p.clone()),
                None => match jwt_var {
                    Some(v) => CredentialSource::Value(v),
                    None => return Err(NovopsError::VaultAuthIncomplete(copy_string("token_path"))),
                },
            };
            let role = match role {
                Some(r) => Some(r.clone()),
                None => None,
            };
            Ok(Some(VaultLogin::Jwt { mount: or_default_string(mount_path, "jwt"), role, jwt }))
        },
        HashiVaultAuth::Kubernetes { mount_path, role } => {
            let r = match role {
                Some(r) => r.clone(),
                None => return Err(NovopsError::VaultAuthIncomplete(copy_string("role"))),
            };
            proof {
                reveal_strlit("/var/run/secrets/kubernetes.io/serviceaccount/token");
            }
            let path = match sa_path_var {
                Some(p) => p,
                None => copy_string("/var/run/secrets/kubernetes.io/serviceaccount/token"),
            };
            Ok(
                Some(
                    VaultLogin::Kubernetes {
                        mount: or_default_string(mount_path, "kubernetes"),
                        role: r,
                        jwt: CredentialSource::File(path),
                    },
                ),
            )
        },
    }
}

/// The fixed words this module writes and matches, spelled out as text.
pub proof fn lemma_auth_words()
    ensures
        approle_word() == "approle"@,
        jwt_word() == "jwt"@,
        kubernetes_word() == "kubernetes"@,
        role_id_word() == "role_id"@,
        role_word() == "role"@,
        token_path_word() == "token_path"@,
{
    reveal_strlit("approle");
    reveal_strlit("jwt");
    reveal_strlit("kubernetes");
    reveal_strlit("role_id");
    reveal_strlit("role");
    reveal_strlit("token_path");
    assert(approle_word() =~= "approle"@);
    assert(jwt_word() =~= "jwt"@);
    assert(kubernetes_word() =~= "kubernetes"@);
    assert(role_id_word() =~= "role_id"@);
    assert(role_word() =~= "role"@);
    assert(token_path_word() =~= "token_path"@);
}

} // verus!
