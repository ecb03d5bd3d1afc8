//! Errors reported by the library.
use vstd::prelude::*;

verus! {

/// What went wrong while loading an environment.
#[derive(Debug, Clone, PartialEq)]
pub enum NovopsError {
    /// An output format other than `dotenv-export` or `dotenv` was asked for.
    UnknownFormat(String),
    /// Neither `.novops.yml` nor `.novops.yaml` exists and no config path was given.
    ConfigFileNotFound,
    /// The selected environment is not in the config.
    EnvironmentNotFound(String),
    /// The config declares no environment.
    NoEnvironmentConfigured,
    /// The configured default environment is not among the environments.
    DefaultEnvironmentNotFound(String),
    /// The user made no choice at the environment prompt.
    NoEnvironmentSelected,
    /// The working directory grants access to others than its owner.
    WorkdirModeUnsafe { mode: u32 },
    /// The working directory belongs to someone other than the user or root.
    WorkdirOwnerUnsafe { owner: u32, current: u32 },
    /// A file that is not a symlink stands where a symlink is to be created.
    SymlinkTargetNotSymlink(String),
    /// Something other than a symlink of the current user stands where the symlink goes.
    SymlinkNotOwned(String),
    /// A file input names none of `symlink`, `variable` or `dest`.
    FileInputWithoutTarget,
    /// A field of a JSON path is missing.
    FieldNotFound(String),
    /// The value at the end of a JSON path is not a string.
    FieldNotString(String),
    /// A Vault secret exists but lacks the requested key.
    SecretKeyNotFound { mount: String, path: String, key: String },
    /// Role credentials were missing from a successful answer.
    CredentialsMissing,
    /// A secret held neither a string nor binary data.
    SecretWithoutValue,
    /// Bytes meant as text are not valid UTF-8.
    InvalidUtf8,
    /// An SSM answer carried no parameter.
    SsmParameterMissing,
    /// An SSM parameter carried no value.
    SsmValueMissing,
    /// A secret's CRC32C checksum did not match its data.
    ChecksumMismatch { expected: i64, calculated: u32 },
    /// An address could not be parsed as a URL.
    InvalidUrl(String),
    /// One or more inputs failed to resolve; the text lists every failure.
    ResolveFailed(String),
    /// A date could not be parsed.
    InvalidDateTime(String),
    /// What a command printed is not valid UTF-8.
    CommandOutputNotUtf8,
    /// A command exited with a failure status.
    CommandFailed,
    /// What a command printed is not a JSON document.
    InvalidJson,
    /// The Vault authentication method lacks the named setting.
    VaultAuthIncomplete(String),
}

} // verus!
