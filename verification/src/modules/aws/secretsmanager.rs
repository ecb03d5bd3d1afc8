//! Secrets of AWS Secrets Manager.
use vstd::prelude::*;
use super::client::SecretValue;
use crate::error::NovopsError;
use crate::text::{string_from_utf8, utf8_bytes};
use vstd::utf8::{decode_utf8, encode_utf8, valid_utf8};

verus! {

/// Reference to a Secrets Manager secret.
#[derive(Debug, Clone, PartialEq)]
pub struct AwsSecretsManagerSecretInput {
    pub aws_secret: AwsSecretsManagerSecret,
}

/// A GetSecretValue request.
#[derive(Debug, Clone, PartialEq)]
pub struct AwsSecretsManagerSecret {
    /// Secret ID.
    pub id: String,
    /// Version of the secret to retrieve.
    pub version_id: Option<String>,
    /// Staging label of the version to retrieve.
    pub version_stage: Option<String>,
}

impl AwsSecretsManagerSecretInput {
    /// The secret as file content: its text in UTF-8, otherwise its binary data.
    pub fn bytes_from(&self, value: SecretValue) -> (r: Result<Vec<u8>, NovopsError>)
        ensures
            match value.secret_string {
                Some(s) => r matches Ok(b) && b@ == encode_utf8(s@),
                None => match value.secret_binary {
                    Some(bin) => r matches Ok(b) && b@ == bin@,
                    None => r == Err::<Vec<u8>, NovopsError>(NovopsError::SecretWithoutValue),
                },
            },
    {
        match value.secret_string {
            Some(s) => Ok(utf8_bytes(s.as_str())),
            None => match value.secret_binary {
                Some(b) => Ok(b),
                None => Err(NovopsError::SecretWithoutValue),
            },
        }
    }

    /// The secret as a variable value: its text, otherwise its binary data when that is
    /// valid UTF-8.
    pub fn string_from(&self, value: SecretValue) -> (r: Result<String, NovopsError>)
        ensures
            match value.secret_string {
                Some(s) => r matches Ok(t) && t@ == s@,
                None => match value.secret_binary {
                    Some(bin) => if valid_utf8(bin@) {
                        r matches Ok(t) && t@ == decode_utf8(bin@)
                    } else {
                        r == Err::<String, NovopsError>(NovopsError::InvalidUtf8)
                    },
                    None => r == Err::<String, NovopsError>(NovopsError::SecretWithoutValue),
                },
            },
    {
        match value.secret_string {
            Some(s) => Ok(s),
            None => match value.secret_binary {
                Some(b) => match string_from_utf8(b) {
                    Some(t) => Ok(t),
                    None => Err(NovopsError::InvalidUtf8),
                },
                None => Err(NovopsError::SecretWithoutValue),
            },
        }
    }
}

} // verus!
