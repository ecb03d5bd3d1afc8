//! Secrets of Google Cloud Secret Manager.
use vstd::prelude::*;
use super::client::{crc32c, crc32c_of, SecretPayload};
use crate::error::NovopsError;
use crate::text::string_from_utf8;
use vstd::utf8::{decode_utf8, valid_utf8};

verus! {

/// Reference to a Secret Manager secret.
#[derive(Debug, Clone, PartialEq)]
pub struct GCloudSecretManagerSecretInput {
    pub gcloud_secret: GCloudSecretManagerSecret,
}

/// A secret version to access.
#[derive(Debug, Clone, PartialEq)]
pub struct GCloudSecretManagerSecret {
    /// Name in the form `projects/*/secrets/*/versions/*`.
    pub name: String,
    /// Whether to validate the CRC32C checksum sent with the secret; true by default.
    pub validate_crc32c: Option<bool>,
}

impl GCloudSecretManagerSecret {
    /// Whether to validate the checksum: as configured, true when not set.
    pub open spec fn validates(self) -> bool {
        match self.validate_crc32c {
            Some(b) => b,
            None => true,
        }
    }

    /// The payload has data, and a checksum when it is to be validated.
    pub open spec fn payload_complete(self, payload: SecretPayload) -> bool {
        payload.data is Some && (self.validates() ==> payload.data_crc32c is Some)
    }

    /// The secret's bytes, after checking the checksum sent with them unless validation is off.
    pub fn bytes_from(&self, payload: SecretPayload) -> (r: Result<Vec<u8>, NovopsError>)
        requires
            self.payload_complete(payload),
        ensures
            self.validates() && payload.data_crc32c->0 != crc32c_of(payload.data->0@) as i64 ==> (r matches Err(
                NovopsError::ChecksumMismatch { expected, calculated },
            ) && expected == payload.data_crc32c->0 && calculated == crc32c_of(payload.data->0@)),
            !(self.validates() && payload.data_crc32c->0 != crc32c_of(payload.data->0@) as i64) ==> (r matches Ok(
                b,
            ) && b@ == payload.data->0@),
    {
        let validate = match self.validate_crc32c {
            Some(b) => b,
            None => true,
        };
        let data = match payload.data {
            Some(d) => d,
            None => Vec::new(),
        };
        if validate {
            let expected = match payload.data_crc32c {
                Some(c) => c,
                None => 0,
            };
            let calculated = crc32c(&data);
            if expected != calculated as i64 {
                return Err(NovopsError::ChecksumMismatch { expected, calculated });
            }
        }
        Ok(data)
    }

    /// The secret as text: its checked bytes read as UTF-8.
    pub fn string_from(&self, payload: SecretPayload) -> (r: Result<String, NovopsError>)
        requires
            self.payload_complete(payload),
            valid_utf8(payload.data->0@),
        ensures
            self.validates() && payload.data_crc32c->0 != crc32c_of(payload.data->0@) as i64 ==> (r matches Err(
                NovopsError::ChecksumMismatch { expected, calculated },
            ) && expected == payload.data_crc32c->0 && calculated == crc32c_of(payload.data->0@)),
            !(self.validates() && payload.data_crc32c->0 != crc32c_of(payload.data->0@) as i64) ==> (r matches Ok(
                s,
            ) && s@ == decode_utf8(payload.data->0@)),
    {
        let bytes = self.bytes_from(payload)?;
        match string_from_utf8(bytes) {
            Some(s) => Ok(s),
            None => Err(NovopsError::InvalidUtf8),
        }
    }
}

} // verus!
