//! Objects of AWS S3.
use vstd::prelude::*;
use crate::error::NovopsError;
use crate::text::string_from_utf8;
use vstd::utf8::{decode_utf8, valid_utf8};

verus! {

/// Reference to an S3 object.
#[derive(Debug, Clone, PartialEq)]
pub struct AwsS3ObjectInput {
    pub aws_s3_object: AwsS3Object,
}

/// Bucket and key of an S3 object.
#[derive(Debug, Clone, PartialEq)]
pub struct AwsS3Object {
    pub bucket: String,
    pub key: String,
}

impl AwsS3ObjectInput {
    /// The object's body as text; an error when it is not valid UTF-8.
    pub fn string_from(&self, body: Vec<u8>) -> (r: Result<String, NovopsError>)
        ensures
            valid_utf8(body@) ==> (r matches Ok(s) && s@ == decode_utf8(body@)),
            !valid_utf8(body@) ==> r == Err::<String, NovopsError>(NovopsError::InvalidUtf8),
    {
        match string_from_utf8(body) {
            Some(s) => Ok(s),
            None => Err(NovopsError::InvalidUtf8),
        }
    }
}

} // verus!
