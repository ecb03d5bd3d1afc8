//! Parameters of AWS SSM Parameter Store.
use vstd::prelude::*;
use super::client::SsmParameter;
use crate::error::NovopsError;

verus! {

/// Reference to an SSM parameter.
#[derive(Debug, Clone, PartialEq)]
pub struct AwsSSMParamStoreInput {
    pub aws_ssm_parameter: AwsSSMParameter,
}

/// A GetParameter request.
#[derive(Debug, Clone, PartialEq)]
pub struct AwsSSMParameter {
    /// Parameter name.
    pub name: String,
    /// Whether to decrypt secure strings; true by default.
    pub with_decryption: Option<bool>,
}

impl AwsSSMParameter {
    /// Whether to ask for decryption: as configured, true when not set.
    pub fn decrypt(&self) -> (r: bool)
        ensures
            r == match self.with_decryption {
                Some(b) => b,
                None => true,
            },
    {
        match self.with_decryption {
            Some(b) => b,
            None => true,
        }
    }
}

impl AwsSSMParamStoreInput {
    /// The parameter's value; an error when the answer has no parameter or the parameter no value.
    pub fn value_from(&self, parameter: Option<SsmParameter>) -> (r: Result<String, NovopsError>)
        ensures
            match parameter {
                None => r == Err::<String, NovopsError>(NovopsError::SsmParameterMissing),
                Some(p) => match p.value {
                    None => r == Err::<String, NovopsError>(NovopsError::SsmValueMissing),
                    Some(v) => r matches Ok(s) && s@ == v@,
                },
            },
    {
        match parameter {
            None => Err(NovopsError::SsmParameterMissing),
            Some(p) => match p.value {
                None => Err(NovopsError::SsmValueMissing),
                Some(v) => Ok(v),
            },
        }
    }
}

} // verus!
