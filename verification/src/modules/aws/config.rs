//! AWS settings from the Novops config.
use vstd::prelude::*;
use super::assume_role::AwsAssumeRoleInput;
use crate::export::copy_opt_string;
use crate::text::copy_string;

verus! {

/// AWS inputs of an environment.
#[derive(Debug, Clone, PartialEq)]
pub struct AwsInput {
    pub assume_role: AwsAssumeRoleInput,
}

/// Settings for AWS clients: from the Novops config, overridable per module.
#[derive(Debug, Clone, PartialEq)]
pub struct AwsClientConfig {
    pub profile: Option<String>,
    pub endpoint: Option<String>,
    pub region: Option<String>,
    pub identity_cache: Option<IdentityCache>,
}

/// Global AWS config.
#[derive(Debug, Clone, PartialEq)]
pub struct AwsConfig {
    /// Endpoint for all AWS services, such as a LocalStack URL.
    pub endpoint: Option<String>,
    /// AWS profile name.
    pub profile: Option<String>,
    /// AWS region.
    pub region: Option<String>,
    /// SDK identity cache settings.
    pub identity_cache: Option<IdentityCache>,
}

/// AWS SDK identity cache settings.
#[derive(Debug, Clone, Copy, PartialEq)]
pub struct IdentityCache {
    /// Timeout to load an identity, in seconds.
    pub load_timeout: Option<u64>,
}

impl Default for AwsClientConfig {
    fn default() -> (r: AwsClientConfig)
        ensures
            r.profile is None && r.endpoint is None && r.region is None && r.identity_cache is None,
    {
        AwsClientConfig { profile: None, endpoint: None, region: None, identity_cache: None }
    }
}

impl AwsClientConfig {
    /// Client settings taken from the global AWS config.
    pub fn from_aws_config(cf: &AwsConfig) -> (r: AwsClientConfig)
        ensures
            r.profile == cf.profile,
            r.endpoint == cf.endpoint,
            r.region == cf.region,
            r.identity_cache == cf.identity_cache,
    {
        AwsClientConfig {
            profile: copy_opt_string(&cf.profile),
            endpoint: copy_opt_string(&cf.endpoint),
            region: copy_opt_string(&cf.region),
            identity_cache: cf.identity_cache,
        }
    }

    /// Sets the profile; the other settings stay.
    pub fn profile(&mut self, profile: &str) -> (r: &mut AwsClientConfig)
        ensures
            r.profile matches Some(p) && p@ == profile@,
            r.endpoint == old(self).endpoint,
            r.region == old(self).region,
            r.identity_cache == old(self).identity_cache,
            *final(self) == *final(r),
    {
        self.profile = Some(copy_string(profile));
        self
    }

    /// Sets the endpoint; the other settings stay.
    pub fn endpoint(&mut self, endpoint: &str) -> (r: &mut AwsClientConfig)
        ensures
            r.endpoint matches Some(e) && e@ == endpoint@,
            r.profile == old(self).profile,
            r.region == old(self).region,
            r.identity_cache == old(self).identity_cache,
            *final(self) == *final(r),
    {
        self.endpoint = Some(copy_string(endpoint));
        self
    }
}

} // verus!
