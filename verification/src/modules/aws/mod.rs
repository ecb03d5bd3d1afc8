//! AWS: Secrets Manager, SSM Parameter Store, S3 and STS role credentials.
pub mod assume_role;
pub mod client;
pub mod config;
pub mod s3;
pub mod secretsmanager;
pub mod ssm;
