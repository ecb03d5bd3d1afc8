[package]
name = "novops"
version = "0.1.0"
edition = "2021"
publish = false

[dependencies]
sha2 = "0.10"
convert_case = "0.6"
crc32c = "0.6"
url = "2"
rand = "0.8"
aws-smithy-types = "1"
anyhow = "1"
async-trait = "0.1"
tokio = { version = "1", features = ["macros", "rt-multi-thread"] }
serde = { version = "1", features = ["derive"] }
serde_json = "1"
serde_yaml = "0.9"
schemars = "0.8"
clap = { version = "4", features = ["env", "cargo"] }
clap_complete = "4"
dialoguer = { version = "0.11", default-features = false }
env_logger = { version = "0.10", default-features = false }
log = "0.4"
xdg = "2"
users = "0.11"
home = "0.5"
vaultrs = "0.7"
aws-config = { version = "1", default-features = false }
aws-sdk-sts = { version = "1", default-features = false }
aws-sdk-ssm = { version = "1", default-features = false }
aws-sdk-secretsmanager = { version = "1", default-features = false }
aws-sdk-s3 = { version = "1", default-features = false }
azure_identity = "0.20"
azure_security_keyvault = "0.20"
google-secretmanager1 = "5"
