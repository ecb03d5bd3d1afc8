use novops::error::NovopsError;
use novops::modules::aws::assume_role::{credentials_outputs, role_session_name, session_name_computable_for, AwsAssumeRoleInput};
use novops::modules::aws::client::{DryRunAwsClient, SecretValue, SsmParameter, StsCredentials};
use novops::modules::aws::s3::{AwsS3Object, AwsS3ObjectInput};
use novops::modules::aws::secretsmanager::{AwsSecretsManagerSecret, AwsSecretsManagerSecretInput};
use novops::modules::aws::ssm::{AwsSSMParamStoreInput, AwsSSMParameter};
use novops::modules::azure::vault::{AzureKeyvaultSecret, AzureKeyvaultSecretInput};
use novops::modules::bitwarden::{get_string_in_value, BitwardenEntry, BitwardenItemInput, JsonValue};
use novops::modules::files::FileInput;
use novops::modules::gcloud::client::{DryRunGCloudClient, SecretPayload};
use novops::modules::gcloud::secretmanager::{GCloudSecretManagerSecret, GCloudSecretManagerSecretInput};
use novops::modules::hashivault::aws::HashiVaultAWSInput;
use novops::modules::hashivault::client::{
    load_vault_address, load_vault_token, parse_vault_addr_str, read_vault_token_content, secret_value_for_key,
    vault_settings, vault_token_from,
    VaultTokenSource,
};
use novops::modules::hashivault::auth::{vault_login_plan, CredentialSource, VaultLogin};
use novops::modules::hashivault::config::{HashiVaultAuth, HashivaultConfig};
use novops::modules::hashivault::kv1::{HashiVaultKeyValueV1, HashiVaultKeyValueV1Input};
use novops::modules::hashivault::kv2::{HashiVaultKeyValueV2, HashiVaultKeyValueV2Input};
use novops::modules::sops::{sops_output_from, is_dotenv_well_formed, parse_dotenv, SopsDotenvInput, SopsValueFromFile, SopsValueInput};
use novops::modules::aws::config::AwsInput;
use novops::modules::hashivault::config::HashiVaultInput;
use novops::modules::variables::VariableInput;
use novops::novops_core::{
    BytesResolvableInput, NovopsConfig, NovopsConfigFile, NovopsContext, ResolveTo, StringResolvableInput,
};

fn context(dry_run: bool, hashivault: Option<HashivaultConfig>) -> NovopsContext {
    NovopsContext {
        env_name: String::from("dev"),
        app_name: String::from("my-app"),
        workdir: String::from("/tmp/work"),
        config_file_data: NovopsConfigFile {
            name: None,
            environments: Vec::new(),
            config: Some(NovopsConfig { default: None, hashivault, aws: None }),
        },
        env_var_filepath: String::from("/tmp/work/vars"),
        dry_run,
    }
}

fn vault_config(address: Option<&str>, token: Option<&str>, token_path: Option<&str>) -> HashivaultConfig {
    HashivaultConfig {
        address: address.map(String::from),
        token: token.map(String::from),
        token_path: token_path.map(String::from),
        verify: Some(false),
        timeout: None,
        auth: None,
        namespace: None,
    }
}

#[test]
fn file_named_after_content_digest() {
    let input = FileInput {
        name: None,
        dest: None,
        symlink: None,
        variable: Some(String::from("DOG_PATH")),
        content: BytesResolvableInput::ByteVec(b"woof".to_vec()),
    };
    let out = input.output_for(&context(false, None), b"woof".to_vec()).unwrap();
    let expected = "/tmp/work/file_1811bdd29f2cfe95e6e23402e2390fa1012708fc52ef8b8a29ee540b1c481534";
    assert_eq!(out.dest, expected);
    assert_eq!(out.variable.name, "DOG_PATH");
    assert_eq!(out.variable.value, expected);
    assert_eq!(out.content, b"woof".to_vec());
}

#[test]
fn file_variable_named_after_app_and_digest() {
    let input = FileInput {
        name: None,
        dest: Some(String::from("/tmp/novops_cat")),
        symlink: None,
        variable: None,
        content: BytesResolvableInput::ByteVec(b"meow".to_vec()),
    };
    let out = input.output_for(&context(false, None), b"meow".to_vec()).unwrap();
    assert_eq!(out.dest, "/tmp/novops_cat");
    assert!(out.variable.name.starts_with("NOVOPS_MY_APP_FILE_"));
    assert_eq!(out.variable.name, out.variable.name.to_uppercase());
}

#[test]
fn file_without_target_is_refused() {
    let input = FileInput {
        name: Some(String::from("f")),
        dest: None,
        symlink: None,
        variable: None,
        content: BytesResolvableInput::ByteVec(Vec::new()),
    };
    assert_eq!(input.output_for(&context(false, None), Vec::new()), Err(NovopsError::FileInputWithoutTarget));
}

#[test]
fn offline_resolution_of_strings() {
    let live = context(false, None);
    let dry = context(true, None);
    assert_eq!(String::from("x").resolve_offline(&live), Some(Ok(String::from("x"))));
    let plain = StringResolvableInput::String(String::from("localhost"));
    assert_eq!(plain.resolve_offline(&live), Some(Ok(String::from("localhost"))));

    let ssm = StringResolvableInput::AwsSSMParamStoreInput(AwsSSMParamStoreInput {
        aws_ssm_parameter: AwsSSMParameter { name: String::from("param"), with_decryption: None },
    });
    assert_eq!(ssm.resolve_offline(&live), None);
    assert_eq!(ssm.resolve_offline(&dry), Some(Ok(String::from("RESULT:param"))));

    let secret = StringResolvableInput::AwsSecretsManagerSecretInput(AwsSecretsManagerSecretInput {
        aws_secret: AwsSecretsManagerSecret { id: String::from("sec"), version_id: None, version_stage: None },
    });
    assert_eq!(secret.resolve_offline(&dry), Some(Ok(String::from("RESULT:sec"))));

    let gcloud = StringResolvableInput::GCloudSecretManagerSecretInput(GCloudSecretManagerSecretInput {
        gcloud_secret: GCloudSecretManagerSecret { name: String::from("projects/p/secrets/s"), validate_crc32c: None },
    });
    assert_eq!(gcloud.resolve_offline(&dry), Some(Ok(String::from("RESULT:projects/p/secrets/s"))));

    let bw = StringResolvableInput::BitwardeItemInput(BitwardenItemInput {
        bitwarden: BitwardenEntry { entry: String::from("Some entry"), field: String::from("login.password") },
    });
    assert_eq!(bw.resolve_offline(&dry), Some(Ok(String::from("RESULT:Some entry.login.password"))));

    let kv2 = StringResolvableInput::HashiVaultKeyValueV2Input(HashiVaultKeyValueV2Input {
        hvault_kv2: HashiVaultKeyValueV2 { mount: None, path: String::from("app/dev"), key: String::from("db") },
    });
    assert_eq!(kv2.resolve_offline(&dry), Some(Ok(String::from("RESULT:app/dev/db"))));

    let kv1 = StringResolvableInput::HashiVaultKeyValueV1Input(HashiVaultKeyValueV1Input {
        hvault_kv1: HashiVaultKeyValueV1 { mount: None, path: String::from("p"), key: String::from("k") },
    });
    assert_eq!(kv1.resolve_offline(&dry), Some(Ok(String::from("RESULT:p/k"))));

    let azure = StringResolvableInput::AzureKeyvaultSecretInput(AzureKeyvaultSecretInput {
        azure_keyvault_secret: AzureKeyvaultSecret {
            vault: String::from("v"),
            name: String::from("n"),
            version: Some(String::from("1")),
        },
    });
    assert_eq!(azure.resolve_offline(&dry), Some(Ok(String::from("RESULT:v/n/1"))));

    let sops = StringResolvableInput::SopsValueInput(SopsValueInput {
        sops: SopsValueFromFile {
            file: String::from("s.yml"),
            extract: Some(String::from("[\"a\"]")),
            additional_flags: None,
        },
    });
    assert_eq!(sops.resolve_offline(&dry), Some(Ok(String::from("RESULT:s.yml:[\"a\"]"))));

    let s3 = StringResolvableInput::AwsS3ObjectInput(AwsS3ObjectInput {
        aws_s3_object: AwsS3Object { bucket: String::from("b"), key: String::from("k") },
    });
    assert_eq!(s3.resolve_offline(&dry), Some(Ok(String::from("dummy"))));
}

#[test]
fn offline_resolution_of_bytes() {
    let dry = context(true, None);
    let live = context(false, None);
    let raw = BytesResolvableInput::ByteVec(vec![1, 2, 3]);
    assert_eq!(raw.resolve_offline(&live), Some(Ok(vec![1, 2, 3])));
    let text = BytesResolvableInput::StringResolvableInput(StringResolvableInput::String(String::from("é")));
    assert_eq!(text.resolve_offline(&live), Some(Ok("é".as_bytes().to_vec())));
    let gcloud = BytesResolvableInput::GCloudSecretManagerSecretInput(GCloudSecretManagerSecretInput {
        gcloud_secret: GCloudSecretManagerSecret { name: String::from("x"), validate_crc32c: Some(true) },
    });
    assert_eq!(gcloud.resolve_offline(&live), None);
    assert_eq!(gcloud.resolve_offline(&dry), Some(Ok(b"RESULT:x".to_vec())));
}

#[test]
fn gcloud_checksum_is_checked() {
    let secret = GCloudSecretManagerSecret { name: String::from("s"), validate_crc32c: None };
    let good = DryRunGCloudClient {}.get_secret_version("abc");
    assert_eq!(good.data, Some(b"RESULT:abc".to_vec()));
    assert_eq!(secret.string_from(good.clone()), Ok(String::from("RESULT:abc")));

    let bad = SecretPayload { data: good.data.clone(), data_crc32c: Some(1) };
    match secret.bytes_from(bad.clone()) {
        Err(NovopsError::ChecksumMismatch { expected, calculated }) => {
            assert_eq!(expected, 1);
            assert_eq!(Some(i64::from(calculated)), good.data_crc32c);
        },
        other => panic!("unexpected {:?}", other),
    }
    let lenient = GCloudSecretManagerSecret { name: String::from("s"), validate_crc32c: Some(false) };
    assert_eq!(lenient.bytes_from(bad), Ok(b"RESULT:abc".to_vec()));
    // crc32c of "123456789" is the standard check value
    let check = SecretPayload { data: Some(b"123456789".to_vec()), data_crc32c: Some(0xE3069283) };
    assert_eq!(secret.bytes_from(check), Ok(b"123456789".to_vec()));
}

#[test]
fn aws_values_from_answers() {
    let ssm = AwsSSMParamStoreInput { aws_ssm_parameter: AwsSSMParameter { name: String::from("p"), with_decryption: None } };
    assert!(ssm.aws_ssm_parameter.decrypt());
    assert_eq!(
        ssm.value_from(Some(SsmParameter { name: Some(String::from("p")), value: Some(String::from("v")) })),
        Ok(String::from("v"))
    );
    assert_eq!(ssm.value_from(None), Err(NovopsError::SsmParameterMissing));
    assert_eq!(ssm.value_from(Some(SsmParameter { name: None, value: None })), Err(NovopsError::SsmValueMissing));

    let sec = AwsSecretsManagerSecretInput {
        aws_secret: AwsSecretsManagerSecret { id: String::from("i"), version_id: None, version_stage: None },
    };
    let binary = SecretValue { secret_string: None, secret_binary: Some(vec![0xff, 0x00]) };
    assert_eq!(sec.bytes_from(binary.clone()), Ok(vec![0xff, 0x00]));
    assert_eq!(sec.string_from(binary), Err(NovopsError::InvalidUtf8));
    assert_eq!(
        sec.bytes_from(SecretValue { secret_string: None, secret_binary: None }),
        Err(NovopsError::SecretWithoutValue)
    );
    assert_eq!(
        sec.string_from(DryRunAwsClient {}.get_secret_value("i")),
        Ok(String::from("RESULT:i"))
    );

    let s3 = AwsS3ObjectInput { aws_s3_object: AwsS3Object { bucket: String::from("b"), key: String::from("k") } };
    assert_eq!(s3.string_from(b"body".to_vec()), Ok(String::from("body")));
    assert_eq!(s3.string_from(vec![0xc3]), Err(NovopsError::InvalidUtf8));
}

#[test]
fn assumed_role_credentials_become_variables() {
    let creds = DryRunAwsClient {}.assume_role().unwrap();
    assert_eq!(creds.as_ref().map(|c| c.expiration), Some(32472144000));
    let vars = credentials_outputs(creds).unwrap();
    let names: Vec<&str> = vars.iter().map(|v| v.name.as_str()).collect();
    assert_eq!(names, vec!["AWS_ACCESS_KEY_ID", "AWS_SECRET_ACCESS_KEY", "AWS_SESSION_TOKEN", "AWS_SESSION_EXPIRATION"]);
    assert_eq!(vars[0].value, "AKIADRYRUNDRYUNDRYRUN");
    assert_eq!(vars[3].value, "32472144000");
    assert_eq!(credentials_outputs(None), Err(NovopsError::CredentialsMissing));
    let negative = StsCredentials {
        access_key_id: String::from("a"),
        secret_access_key: String::from("b"),
        session_token: String::from("c"),
        expiration: -5,
    };
    assert_eq!(credentials_outputs(Some(negative)).unwrap()[3].value, "-5");
}

#[test]
fn role_session_names_fit_sts_limit() {
    assert_eq!(role_session_name("app", "dev", "abc1234"), "novops-app-dev-abc1234");
    let long_app = "a".repeat(80);
    let name = role_session_name(&long_app, "dev", "XYZ7890");
    assert_eq!(name.len(), 64);
    assert!(name.ends_with("-XYZ7890"));
    assert!(name.starts_with("novops-aaaa"));

    let ctx = context(true, None);
    assert!(session_name_computable_for(&ctx));
    let input = AwsAssumeRoleInput { role_arn: String::from("arn:aws:iam::1:role/r"), source_profile: None, duration_seconds: None };
    let request = input.request(&ctx);
    assert_eq!(request.role_arn, "arn:aws:iam::1:role/r");
    assert_eq!(request.duration_seconds, 3600);
    assert!(request.role_session_name.starts_with("novops-my-app-dev-"));
    assert_eq!(request.role_session_name.len(), "novops-my-app-dev-".len() + 7);
    assert!(request.role_session_name[18..].chars().all(|c| c.is_ascii_alphanumeric()));
}

#[test]
fn test_hashivault_client_token_load() {
    // Empty config: the client's default
    let ctx_empty = context(false, Some(vault_config(None, None, None)));
    assert_eq!(load_vault_token(&ctx_empty, None, None, false), VaultTokenSource::ClientDefault);

    // Token in home should be used
    let home_var = Some(String::from("/tmp"));
    assert_eq!(
        load_vault_token(&ctx_empty, home_var.clone(), None, true),
        VaultTokenSource::File(String::from("/tmp/.vault-token"))
    );
    assert_eq!(read_vault_token_content("hometoken\n   \n"), "hometoken");

    // Providing plain token should use it
    let token_plain = "token_plain";
    let ctx_token = context(false, Some(vault_config(None, Some(token_plain), None)));
    assert_eq!(load_vault_token(&ctx_token, home_var.clone(), None, true), VaultTokenSource::Token(String::from(token_plain)));

    // Providing token path should read token path before plain token
    let ctx_token_path = context(false, Some(vault_config(None, Some(token_plain), Some("/tmp/token"))));
    assert_eq!(
        load_vault_token(&ctx_token_path, home_var.clone(), None, true),
        VaultTokenSource::File(String::from("/tmp/token"))
    );

    // Providing token env var should use it before anything else
    assert_eq!(
        load_vault_token(&ctx_token_path, home_var, Some(String::from("envvartoken")), true),
        VaultTokenSource::Token(String::from("envvartoken"))
    );
}

#[test]
fn test_hashivault_client_address_load() {
    let default = url::Url::parse("http://127.0.0.1:8200").unwrap().to_string();
    let ctx_empty = context(false, Some(vault_config(None, None, None)));
    assert_eq!(load_vault_address(&ctx_empty, None, default.clone()), Ok(default.clone()));

    let addr_config = "https://dummy-vault-config";
    let ctx_addr = context(false, Some(vault_config(Some(addr_config), None, None)));
    assert_eq!(
        load_vault_address(&ctx_addr, None, default.clone()),
        Ok(url::Url::parse(addr_config).unwrap().to_string())
    );

    let addr_var = String::from("https://env-var-address");
    assert_eq!(
        load_vault_address(&ctx_addr, Some(addr_var.clone()), default.clone()),
        Ok(url::Url::parse(&addr_var).unwrap().to_string())
    );
    assert_eq!(load_vault_address(&ctx_addr, Some(String::from("not a url")), default), Err(NovopsError::InvalidUrl(String::from("not a url"))));
    assert_eq!(parse_vault_addr_str(String::from("https://vault.example.com")), Ok(String::from("https://vault.example.com/")));
}

#[test]
fn hashivault_secret_keys_and_mounts() {
    let data = vec![(String::from("user"), String::from("admin")), (String::from("pass"), String::from("s3cret"))];
    assert_eq!(secret_value_for_key(&data, "secret", "app", "pass"), Ok(String::from("s3cret")));
    assert_eq!(
        secret_value_for_key(&data, "secret", "app", "token"),
        Err(NovopsError::SecretKeyNotFound {
            mount: String::from("secret"),
            path: String::from("app"),
            key: String::from("token"),
        })
    );
    let kv2 = HashiVaultKeyValueV2Input {
        hvault_kv2: HashiVaultKeyValueV2 { mount: None, path: String::from("p"), key: String::from("k") },
    };
    assert_eq!(kv2.mount(), "secret");
    let kv1 = HashiVaultKeyValueV1Input {
        hvault_kv1: HashiVaultKeyValueV1 { mount: Some(String::from("m")), path: String::from("p"), key: String::from("k") },
    };
    assert_eq!(kv1.mount(), "m");
    let aws = HashiVaultAWSInput {
        mount: None,
        name: String::from("role"),
        role_arn: None,
        role_session_name: None,
        ttl: None,
    };
    assert_eq!(aws.mount_or_default(), "aws");
    let outs = aws.dry_run_outputs();
    assert_eq!(outs.len(), 3);
    assert_eq!(outs[2].value, "securityToken");
}

#[test]
fn sops_dotenv_parsing() {
    let text = "# comment\nA=1\nB=two=2\nEMPTY=\n";
    assert!(is_dotenv_well_formed(text));
    let vars = parse_dotenv(text);
    let pairs: Vec<(&str, &str)> = vars.iter().map(|v| (v.name.as_str(), v.value.as_str())).collect();
    assert_eq!(pairs, vec![("A", "1"), ("B", "two=2"), ("EMPTY", "")]);
    assert!(!is_dotenv_well_formed("A=1\nbroken\n"));

    let input = SopsDotenvInput {
        file: String::from("env.yml"),
        additional_flags: Some(vec![String::from("--a"), String::from("--b")]),
        extract: None,
    };
    let dry = input.dry_run_outputs();
    assert_eq!(dry[0].name, "RESULT");
    assert_eq!(dry[0].value, "env.yml:--a---b");
    assert_eq!(input.decrypt_args(), vec!["--output-type", "dotenv", "--a", "--b"]);
    assert_eq!(input.variables_from("X=y\n")[0].value, "y");
}

#[test]
fn bitwarden_json_paths() {
    let item = JsonValue::Object(vec![
        (String::from("name"), JsonValue::Str(String::from("entry"))),
        (
            String::from("login"),
            JsonValue::Object(vec![
                (String::from("password"), JsonValue::Str(String::from("p4ss"))),
                (String::from("totp"), JsonValue::Null),
            ]),
        ),
    ]);
    assert_eq!(
        get_string_in_value(&item, vec![String::from("login"), String::from("password")]),
        Ok(String::from("p4ss"))
    );
    assert_eq!(
        get_string_in_value(&item, vec![String::from("login"), String::from("uri")]),
        Err(NovopsError::FieldNotFound(String::from("uri")))
    );
    assert_eq!(
        get_string_in_value(&item, vec![String::from("login"), String::from("totp")]),
        Err(NovopsError::FieldNotString(String::from("totp")))
    );
    let input = BitwardenItemInput {
        bitwarden: BitwardenEntry { entry: String::from("entry"), field: String::from("login.password") },
    };
    assert_eq!(input.value_from(&item), Ok(String::from("p4ss")));
    assert_eq!(input.command_args(), vec!["get", "item", "entry"]);
}

#[test]
fn dry_run_resolves_every_input_offline() {
    let dry = context(true, None);
    let live = context(false, None);

    let variable = VariableInput {
        name: String::from("KV"),
        value: StringResolvableInput::HashiVaultKeyValueV2Input(HashiVaultKeyValueV2Input {
            hvault_kv2: HashiVaultKeyValueV2 { mount: None, path: String::from("app"), key: String::from("k") },
        }),
        quote_method: Some(String::from("double")),
    };
    assert_eq!(variable.resolve_offline(&live), None);
    let out = variable.resolve_offline(&dry).unwrap().unwrap();
    assert_eq!((out.name.as_str(), out.value.as_str()), ("KV", "RESULT:app/k"));
    assert_eq!(out.quote_method, Some(String::from("double")));

    let file = FileInput {
        name: None,
        dest: Some(String::from("/tmp/novopsfile")),
        symlink: Some(String::from("/tmp/link")),
        variable: Some(String::from("F")),
        content: BytesResolvableInput::StringResolvableInput(StringResolvableInput::String(String::from("woof"))),
    };
    let f = file.resolve_offline(&live).unwrap().unwrap();
    assert_eq!(f.dest, "/tmp/novopsfile");
    assert_eq!(f.symlink, Some(String::from("/tmp/link")));
    assert_eq!(f.content, b"woof".to_vec());
    let no_target = FileInput { symlink: None, variable: None, dest: None, ..file.clone() };
    assert_eq!(no_target.resolve_offline(&live), Some(Err(NovopsError::FileInputWithoutTarget)));

    let sops = SopsDotenvInput { file: String::from("f.env"), additional_flags: None, extract: None };
    assert_eq!(sops.resolve_offline(&live), None);
    assert_eq!(sops.resolve_offline(&dry).unwrap().unwrap()[0].value, "f.env:");

    let aws = AwsInput {
        assume_role: AwsAssumeRoleInput { role_arn: String::from("arn"), source_profile: None, duration_seconds: Some(900) },
    };
    assert_eq!(aws.resolve_offline(&live), None);
    let creds = aws.resolve_offline(&dry).unwrap().unwrap();
    assert_eq!(creds.len(), 4);
    assert_eq!(creds[3].value, "32472144000");

    let vault = HashiVaultInput {
        aws: HashiVaultAWSInput { mount: None, name: String::from("r"), role_arn: None, role_session_name: None, ttl: None },
    };
    assert_eq!(vault.resolve_offline(&live), None);
    assert_eq!(vault.resolve_offline(&dry).unwrap().unwrap()[0].value, "AKIADRYRUNACCESSKEY");
}

#[test]
fn default_settings_are_empty() {
    let hv = HashivaultConfig::default();
    assert_eq!(hv, HashivaultConfig { verify: None, ..vault_config(None, None, None) });
    let config = NovopsConfig::default();
    assert!(config.default.is_none() && config.hashivault.is_none() && config.aws.is_none());
    let aws = novops::modules::aws::config::AwsClientConfig::default();
    assert!(aws.profile.is_none() && aws.endpoint.is_none() && aws.region.is_none() && aws.identity_cache.is_none());
}


#[test]
fn bitwarden_item_from_command_output() {
    let stdout = br#"{"login": {"password": "p4ss", "uris": [1, 2.5]}, "ok": true}"#.to_vec();
    let item = novops::modules::bitwarden::item_from_output(stdout.clone(), true).unwrap();
    let input = BitwardenItemInput {
        bitwarden: BitwardenEntry { entry: String::from("e"), field: String::from("login.password") },
    };
    assert_eq!(input.value_from(&item), Ok(String::from("p4ss")));
    match &item {
        JsonValue::Object(members) => {
            let keys: Vec<&str> = members.iter().map(|m| m.0.as_str()).collect();
            assert_eq!(keys, vec!["login", "ok"]);
            assert_eq!(members[1].1, JsonValue::Bool(true));
        },
        other => panic!("unexpected {:?}", other),
    }
    assert_eq!(
        novops::modules::bitwarden::item_from_output(stdout, false),
        Err(NovopsError::CommandFailed)
    );
    assert_eq!(
        novops::modules::bitwarden::item_from_output(vec![0xff, 0x7b], true),
        Err(NovopsError::CommandOutputNotUtf8)
    );
    assert_eq!(
        novops::modules::bitwarden::item_from_output(b"not json".to_vec(), true),
        Err(NovopsError::InvalidJson)
    );
}

#[test]
fn sops_command_output() {
    assert_eq!(sops_output_from(b"A=1\n".to_vec(), Vec::new(), true), Ok(String::from("A=1\n")));
    assert_eq!(sops_output_from(b"A=1\n".to_vec(), b"boom".to_vec(), false), Err(NovopsError::CommandFailed));
    assert_eq!(sops_output_from(vec![0xc3], Vec::new(), true), Err(NovopsError::CommandOutputNotUtf8));
    assert_eq!(sops_output_from(Vec::new(), vec![0xc3], true), Err(NovopsError::CommandOutputNotUtf8));
}

#[test]
fn vault_settings_from_context() {
    assert_eq!(
        vault_token_from(VaultTokenSource::File(String::from("/t")), Some(String::from(" tok\n")), String::from("d")),
        "tok"
    );
    assert_eq!(vault_token_from(VaultTokenSource::Token(String::from("t")), None, String::from("d")), "t");
    assert_eq!(vault_token_from(VaultTokenSource::ClientDefault, None, String::from("d")), "d");

    let ctx = context(false, Some(vault_config(Some("https://vault.example.com"), None, None)));
    let s = vault_settings(&ctx, String::from("tok"), None, String::from("http://127.0.0.1:8200/"), true).unwrap();
    assert_eq!(s.address, "https://vault.example.com/");
    assert_eq!(s.token, "tok");
    assert!(!s.verify);
    let unconfigured = context(false, None);
    let d = vault_settings(&unconfigured, String::from("tok"), None, String::from("http://127.0.0.1:8200/"), true).unwrap();
    assert_eq!(d.address, "http://127.0.0.1:8200/");
    assert!(d.verify);
    assert_eq!(
        vault_settings(&ctx, String::from("tok"), Some(String::from("::bad")), String::from("x"), true),
        Err(NovopsError::InvalidUrl(String::from("::bad")))
    );
}

fn auth_context(auth: HashiVaultAuth) -> NovopsContext {
    let mut config = vault_config(None, None, None);
    config.auth = Some(auth);
    context(false, Some(config))
}

#[test]
fn vault_login_plans() {
    let approle = auth_context(HashiVaultAuth::AppRole {
        mount_path: None,
        role_id: Some(String::from("rid")),
        secret_id_path: None,
    });
    assert_eq!(vault_login_plan(&approle, true, None, None, None), Ok(None));
    assert_eq!(
        vault_login_plan(&approle, false, Some(String::from("sid")), None, None),
        Ok(Some(VaultLogin::AppRole {
            mount: String::from("approle"),
            role_id: String::from("rid"),
            secret_id: Some(CredentialSource::Value(String::from("sid"))),
        }))
    );
    let no_role = auth_context(HashiVaultAuth::Kubernetes { mount_path: Some(String::from("k8s")), role: None });
    assert_eq!(
        vault_login_plan(&no_role, false, None, None, None),
        Err(NovopsError::VaultAuthIncomplete(String::from("role")))
    );
    let k8s = auth_context(HashiVaultAuth::Kubernetes { mount_path: Some(String::from("k8s")), role: Some(String::from("r")) });
    assert_eq!(
        vault_login_plan(&k8s, false, None, None, None),
        Ok(Some(VaultLogin::Kubernetes {
            mount: String::from("k8s"),
            role: String::from("r"),
            jwt: CredentialSource::File(String::from("/var/run/secrets/kubernetes.io/serviceaccount/token")),
        }))
    );
    let jwt = auth_context(HashiVaultAuth::JWT { token_path: None, role: Some(String::from("test-role")), mount_path: None });
    assert_eq!(
        vault_login_plan(&jwt, false, None, Some(String::from("tok")), None),
        Ok(Some(VaultLogin::Jwt {
            mount: String::from("jwt"),
            role: Some(String::from("test-role")),
            jwt: CredentialSource::Value(String::from("tok")),
        }))
    );
    assert_eq!(
        vault_login_plan(&jwt, false, None, None, None),
        Err(NovopsError::VaultAuthIncomplete(String::from("token_path")))
    );
    assert_eq!(vault_login_plan(&context(false, None), false, None, None, None), Ok(None));
}
