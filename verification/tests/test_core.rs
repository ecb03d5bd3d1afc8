use novops::error::NovopsError;
use novops::listing::{output_names, render_environment_list, render_outputs_list, render_outputs_plain};
use novops::load::{
    app_name_for, build_outputs, config_file_candidates, file_symlink_action, list_outputs_args,
    plan_working_directory, prompt_for_environment, select_environment, var_file_symlink_action,
    working_directory_for, working_directory_from, EnvironmentChoice, SymlinkAction, WorkdirPlan,
};
use novops::modules::files::FileOutput;
use novops::modules::variables::VariableOutput;
use novops::novops_core::{NovopsConfig, NovopsConfigDefault, NovopsConfigFile, NovopsContext, NovopsEnvironmentInput};
use novops::resolve::collect_resolve_results;
use novops::{
    check_working_dir_permissions, get_config_file_path, get_current_environment, list_environments_from_config,
    make_context, prepare_exec_command, read_environment_name, should_error_tty, NovopsLoadArgs,
};

fn empty_env() -> NovopsEnvironmentInput {
    NovopsEnvironmentInput { variables: None, files: None, aws: None, hashivault: None, sops_dotenv: None }
}

fn config_with(names: &[&str], default: Option<&str>) -> NovopsConfigFile {
    NovopsConfigFile {
        name: Some(String::from("test-empty")),
        environments: names.iter().map(|n| (String::from(*n), empty_env())).collect(),
        config: Some(NovopsConfig {
            default: Some(NovopsConfigDefault { environment: default.map(String::from) }),
            hashivault: None,
            aws: None,
        }),
    }
}

fn context(env: &str, config: NovopsConfigFile) -> NovopsContext {
    NovopsContext {
        env_name: String::from(env),
        app_name: String::from("app"),
        workdir: String::from("/tmp/work"),
        config_file_data: config,
        env_var_filepath: String::from("/tmp/work/vars"),
        dry_run: true,
    }
}

fn var(name: &str, value: &str) -> VariableOutput {
    VariableOutput { name: String::from(name), value: String::from(value), quote_method: None }
}

fn file(dest: &str, var_name: &str) -> FileOutput {
    FileOutput {
        dest: String::from(dest),
        symlink: None,
        variable: var(var_name, dest),
        content: b"content".to_vec(),
    }
}

#[test]
fn test_core_test_load_simple_config() {
    let workdir = String::from("/tmp/test_load_simple_config");
    let args = NovopsLoadArgs {
        config: Some(String::from("tests/.novops.empty.yml")),
        env: Some(String::from("dev")),
        working_directory: Some(workdir.clone()),
        skip_working_directory_check: Some(false),
        dry_run: None,
    };
    let config = config_with(&["dev"], Some("dev"));
    let app_name = app_name_for(&config, Some(String::from("some-directory")));
    let result = make_context(&args, config.clone(), app_name, String::from("dev"), workdir.clone());

    assert_eq!(
        result,
        NovopsContext {
            env_name: String::from("dev"),
            app_name: String::from("test-empty"),
            workdir: workdir.clone(),
            config_file_data: config,
            env_var_filepath: format!("{}/vars", workdir),
            dry_run: false,
        }
    );
}

#[test]
fn test_run_prepare_process() {
    let args = vec![String::from("sh"), String::from("-c"), String::from("echo foo")];
    let vars = vec![var("FOO", "barzzz")];

    let result = prepare_exec_command(&args, &vars);

    assert_eq!(result.envs.len(), 1);
    assert_eq!(result.envs[0], (String::from("FOO"), String::from("barzzz")));
    assert_eq!(result.program, "sh");
    assert_eq!(result.args, vec![String::from("-c"), String::from("echo foo")]);
}

#[test]
fn test_should_error_tty() {
    let symlink_none = None;
    let symlink_some = Some(String::from(".envrc"));

    // terminal is tty
    assert!(!should_error_tty(true, true, &symlink_none), "Skipped tty check should not provoke failsafe");
    assert!(!should_error_tty(true, true, &symlink_some), "Skipped tty check should not provoke failsafe");
    assert!(should_error_tty(true, false, &symlink_none), "tty terminal without symlink should provoke failsafe");
    assert!(!should_error_tty(true, false, &symlink_some), "tty terminal with symlink should not provoke failsafe");

    // terminal is NOT tty
    assert!(!should_error_tty(false, true, &symlink_none), "Non-tty terminal should not cause failsafe");
    assert!(!should_error_tty(false, true, &symlink_some), "Non-tty terminal should not cause failsafe");
    assert!(!should_error_tty(false, false, &symlink_none), "Non-tty terminal should not cause failsafe");
    assert!(!should_error_tty(false, false, &symlink_some), "Non-tty terminal should not cause failsafe");
}

#[test]
fn test_default_loaded_vars() {
    let ctx = context("dev", config_with(&["dev"], None));
    let result = build_outputs(ctx, Vec::new(), Vec::new());
    assert_eq!(result.get_variable("NOVOPS_ENVIRONMENT").unwrap().value, "dev");
}

#[test]
fn test_list_environments() {
    let config = config_with(&["staging", "dev", "prod", "preprod"], None);
    let result = list_environments_from_config(&config);

    assert_eq!(result.len(), 4);
    assert_eq!(result[0], "dev");
    assert_eq!(result[1], "preprod");
    assert_eq!(result[2], "prod");
    assert_eq!(result[3], "staging");
}

#[test]
fn list_environments_orders_by_code_point() {
    let config = config_with(&["b", "B", "ab", "a", "é"], None);
    assert_eq!(list_environments_from_config(&config), vec!["B", "a", "ab", "b", "é"]);
}

#[test]
fn check_working_dir_permissions_test() {
    let uid = 1000;
    let result_user = check_working_dir_permissions(0o40700, uid, uid);
    assert!(result_user.is_ok(), "Directory with user-only permission should pass check, got {:?}", result_user);

    let result_group = check_working_dir_permissions(0o40760, uid, uid);
    assert!(result_group.is_err(), "Directory with group permission should not pass check, got {:?}", result_group);

    let result_world = check_working_dir_permissions(0o40706, uid, uid);
    assert!(result_world.is_err(), "Directory with world permission should not pass check, got {:?}", result_world);
}

#[test]
fn working_dir_ownership() {
    assert_eq!(check_working_dir_permissions(0o700, 0, 1000), Ok(()));
    assert_eq!(
        check_working_dir_permissions(0o700, 1001, 1000),
        Err(NovopsError::WorkdirOwnerUnsafe { owner: 1001, current: 1000 })
    );
    // more restrictive than rwx------ is fine
    assert_eq!(check_working_dir_permissions(0o600, 1000, 1000), Ok(()));
    assert_eq!(check_working_dir_permissions(0o40500, 1000, 1000), Ok(()));
    assert_eq!(check_working_dir_permissions(0o704, 1000, 1000), Err(NovopsError::WorkdirModeUnsafe { mode: 0o704 }));
}

#[test]
fn test_get_config_file_path() {
    let dir = "/tmp/novops-config-test";
    let test_config = "tests/.novops.plain-strings.yml";

    // Empty dir, should fail
    assert_eq!(get_config_file_path(dir, &None, false, false), Err(NovopsError::ConfigFileNotFound));

    // .yml should be loaded
    assert_eq!(get_config_file_path(dir, &None, false, true), Ok(format!("{}/.novops.yml", dir)));

    // .yaml should be loaded with precedence
    assert_eq!(get_config_file_path(dir, &None, true, true), Ok(format!("{}/.novops.yaml", dir)));

    // custom config should be loaded with precedence
    assert_eq!(
        get_config_file_path(dir, &Some(String::from(test_config)), true, true),
        Ok(String::from(test_config))
    );
}

#[test]
fn config_candidates_in_directory() {
    let (yaml, yml) = config_file_candidates("/home/me/app/");
    assert_eq!(yaml, "/home/me/app/.novops.yaml");
    assert_eq!(yml, "/home/me/app/.novops.yml");
}

#[test]
fn environment_flag_wins() {
    let config = config_with(&["dev", "prod"], Some("prod"));
    match read_environment_name(&config, &Some(String::from("staging"))) {
        Ok(EnvironmentChoice::Selected(e)) => assert_eq!(e, "staging"),
        other => panic!("unexpected {:?}", other),
    }
}

#[test]
fn environment_prompt_cases() {
    assert!(matches!(
        prompt_for_environment(&config_with(&[], None)),
        Err(NovopsError::NoEnvironmentConfigured)
    ));
    match prompt_for_environment(&config_with(&["only"], Some("missing"))) {
        Ok(EnvironmentChoice::Selected(e)) => assert_eq!(e, "only"),
        other => panic!("unexpected {:?}", other),
    }
    match read_environment_name(&config_with(&["dev", "prod", "staging"], Some("prod")), &None) {
        Ok(EnvironmentChoice::Prompt { environments, default_index }) => {
            assert_eq!(environments, vec!["dev", "prod", "staging"]);
            assert_eq!(default_index, 1);
        },
        other => panic!("unexpected {:?}", other),
    }
    match prompt_for_environment(&config_with(&["dev", "prod"], None)) {
        Ok(EnvironmentChoice::Prompt { default_index, .. }) => assert_eq!(default_index, 0),
        other => panic!("unexpected {:?}", other),
    }
    assert_eq!(
        prompt_for_environment(&config_with(&["dev", "prod"], Some("qa"))).unwrap_err(),
        NovopsError::DefaultEnvironmentNotFound(String::from("qa"))
    );
}

#[test]
fn environment_selection() {
    let envs = vec![String::from("dev"), String::from("prod")];
    assert_eq!(select_environment(&envs, Some(1)), Ok(String::from("prod")));
    assert_eq!(select_environment(&envs, None), Err(NovopsError::NoEnvironmentSelected));
}

#[test]
fn current_environment_lookup() {
    let ctx = context("prod", config_with(&["dev", "prod"], None));
    assert_eq!(get_current_environment(&ctx), Ok(&empty_env()));
    let missing = context("qa", config_with(&["dev"], None));
    assert_eq!(get_current_environment(&missing), Err(NovopsError::EnvironmentNotFound(String::from("qa"))));
}

#[test]
fn app_name_precedence() {
    let mut config = config_with(&["dev"], None);
    assert_eq!(app_name_for(&config, Some(String::from("dir"))), "test-empty");
    config.name = None;
    assert_eq!(app_name_for(&config, Some(String::from("dir"))), "dir");
    assert_eq!(app_name_for(&config, None), "root");
}

#[test]
fn working_directory_plans() {
    let mut args = NovopsLoadArgs {
        config: None,
        env: None,
        working_directory: None,
        skip_working_directory_check: None,
        dry_run: None,
    };
    match plan_working_directory(&args, "myapp", "dev", 1000) {
        WorkdirPlan::Default { xdg_prefix, tmp_user_dir, tmp_dir } => {
            assert_eq!(xdg_prefix, "novops/myapp/dev");
            assert_eq!(tmp_user_dir, "/tmp/novops/1000");
            assert_eq!(tmp_dir, "/tmp/novops/1000/myapp/dev");
        },
        other => panic!("unexpected {:?}", other),
    }
    args.working_directory = Some(String::from("wd"));
    match plan_working_directory(&args, "myapp", "dev", 1000) {
        WorkdirPlan::Custom { path, check } => {
            assert_eq!(path, "wd");
            assert!(check);
        },
        other => panic!("unexpected {:?}", other),
    }
    args.skip_working_directory_check = Some(true);
    assert!(matches!(plan_working_directory(&args, "a", "b", 0), WorkdirPlan::Custom { check: false, .. }));
}

#[test]
fn symlink_decisions() {
    assert_eq!(file_symlink_action("/l", None), Ok(SymlinkAction::Create));
    assert_eq!(file_symlink_action("/l", Some(true)), Ok(SymlinkAction::ReplaceExisting));
    assert_eq!(file_symlink_action("/l", Some(false)), Err(NovopsError::SymlinkTargetNotSymlink(String::from("/l"))));
    assert_eq!(var_file_symlink_action(".envrc", None, 1000), Ok(SymlinkAction::Create));
    assert_eq!(var_file_symlink_action(".envrc", Some((true, 1000)), 1000), Ok(SymlinkAction::ReplaceExisting));
    assert_eq!(
        var_file_symlink_action(".envrc", Some((true, 0)), 1000),
        Err(NovopsError::SymlinkNotOwned(String::from(".envrc")))
    );
    assert_eq!(
        var_file_symlink_action(".envrc", Some((false, 1000)), 1000),
        Err(NovopsError::SymlinkNotOwned(String::from(".envrc")))
    );
}

#[test]
fn outputs_user_variable_overrides_environment_variable() {
    let ctx = context("dev", config_with(&["dev"], None));
    let vars = vec![var("A", "1"), var("NOVOPS_ENVIRONMENT", "custom"), var("A", "2")];
    let files = vec![file("/tmp/f1", "F1")];
    let outputs = build_outputs(ctx, vars, files);
    assert_eq!(outputs.get_variable("NOVOPS_ENVIRONMENT").unwrap().value, "custom");
    assert_eq!(outputs.get_variable("A").unwrap().value, "2");
    assert_eq!(outputs.get_variable("/tmp/f1").unwrap().name, "F1");
    assert_eq!(outputs.get_file("/tmp/f1").unwrap().content, b"content".to_vec());
    assert!(outputs.get_file("/tmp/other").is_none());
    assert_eq!(outputs.variables.len(), 3);
    assert_eq!(outputs.files.len(), 1);

    let (names, paths) = output_names(&outputs);
    assert_eq!(names, vec![String::from("NOVOPS_ENVIRONMENT"), String::from("A"), String::from("F1")]);
    assert_eq!(paths, vec![String::from("/tmp/f1")]);
    assert_eq!(
        render_outputs_plain(&names, &paths),
        "Variables:\n\nNOVOPS_ENVIRONMENT\nA\nF1\n\nFiles:\n\n/tmp/f1\n"
    );
}

#[test]
fn environment_list_rendering() {
    let envs = vec![String::from("dev"), String::from("prod")];
    assert_eq!(render_environment_list(&envs, "plain"), Ok(String::from("dev\nprod\n")));
    assert_eq!(render_environment_list(&envs, "json"), Ok(String::from("[\"dev\",\"prod\"]\n")));
    assert_eq!(render_environment_list(&envs, "xml"), Err(NovopsError::UnknownFormat(String::from("xml"))));
}

#[test]
fn resolve_results_are_gathered() {
    let ok1: Result<(Vec<VariableOutput>, Vec<FileOutput>), String> = Ok((vec![var("A", "1")], vec![]));
    let ok2: Result<(Vec<VariableOutput>, Vec<FileOutput>), String> = Ok((vec![var("B", "2")], vec![file("/f", "F")]));
    let (vars, files) = collect_resolve_results(vec![ok1.clone(), ok2.clone()]).unwrap();
    assert_eq!(vars, vec![var("A", "1"), var("B", "2")]);
    assert_eq!(files, vec![file("/f", "F")]);

    let err = collect_resolve_results(vec![ok1, Err(String::from("boom")), ok2, Err(String::from("bang"))]);
    assert_eq!(
        err,
        Err(NovopsError::ResolveFailed(String::from(
            "Failed to resolve one or more Inputs:\n\n---\nboom\n\n---\nbang\n"
        )))
    );
}

#[test]
fn list_outputs_loads_in_dry_run() {
    let args = list_outputs_args(Some(String::from("c.yml")), None);
    assert_eq!(args.config, Some(String::from("c.yml")));
    assert_eq!(args.env, None);
    assert_eq!(args.working_directory, None);
    assert_eq!(args.skip_working_directory_check, Some(false));
    assert_eq!(args.dry_run, Some(true));
}

#[test]
fn outputs_list_rendering() {
    let vars = vec![String::from("A"), String::from("B")];
    let files = vec![String::from("/f")];
    assert_eq!(render_outputs_list(&vars, &files, "plain"), Ok(render_outputs_plain(&vars, &files)));
    let json = render_outputs_list(&vars, &files, "json").unwrap();
    assert!(
        json == "{\"variables\":[\"A\",\"B\"],\"files\":[\"/f\"]}\n"
            || json == "{\"files\":[\"/f\"],\"variables\":[\"A\",\"B\"]}\n",
        "unexpected {:?}",
        json
    );
    assert_eq!(render_outputs_list(&vars, &files, "yaml"), Err(NovopsError::UnknownFormat(String::from("yaml"))));
}

#[test]
fn working_directory_carried_out() {
    let custom = WorkdirPlan::Custom { path: String::from("wd"), check: true };
    assert_eq!(working_directory_from(&custom, Some((0o40700, 1000)), None, 1000, "/home/me"), Ok(String::from("/home/me/wd")));
    assert_eq!(
        working_directory_from(&custom, Some((0o40770, 1000)), None, 1000, "/home/me"),
        Err(NovopsError::WorkdirModeUnsafe { mode: 0o40770 })
    );
    let unchecked = WorkdirPlan::Custom { path: String::from("/abs"), check: false };
    assert_eq!(working_directory_from(&unchecked, None, None, 1000, "/home/me"), Ok(String::from("/abs")));
    let default = WorkdirPlan::Default {
        xdg_prefix: String::from("novops/a/b"),
        tmp_user_dir: String::from("/tmp/novops/1000"),
        tmp_dir: String::from("/tmp/novops/1000/a/b"),
    };
    assert_eq!(
        working_directory_from(&default, None, Some(String::from("/run/user/1000/novops/a/b")), 1000, "/home/me"),
        Ok(String::from("/run/user/1000/novops/a/b"))
    );
}

#[test]
fn working_directory_for_arguments() {
    let mut args = NovopsLoadArgs {
        config: None,
        env: None,
        working_directory: Some(String::from("wd")),
        skip_working_directory_check: None,
        dry_run: None,
    };
    assert_eq!(
        working_directory_for(&args, "app", "dev", 1000, Some((0o40700, 1000)), None, "/home/me"),
        Ok(String::from("/home/me/wd"))
    );
    assert_eq!(
        working_directory_for(&args, "app", "dev", 1000, Some((0o40700, 1001)), None, "/home/me"),
        Err(NovopsError::WorkdirOwnerUnsafe { owner: 1001, current: 1000 })
    );
    args.skip_working_directory_check = Some(true);
    assert_eq!(working_directory_for(&args, "app", "dev", 1000, None, None, "/home/me"), Ok(String::from("/home/me/wd")));
    args.working_directory = None;
    assert_eq!(
        working_directory_for(&args, "app", "dev", 1000, None, Some(String::from("/tmp/novops/1000/app/dev")), "/"),
        Ok(String::from("/tmp/novops/1000/app/dev"))
    );
}
