//! Loading an environment: the arguments, the context, and the outputs that
//! loading gives.
use vstd::prelude::*;
use crate::error::NovopsError;
use crate::export::opt_view;
use crate::keyed::{key_views, keyed_get, keyed_insert, keyed_map, unique_keys};
use crate::order::{insert_sorted, strictly_sorted};
use crate::modules::files::FileOutput;
use crate::modules::variables::VariableOutput;
use crate::novops_core::{NovopsConfigFile, NovopsContext, NovopsEnvironmentInput};
use crate::text::{copy_string, decimal_spec, lemma_views_push, path_join, path_join_spec, push_char, str_eq, u64_to_decimal, views};

verus! {

/// What `novops load` and `novops run` are asked to do.
#[derive(Debug)]
pub struct NovopsLoadArgs {
    /// Path of the config file; `.novops.yaml` or `.novops.yml` when not set.
    pub config: Option<String>,
    /// Environment to load; the user is asked when not set.
    pub env: Option<String>,
    /// Working directory for files and the variable file.
    pub working_directory: Option<String>,
    /// Whether to skip the check of the working directory's permissions.
    pub skip_working_directory_check: Option<bool>,
    /// Whether to load without calling any service.
    pub dry_run: Option<bool>,
}

/// Everything an environment resolved to.
#[derive(Debug)]
pub struct NovopsOutputs {
    pub context: NovopsContext,
    /// Variables by key: a variable's name, or for a file's variable the file's path.
    pub variables: Vec<(String, VariableOutput)>,
    /// Files by path.
    pub files: Vec<(String, FileOutput)>,
}

/// Name, value and quote method of a variable.
pub type VariableView = (Seq<char>, Seq<char>, Option<Seq<char>>);

/// The variable that tells which environment was loaded.
pub open spec fn environment_key() -> Seq<char> {
    seq!['N', 'O', 'V', 'O', 'P', 'S', '_', 'E', 'N', 'V', 'I', 'R', 'O', 'N', 'M', 'E', 'N', 'T']
}

/// The variables by key, each as its view.
pub open spec fn variable_views(s: Seq<(String, VariableOutput)>) -> Map<Seq<char>, VariableView> {
    keyed_map(s).map_values(|v: VariableOutput| v@)
}

/// Before any input: `NOVOPS_ENVIRONMENT` set to the environment's name.
pub open spec fn base_variables(env_name: Seq<char>) -> Map<Seq<char>, VariableView> {
    Map::empty().insert(environment_key(), (environment_key(), env_name, None))
}

/// `m` with each variable set under its name, later ones overriding earlier ones.
pub open spec fn with_variables(m: Map<Seq<char>, VariableView>, vars: Seq<VariableOutput>) -> Map<Seq<char>, VariableView>
    decreases vars.len(),
{
    if vars.len() == 0 {
        m
    } else {
        with_variables(m, vars.drop_last()).insert(vars.last().name@, vars.last()@)
    }
}

/// `m` with each file's variable set under the file's path.
pub open spec fn with_file_variables(m: Map<Seq<char>, VariableView>, files: Seq<FileOutput>) -> Map<Seq<char>, VariableView>
    decreases files.len(),
{
    if files.len() == 0 {
        m
    } else {
        with_file_variables(m, files.drop_last()).insert(files.last().dest@, files.last().variable@)
    }
}

/// The variables that loading gives: `NOVOPS_ENVIRONMENT` first, then the variables
/// of the inputs, then those of the files; a later one overrides an earlier one with the same key.
pub open spec fn output_variables(env_name: Seq<char>, vars: Seq<VariableOutput>, files: Seq<FileOutput>) -> Map<Seq<char>, VariableView> {
    with_file_variables(with_variables(base_variables(env_name), vars), files)
}

/// The files by path; a later file overrides an earlier one with the same path.
pub open spec fn output_files(files: Seq<FileOutput>) -> Map<Seq<char>, FileOutput>
    decreases files.len(),
{
    if files.len() == 0 {
        Map::empty()
    } else {
        output_files(files.drop_last()).insert(files.last().dest@, files.last())
    }
}

impl NovopsOutputs {
    /// Keys are unique among variables and among files.
    pub open spec fn wf(self) -> bool {
        unique_keys(self.variables@) && unique_keys(self.files@)
    }

    /// The variable under `key`, if any.
    pub fn get_variable(&self, key: &str) -> (r: Option<&VariableOutput>)
        ensures
            match r {
                Some(v) => keyed_map(self.variables@).contains_key(key@) && *v == keyed_map(self.variables@)[key@],
                None => !keyed_map(self.variables@).contains_key(key@),
            },
    {
        keyed_get(&self.variables, key)
    }

    /// The file at `path`, if any.
    pub fn get_file(&self, path: &str) -> (r: Option<&FileOutput>)
        ensures
            match r {
                Some(f) => keyed_map(self.files@).contains_key(path@) && *f == keyed_map(self.files@)[path@],
                None => !keyed_map(self.files@).contains_key(path@),
            },
    {
        keyed_get(&self.files, path)
    }
}

/// How the environment to load is chosen.
#[derive(Debug)]
pub enum EnvironmentChoice {
    /// This environment, with no need to ask.
    Selected(String),
    /// Ask the user to pick one of `environments`, `default_index` being preselected.
    Prompt { environments: Vec<String>, default_index: usize },
}

/// The default environment of the config, if it names one.
pub open spec fn default_environment(config: NovopsConfigFile) -> Option<Seq<char>> {
    match config.config {
        Some(c) => match c.default {
            Some(d) => opt_view(d.environment),
            None => None,
        },
        None => None,
    }
}

/// What choosing an environment without a flag gives: an error when the config has none,
/// the only one when it has one, else a prompt over all of them in config order with the
/// default environment preselected (the first one when no default is set), or an error
/// when the default is not among them.
pub open spec fn prompt_outcome(config: NovopsConfigFile, r: Result<EnvironmentChoice, NovopsError>) -> bool {
    let names = key_views(config.environments@);
    if names.len() == 0 {
        r matches Err(NovopsError::NoEnvironmentConfigured)
    } else if names.len() == 1 {
        r matches Ok(EnvironmentChoice::Selected(s)) && s@ == names[0]
    } else {
        match default_environment(config) {
            None => r matches Ok(EnvironmentChoice::Prompt { environments, default_index })
                && views(environments@) == names && default_index == 0,
            Some(d) => if names.contains(d) {
                r matches Ok(EnvironmentChoice::Prompt { environments, default_index })
                    && views(environments@) == names && default_index < names.len()
                    && names[default_index as int] == d
                    && forall|j: int| 0 <= j < default_index ==> names[j] != d
            } else {
                r matches Err(NovopsError::DefaultEnvironmentNotFound(x)) && x@ == d
            },
        }
    }
}

/// The names of the config's environments, in config order.
fn environment_names(config: &NovopsConfigFile) -> (r: Vec<String>)
    ensures
        views(r@) == key_views(config.environments@),
{
    let mut names: Vec<String> = Vec::new();
    let mut i: usize = 0;
    while i < config.environments.len()
        invariant
            i <= config.environments@.len(),
            views(names@) == key_views(config.environments@).take(i as int),
        decreases config.environments.len() - i,
    {
        let name = config.environments[i].0.clone();
        let ghost before = names@;
        let ghost nm = name;
        names.push(name);
        proof {
            lemma_views_push(before, nm);
        }
        i = i + 1;
        assert(views(names@) =~= key_views(config.environments@).take(i as int));
    }
    assert(key_views(config.environments@).take(i as int) =~= key_views(config.environments@));
    names
}

/// Decides how to choose the environment when none was given: see `prompt_outcome`.
pub fn prompt_for_environment(config: &NovopsConfigFile) -> (r: Result<EnvironmentChoice, NovopsError>)
    ensures
        prompt_outcome(*config, r),
        config.environments@.len() == 0 ==> r matches Err(NovopsError::NoEnvironmentConfigured),
        config.environments@.len() == 1 ==> (r matches Ok(EnvironmentChoice::Selected(s))
            && s@ == config.environments@[0].0@),
        match r {
            Ok(EnvironmentChoice::Prompt { environments, default_index }) => {
                &&& config.environments@.len() >= 2
                &&& environments@.len() == config.environments@.len()
                &&& forall|i: int| 0 <= i < environments@.len() ==> (#[trigger] environments@[i])@
                    == config.environments@[i].0@
                &&& default_index < environments@.len()
                &&& match default_environment(*config) {
                    Some(d) => environments@[default_index as int]@ == d,
                    None => default_index == 0,
                }
            },
            Ok(EnvironmentChoice::Selected(_)) => config.environments@.len() == 1,
            Err(NovopsError::DefaultEnvironmentNotFound(x)) => default_environment(*config) == Some(x@)
                && forall|i: int| 0 <= i < config.environments@.len() ==> (#[trigger] config.environments@[i]).0@
                    != x@,
            Err(e) => e == NovopsError::NoEnvironmentConfigured && config.environments@.len() == 0,
        },
{
    let names = environment_names(config);
    let ghost nv = views(names@);
    proof {
        assert(names@.len() == config.environments@.len()) by {
            assert(nv.len() == names@.len());
        }
        assert forall|i: int| 0 <= i < names@.len() implies (#[trigger] names@[i])@ == config.environments@[i].0@ by {
            assert(nv[i] == names@[i]@);
            assert(key_views(config.environments@)[i] == config.environments@[i].0@);
        }
    }
    if names.len() == 0 {
        return Err(NovopsError::NoEnvironmentConfigured);
    }
    if names.len() == 1 {
        let only = names[0].clone();
        return Ok(EnvironmentChoice::Selected(only));
    }
    let default = match &config.config {
        Some(c) => match &c.default {
            Some(d) => match &d.environment {
                Some(e) => Some(e),
                None => None,
            },
            None => None,
        },
        None => None,
    };
    let default_index = match default {
        None => 0,
        Some(d) => {
            let mut i: usize = 0;
            while i < names.len() && !str_eq(names[i].as_str(), d.as_str())
                invariant
                    i <= names@.len(),
                    nv == views(names@),
                    forall|j: int| 0 <= j < i ==> nv[j] != d@,
                decreases names.len() - i,
            {
                i = i + 1;
            }
            if i == names.len() {
                assert(!nv.contains(d@));
                assert forall|k: int| 0 <= k < config.environments@.len() implies (#[trigger] config.environments@[k]).0@
                    != d@ by {
                    assert(names@[k]@ == config.environments@[k].0@);
                    assert(nv[k] == names@[k]@);
                }
                return Err(NovopsError::DefaultEnvironmentNotFound(d.clone()));
            }
            assert(nv[i as int] == d@);
            assert(names@[i as int]@ == d@);
            i
        },
    };
    assert(default_index < names@.len());
    Ok(EnvironmentChoice::Prompt { environments: names, default_index })
}

/// Reads the environment name: the one given as a flag, else as `prompt_for_environment` decides.
pub fn read_environment_name(config: &NovopsConfigFile, flag: &Option<String>) -> (r: Result<EnvironmentChoice, NovopsError>)
    ensures
        match flag {
            Some(e) => r matches Ok(EnvironmentChoice::Selected(s)) && s@ == e@,
            None => prompt_outcome(*config, r),
        },
{
    match flag {
        Some(e) => Ok(EnvironmentChoice::Selected(e.clone())),
        None => prompt_for_environment(config),
    }
}

/// The environment picked at the prompt; an error when the user picked none.
pub fn select_environment(environments: &Vec<String>, selection: Option<usize>) -> (r: Result<String, NovopsError>)
    requires
        selection matches Some(i) ==> i < environments@.len(),
    ensures
        match selection {
            Some(i) => r matches Ok(s) && s@ == environments@[i as int]@,
            None => r matches Err(NovopsError::NoEnvironmentSelected),
        },
{
    match selection {
        Some(i) => Ok(environments[i].clone()),
        None => Err(NovopsError::NoEnvironmentSelected),
    }
}

/// The inputs of the context's environment; an error when the config does not define it.
pub fn get_current_environment(ctx: &NovopsContext) -> (r: Result<&NovopsEnvironmentInput, NovopsError>)
    ensures
        match r {
            Ok(e) => keyed_map(ctx.config_file_data.environments@).contains_key(ctx.env_name@)
                && *e == keyed_map(ctx.config_file_data.environments@)[ctx.env_name@],
            Err(err) => !keyed_map(ctx.config_file_data.environments@).contains_key(ctx.env_name@)
                && (err matches NovopsError::EnvironmentNotFound(n) && n@ == ctx.env_name@),
        },
{
    match keyed_get(&ctx.config_file_data.environments, ctx.env_name.as_str()) {
        Some(e) => Ok(e),
        None => Err(NovopsError::EnvironmentNotFound(ctx.env_name.clone())),
    }
}

/// The names of the config's environments, sorted.
pub fn list_environments_from_config(config: &NovopsConfigFile) -> (r: Vec<String>)
    requires
        config.wf(),
    ensures
        strictly_sorted(views(r@)),
        views(r@).to_set() == key_views(config.environments@).to_set(),
        r@.len() == config.environments@.len(),
{
    let ghost keys = key_views(config.environments@);
    let mut sorted: Vec<String> = Vec::new();
    let mut i: usize = 0;
    assert(views(sorted@).to_set() =~= keys.take(0).to_set());
    while i < config.environments.len()
        invariant
            i <= config.environments@.len(),
            keys == key_views(config.environments@),
            unique_keys(config.environments@),
            strictly_sorted(views(sorted@)),
            views(sorted@).to_set() == keys.take(i as int).to_set(),
            sorted@.len() == i,
        decreases config.environments.len() - i,
    {
        let name = config.environments[i].0.clone();
        assert(!views(sorted@).contains(name@)) by {
            if views(sorted@).contains(name@) {
                assert(views(sorted@).to_set().contains(name@));
                assert(keys.take(i as int).contains(name@));
                let j = choose|j: int| 0 <= j < i && keys.take(i as int)[j] == name@;
                assert(config.environments@[j].0@ != config.environments@[i as int].0@);
            }
        }
        insert_sorted(&mut sorted, name);
        assert(keys.take(i + 1) =~= keys.take(i as int).push(keys[i as int]));
        assert(keys.take(i + 1).to_set() =~= keys.take(i as int).to_set().insert(keys[i as int])) by {
            keys.take(i as int).lemma_push_to_set_commute(keys[i as int]);
        }
        i = i + 1;
    }
    assert(keys.take(i as int) =~= keys);
    sorted
}

pub open spec fn yaml_config_name() -> Seq<char> {
    seq!['.', 'n', 'o', 'v', 'o', 'p', 's', '.', 'y', 'a', 'm', 'l']
}

pub open spec fn yml_config_name() -> Seq<char> {
    seq!['.', 'n', 'o', 'v', 'o', 'p', 's', '.', 'y', 'm', 'l']
}

/// The two config files looked for in a directory: `.novops.yaml`, then `.novops.yml`.
pub fn config_file_candidates(current_dir: &str) -> (r: (String, String))
    ensures
        r.0@ == path_join_spec(current_dir@, yaml_config_name()),
        r.1@ == path_join_spec(current_dir@, yml_config_name()),
{
    proof {
        reveal_strlit(".novops.yaml");
        reveal_strlit(".novops.yml");
        assert(".novops.yaml"@ =~= yaml_config_name());
        assert(".novops.yml"@ =~= yml_config_name());
    }
    (path_join(current_dir, ".novops.yaml"), path_join(current_dir, ".novops.yml"))
}

/// The config file to read: the given path if any, else `.novops.yaml` in the current
/// directory if it exists, else `.novops.yml` there if it exists, else an error.
pub fn get_config_file_path(
    current_dir: &str,
    config_path_opt: &Option<String>,
    yaml_exists: bool,
    yml_exists: bool,
) -> (r: Result<String, NovopsError>)
    ensures
        match config_path_opt {
            Some(p) => r matches Ok(s) && s@ == p@,
            None => if yaml_exists {
                r matches Ok(s) && s@ == path_join_spec(current_dir@, yaml_config_name())
            } else if yml_exists {
                r matches Ok(s) && s@ == path_join_spec(current_dir@, yml_config_name())
            } else {
                r matches Err(NovopsError::ConfigFileNotFound)
            },
        },
{
    let (yaml_path, yml_path) = config_file_candidates(current_dir);
    match config_path_opt {
        Some(p) => Ok(p.clone()),
        None => {
            if yaml_exists {
                Ok(yaml_path)
            } else if yml_exists {
                Ok(yml_path)
            } else {
                Err(NovopsError::ConfigFileNotFound)
            }
        },
    }
}

pub open spec fn root_name() -> Seq<char> {
    seq!['r', 'o', 'o', 't']
}

/// The application's name: the config's, else the current directory's name, else `root`.
pub fn app_name_for(config: &NovopsConfigFile, dir_name: Option<String>) -> (r: String)
    ensures
        r@ == match config.name {
            Some(n) => n@,
            None => match dir_name {
                Some(d) => d@,
                None => root_name(),
            },
        },
{
    proof {
        reveal_strlit("root");
        assert("root"@ =~= root_name());
    }
    match &config.name {
        Some(n) => n.clone(),
        None => match dir_name {
            Some(d) => d,
            None => copy_string("root"),
        },
    }
}

/// Where files and the variable file are written.
#[derive(Debug)]
pub enum WorkdirPlan {
    /// The directory the user gave; its permissions are checked first when `check` holds.
    Custom { path: String, check: bool },
    /// `xdg_prefix` under the XDG runtime directory, or when that is not available
    /// `tmp_dir`, under `tmp_user_dir` restricted to the user.
    Default { xdg_prefix: String, tmp_user_dir: String, tmp_dir: String },
}

pub open spec fn novops_dir_name() -> Seq<char> {
    seq!['n', 'o', 'v', 'o', 'p', 's']
}

pub open spec fn tmp_novops_dir() -> Seq<char> {
    seq!['/', 't', 'm', 'p', '/', 'n', 'o', 'v', 'o', 'p', 's', '/']
}

/// `novops/<app>/<env>`, relative to the XDG runtime directory.
pub open spec fn xdg_prefix_spec(app: Seq<char>, env: Seq<char>) -> Seq<char> {
    novops_dir_name() + seq!['/'] + app + seq!['/'] + env
}

/// `/tmp/novops/<uid>`.
pub open spec fn tmp_user_dir_spec(uid: u32) -> Seq<char> {
    tmp_novops_dir() + decimal_spec(uid as nat)
}

/// `/tmp/novops/<uid>/<app>/<env>`.
pub open spec fn tmp_dir_spec(uid: u32, app: Seq<char>, env: Seq<char>) -> Seq<char> {
    tmp_user_dir_spec(uid) + seq!['/'] + app + seq!['/'] + env
}

/// Chooses the working directory: the user's if given (checked unless the check is
/// skipped), else one named after the application and environment.
pub fn plan_working_directory(args: &NovopsLoadArgs, app_name: &str, env_name: &str, uid: u32) -> (r: WorkdirPlan)
    ensures
        match args.working_directory {
            Some(w) => r matches WorkdirPlan::Custom { path, check } && path@ == w@
                && check == !(args.skip_working_directory_check matches Some(true)),
            None => r matches WorkdirPlan::Default { xdg_prefix, tmp_user_dir, tmp_dir }
                && xdg_prefix@ == xdg_prefix_spec(app_name@, env_name@)
                && tmp_user_dir@ == tmp_user_dir_spec(uid)
                && tmp_dir@ == tmp_dir_spec(uid, app_name@, env_name@),
        },
{
    match &args.working_directory {
        Some(w) => {
            let skip = match args.skip_working_directory_check {
                Some(b) => b,
                None => false,
            };
            WorkdirPlan::Custom { path: w.clone(), check: !skip }
        },
        None => {
            proof {
                reveal_strlit("novops");
                reveal_strlit("/tmp/novops/");
                assert("novops"@ =~= novops_dir_name());
                assert("/tmp/novops/"@ =~= tmp_novops_dir());
            }
            let mut xdg_prefix = copy_string("novops");
            push_char(&mut xdg_prefix, '/');
            xdg_prefix.append(app_name);
            push_char(&mut xdg_prefix, '/');
            xdg_prefix.append(env_name);
            let mut tmp_user_dir = copy_string("/tmp/novops/");
            tmp_user_dir.append(u64_to_decimal(uid as u64).as_str());
            let mut tmp_dir = copy_string(tmp_user_dir.as_str());
            push_char(&mut tmp_dir, '/');
            tmp_dir.append(app_name);
            push_char(&mut tmp_dir, '/');
            tmp_dir.append(env_name);
            assert(xdg_prefix@ =~= xdg_prefix_spec(app_name@, env_name@));
            assert(tmp_user_dir@ =~= tmp_user_dir_spec(uid));
            assert(tmp_dir@ =~= tmp_dir_spec(uid, app_name@, env_name@));
            WorkdirPlan::Default { xdg_prefix, tmp_user_dir, tmp_dir }
        },
    }
}

/// Checks that a working directory is safe: neither its group nor others have any
/// access (`rwx------` or more restrictive), and it is owned by the current user or root.
pub fn check_working_dir_permissions(mode: u32, owner: u32, current_uid: u32) -> (r: Result<(), NovopsError>)
    ensures
        mode % 64 != 0 ==> r == Err::<(), NovopsError>(NovopsError::WorkdirModeUnsafe { mode }),
        mode % 64 == 0 && owner != current_uid && owner != 0 ==> r == Err::<(), NovopsError>(
            NovopsError::WorkdirOwnerUnsafe { owner, current: current_uid },
        ),
        mode % 64 == 0 && (owner == current_uid || owner == 0) ==> r is Ok,
{
    if mode % 64 != 0 {
        return Err(NovopsError::WorkdirModeUnsafe { mode });
    }
    if owner != current_uid && owner != 0 {
        return Err(NovopsError::WorkdirOwnerUnsafe { owner, current: current_uid });
    }
    Ok(())
}

/// What the permission check of a working directory finds wrong, if anything: access for
/// group or others, then an owner other than the current user or root.
pub open spec fn workdir_permission_error(mode: u32, owner: u32, current_uid: u32) -> Option<NovopsError> {
    if mode % 64 != 0 {
        Some(NovopsError::WorkdirModeUnsafe { mode })
    } else if owner != current_uid && owner != 0 {
        Some(NovopsError::WorkdirOwnerUnsafe { owner, current: current_uid })
    } else {
        None
    }
}

/// A path that starts at the root.
pub open spec fn is_absolute(p: Seq<char>) -> bool {
    p.len() > 0 && p[0] == '/'
}

/// Joining onto an absolute directory gives an absolute path.
pub proof fn lemma_join_absolute(base: Seq<char>, rel: Seq<char>)
    requires
        is_absolute(base),
    ensures
        is_absolute(path_join_spec(base, rel)),
{
    if !(rel.len() > 0 && rel[0] == '/') {
        if base.len() == 0 || base.last() == '/' {
            assert((base + rel)[0] == base[0]);
        } else {
            assert((base + seq!['/'] + rel)[0] == base[0]);
        }
    }
}

/// The working directory, once the plan is carried out: the user's directory, refused when
/// it is to be checked and its permissions (`metadata`: mode and owner) are unsafe; or the
/// default directory that was prepared. Either way as an absolute path: a relative one is
/// taken under the current directory, which is absolute.
pub fn working_directory_from(
    plan: &WorkdirPlan,
    metadata: Option<(u32, u32)>,
    prepared_default: Option<String>,
    current_uid: u32,
    current_dir: &str,
) -> (r: Result<String, NovopsError>)
    requires
        *plan matches WorkdirPlan::Custom { check, .. } && check ==> metadata is Some,
        *plan is Default ==> prepared_default is Some,
        is_absolute(current_dir@),
    ensures
        match *plan {
            WorkdirPlan::Custom { path, check } => {
                let (mode, owner) = metadata.unwrap();
                if check && workdir_permission_error(mode, owner, current_uid) is Some {
                    r == Err::<String, NovopsError>(workdir_permission_error(mode, owner, current_uid)->0)
                } else {
                    r matches Ok(p) && p@ == path_join_spec(current_dir@, path@)
                }
            },
            WorkdirPlan::Default { .. } => r matches Ok(p) && p@ == path_join_spec(
                current_dir@,
                prepared_default->0@,
            ),
        },
        r matches Ok(p) ==> is_absolute(p@),
{
    let dir = match plan {
        WorkdirPlan::Custom { path, check } => {
            if *check {
                let (mode, owner) = match metadata {
                    Some(m) => m,
                    None => (0, 0),
                };
                check_working_dir_permissions(mode, owner, current_uid)?;
            }
            path_join(current_dir, path.as_str())
        },
        WorkdirPlan::Default { .. } => {
            let prepared = match prepared_default {
                Some(d) => d,
                None => String::new(),
            };
            path_join(current_dir, prepared.as_str())
        },
    };
    proof {
        lemma_join_absolute(current_dir@, match plan {
            WorkdirPlan::Custom { path, .. } => path@,
            WorkdirPlan::Default { .. } => prepared_default->0@,
        });
    }
    Ok(dir)
}

/// The working directory for the load arguments, once it is prepared: `metadata` holds
/// the mode and owner of the user's directory when it is to be checked, and
/// `prepared_default` the default directory prepared when none was given. The user's
/// directory is refused when checked and unsafe; the result is always absolute, a
/// relative directory being taken under the current directory.
pub fn working_directory_for(
    args: &NovopsLoadArgs,
    app_name: &str,
    env_name: &str,
    uid: u32,
    metadata: Option<(u32, u32)>,
    prepared_default: Option<String>,
    current_dir: &str,
) -> (r: Result<String, NovopsError>)
    requires
        args.working_directory is Some && !(args.skip_working_directory_check matches Some(true))
            ==> metadata is Some,
        args.working_directory is None ==> prepared_default is Some,
        is_absolute(current_dir@),
    ensures
        match args.working_directory {
            Some(w) => {
                let (mode, owner) = metadata.unwrap();
                if !(args.skip_working_directory_check matches Some(true)) && workdir_permission_error(
                    mode,
                    owner,
                    uid,
                ) is Some {
                    r == Err::<String, NovopsError>(workdir_permission_error(mode, owner, uid)->0)
                } else {
                    r matches Ok(p) && p@ == path_join_spec(current_dir@, w@)
                }
            },
            None => r matches Ok(p) && p@ == path_join_spec(current_dir@, prepared_default->0@),
        },
        r matches Ok(p) ==> is_absolute(p@),
{
    let plan = plan_working_directory(args, app_name, env_name, uid);
    working_directory_from(&plan, metadata, prepared_default, uid, current_dir)
}

pub open spec fn vars_file_name() -> Seq<char> {
    seq!['v', 'a', 'r', 's']
}

/// The context an environment is loaded in, from the arguments, the config, and the
/// application name, environment name and working directory chosen for them. The
/// variable file is `vars` in the working directory.
pub fn make_context(
    args: &NovopsLoadArgs,
    config: NovopsConfigFile,
    app_name: String,
    env_name: String,
    workdir: String,
) -> (r: NovopsContext)
    ensures
        r.env_name == env_name,
        r.app_name == app_name,
        r.workdir == workdir,
        r.config_file_data == config,
        r.env_var_filepath@ == path_join_spec(workdir@, vars_file_name()),
        r.dry_run == (args.dry_run matches Some(true)),
{
    proof {
        reveal_strlit("vars");
        assert("vars"@ =~= vars_file_name());
    }
    let env_var_filepath = path_join(workdir.as_str(), "vars");
    let dry_run = match args.dry_run {
        Some(b) => b,
        None => false,
    };
    NovopsContext { env_name, app_name, workdir, config_file_data: config, env_var_filepath, dry_run }
}

/// Whether loading must stop rather than print secrets on a terminal: when stdout is a
/// terminal, no symlink is asked for, and the check is not skipped.
pub fn should_error_tty(terminal_is_tty: bool, skip_tty_check: bool, symlink: &Option<String>) -> (r: bool)
    ensures
        r == (!skip_tty_check && terminal_is_tty && symlink is None),
{
    if skip_tty_check {
        return false;
    }
    if terminal_is_tty && symlink.is_none() {
        return true;
    }
    false
}

/// What to do at a symlink's path.
#[derive(Debug, Clone, Copy, PartialEq, Eq, Structural)]
pub enum SymlinkAction {
    /// Nothing stands there: create the symlink.
    Create,
    /// A symlink stands there: remove it, then create the new one.
    ReplaceExisting,
}

/// For a file's symlink, given whether something stands at its path and whether that is
/// a symlink: replace an existing symlink, never overwrite anything else.
pub fn file_symlink_action(link: &str, existing_is_symlink: Option<bool>) -> (r: Result<SymlinkAction, NovopsError>)
    ensures
        match existing_is_symlink {
            None => r == Ok::<SymlinkAction, NovopsError>(SymlinkAction::Create),
            Some(true) => r == Ok::<SymlinkAction, NovopsError>(SymlinkAction::ReplaceExisting),
            Some(false) => r matches Err(NovopsError::SymlinkTargetNotSymlink(p)) && p@ == link@,
        },
{
    match existing_is_symlink {
        None => Ok(SymlinkAction::Create),
        Some(true) => Ok(SymlinkAction::ReplaceExisting),
        Some(false) => Err(NovopsError::SymlinkTargetNotSymlink(copy_string(link))),
    }
}

/// For the variable file's symlink, given what stands at its path (whether it is a
/// symlink, and its owner): replace a symlink of the current user, refuse anything else.
pub fn var_file_symlink_action(link: &str, existing: Option<(bool, u32)>, current_uid: u32) -> (r: Result<
    SymlinkAction,
    NovopsError,
>)
    ensures
        match existing {
            None => r == Ok::<SymlinkAction, NovopsError>(SymlinkAction::Create),
            Some((is_symlink, owner)) => if is_symlink && owner == current_uid {
                r == Ok::<SymlinkAction, NovopsError>(SymlinkAction::ReplaceExisting)
            } else {
                r matches Err(NovopsError::SymlinkNotOwned(p)) && p@ == link@
            },
        },
{
    match existing {
        None => Ok(SymlinkAction::Create),
        Some((is_symlink, owner)) => {
            if is_symlink && owner == current_uid {
                Ok(SymlinkAction::ReplaceExisting)
            } else {
                Err(NovopsError::SymlinkNotOwned(copy_string(link)))
            }
        },
    }
}

/// A child process to run in place of this one.
#[derive(Debug)]
pub struct ExecCommand {
    pub program: String,
    pub args: Vec<String>,
    /// Environment variables set for the child, in order.
    pub envs: Vec<(String, String)>,
}

/// The command to run: the first argument is the program, the others its arguments,
/// and each variable is set in its environment.
pub fn prepare_exec_command(command_args: &Vec<String>, variables: &Vec<VariableOutput>) -> (r: ExecCommand)
    requires
        command_args@.len() >= 1,
    ensures
        r.program@ == command_args@[0]@,
        views(r.args@) == views(command_args@).drop_first(),
        r.envs@.len() == variables@.len(),
        forall|i: int| 0 <= i < variables@.len() ==> #[trigger] r.envs@[i].0@ == variables@[i].name@
            && r.envs@[i].1@ == variables@[i].value@,
{
    let program = command_args[0].clone();
    let mut args: Vec<String> = Vec::new();
    let mut i: usize = 1;
    while i < command_args.len()
        invariant
            1 <= i <= command_args@.len(),
            views(args@) == views(command_args@).subrange(1, i as int),
        decreases command_args.len() - i,
    {
        let a = command_args[i].clone();
        let ghost before = args@;
        let ghost aa = a;
        args.push(a);
        proof {
            lemma_views_push(before, aa);
        }
        i = i + 1;
        assert(views(args@) =~= views(command_args@).subrange(1, i as int));
    }
    assert(views(command_args@).subrange(1, i as int) =~= views(command_args@).drop_first());
    let mut envs: Vec<(String, String)> = Vec::new();
    let mut j: usize = 0;
    while j < variables.len()
        invariant
            j <= variables@.len(),
            envs@.len() == j,
            forall|k: int| 0 <= k < j ==> #[trigger] envs@[k].0@ == variables@[k].name@
                && envs@[k].1@ == variables@[k].value@,
        decreases variables.len() - j,
    {
        let ghost before = envs@;
        envs.push((variables[j].name.clone(), variables[j].value.clone()));
        assert forall|k: int| 0 <= k < j + 1 implies #[trigger] envs@[k].0@ == variables@[k].name@
            && envs@[k].1@ == variables@[k].value@ by {
            if k < j {
                assert(envs@[k] == before[k]);
            }
        }
        j = j + 1;
    }
    ExecCommand { program, args, envs }
}

/// The arguments with which `novops list outputs` loads an environment: in dry-run mode,
/// in the default working directory, with the working directory checked.
pub fn list_outputs_args(config: Option<String>, env: Option<String>) -> (r: NovopsLoadArgs)
    ensures
        r.config == config,
        r.env == env,
        r.working_directory is None,
        r.skip_working_directory_check == Some(false),
        r.dry_run == Some(true),
{
    NovopsLoadArgs {
        config,
        env,
        working_directory: None,
        skip_working_directory_check: Some(false),
        dry_run: Some(true),
    }
}

proof fn lemma_views_insert(m: Map<Seq<char>, VariableOutput>, k: Seq<char>, v: VariableOutput)
    ensures
        m.insert(k, v).map_values(|x: VariableOutput| x@) == m.map_values(|x: VariableOutput| x@).insert(k, v@),
{
    assert(m.insert(k, v).map_values(|x: VariableOutput| x@) =~= m.map_values(|x: VariableOutput| x@).insert(k, v@));
}

/// Gathers what the inputs of an environment resolved to: `NOVOPS_ENVIRONMENT` set to
/// the environment's name (so that the config can override it), each variable under its
/// name, and each file under its path, its variable under that path too.
pub fn build_outputs(ctx: NovopsContext, vars: Vec<VariableOutput>, files: Vec<FileOutput>) -> (r: NovopsOutputs)
    ensures
        r.context == ctx,
        r.wf(),
        variable_views(r.variables@) == output_variables(ctx.env_name@, vars@, files@),
        keyed_map(r.files@) == output_files(files@),
{
    proof {
        reveal_strlit("NOVOPS_ENVIRONMENT");
        assert("NOVOPS_ENVIRONMENT"@ =~= environment_key());
    }
    let mut variables: Vec<(String, VariableOutput)> = Vec::new();
    let env_var = VariableOutput {
        name: copy_string("NOVOPS_ENVIRONMENT"),
        value: copy_string(ctx.env_name.as_str()),
        quote_method: None,
    };
    let ghost e = env_var;
    keyed_insert(&mut variables, copy_string("NOVOPS_ENVIRONMENT"), env_var);
    proof {
        assert(keyed_map(Seq::<(String, VariableOutput)>::empty()) =~= Map::empty());
        lemma_views_insert(Map::empty(), environment_key(), e);
        assert(Map::<Seq<char>, VariableOutput>::empty().map_values(|x: VariableOutput| x@) =~= Map::empty());
        assert(variable_views(variables@) == base_variables(ctx.env_name@));
    }
    let ghost orig_vars = vars@;
    let ghost mut k: int = 0;
    let mut vars = vars;
    assert(vars@.skip(0) =~= vars@);
    assert(orig_vars.take(0) =~= Seq::<VariableOutput>::empty());
    while vars.len() > 0
        invariant
            0 <= k <= orig_vars.len(),
            vars@ == orig_vars.skip(k),
            unique_keys(variables@),
            variable_views(variables@) == with_variables(base_variables(ctx.env_name@), orig_vars.take(k)),
        decreases vars.len(),
    {
        let v = vars.remove(0);
        let key = v.name.clone();
        let ghost before = keyed_map(variables@);
        let ghost vv = v;
        keyed_insert(&mut variables, key, v);
        proof {
            lemma_views_insert(before, vv.name@, vv);
            assert(orig_vars.take(k + 1).drop_last() =~= orig_vars.take(k));
            assert(orig_vars[k] == vv);
            k = k + 1;
            assert(orig_vars.skip(k) =~= vars@);
        }
    }
    assert(orig_vars.take(k) =~= orig_vars);
    let mut out_files: Vec<(String, FileOutput)> = Vec::new();
    let ghost orig_files = files@;
    let ghost mut n: int = 0;
    let mut files = files;
    assert(files@.skip(0) =~= files@);
    assert(orig_files.take(0) =~= Seq::<FileOutput>::empty());
    assert(keyed_map(out_files@) =~= output_files(orig_files.take(0)));
    while files.len() > 0
        invariant
            0 <= n <= orig_files.len(),
            files@ == orig_files.skip(n),
            unique_keys(variables@),
            unique_keys(out_files@),
            variable_views(variables@) == with_file_variables(
                with_variables(base_variables(ctx.env_name@), orig_vars),
                orig_files.take(n),
            ),
            keyed_map(out_files@) == output_files(orig_files.take(n)),
        decreases files.len(),
    {
        let f = files.remove(0);
        let var_key = f.dest.clone();
        let file_key = f.dest.clone();
        let file_var = f.variable.duplicate();
        let ghost before = keyed_map(variables@);
        let ghost ff = f;
        keyed_insert(&mut variables, var_key, file_var);
        keyed_insert(&mut out_files, file_key, f);
        proof {
            lemma_views_insert(before, ff.dest@, ff.variable);
            assert(orig_files.take(n + 1).drop_last() =~= orig_files.take(n));
            assert(orig_files[n] == ff);
            n = n + 1;
            assert(orig_files.skip(n) =~= files@);
        }
    }
    assert(orig_files.take(n) =~= orig_files);
    NovopsOutputs { context: ctx, variables, files: out_files }
}

proof fn lemma_with_variables_keeps(m: Map<Seq<char>, VariableView>, vars: Seq<VariableOutput>, k: Seq<char>)
    requires
        forall|i: int| 0 <= i < vars.len() ==> #[trigger] vars[i].name@ != k,
    ensures
        with_variables(m, vars).contains_key(k) == m.contains_key(k),
        m.contains_key(k) ==> with_variables(m, vars)[k] == m[k],
    decreases vars.len(),
{
    if vars.len() > 0 {
        assert(vars.last().name@ != k);
        lemma_with_variables_keeps(m, vars.drop_last(), k);
    }
}

proof fn lemma_with_variables_last(m: Map<Seq<char>, VariableView>, vars: Seq<VariableOutput>, i: int)
    requires
        0 <= i < vars.len(),
        forall|j: int| i < j < vars.len() ==> #[trigger] vars[j].name@ != vars[i].name@,
    ensures
        with_variables(m, vars).contains_key(vars[i].name@),
        with_variables(m, vars)[vars[i].name@] == vars[i]@,
    decreases vars.len(),
{
    if i < vars.len() - 1 {
        assert(vars.last().name@ != vars[i].name@);
        lemma_with_variables_last(m, vars.drop_last(), i);
    }
}

proof fn lemma_with_file_variables_keeps(m: Map<Seq<char>, VariableView>, files: Seq<FileOutput>, k: Seq<char>)
    requires
        forall|i: int| 0 <= i < files.len() ==> #[trigger] files[i].dest@ != k,
    ensures
        with_file_variables(m, files).contains_key(k) == m.contains_key(k),
        m.contains_key(k) ==> with_file_variables(m, files)[k] == m[k],
    decreases files.len(),
{
    if files.len() > 0 {
        assert(files.last().dest@ != k);
        lemma_with_file_variables_keeps(m, files.drop_last(), k);
    }
}

proof fn lemma_with_file_variables_last(m: Map<Seq<char>, VariableView>, files: Seq<FileOutput>, i: int)
    requires
        0 <= i < files.len(),
        forall|j: int| i < j < files.len() ==> #[trigger] files[j].dest@ != files[i].dest@,
    ensures
        with_file_variables(m, files).contains_key(files[i].dest@),
        with_file_variables(m, files)[files[i].dest@] == files[i].variable@,
        output_files(files).contains_key(files[i].dest@),
        output_files(files)[files[i].dest@] == files[i],
    decreases files.len(),
{
    if i < files.len() - 1 {
        assert(files.last().dest@ != files[i].dest@);
        lemma_with_file_variables_last(m, files.drop_last(), i);
    }
}

/// Unless an input sets `NOVOPS_ENVIRONMENT` itself, loading sets it to the name of the
/// loaded environment.
pub proof fn lemma_environment_name_exposed(env_name: Seq<char>, vars: Seq<VariableOutput>, files: Seq<FileOutput>)
    requires
        forall|i: int| 0 <= i < vars.len() ==> #[trigger] vars[i].name@ != environment_key(),
        forall|i: int| 0 <= i < files.len() ==> #[trigger] files[i].dest@ != environment_key(),
    ensures
        output_variables(env_name, vars, files).contains_key(environment_key()),
        output_variables(env_name, vars, files)[environment_key()] == (environment_key(), env_name, None::<Seq<char>>),
{
    lemma_with_variables_keeps(base_variables(env_name), vars, environment_key());
    lemma_with_file_variables_keeps(with_variables(base_variables(env_name), vars), files, environment_key());
}

/// A variable of the config is loaded as it resolved, overriding `NOVOPS_ENVIRONMENT`
/// and any earlier variable of the same name, unless a later variable or a file's path
/// takes the same name.
pub proof fn lemma_variable_overrides_earlier(env_name: Seq<char>, vars: Seq<VariableOutput>, files: Seq<FileOutput>, i: int)
    requires
        0 <= i < vars.len(),
        forall|j: int| i < j < vars.len() ==> #[trigger] vars[j].name@ != vars[i].name@,
        forall|j: int| 0 <= j < files.len() ==> #[trigger] files[j].dest@ != vars[i].name@,
    ensures
        output_variables(env_name, vars, files).contains_key(vars[i].name@),
        output_variables(env_name, vars, files)[vars[i].name@] == vars[i]@,
{
    lemma_with_variables_last(base_variables(env_name), vars, i);
    lemma_with_file_variables_keeps(with_variables(base_variables(env_name), vars), files, vars[i].name@);
}

/// Each file is loaded under its path, and its variable under the same path, unless a
/// later file has the same path.
pub proof fn lemma_file_exposed(env_name: Seq<char>, vars: Seq<VariableOutput>, files: Seq<FileOutput>, i: int)
    requires
        0 <= i < files.len(),
        forall|j: int| i < j < files.len() ==> #[trigger] files[j].dest@ != files[i].dest@,
    ensures
        output_files(files).contains_key(files[i].dest@),
        output_files(files)[files[i].dest@] == files[i],
        output_variables(env_name, vars, files).contains_key(files[i].dest@),
        output_variables(env_name, vars, files)[files[i].dest@] == files[i].variable@,
{
    lemma_with_file_variables_last(with_variables(base_variables(env_name), vars), files, i);
}

proof fn lemma_with_variables_from(m: Map<Seq<char>, VariableView>, vars: Seq<VariableOutput>, k: Seq<char>)
    requires
        with_variables(m, vars).contains_key(k),
    ensures
        m.contains_key(k) || exists|i: int| 0 <= i < vars.len() && #[trigger] vars[i].name@ == k,
    decreases vars.len(),
{
    if vars.len() > 0 && vars.last().name@ != k {
        lemma_with_variables_from(m, vars.drop_last(), k);
        if !m.contains_key(k) {
            let i = choose|i: int| 0 <= i < vars.drop_last().len() && #[trigger] vars.drop_last()[i].name@ == k;
            assert(vars[i] == vars.drop_last()[i]);
        }
    } else if vars.len() > 0 {
        assert(vars[vars.len() - 1].name@ == k);
    }
}

proof fn lemma_with_file_variables_from(m: Map<Seq<char>, VariableView>, files: Seq<FileOutput>, k: Seq<char>)
    requires
        with_file_variables(m, files).contains_key(k),
    ensures
        m.contains_key(k) || exists|i: int| 0 <= i < files.len() && #[trigger] files[i].dest@ == k,
    decreases files.len(),
{
    if files.len() > 0 && files.last().dest@ != k {
        lemma_with_file_variables_from(m, files.drop_last(), k);
        if !m.contains_key(k) {
            let i = choose|i: int| 0 <= i < files.drop_last().len() && #[trigger] files.drop_last()[i].dest@ == k;
            assert(files[i] == files.drop_last()[i]);
        }
    } else if files.len() > 0 {
        assert(files[files.len() - 1].dest@ == k);
    }
}

/// Loading sets no other variable than `NOVOPS_ENVIRONMENT`, the variables of the inputs
/// and the variables of the files (under the files' paths).
pub proof fn lemma_no_other_variable(env_name: Seq<char>, vars: Seq<VariableOutput>, files: Seq<FileOutput>, k: Seq<char>)
    requires
        output_variables(env_name, vars, files).contains_key(k),
    ensures
        k == "NOVOPS_ENVIRONMENT"@ || (exists|i: int| 0 <= i < vars.len() && #[trigger] vars[i].name@ == k) || (exists|
            i: int,
        | 0 <= i < files.len() && #[trigger] files[i].dest@ == k),
{
    reveal_strlit("NOVOPS_ENVIRONMENT");
    assert(environment_key() =~= "NOVOPS_ENVIRONMENT"@);
    lemma_with_file_variables_from(with_variables(base_variables(env_name), vars), files, k);
    if with_variables(base_variables(env_name), vars).contains_key(k) {
        lemma_with_variables_from(base_variables(env_name), vars, k);
    }
}

/// The fixed words this module writes and matches, spelled out as text.
pub proof fn lemma_load_words()
    ensures
        environment_key() == "NOVOPS_ENVIRONMENT"@,
        yaml_config_name() == ".novops.yaml"@,
        yml_config_name() == ".novops.yml"@,
        root_name() == "root"@,
        novops_dir_name() == "novops"@,
        tmp_novops_dir() == "/tmp/novops/"@,
        vars_file_name() == "vars"@,
{
    reveal_strlit("NOVOPS_ENVIRONMENT");
    reveal_strlit(".novops.yaml");
    reveal_strlit(".novops.yml");
    reveal_strlit("root");
    reveal_strlit("novops");
    reveal_strlit("/tmp/novops/");
    reveal_strlit("vars");
    assert(environment_key() =~= "NOVOPS_ENVIRONMENT"@);
    assert(yaml_config_name() =~= ".novops.yaml"@);
    assert(yml_config_name() =~= ".novops.yml"@);
    assert(root_name() =~= "root"@);
    assert(novops_dir_name() =~= "novops"@);
    assert(tmp_novops_dir() =~= "/tmp/novops/"@);
    assert(vars_file_name() =~= "vars"@);
}

} // verus!
