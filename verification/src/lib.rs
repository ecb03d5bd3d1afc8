//! Novops: configuration-driven loading of secrets and variables into an environment.
pub mod error;
pub mod export;
pub mod keyed;
pub mod listing;
pub mod load;
pub mod modules;
pub mod novops_core;
pub mod order;
pub mod resolve;
pub mod text;

pub use export::{format_variable_outputs, prepare_variable_outputs, wrap_var_output_in_quotes};
pub use load::{
    check_working_dir_permissions, get_config_file_path, get_current_environment, list_environments_from_config,
    make_context, prepare_exec_command, read_environment_name, should_error_tty, NovopsLoadArgs, NovopsOutputs,
};
