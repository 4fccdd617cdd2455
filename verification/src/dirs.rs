//! One resolver per base directory, each a fixed instance of the two
//! resolution rules: the variable it reads and the default it falls back to
//! are those the base-directory specification assigns to that directory.

use vstd::prelude::*;

use crate::env_path::{get_env_path, get_env_path_or_default, get_env_paths_or_default,
    spec_env_path, spec_resolve_home_style, spec_resolve_search_path, view_opt_path,
    view_path_list, view_path_result};
use crate::environment::Env;
use crate::error::XdgError;

verus! {

/// The data home: `$XDG_DATA_HOME`, with `$HOME/.local/share` as default.
pub fn get_data_home_from_env(env: &Env) -> (r: Result<String, XdgError>)
    ensures
        view_path_result(r) == spec_resolve_home_style(*env, "XDG_DATA_HOME"@, ".local/share"@),
{
    get_env_path_or_default(env, "XDG_DATA_HOME", ".local/share")
}

/// The data search path: `$XDG_DATA_DIRS`, with
/// `/usr/local/share:/usr/share` as default.
pub fn get_data_dirs_from_env(env: &Env) -> (r: Vec<String>)
    ensures
        view_path_list(r@) == spec_resolve_search_path(
            *env,
            "XDG_DATA_DIRS"@,
            "/usr/local/share:/usr/share"@,
        ),
{
    get_env_paths_or_default(env, "XDG_DATA_DIRS", "/usr/local/share:/usr/share")
}

/// The config home: `$XDG_CONFIG_HOME`, with `$HOME/.config` as default.
pub fn get_config_home_from_env(env: &Env) -> (r: Result<String, XdgError>)
    ensures
        view_path_result(r) == spec_resolve_home_style(*env, "XDG_CONFIG_HOME"@, ".config"@),
{
    get_env_path_or_default(env, "XDG_CONFIG_HOME", ".config")
}

/// The config search path: `$XDG_CONFIG_DIRS`, with `/etc/xdg` as default.
pub fn get_config_dirs_from_env(env: &Env) -> (r: Vec<String>)
    ensures
        view_path_list(r@) == spec_resolve_search_path(*env, "XDG_CONFIG_DIRS"@, "/etc/xdg"@),
{
    get_env_paths_or_default(env, "XDG_CONFIG_DIRS", "/etc/xdg")
}

/// The cache home: `$XDG_CACHE_HOME`, with `$HOME/.cache` as default.
pub fn get_cache_home_from_env(env: &Env) -> (r: Result<String, XdgError>)
    ensures
        view_path_result(r) == spec_resolve_home_style(*env, "XDG_CACHE_HOME"@, ".cache"@),
{
    get_env_path_or_default(env, "XDG_CACHE_HOME", ".cache")
}

/// The runtime directory: `$XDG_RUNTIME_DIR` when set to an absolute path,
/// and `None` otherwise. There is no default and no home fallback: an
/// unset, empty or relative value is the caller-handled "not set" outcome,
/// never an error.
pub fn get_runtime_dir_from_env(env: &Env) -> (r: Option<String>)
    ensures
        view_opt_path(r) == spec_env_path(*env, "XDG_RUNTIME_DIR"@),
{
    get_env_path(env, "XDG_RUNTIME_DIR")
}

} // verus!
