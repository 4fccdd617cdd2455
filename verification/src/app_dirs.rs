//! The convenience bundle: every base directory of one application, each
//! resolved from the same environment snapshot and joined with the
//! application's name.

use vstd::prelude::*;

use crate::dirs::{get_cache_home_from_env, get_config_dirs_from_env, get_config_home_from_env,
    get_data_dirs_from_env, get_data_home_from_env, get_runtime_dir_from_env};
use crate::env_path::{spec_env_path, spec_resolve_home_style, spec_resolve_search_path,
    view_path_list};
use crate::environment::Env;
use crate::error::XdgError;
use crate::paths::{join_path, path_join, path_join_all};

verus! {

/// The base directories of one application: one resolved path (or path
/// list, or optional path for the runtime directory) per directory kind,
/// each with the application's name as its final segment.
pub struct AppDirs {
    pub data_home: String,
    pub data_dirs: Vec<String>,
    pub config_home: String,
    pub config_dirs: Vec<String>,
    pub cache_home: String,
    pub runtime_dir: Option<String>,
}

impl AppDirs {
    /// Resolve every base directory of the application `app_name` from the
    /// snapshot `env` and join each with `app_name`. Fails with
    /// `NoHomeDir` exactly when one of the three home-style resolutions
    /// does; the search-path lists and the runtime directory never fail.
    pub fn new(app_name: &str, env: &Env) -> (r: Result<AppDirs, XdgError>)
        ensures
            r is Ok <==> {
                &&& spec_resolve_home_style(*env, "XDG_DATA_HOME"@, ".local/share"@) is Ok
                &&& spec_resolve_home_style(*env, "XDG_CONFIG_HOME"@, ".config"@) is Ok
                &&& spec_resolve_home_style(*env, "XDG_CACHE_HOME"@, ".cache"@) is Ok
            },
            r matches Err(e) ==> e == XdgError::NoHomeDir,
            r matches Ok(d) ==> {
                &&& spec_resolve_home_style(*env, "XDG_DATA_HOME"@, ".local/share"@)
                    matches Ok(p) && d.data_home@ == join_path(p, app_name@)
                &&& spec_resolve_home_style(*env, "XDG_CONFIG_HOME"@, ".config"@)
                    matches Ok(p) && d.config_home@ == join_path(p, app_name@)
                &&& spec_resolve_home_style(*env, "XDG_CACHE_HOME"@, ".cache"@)
                    matches Ok(p) && d.cache_home@ == join_path(p, app_name@)
                &&& view_path_list(d.data_dirs@) == spec_resolve_search_path(
                    *env,
                    "XDG_DATA_DIRS"@,
                    "/usr/local/share:/usr/share"@,
                ).map_values(|p: Seq<char>| join_path(p, app_name@))
                &&& view_path_list(d.config_dirs@) == spec_resolve_search_path(
                    *env,
                    "XDG_CONFIG_DIRS"@,
                    "/etc/xdg"@,
                ).map_values(|p: Seq<char>| join_path(p, app_name@))
                &&& (match spec_env_path(*env, "XDG_RUNTIME_DIR"@) {
                    Some(p) => d.runtime_dir matches Some(q) && q@ == join_path(p, app_name@),
                    None => d.runtime_dir is None,
                })
            },
    {
        let data_home = match get_data_home_from_env(env) {
            Ok(p) => p,
            Err(e) => { return Err(e) },
        };
        let config_home = match get_config_home_from_env(env) {
            Ok(p) => p,
            Err(e) => { return Err(e) },
        };
        let cache_home = match get_cache_home_from_env(env) {
            Ok(p) => p,
            Err(e) => { return Err(e) },
        };
        let data_dirs = get_data_dirs_from_env(env);
        let config_dirs = get_config_dirs_from_env(env);
        let runtime_dir = get_runtime_dir_from_env(env);
        Ok(
            AppDirs {
                data_home: path_join(data_home.as_str(), app_name),
                data_dirs: path_join_all(&data_dirs, app_name),
                config_home: path_join(config_home.as_str(), app_name),
                config_dirs: path_join_all(&config_dirs, app_name),
                cache_home: path_join(cache_home.as_str(), app_name),
                runtime_dir: match runtime_dir {
                    Some(p) => Some(path_join(p.as_str(), app_name)),
                    None => None,
                },
            },
        )
    }
}

} // verus!
