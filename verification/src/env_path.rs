//! The two resolution rules of the base-directory specification.
//!
//! A home-style variable yields its value only when that value is set,
//! non-empty and absolute; anything else falls back to a suffix under the
//! home directory, and without a home directory the resolution fails. A
//! search-path variable yields its value split on `:` whenever the value is
//! set and non-empty; anything else yields the split default. The two
//! fallback conditions differ on purpose: a set-but-relative search-path
//! value is split as it stands, while a set-but-relative home-style value is
//! ignored.

use vstd::prelude::*;

use crate::environment::Env;
use crate::error::XdgError;
use crate::paths::{is_absolute_path, join_path, path_is_absolute, path_join, split_path_list,
    split_path_string};

verus! {

/// The value a home-style variable contributes: its value when set and
/// absolute, and nothing otherwise. An empty value is not absolute, so it
/// contributes nothing.
pub open spec fn spec_env_path(env: Env, name: Seq<char>) -> Option<Seq<char>> {
    match env.lookup(name) {
        Some(v) => if is_absolute_path(v) {
            Some(v)
        } else {
            None
        },
        None => None,
    }
}

/// Home-style resolution: the variable's absolute value if it has one, else
/// `default_suffix` joined under the home directory, else `NoHomeDir`.
pub open spec fn spec_resolve_home_style(env: Env, name: Seq<char>, default_suffix: Seq<char>) -> Result<
    Seq<char>,
    XdgError,
> {
    match spec_env_path(env, name) {
        Some(p) => Ok(p),
        None => match env.home_view() {
            Some(h) => Ok(join_path(h, default_suffix)),
            None => Err(XdgError::NoHomeDir),
        },
    }
}

/// Search-path resolution: the variable's value when set and non-empty,
/// else `default`, split on `:` in either case.
pub open spec fn spec_resolve_search_path(env: Env, name: Seq<char>, default: Seq<char>) -> Seq<
    Seq<char>,
> {
    match env.lookup(name) {
        Some(v) => if v.len() > 0 {
            split_path_list(v)
        } else {
            split_path_list(default)
        },
        None => split_path_list(default),
    }
}

/// The model of an optional owned path.
pub open spec fn view_opt_path(o: Option<String>) -> Option<Seq<char>> {
    match o {
        Some(p) => Some(p@),
        None => None,
    }
}

/// The model of a resolved owned path, errors unchanged.
pub open spec fn view_path_result(r: Result<String, XdgError>) -> Result<Seq<char>, XdgError> {
    match r {
        Ok(p) => Ok(p@),
        Err(e) => Err(e),
    }
}

/// The model of a list of owned paths.
pub open spec fn view_path_list(v: Seq<String>) -> Seq<Seq<char>> {
    v.map_values(|p: String| p@)
}

/// An unset home-style variable falls back: resolution returns exactly the
/// default suffix joined under the home directory, and fails with
/// `NoHomeDir` only when there is no home directory either.
pub proof fn lemma_home_style_unset(env: Env, name: Seq<char>, default_suffix: Seq<char>)
    requires
        env.lookup(name) is None,
    ensures
        env.home_view() matches Some(h) ==> spec_resolve_home_style(env, name, default_suffix)
            == Ok::<Seq<char>, XdgError>(join_path(h, default_suffix)),
        env.home_view() is None ==> spec_resolve_home_style(env, name, default_suffix)
            == Err::<Seq<char>, XdgError>(XdgError::NoHomeDir),
{
}

/// A home-style variable set to a relative (or empty) path behaves exactly
/// as if it were unset: resolution agrees with any environment that has the
/// same home directory and the variable unset.
pub proof fn lemma_home_style_relative_like_unset(
    env: Env,
    unset_env: Env,
    name: Seq<char>,
    default_suffix: Seq<char>,
)
    requires
        env.lookup(name) matches Some(v) && !is_absolute_path(v),
        unset_env.lookup(name) is None,
        unset_env.home_view() == env.home_view(),
    ensures
        spec_resolve_home_style(env, name, default_suffix) == spec_resolve_home_style(
            unset_env,
            name,
            default_suffix,
        ),
{
}

/// A home-style variable set to an absolute path is honoured: resolution
/// returns exactly that path, unmodified, whatever the home directory.
pub proof fn lemma_home_style_absolute(env: Env, name: Seq<char>, default_suffix: Seq<char>)
    requires
        env.lookup(name) matches Some(v) && is_absolute_path(v),
    ensures
        env.lookup(name) matches Some(v) && spec_resolve_home_style(env, name, default_suffix)
            == Ok::<Seq<char>, XdgError>(v),
{
}

/// A search-path variable that is unset or set to the empty string
/// resolves to the split default list, order preserved.
pub proof fn lemma_search_path_default(env: Env, name: Seq<char>, default: Seq<char>)
    requires
        match env.lookup(name) {
            Some(v) => v.len() == 0,
            None => true,
        },
    ensures
        spec_resolve_search_path(env, name, default) == split_path_list(default),
{
}

/// A search-path variable set to a non-empty string resolves to that
/// string's segments, in the order they appear, with no filtering and no
/// deduplication.
pub proof fn lemma_search_path_set(env: Env, name: Seq<char>, default: Seq<char>)
    requires
        env.lookup(name) matches Some(v) && v.len() > 0,
    ensures
        env.lookup(name) matches Some(v) && spec_resolve_search_path(env, name, default)
            == split_path_list(v),
{
}

/// A home-style variable that is unset, empty or relative contributes no
/// value at all. For the runtime directory, which has no default and no
/// home fallback, this is the "not set" outcome: never an error, never a
/// fallback path.
pub proof fn lemma_env_path_not_set(env: Env, name: Seq<char>)
    requires
        match env.lookup(name) {
            Some(v) => !is_absolute_path(v),
            None => true,
        },
    ensures
        spec_env_path(env, name) is None,
{
}

/// The variable `env_var`'s value as a path, honoured only when absolute.
pub fn get_env_path(env: &Env, env_var: &str) -> (r: Option<String>)
    ensures
        view_opt_path(r) == spec_env_path(*env, env_var@),
{
    match env.get(env_var) {
        Some(v) => {
            if path_is_absolute(v.as_str()) {
                Some(v)
            } else {
                None
            }
        },
        None => None,
    }
}

/// The variable's absolute value, or `default` joined under the home
/// directory, or `NoHomeDir` when neither is available.
pub fn get_env_path_or_default(env: &Env, env_var: &str, default: &str) -> (r: Result<
    String,
    XdgError,
>)
    ensures
        view_path_result(r) == spec_resolve_home_style(*env, env_var@, default@),
{
    match get_env_path(env, env_var) {
        Some(p) => Ok(p),
        None => match &env.home {
            Some(h) => Ok(path_join(h.as_str(), default)),
            None => Err(XdgError::NoHomeDir),
        },
    }
}

/// The variable's value split on `:` when set and non-empty, else the split
/// `default`. Never fails.
pub fn get_env_paths_or_default(env: &Env, env_var: &str, default: &str) -> (r: Vec<String>)
    ensures
        view_path_list(r@) == spec_resolve_search_path(*env, env_var@, default@),
{
    match env.get(env_var) {
        Some(v) => {
            if v.as_str().unicode_len() > 0 {
                split_path_string(v.as_str())
            } else {
                split_path_string(default)
            }
        },
        None => split_path_string(default),
    }
}

} // verus!
