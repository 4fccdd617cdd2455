//! Resolution of the XDG base directories (data, config, cache and runtime)
//! from an environment snapshot, following the freedesktop.org base-directory
//! specification, together with the ownership and permission checks that the
//! specification demands of the runtime directory.

pub mod app_dirs;
pub mod dirs;
pub mod env_path;
pub mod environment;
pub mod error;
pub mod paths;
pub mod runtime;
