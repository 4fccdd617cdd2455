use xdg_basedir::app_dirs::AppDirs;
use xdg_basedir::environment::Env;
use xdg_basedir::error::XdgError;
use xdg_basedir::paths::{path_is_absolute, path_join, path_join_all, split_path_string};
use xdg_basedir::runtime::{check_owner, check_permissions, validate_runtime_dir, RuntimeDirMeta};

#[test]
fn path_absoluteness() {
    assert!(path_is_absolute("/"));
    assert!(path_is_absolute("/usr/share"));
    assert!(!path_is_absolute(""));
    assert!(!path_is_absolute("usr/share"));
}

#[test]
fn path_join_inserts_one_separator() {
    assert_eq!(path_join("/home/test", ".config"), "/home/test/.config");
    assert_eq!(path_join("/home/test/", ".config"), "/home/test/.config");
    assert_eq!(path_join("/", ".config"), "/.config");
    assert_eq!(path_join("/base", "/absolute"), "/absolute");
    assert_eq!(path_join("", "rel"), "rel");
}

#[test]
fn split_keeps_order_and_empty_segments() {
    assert_eq!(split_path_string(""), Vec::<String>::new());
    assert_eq!(split_path_string("/one"), vec!["/one".to_string()]);
    assert_eq!(
        split_path_string("/a::/b"),
        vec!["/a".to_string(), "".to_string(), "/b".to_string()]
    );
    assert_eq!(split_path_string("/a:"), vec!["/a".to_string(), "".to_string()]);
    assert_eq!(
        split_path_string("/x:/x"),
        vec!["/x".to_string(), "/x".to_string()]
    );
}

#[test]
fn join_each_path_with_suffix() {
    let dirs = vec!["/usr/local/share".to_string(), "/usr/share".to_string()];
    assert_eq!(
        path_join_all(&dirs, "myapp"),
        vec!["/usr/local/share/myapp".to_string(), "/usr/share/myapp".to_string()]
    );
}

#[test]
fn validator_accepts_correct_mode_and_owner() {
    let meta = RuntimeDirMeta { mode: 0o700, owner_uid: 1000 };
    assert_eq!(validate_runtime_dir(Some(meta), 1000), Ok(()));
}

#[test]
fn validator_rejects_other_modes() {
    let meta = RuntimeDirMeta { mode: 0o755, owner_uid: 1000 };
    assert_eq!(
        validate_runtime_dir(Some(meta), 1000),
        Err(XdgError::IncorrectPermissions)
    );
    let meta = RuntimeDirMeta { mode: 0o770, owner_uid: 1000 };
    assert_eq!(
        validate_runtime_dir(Some(meta), 1000),
        Err(XdgError::IncorrectPermissions)
    );
    let meta = RuntimeDirMeta { mode: 0o600, owner_uid: 1000 };
    assert_eq!(
        validate_runtime_dir(Some(meta), 1000),
        Err(XdgError::IncorrectPermissions)
    );
}

#[test]
fn validator_rejects_foreign_owner() {
    let meta = RuntimeDirMeta { mode: 0o700, owner_uid: 0 };
    assert_eq!(
        validate_runtime_dir(Some(meta), 1000),
        Err(XdgError::IncorrectOwner)
    );
}

#[test]
fn validator_missing_metadata_is_io_error() {
    assert_eq!(validate_runtime_dir(None, 1000), Err(XdgError::Io));
}

#[test]
fn permission_and_owner_checks_alone() {
    assert_eq!(check_permissions(0o700), Ok(()));
    assert_eq!(check_permissions(0o777), Err(XdgError::IncorrectPermissions));
    assert_eq!(check_owner(42, 42), Ok(()));
    assert_eq!(check_owner(42, 43), Err(XdgError::IncorrectOwner));
}

#[test]
fn app_dirs_joins_app_name_everywhere() {
    let mut env = Env::new(Some("/home/alice".to_string()));
    env.set("XDG_RUNTIME_DIR".to_string(), "/run/user/1000".to_string());
    let dirs = AppDirs::new("myapp", &env).unwrap();
    assert_eq!(dirs.data_home, "/home/alice/.local/share/myapp");
    assert_eq!(
        dirs.data_dirs,
        vec!["/usr/local/share/myapp".to_string(), "/usr/share/myapp".to_string()]
    );
    assert_eq!(dirs.config_home, "/home/alice/.config/myapp");
    assert_eq!(dirs.config_dirs, vec!["/etc/xdg/myapp".to_string()]);
    assert_eq!(dirs.cache_home, "/home/alice/.cache/myapp");
    assert_eq!(dirs.runtime_dir, Some("/run/user/1000/myapp".to_string()));
}

#[test]
fn app_dirs_without_home_fails() {
    let env = Env::new(None);
    assert!(matches!(AppDirs::new("myapp", &env), Err(XdgError::NoHomeDir)));
}

#[test]
fn app_dirs_runtime_dir_absent() {
    let env = Env::new(Some("/home/alice".to_string()));
    let dirs = AppDirs::new("myapp", &env).unwrap();
    assert_eq!(dirs.runtime_dir, None);
}
