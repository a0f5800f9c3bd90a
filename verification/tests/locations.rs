use vuv::errors::VuvError;
use vuv::locations::{resolve, Platform};

fn s(v: &str) -> Option<String> {
    Some(v.to_string())
}

#[test]
fn override_wins_posix() {
    let r = resolve(Platform::Posix, s("/custom/envs"), s("/custom/cfg"), None, s("/home/u"))
        .unwrap();
    assert_eq!(r.venv_dir, "/custom/envs");
    assert_eq!(r.config_dir, "/custom/cfg");
    assert_eq!(r.config_file, "/custom/cfg/vuv_config");
}

#[test]
fn override_wins_windows() {
    let r = resolve(
        Platform::Windows,
        s("C:\\envs"),
        s("C:\\cfg"),
        s("C:\\Users\\u\\AppData\\Roaming"),
        None,
    )
    .unwrap();
    assert_eq!(r.venv_dir, "C:\\envs");
    assert_eq!(r.config_dir, "C:\\cfg");
    assert_eq!(r.config_file, "C:\\cfg\\vuv_config");
}

#[test]
fn override_wins_without_base() {
    // The override is taken verbatim even when no base directory is known.
    let r = resolve(Platform::Posix, s("/custom/envs"), s("/custom/cfg"), None, None).unwrap();
    assert_eq!(r.venv_dir, "/custom/envs");
    assert_eq!(r.config_dir, "/custom/cfg");
}

#[test]
fn fallback_posix_home() {
    let r = resolve(Platform::Posix, None, None, None, s("/home/u")).unwrap();
    assert_eq!(r.venv_dir, "/home/u/.venvs");
    assert_eq!(r.config_dir, "/home/u/.vuv");
    assert_eq!(r.config_file, "/home/u/.vuv/vuv_config");
}

#[test]
fn fallback_windows_appdata() {
    let r = resolve(Platform::Windows, None, None, s("C:\\Users\\u\\AppData\\Roaming"), None)
        .unwrap();
    assert_eq!(r.venv_dir, "C:\\Users\\u\\AppData\\Roaming\\.venvs");
    assert_eq!(r.config_dir, "C:\\Users\\u\\AppData\\Roaming\\.vuv");
    assert_eq!(r.config_file, "C:\\Users\\u\\AppData\\Roaming\\.vuv\\vuv_config");
}

#[test]
fn fallback_is_deterministic_across_calls() {
    let a = resolve(Platform::Posix, None, None, None, s("/home/u")).unwrap();
    let b = resolve(Platform::Posix, None, None, None, s("/home/u")).unwrap();
    assert_eq!(a.venv_dir, b.venv_dir);
    assert_eq!(a.config_dir, b.config_dir);
    assert_eq!(a.config_file, b.config_file);
}

#[test]
fn resolve_fails_without_base_posix() {
    let e = resolve(Platform::Posix, None, None, s("C:\\ignored"), None).unwrap_err();
    assert!(matches!(e, VuvError::LocationResolution(Platform::Posix)));
    assert_eq!(e.message(), "Could not find home directory");
}

#[test]
fn resolve_fails_without_base_windows() {
    // On Windows only the application-data input counts; a home directory
    // does not help.
    let e = resolve(Platform::Windows, None, None, None, s("/home/u")).unwrap_err();
    assert!(matches!(e, VuvError::LocationResolution(Platform::Windows)));
    assert_eq!(e.message(), "Could not find APPDATA directory");
}

#[test]
fn resolve_fails_when_only_one_dir_is_resolvable() {
    // A store override alone does not save the configuration directory.
    let e = resolve(Platform::Posix, s("/custom/envs"), None, None, None).unwrap_err();
    assert!(matches!(e, VuvError::LocationResolution(Platform::Posix)));
}

#[test]
fn join_path_uses_platform_separator() {
    assert_eq!(vuv::locations::join_path("/a/b", Platform::Posix, "c"), "/a/b/c");
    assert_eq!(vuv::locations::join_path("C:\\a", Platform::Windows, "c"), "C:\\a\\c");
}
