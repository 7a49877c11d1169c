use lightningd::downloaded_exe_path;
use lightningd::resolve_exe_path;
use lightningd::Conf;
use lightningd::Error;

#[test]
fn downloaded_exe_path_is_not_provisioned() {
    let r = downloaded_exe_path();
    assert!(matches!(r, Err(Error::NoFeature)));
}

#[test]
fn override_setting_has_highest_precedence() {
    let r = resolve_exe_path(
        Some("/opt/bin/lightningd".to_string()),
        Some("/downloads/lightningd".to_string()),
        Some("/usr/bin/lightningd".to_string()),
    );
    assert_eq!(r.unwrap(), "/opt/bin/lightningd".to_string());
}

#[test]
fn downloaded_beats_search_path() {
    let r = resolve_exe_path(
        None,
        Some("/downloads/lightningd".to_string()),
        Some("/usr/bin/lightningd".to_string()),
    );
    assert_eq!(r.unwrap(), "/downloads/lightningd".to_string());
}

#[test]
fn search_path_is_last_resort() {
    let r = resolve_exe_path(None, None, Some("/usr/bin/lightningd".to_string()));
    assert_eq!(r.unwrap(), "/usr/bin/lightningd".to_string());
}

#[test]
fn no_source_at_all_fails() {
    let r = resolve_exe_path(None, None, None);
    assert!(matches!(r, Err(Error::NoLightningdExecutableFound)));
}

#[test]
fn conf_default_values() {
    let mut conf = Conf::default();
    conf.args = vec!["--regtest"];
    conf.view_stdout = false;
    conf.network = "regtest";
    conf.tmpdir = None;
    conf.staticdir = None;
    conf.attempts = 3;
    assert_eq!(conf, Conf::default());
}

#[test]
fn error_messages_are_specific() {
    assert_eq!(
        Error::BothDirsSpecified.message(),
        "tempdir and staticdir cannot be enabled at same time in configuration options".to_string()
    );
    assert_eq!(
        Error::RpcUserAndPasswordUsed.message(),
        "`-rpcuser` and `-rpcpassword` cannot be used, use `-rpcauth` instead".to_string()
    );
    assert!(!Error::EarlyExit(1).message().is_empty());
    assert!(!Error::Io("disk full".to_string()).message().is_empty());
}
