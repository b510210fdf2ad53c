use merix::utilities::config::{AppDataBase, DirProbe, DirectoryKind, DirectoryPlan, MerixConfig, OsFamily, PathRoot};
use merix::utilities::log_error;
use merix::utilities::recovery::{log_and_continue, log_and_recover};

#[test]
fn test_log_error_returns_anyhow_error() {
    let err = log_error("test error message");
    assert!(err.to_string().contains("test error message"));
}

#[test]
fn test_recovery_helpers() {
    let fallback = log_and_recover("recoverable error", 42);
    assert_eq!(fallback, 42);

    let result = log_and_continue("continue after error");
    assert!(result.is_ok());
}

#[test]
fn test_async_recovery_path() {
    let result = log_and_continue("async error path");
    assert!(result.is_ok());
}

#[test]
fn log_error_keeps_exact_message() {
    let err = log_error("disk full");
    assert_eq!(err.to_string(), "disk full");
    assert_eq!(err.message, "disk full");
}

#[test]
fn recover_returns_fallback_of_any_type() {
    let v: Vec<u8> = log_and_recover("oops", vec![1, 2, 3]);
    assert_eq!(v, vec![1, 2, 3]);
    let s = log_and_recover("oops", String::from("fallback"));
    assert_eq!(s, "fallback");
}

#[test]
fn dev_mode_setting_decides() {
    assert!(MerixConfig::is_dev_mode(Some("1"), false));
    assert!(MerixConfig::is_dev_mode(Some("true"), false));
    assert!(MerixConfig::is_dev_mode(Some("  TRUE \n"), false));
    assert!(MerixConfig::is_dev_mode(Some("True"), false));
    assert!(!MerixConfig::is_dev_mode(Some("0"), true));
    assert!(!MerixConfig::is_dev_mode(Some("yes"), true));
    assert!(!MerixConfig::is_dev_mode(Some(""), true));
}

#[test]
fn dev_mode_unset_follows_build() {
    assert!(MerixConfig::is_dev_mode(None, true));
    assert!(!MerixConfig::is_dev_mode(None, false));
}

fn probe(path: &str, cargo: bool, crates: bool) -> DirProbe {
    DirProbe { path: path.to_string(), has_cargo_toml: cargo, has_crates_dir: crates }
}

#[test]
fn project_root_is_first_dir_with_both_markers() {
    let ancestors = vec![
        probe("/w/crates/utilities", true, false),
        probe("/w/crates", false, true),
        probe("/w", true, true),
        probe("/", true, true),
    ];
    assert_eq!(MerixConfig::project_root(&ancestors), Some("/w".to_string()));
}

#[test]
fn project_root_absent_without_markers() {
    let ancestors = vec![probe("/a", true, false), probe("/", false, true)];
    assert_eq!(MerixConfig::project_root(&ancestors), None);
    assert_eq!(MerixConfig::project_root(&Vec::new()), None);
}

#[test]
fn directory_plan_prefers_override() {
    match MerixConfig::plan_directory(Some("/tmp/logs".to_string()), true, Some("/w".to_string())) {
        DirectoryPlan::Override(d) => assert_eq!(d, "/tmp/logs"),
        _ => panic!("override expected"),
    }
}

#[test]
fn directory_plan_in_dev_and_production() {
    match MerixConfig::plan_directory(None, true, Some("/w".to_string())) {
        DirectoryPlan::UnderProjectRoot(r) => assert_eq!(r, "/w"),
        _ => panic!("project root expected"),
    }
    assert!(matches!(MerixConfig::plan_directory(None, true, None), DirectoryPlan::UnderWorkingDir));
    assert!(matches!(
        MerixConfig::plan_directory(None, false, Some("/w".to_string())),
        DirectoryPlan::UnderAppData
    ));
}

#[test]
fn app_data_base_per_platform() {
    match MerixConfig::os_app_data_base(OsFamily::Windows, Some("C:\\AppData".to_string()), None) {
        AppDataBase::Dir(d) => assert_eq!(d, "C:\\AppData"),
        _ => panic!("appdata expected"),
    }
    match MerixConfig::os_app_data_base(OsFamily::MacOs, None, Some("/Users/a".to_string())) {
        AppDataBase::Joined(d, rel) => {
            assert_eq!(d, "/Users/a");
            assert_eq!(rel, "Library/Application Support");
        }
        _ => panic!("joined expected"),
    }
    match MerixConfig::os_app_data_base(OsFamily::Other, None, Some("/home/a".to_string())) {
        AppDataBase::Joined(d, rel) => {
            assert_eq!(d, "/home/a");
            assert_eq!(rel, ".config");
        }
        _ => panic!("joined expected"),
    }
    assert!(matches!(MerixConfig::os_app_data_base(OsFamily::Other, None, None), AppDataBase::WorkingDir));
    assert!(matches!(
        MerixConfig::os_app_data_base(OsFamily::Windows, None, Some("/h".to_string())),
        AppDataBase::WorkingDir
    ));
    assert_eq!(MerixConfig::APP_NAME, "Merix");
}

fn root_text(root: &PathRoot) -> Option<String> {
    match root {
        PathRoot::Dir(d) => Some(d.clone()),
        PathRoot::WorkingDir => None,
    }
}

#[test]
fn directory_paths_of_each_plan() {
    let base = AppDataBase::Joined("/home/a".to_string(), ".config".to_string());
    let p = MerixConfig::directory_path(&DirectoryPlan::Override("/x/y".to_string()), &base, DirectoryKind::Logs);
    assert_eq!(root_text(&p.root), Some("/x/y".to_string()));
    assert!(p.components.is_empty());
    let p = MerixConfig::directory_path(&DirectoryPlan::UnderProjectRoot("/w".to_string()), &base, DirectoryKind::Data);
    assert_eq!(root_text(&p.root), Some("/w".to_string()));
    assert_eq!(p.components, vec!["data".to_string()]);
    let p = MerixConfig::directory_path(&DirectoryPlan::UnderWorkingDir, &base, DirectoryKind::Logs);
    assert_eq!(root_text(&p.root), None);
    assert_eq!(p.components, vec!["logs".to_string()]);
    let p = MerixConfig::directory_path(&DirectoryPlan::UnderAppData, &base, DirectoryKind::Logs);
    assert_eq!(root_text(&p.root), Some("/home/a".to_string()));
    assert_eq!(p.components, vec![".config".to_string(), "Merix".to_string(), "logs".to_string()]);
    let p = MerixConfig::directory_path(&DirectoryPlan::UnderAppData, &AppDataBase::Dir("C:\\A".to_string()), DirectoryKind::Data);
    assert_eq!(root_text(&p.root), Some("C:\\A".to_string()));
    assert_eq!(p.components, vec!["Merix".to_string(), "data".to_string()]);
    let p = MerixConfig::directory_path(&DirectoryPlan::UnderAppData, &AppDataBase::WorkingDir, DirectoryKind::Data);
    assert_eq!(root_text(&p.root), None);
    assert_eq!(p.components, vec!["Merix".to_string(), "data".to_string()]);
}

#[test]
fn logs_and_data_are_siblings() {
    let base = AppDataBase::Joined("/Users/a".to_string(), "Library/Application Support".to_string());
    for (dev, root) in [(true, Some("/w".to_string())), (true, None), (false, None)] {
        let plan = MerixConfig::plan_directory(None, dev, root.clone());
        let logs = MerixConfig::directory_path(&plan, &base, DirectoryKind::Logs);
        let data = MerixConfig::directory_path(&plan, &base, DirectoryKind::Data);
        assert_eq!(root_text(&logs.root), root_text(&data.root));
        let n = logs.components.len();
        assert_eq!(n, data.components.len());
        assert_eq!(logs.components[..n - 1], data.components[..n - 1]);
        assert_eq!(logs.components[n - 1], "logs");
        assert_eq!(data.components[n - 1], "data");
    }
    assert_eq!(MerixConfig::subdirectory(DirectoryKind::Logs), "logs");
    assert_eq!(MerixConfig::subdirectory(DirectoryKind::Data), "data");
}

#[test]
fn dev_mode_from_lowered_text() {
    assert!(MerixConfig::dev_mode_from_lowered(Some("1"), false));
    assert!(MerixConfig::dev_mode_from_lowered(Some("true"), false));
    assert!(!MerixConfig::dev_mode_from_lowered(Some("TRUE"), true));
    assert!(!MerixConfig::dev_mode_from_lowered(Some("yes"), true));
    assert!(!MerixConfig::dev_mode_from_lowered(Some(""), true));
    assert!(MerixConfig::dev_mode_from_lowered(None, true));
    assert!(!MerixConfig::dev_mode_from_lowered(None, false));
}
