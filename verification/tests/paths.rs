use lifecycle_core::paths::{
    app_id, required_root, resolve_log_directory, DirectoryResolutionError, Platform, RootKind,
};

fn seg(s: &str) -> String {
    s.to_string()
}

#[test]
fn app_identifier_is_fixed() {
    assert_eq!(app_id(), "com.tauri.auto-update-app");
}

#[test]
fn each_platform_requires_its_root() {
    assert_eq!(required_root(Platform::WindowsFamily), RootKind::DataRoot);
    assert_eq!(required_root(Platform::AppleDesktop), RootKind::HomeRoot);
    assert_eq!(required_root(Platform::UnixDesktop), RootKind::LocalDataRoot);
}

#[test]
fn windows_layout_is_data_root_app_logs() {
    let root = vec![seg("C:"), seg("Users"), seg("me"), seg("AppData"), seg("Roaming")];
    let path = resolve_log_directory(Platform::WindowsFamily, Some(root.clone())).unwrap();
    let mut expected = root;
    expected.push(seg("com.tauri.auto-update-app"));
    expected.push(seg("logs"));
    assert_eq!(path, expected);
}

#[test]
fn apple_layout_is_home_library_logs_app() {
    let root = vec![seg("Users"), seg("me")];
    let path = resolve_log_directory(Platform::AppleDesktop, Some(root.clone())).unwrap();
    let mut expected = root;
    expected.push(seg("Library"));
    expected.push(seg("Logs"));
    expected.push(seg("com.tauri.auto-update-app"));
    assert_eq!(path, expected);
}

#[test]
fn unix_layout_is_local_data_app_logs() {
    let root = vec![seg("home"), seg("me"), seg(".local"), seg("share")];
    let path = resolve_log_directory(Platform::UnixDesktop, Some(root.clone())).unwrap();
    let mut expected = root;
    expected.push(seg("com.tauri.auto-update-app"));
    expected.push(seg("logs"));
    assert_eq!(path, expected);
}

#[test]
fn every_platform_names_app_and_a_logs_segment() {
    for p in [Platform::WindowsFamily, Platform::AppleDesktop, Platform::UnixDesktop] {
        let path = resolve_log_directory(p, Some(vec![seg("root")])).unwrap();
        assert!(path.iter().any(|s| s == "com.tauri.auto-update-app"));
        assert!(path.iter().any(|s| s == "logs" || s == "Logs"));
    }
}

#[test]
fn missing_root_is_a_resolution_error() {
    for p in [Platform::WindowsFamily, Platform::AppleDesktop, Platform::UnixDesktop] {
        let err = resolve_log_directory(p, None).unwrap_err();
        assert_eq!(err, DirectoryResolutionError { missing: required_root(p) });
    }
}

#[test]
fn resolution_error_messages_name_the_missing_root() {
    let data = DirectoryResolutionError { missing: RootKind::DataRoot };
    assert_eq!(data.message(), "Could not find data directory");
    let home = DirectoryResolutionError { missing: RootKind::HomeRoot };
    assert_eq!(home.message(), "Could not find home directory");
    let local = DirectoryResolutionError { missing: RootKind::LocalDataRoot };
    assert_eq!(local.message(), "Could not find local data directory");
}
