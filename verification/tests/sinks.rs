use lifecycle_core::sinks::{choose_filter, default_filter, rotation_file_name};

#[test]
fn default_filter_enables_info_and_update_debug() {
    assert_eq!(default_filter(), "info,tauri=debug,tauri_plugin_updater=debug");
}

#[test]
fn environment_override_wins() {
    let chosen = choose_filter(Some("warn,app=trace".to_string()));
    assert_eq!(chosen, "warn,app=trace");
}

#[test]
fn absent_override_falls_back_to_default() {
    assert_eq!(choose_filter(None), "info,tauri=debug,tauri_plugin_updater=debug");
}

#[test]
fn rotation_suffix_is_the_calendar_day() {
    assert_eq!(rotation_file_name(2024, 3, 15), "app.log.2024-03-15");
}

#[test]
fn rotation_suffix_is_zero_padded() {
    assert_eq!(rotation_file_name(999, 1, 5), "app.log.0999-01-05");
    assert_eq!(rotation_file_name(2024, 12, 31), "app.log.2024-12-31");
}
