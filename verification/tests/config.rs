use cokacdir::config::Settings;

#[test]
fn test_default_settings() {
    let settings = Settings::default();
    assert_eq!(settings.active_panel, "left");
    assert_eq!(settings.left_panel.sort_by, "name");
    assert_eq!(settings.left_panel.sort_order, "asc");
    assert_eq!(settings.theme.name, "light");
}

#[test]
fn default_settings_leave_paths_open() {
    let settings = Settings::default();
    assert!(settings.left_panel.start_path.is_none());
    assert!(settings.right_panel.start_path.is_none());
    assert!(settings.tar_path.is_none());
    assert_eq!(settings.right_panel.sort_by, "name");
}
