use dsh_desktop::config::AppConfig;
use dsh_desktop::shell::{
    close_action, launch_workspace, restart_workspace, same_text, startup_problem, startup_workspace,
    tray_action, CloseAction, TrayAction,
};
use dsh_desktop::updater::update_status;

#[test]
fn configured_workspace_is_kept() {
    let w = startup_workspace(&Some("/work".to_string()), Some("/home/alice".to_string()));
    assert_eq!(w, "/work");
}

#[test]
fn empty_workspace_falls_back_to_home() {
    let w = startup_workspace(&Some(String::new()), Some("/home/alice".to_string()));
    assert_eq!(w, "/home/alice");
    let w = startup_workspace(&None, Some("/home/alice".to_string()));
    assert_eq!(w, "/home/alice");
}

#[test]
fn no_workspace_and_no_home_gives_empty() {
    assert_eq!(startup_workspace(&None, None), "");
}

#[test]
fn launch_workspace_prefers_the_configured_one() {
    let mut cfg = AppConfig::default();
    cfg.workspace_dir = Some("/srv/project".to_string());
    assert_eq!(launch_workspace(&cfg), "/srv/project");
}

#[test]
fn restart_uses_the_configured_workspace() {
    let mut cfg = AppConfig::default();
    assert_eq!(restart_workspace(&cfg), "");
    cfg.workspace_dir = Some("/srv/project".to_string());
    assert_eq!(restart_workspace(&cfg), "/srv/project");
}

#[test]
fn closing_main_hides_or_quits() {
    assert!(matches!(close_action("main", true), CloseAction::Hide));
    assert!(matches!(close_action("main", false), CloseAction::StopServiceAndExit));
}

#[test]
fn closing_settings_always_hides() {
    assert!(matches!(close_action("settings", true), CloseAction::Hide));
    assert!(matches!(close_action("settings", false), CloseAction::Hide));
}

#[test]
fn closing_other_windows_goes_ahead() {
    assert!(matches!(close_action("about", false), CloseAction::Proceed));
}

#[test]
fn tray_menu_entries() {
    assert!(matches!(tray_action("show"), TrayAction::ShowMain));
    assert!(matches!(tray_action("settings"), TrayAction::ShowSettings));
    assert!(matches!(tray_action("quit"), TrayAction::Quit));
    assert!(matches!(tray_action("other"), TrayAction::Ignore));
}

#[test]
fn text_comparison() {
    assert!(same_text("main", "main"));
    assert!(!same_text("main", "mainx"));
}

#[test]
fn update_status_texts() {
    assert_eq!(update_status(Some("0.2.0".to_string())), "新版本 0.2.0 已安装，请重启应用生效");
    assert_eq!(update_status(None), "已是最新版本");
}

#[test]
fn unwritable_data_dir_stops_start_up() {
    let mut cfg = AppConfig::default();
    cfg.data_dir = Some("/ro/data".to_string());
    assert_eq!(
        startup_problem(&cfg, false),
        Some("数据目录不可写: /ro/data，请在设置页修改".to_string())
    );
    assert_eq!(startup_problem(&cfg, true), None);
}

#[test]
fn default_data_dir_is_not_checked() {
    let cfg = AppConfig::default();
    assert_eq!(startup_problem(&cfg, false), None);
}
