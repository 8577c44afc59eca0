use dsh_desktop::config::AppConfig;
use dsh_desktop::paths::BundlePath;
use dsh_desktop::state::AppState;

fn texts(items: &[&str]) -> Vec<String> {
    items.iter().map(|s| s.to_string()).collect()
}

fn path(anchor: &[&str], names: &[&str]) -> BundlePath {
    BundlePath { anchor: texts(anchor), parts: texts(names) }
}

#[test]
fn default_config_is_sane() {
    let c = AppConfig::default();
    assert_eq!(c.port, 3080);
    assert!(c.minimize_to_tray);
    assert!(c.check_updates_on_start);
}

#[test]
fn default_config_has_every_field() {
    let c = AppConfig::default();
    assert_eq!(c.workspace_dir, None);
    assert_eq!(c.data_dir, None);
    assert!(!c.autostart);
    assert_eq!(c.update_channel, "stable");
}

#[test]
fn clone_keeps_every_field() {
    let mut c = AppConfig::default();
    c.workspace_dir = Some("/tmp/ws".to_string());
    c.data_dir = Some("/tmp/data".to_string());
    c.port = 4000;
    c.autostart = true;
    c.minimize_to_tray = false;
    c.update_channel = "beta".to_string();
    c.check_updates_on_start = false;
    let d = c.clone();
    assert_eq!(d.workspace_dir, Some("/tmp/ws".to_string()));
    assert_eq!(d.data_dir, Some("/tmp/data".to_string()));
    assert_eq!(d.port, 4000);
    assert!(d.autostart);
    assert!(!d.minimize_to_tray);
    assert_eq!(d.update_channel, "beta");
    assert!(!d.check_updates_on_start);
}

#[test]
fn load_without_a_readable_file_gives_defaults() {
    let c = AppConfig::load_or_default(None);
    assert_eq!(c.port, 3080);
    assert_eq!(c.workspace_dir, None);
}

#[test]
fn load_keeps_what_was_read() {
    let mut read = AppConfig::default();
    read.workspace_dir = Some("/tmp/ws".to_string());
    read.port = 4000;
    let c = AppConfig::load_or_default(Some(read));
    assert_eq!(c.workspace_dir, Some("/tmp/ws".to_string()));
    assert_eq!(c.port, 4000);
}

#[test]
fn config_file_sits_in_its_own_directory() {
    let p = AppConfig::config_path_in(Some(path(&["/"], &["home", "alice", ".config"])));
    assert_eq!(p.anchor, vec!["/"]);
    assert_eq!(p.parts, vec!["home", "alice", ".config", "dsh-desktop", "app-config.json"]);
}

#[test]
fn config_file_falls_back_to_current_directory() {
    let p = AppConfig::config_path_in(None);
    assert!(p.anchor.is_empty());
    assert_eq!(p.parts, vec![".", "dsh-desktop", "app-config.json"]);
}

#[test]
fn config_file_of_the_system() {
    let p = AppConfig::config_path();
    let n = p.parts.len();
    assert!(n >= 2);
    assert_eq!(p.parts[n - 2], "dsh-desktop");
    assert_eq!(p.parts[n - 1], "app-config.json");
}

#[test]
fn set_config_accepts_allowed_ports() {
    for port in [0u16, 1024, 4000, 65535] {
        let mut state = AppState::new(AppConfig::default());
        let mut cfg = AppConfig::default();
        cfg.port = port;
        cfg.autostart = true;
        assert_eq!(state.set_config(cfg, true, true), Ok(()));
        let got = state.get_config();
        assert_eq!(got.port, port);
        assert!(got.autostart);
    }
}

#[test]
fn set_config_refuses_privileged_ports() {
    for port in [1u16, 80, 1023] {
        let mut state = AppState::new(AppConfig::default());
        let mut cfg = AppConfig::default();
        cfg.port = port;
        cfg.autostart = true;
        assert_eq!(
            state.set_config(cfg, true, true),
            Err("端口必须在 1024-65535 之间（0 表示自动分配）".to_string())
        );
        let got = state.get_config();
        assert_eq!(got.port, 3080);
        assert!(!got.autostart);
    }
}

#[test]
fn remember_workspace_sets_only_the_workspace() {
    let mut state = AppState::new(AppConfig::default());
    state.remember_workspace("/home/alice".to_string());
    let got = state.get_config();
    assert_eq!(got.workspace_dir, Some("/home/alice".to_string()));
    assert_eq!(got.port, 3080);
}

#[test]
fn set_config_refuses_a_missing_workspace() {
    let mut state = AppState::new(AppConfig::default());
    let mut cfg = AppConfig::default();
    cfg.workspace_dir = Some("/no/such/dir".to_string());
    cfg.port = 4000;
    assert_eq!(
        state.set_config(cfg, false, true),
        Err("工作目录不存在: /no/such/dir".to_string())
    );
    let got = state.get_config();
    assert_eq!(got.workspace_dir, None);
    assert_eq!(got.port, 3080);
}

#[test]
fn set_config_refuses_a_missing_data_dir() {
    let mut state = AppState::new(AppConfig::default());
    let mut cfg = AppConfig::default();
    cfg.workspace_dir = Some("/work".to_string());
    cfg.data_dir = Some("/no/data".to_string());
    assert_eq!(
        state.set_config(cfg, true, false),
        Err("数据目录不存在: /no/data".to_string())
    );
    assert_eq!(state.get_config().workspace_dir, None);
}

#[test]
fn set_config_checks_the_port_first() {
    let mut state = AppState::new(AppConfig::default());
    let mut cfg = AppConfig::default();
    cfg.workspace_dir = Some("/no/such/dir".to_string());
    cfg.port = 80;
    assert_eq!(
        state.set_config(cfg, false, false),
        Err("端口必须在 1024-65535 之间（0 表示自动分配）".to_string())
    );
}

#[test]
fn set_config_ignores_reports_on_unset_directories() {
    let mut state = AppState::new(AppConfig::default());
    let mut cfg = AppConfig::default();
    cfg.workspace_dir = Some(String::new());
    cfg.port = 5000;
    assert_eq!(state.set_config(cfg, false, false), Ok(()));
    assert_eq!(state.get_config().port, 5000);
}

#[test]
fn set_config_accepts_existing_directories() {
    let mut state = AppState::new(AppConfig::default());
    let mut cfg = AppConfig::default();
    cfg.workspace_dir = Some("/work".to_string());
    cfg.data_dir = Some("/data".to_string());
    assert_eq!(state.set_config(cfg, true, true), Ok(()));
    let got = state.get_config();
    assert_eq!(got.workspace_dir, Some("/work".to_string()));
    assert_eq!(got.data_dir, Some("/data".to_string()));
}

#[test]
fn temporary_file_sits_beside_the_settings_file() {
    let p = AppConfig::config_path_in(Some(path(&["/"], &["home", "alice", ".config"])));
    let t = AppConfig::config_temp_path(&p);
    assert_eq!(t.anchor, vec!["/"]);
    assert_eq!(t.parts, vec!["home", "alice", ".config", "dsh-desktop", "app-config.json.tmp"]);
    let original = std::path::PathBuf::from("/home/alice/.config/dsh-desktop/app-config.json")
        .with_extension("json.tmp");
    let ours: std::path::PathBuf = t.anchor.iter().chain(t.parts.iter()).collect();
    assert_eq!(ours, original);
}
