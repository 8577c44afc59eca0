use dsh_desktop::paths::BundlePath;
use dsh_desktop::sidecar::{
    decimal_text, dsh_dir, node_binary, port_text, profile_dir, resource_dir, service_url, sidecar_launch,
};
use std::path::PathBuf;

fn texts(items: &[&str]) -> Vec<String> {
    items.iter().map(|s| s.to_string()).collect()
}

fn path(anchor: &[&str], names: &[&str]) -> BundlePath {
    BundlePath { anchor: texts(anchor), parts: texts(names) }
}

fn shown(p: &BundlePath) -> String {
    let full: PathBuf = p.anchor.iter().chain(p.parts.iter()).collect();
    full.to_string_lossy().to_string()
}

#[test]
fn paths_point_to_resources() {
    let resources = resource_dir(&path(&["/"], &["opt", "dsh-desktop", "dsh-desktop"]));
    assert!(shown(&node_binary(&resources, false)).contains("node"));
    assert!(shown(&dsh_dir(&resources)).contains("dsh"));
    assert!(shown(&profile_dir(&resources)).contains("profile"));
}

#[test]
fn resources_beside_the_executable() {
    let r = resource_dir(&path(&["/"], &["opt", "dsh-desktop", "dsh-desktop"]));
    assert_eq!(r.anchor, vec!["/"]);
    assert_eq!(r.parts, vec!["opt", "dsh-desktop"]);
}

#[test]
fn resources_of_a_macos_bundle() {
    let r = resource_dir(&path(&["/"], &["Applications", "DSH.app", "Contents", "MacOS", "dsh-desktop"]));
    assert_eq!(r.parts, vec!["Applications", "DSH.app", "Contents", "Resources"]);
}

#[test]
fn node_binary_per_platform() {
    let r = path(&["/"], &["opt", "dsh"]);
    assert_eq!(node_binary(&r, false).parts, vec!["opt", "dsh", "node", "node"]);
    assert_eq!(node_binary(&r, true).parts, vec!["opt", "dsh", "node", "node.exe"]);
    assert_eq!(node_binary(&r, true).anchor, vec!["/"]);
    assert_eq!(dsh_dir(&r).parts, vec!["opt", "dsh", "dsh"]);
    assert_eq!(profile_dir(&r).parts, vec!["opt", "dsh", "profile"]);
}

#[test]
fn join_and_parent() {
    let p = path(&["/"], &["a"]);
    assert_eq!(p.join("b").parts, vec!["a", "b"]);
    assert_eq!(p.join("b").anchor, vec!["/"]);
    assert!(p.parent().parts.is_empty());
    assert_eq!(p.parent().anchor, vec!["/"]);
    assert!(p.ends_with("a"));
    assert!(!p.ends_with("b"));
    assert!(!path(&["/"], &[]).ends_with("a"));
}

#[test]
fn port_text_is_decimal() {
    assert_eq!(port_text(0), "0");
    assert_eq!(port_text(7), "7");
    assert_eq!(port_text(3080), "3080");
    assert_eq!(port_text(65535), "65535");
}

#[test]
fn launch_with_data_dir() {
    let r = path(&["/"], &["opt", "dsh"]);
    let l = sidecar_launch(&r, false, "/home/alice/work", &Some("/data".to_string()), 3081);
    assert_eq!(l.program.parts, vec!["opt", "dsh", "node", "node"]);
    assert_eq!(l.script.parts, vec!["opt", "dsh", "dsh", "lib", "bin.js"]);
    assert_eq!(l.args, vec!["--profile", "web", "--port", "3081", "--no-open"]);
    assert_eq!(l.cwd, "/home/alice/work");
    assert_eq!(l.dsh_home, Some("/data".to_string()));
}

#[test]
fn launch_without_data_dir() {
    let r = path(&["C:", "\\"], &["DSH"]);
    let l = sidecar_launch(&r, true, "C:\\work", &None, 3080);
    assert_eq!(l.program.anchor, vec!["C:", "\\"]);
    assert_eq!(l.program.parts, vec!["DSH", "node", "node.exe"]);
    assert_eq!(l.dsh_home, None);
    assert_eq!(l.args[3], "3080");
}

#[test]
fn service_url_with_token() {
    let line = "DSH Web UI ready: http://127.0.0.1:3080/?token=abc123 (press Ctrl+C)";
    assert_eq!(service_url(line), Some("http://127.0.0.1:3080/?token=abc123".to_string()));
}

#[test]
fn service_url_at_end_of_line() {
    assert_eq!(service_url("http://127.0.0.1:4000"), Some("http://127.0.0.1:4000".to_string()));
}

#[test]
fn service_url_takes_the_first() {
    let line = "a http://127.0.0.1:1\thttp://127.0.0.1:2";
    assert_eq!(service_url(line), Some("http://127.0.0.1:1".to_string()));
}

#[test]
fn no_service_url() {
    assert_eq!(service_url("listening on localhost:3080"), None);
    assert_eq!(service_url(""), None);
    assert_eq!(service_url("http://127.0.0.1"), None);
}

#[test]
fn service_url_after_other_text_in_unicode() {
    assert_eq!(
        service_url("服务已启动 http://127.0.0.1:3080/?token=x 完成"),
        Some("http://127.0.0.1:3080/?token=x".to_string())
    );
}

#[test]
fn decimal_text_of_large_numbers() {
    assert_eq!(decimal_text(0), "0");
    assert_eq!(decimal_text(18446744073709551615), "18446744073709551615");
}

#[test]
fn name_suffix() {
    let p = path(&["/"], &["a", "b.json"]);
    assert_eq!(p.with_name_suffix(".tmp").parts, vec!["a", "b.json.tmp"]);
}
