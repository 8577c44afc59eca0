use dsh_desktop::port::{os_port_or_fallback, PortScan, PortStep};

/// Drives a search the way the shell does, with `free` standing for the
/// probes and `os` for the port the operating system assigns.
fn search(preferred: u16, free: impl Fn(u16) -> bool, os: Option<u16>) -> (u16, Vec<u16>) {
    let mut probed = Vec::new();
    let mut step = PortScan::start(preferred);
    loop {
        match step {
            PortStep::Probe(scan) => {
                let p = scan.candidate();
                probed.push(p);
                step = scan.advance(free(p));
            }
            PortStep::Found(p) => return (p, probed),
            PortStep::AskOs => return (os_port_or_fallback(os), probed),
        }
    }
}

#[test]
fn zero_means_os_assigns() {
    let (p, probed) = search(0, |_| true, Some(41234));
    assert!(p >= 1024);
    assert_eq!(p, 41234);
    assert!(probed.is_empty());
    let (p, _) = search(0, |_| true, None);
    assert!(p >= 1024);
}

#[test]
fn preferred_port_taken_when_free() {
    let (p, probed) = search(20000, |_| true, Some(41234));
    assert_eq!(p, 20000);
    assert_eq!(probed, vec![20000]);
}

#[test]
fn skips_occupied_ports_in_order() {
    let (p, probed) = search(3080, |port| port >= 3083, None);
    assert_eq!(p, 3083);
    assert_eq!(probed, vec![3080, 3081, 3082, 3083]);
}

#[test]
fn low_preference_starts_at_1024() {
    let (p, probed) = search(80, |_| true, None);
    assert_eq!(p, 1024);
    assert_eq!(probed, vec![1024]);
}

#[test]
fn all_occupied_probes_101_then_asks_the_system() {
    let (p, probed) = search(30000, |_| false, Some(45678));
    assert_eq!(p, 45678);
    assert_eq!(probed.len(), 101);
    assert_eq!(probed[0], 30000);
    assert_eq!(probed[100], 30100);
}

#[test]
fn window_stops_at_65535() {
    let (p, probed) = search(65500, |_| false, None);
    assert_eq!(p, 3080);
    assert_eq!(probed.len(), 36);
    assert_eq!(*probed.last().unwrap(), 65535);
}

#[test]
fn system_without_a_port_gives_the_fallback() {
    assert_eq!(os_port_or_fallback(None), 3080);
    assert_eq!(os_port_or_fallback(Some(50001)), 50001);
}

#[test]
fn start_reports_the_window() {
    match PortScan::start(65500) {
        PortStep::Probe(s) => {
            assert_eq!(s.first, 65500);
            assert_eq!(s.next, 65500);
            assert_eq!(s.last, 65535);
        }
        _ => panic!("expected a probe"),
    }
}
