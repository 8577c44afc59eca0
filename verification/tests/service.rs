use dsh_desktop::service::{
    child_pids, ready_step, stop_step, ExitCheck, ProcessState, ReadyStep, StopStep,
};

fn failed(step: ReadyStep) -> String {
    match step {
        ReadyStep::Failed(m) => m,
        _ => panic!("expected a failure"),
    }
}

#[test]
fn ready_when_the_address_is_seen() {
    assert!(matches!(ready_step(true, &ProcessState::Running, 1000, 30), ReadyStep::Ready));
}

#[test]
fn waits_while_the_service_runs() {
    assert!(matches!(ready_step(false, &ProcessState::Running, 29_999, 30), ReadyStep::Wait(200)));
}

#[test]
fn times_out_at_the_deadline() {
    assert_eq!(
        failed(ready_step(true, &ProcessState::Running, 30_000, 30)),
        "等待 DSH 服务就绪超时（30s）"
    );
}

#[test]
fn an_ended_service_fails_the_wait() {
    let exited = ProcessState::Exited("exit status: 1".to_string());
    assert_eq!(failed(ready_step(false, &exited, 10, 30)), "DSH 服务已退出: exit status: 1");
    assert_eq!(failed(ready_step(false, &ProcessState::NotStarted, 10, 30)), "DSH 服务未启动");
}

#[test]
fn stopping_waits_then_kills() {
    assert!(matches!(stop_step(ExitCheck::Ended, 0), StopStep::Finished));
    assert!(matches!(stop_step(ExitCheck::Unknown, 0), StopStep::Finished));
    assert!(matches!(stop_step(ExitCheck::StillRunning, 5000), StopStep::Wait(100)));
    assert!(matches!(stop_step(ExitCheck::StillRunning, 5001), StopStep::ForceKill));
}

#[test]
fn pids_one_per_line() {
    assert_eq!(child_pids("123\n456\n"), vec![123, 456]);
    assert_eq!(child_pids("  77 \r\n+8\n"), vec![77, 8]);
}

#[test]
fn lines_without_a_pid_are_passed_over() {
    assert_eq!(child_pids(""), Vec::<u32>::new());
    assert_eq!(child_pids("\n\nabc\n-1\n+\n12x\n9"), vec![9]);
    assert_eq!(child_pids("4294967295\n4294967296\n"), vec![4294967295]);
}

#[test]
fn pids_match_str_parse() {
    let text = "\u{a0}42\u{3000}\n 007\n1 2\n";
    let expected: Vec<u32> = text.lines().filter_map(|l| l.trim().parse::<u32>().ok()).collect();
    assert_eq!(child_pids(text), expected);
    assert_eq!(expected, vec![42, 7]);
}
