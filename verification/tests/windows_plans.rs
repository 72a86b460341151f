use river::opts::Opts;
use river::sys::windows::{
    job_limit_plan, job_step, synthesized_signal, wait_accounting, wait_decision,
    wait_timeout_value, JobEvent, JobState, Sandbox, WaitAction, WaitOutcome, INFINITE,
};
use river::sys::windows::utils::{handle_from_file, string_to_pcstr, string_to_pstr};
use river::sys::SandboxImpl;

fn opts_for(cmd: &[&str]) -> Opts {
    let mut o = Opts::default();
    for c in cmd {
        o.command.push(c.to_string());
    }
    o
}

#[test]
fn job_limits_scale_the_units() {
    let l = job_limit_plan(Some(1000), Some(1024));
    assert!(l.idle_priority);
    assert_eq!(l.process_time_limit_100ns, Some(10_000_000));
    assert_eq!(l.working_set_bytes, Some(1_048_576));
    let none = job_limit_plan(None, None);
    assert!(none.idle_priority);
    assert_eq!(none.process_time_limit_100ns, None);
    assert_eq!(none.working_set_bytes, None);
}

#[test]
fn wait_timeout_defaults_to_infinite() {
    assert_eq!(wait_timeout_value(Some(1000)), 1000);
    assert_eq!(wait_timeout_value(None), INFINITE);
    assert_eq!(INFINITE, 0xFFFF_FFFF);
}

#[test]
fn wait_decisions() {
    assert_eq!(wait_decision(WaitOutcome::Signaled), WaitAction::Collect);
    assert_eq!(wait_decision(WaitOutcome::TimedOut), WaitAction::TerminateAndReap);
    assert_eq!(wait_decision(WaitOutcome::Failed), WaitAction::Fail);
}

#[test]
fn deadline_kill_synthesizes_signal_nine() {
    assert_eq!(synthesized_signal(true), 9);
    assert_eq!(synthesized_signal(false), 0);
}

#[test]
fn accounting_divides_filetime_units() {
    // a run of 1.5 s wall time force-terminated by the deadline
    let s = wait_accounting(0, 15_000_000, 5_000_000, 5_000_000, 2048 * 1024, true);
    assert_eq!(s.time_used, 1500);
    assert!(s.time_used >= 1000 && s.time_used < 2000);
    assert_eq!(s.cpu_time_used, 1000);
    assert_eq!(s.memory_used, 2048);
    assert_eq!(s.exit_code, 0);
    assert_eq!(s.signal, 9);
}

#[test]
fn accounting_without_timeout_reports_no_signal() {
    let s = wait_accounting(20_000, 40_000, 10_000, 10_000, 1024, false);
    assert_eq!(s.time_used, 2);
    assert_eq!(s.cpu_time_used, 2);
    assert_eq!(s.memory_used, 1);
    assert_eq!(s.signal, 0);
}

#[test]
fn job_states_walk_the_machine() {
    let s0 = JobState::Created;
    let s1 = job_step(s0, JobEvent::LimitsApplied);
    assert_eq!(s1, JobState::Limited);
    let s2 = job_step(s1, JobEvent::Resumed);
    assert_eq!(s2, JobState::Running);
    assert_eq!(job_step(s2, JobEvent::WaitSignaled), JobState::SignaledOk);
    assert_eq!(job_step(s2, JobEvent::WaitTimedOut), JobState::TimeoutKill);
    assert_eq!(job_step(s2, JobEvent::WaitFailed), JobState::WaitFail);
    assert_eq!(job_step(s0, JobEvent::SetupFailed), JobState::FailClean);
    assert_eq!(job_step(s1, JobEvent::SetupFailed), JobState::FailClean);
}

#[test]
fn terminal_states_ignore_further_events() {
    assert_eq!(job_step(JobState::SignaledOk, JobEvent::Resumed), JobState::SignaledOk);
    assert_eq!(job_step(JobState::TimeoutKill, JobEvent::WaitSignaled), JobState::TimeoutKill);
    assert_eq!(job_step(JobState::FailClean, JobEvent::LimitsApplied), JobState::FailClean);
    assert_eq!(job_step(JobState::WaitFail, JobEvent::WaitFailed), JobState::WaitFail);
}

#[test]
fn creation_plan_for_single_program() {
    let mut o = opts_for(&["C:\\Windows\\System32\\notepad.exe"]);
    o.time_limit = Some(1000);
    let sb = Sandbox::with_opts(o);
    let p = sb.creation_plan().unwrap();
    assert_eq!(p.app, "C:\\Windows\\System32\\notepad.exe");
    assert_eq!(p.command_line, None);
    assert!(!p.inherit_handles);
    assert!(p.create_suspended);
    assert_eq!(sb.wait_timeout(), 1000);
}

#[test]
fn creation_plan_joins_the_argument_tail() {
    let o = opts_for(&["prog.exe", "-a", "x", "y"]);
    let sb = Sandbox::with_opts(o);
    let p = sb.creation_plan().unwrap();
    assert_eq!(p.app, "prog.exe");
    assert_eq!(p.command_line, Some("-a x y".to_string()));
}

#[test]
fn creation_plan_inherits_handles_only_for_redirects() {
    let mut o = opts_for(&["prog.exe"]);
    o.output = Some("out.txt".to_string());
    let sb = Sandbox::with_opts(o);
    assert!(sb.creation_plan().unwrap().inherit_handles);
}

#[test]
fn creation_plan_rejects_empty_command() {
    let sb = Sandbox::with_opts(Opts::default());
    assert!(sb.creation_plan().is_err());
}

#[test]
fn redirects_open_the_right_sides() {
    let mut o = opts_for(&["prog.exe"]);
    o.input = Some("in.txt".to_string());
    o.error = Some("err.txt".to_string());
    let sb = Sandbox::with_opts(o);
    let h = sb.redirect_fd();
    let stdin_handle = h.stdin_handle.unwrap();
    assert_eq!(stdin_handle.path, "in.txt");
    assert!(!stdin_handle.write_access && !stdin_handle.create_always && stdin_handle.inheritable);
    assert!(h.stdout_handle.is_none());
    let stderr_handle = h.stderr_handle.unwrap();
    assert_eq!(stderr_handle.path, "err.txt");
    assert!(stderr_handle.write_access && stderr_handle.create_always);
}

#[test]
fn file_open_plans() {
    let w = handle_from_file("out.txt", 'w');
    assert_eq!(w.path, "out.txt");
    assert!(w.write_access && w.create_always && w.inheritable);
    let r = handle_from_file("in.txt", 'r');
    assert_eq!(r.path, "in.txt");
    assert!(!r.write_access && !r.create_always && r.inheritable);
}

#[test]
fn terminated_strings_append_one_terminator() {
    assert_eq!(string_to_pcstr("abc"), "abc\0");
    assert_eq!(string_to_pcstr(""), "\0");
    assert_eq!(string_to_pstr("a b"), "a b\0");
}
