use river::runner::RunnerStatus;
use river::sys::linux::{
    exit_code_of_status, signal_of_status, status_of_wait, wexitstatus, wifexited, wifsignaled,
    wifstopped, wstopsig, wtermsig,
};
use river::utils::{new_rusage, Rusage};

#[test]
fn clean_exit_reports_both_zero() {
    // a normal exit with code 0: the raw wait status word is 0
    assert!(wifexited(0));
    assert_eq!(wexitstatus(0), 0);
    assert_eq!(exit_code_of_status(0), 0);
    assert_eq!(signal_of_status(0), 0);
}

#[test]
fn nonzero_exit_reports_code_only() {
    // exit(3): code in the second byte
    let raw = 3 << 8;
    assert!(wifexited(raw));
    assert_eq!(exit_code_of_status(raw), 3);
    assert_eq!(signal_of_status(raw), 0);
}

#[test]
fn kill_reports_signal_only() {
    // killed by SIGKILL (9), as after a deadline kill
    let raw = 9;
    assert!(!wifexited(raw));
    assert!(wifsignaled(raw));
    assert_eq!(wtermsig(raw), 9);
    assert_eq!(exit_code_of_status(raw), 0);
    assert_eq!(signal_of_status(raw), 9);
}

#[test]
fn file_size_kill_reports_its_signal() {
    // killed by SIGXFSZ (25) after exceeding the file-size cap
    let raw = 25;
    assert!(wifsignaled(raw));
    assert_eq!(signal_of_status(raw), 25);
    assert_eq!(exit_code_of_status(raw), 0);
}

#[test]
fn stop_reports_stop_signal() {
    // stopped by SIGSTOP (19): low byte 0x7f, signal in the second byte
    let raw = 0x137f;
    assert!(!wifexited(raw));
    assert!(!wifsignaled(raw));
    assert!(wifstopped(raw));
    assert_eq!(wstopsig(raw), 19);
    assert_eq!(signal_of_status(raw), 19);
}

fn usage(us: i64, uu: i64, ss: i64, su: i64, rss: i64) -> Rusage {
    Rusage { utime_sec: us, utime_usec: uu, stime_sec: ss, stime_usec: su, maxrss: rss }
}

#[test]
fn accounting_sums_user_and_system_time() {
    let ru = usage(1, 500000, 2, 250000, 4096);
    let s = status_of_wait(0, &ru, 1234);
    assert_eq!(s.cpu_time_used, 1000 + 500 + 2000 + 250);
    assert_eq!(s.memory_used, 4096);
    assert_eq!(s.time_used, 1234);
    assert_eq!(s.status, 0);
    assert_eq!(s.exit_code, 0);
    assert_eq!(s.signal, 0);
}

#[test]
fn accounting_keeps_status_word() {
    let ru = new_rusage();
    let s = status_of_wait(9, &ru, 1001);
    assert_eq!(s.status, 9);
    assert_eq!(s.signal, 9);
    assert_eq!(s.exit_code, 0);
    assert_eq!(s.cpu_time_used, 0);
}

#[test]
fn runner_status_from_wait_reports_cpu_time() {
    let ru = usage(0, 7000, 0, 2000, 128);
    let r = RunnerStatus::from_wait(2 << 8, &ru);
    assert_eq!(r.time_used, 7 + 2);
    assert_eq!(r.memory_used, 128);
    assert_eq!(r.exit_code, 2);
    assert_eq!(r.signal, 0);
    assert_eq!(r.status, 2 << 8);
}

#[test]
fn accounting_sums_microseconds_before_dividing() {
    // each stream alone is under a millisecond; together they make one
    let ru = usage(0, 999, 0, 999, 0);
    let s = status_of_wait(0, &ru, 0);
    assert_eq!(s.cpu_time_used, 1);
    let r = RunnerStatus::from_wait(0, &ru);
    assert_eq!(r.time_used, 1);
}

#[test]
fn new_rusage_is_all_zero() {
    let ru = new_rusage();
    assert_eq!(ru.utime_sec, 0);
    assert_eq!(ru.utime_usec, 0);
    assert_eq!(ru.stime_sec, 0);
    assert_eq!(ru.stime_usec, 0);
    assert_eq!(ru.maxrss, 0);
}
