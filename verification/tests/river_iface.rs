use river::river::{River, RiverResult};
use river::runner::{Runner, STACK_SIZE};
use river::sandbox::Sandbox;
use river::utils::Rusage;

#[test]
fn river_splits_the_command_line() {
    let r = River::new("/bin/echo hello world");
    assert_eq!(r.file, "/bin/echo");
    assert_eq!(r.args, vec!["hello".to_string(), "world".to_string()]);
    assert_eq!(r.get_time_limit(), None);
    assert_eq!(r.get_memory_limit(), None);
    assert_eq!(r.get_in_fd(), None);
    assert_eq!(r.get_out_fd(), None);
    assert_eq!(r.get_err_fd(), None);
}

#[test]
fn river_split_handles_runs_of_white_space() {
    let r = River::new("  prog \t a\u{3000}b\nc  ");
    assert_eq!(r.file, "prog");
    assert_eq!(r.args, vec!["a".to_string(), "b".to_string(), "c".to_string()]);
}

#[test]
fn river_setters_and_getters() {
    let mut r = River::new("prog");
    r.set_time_limit(1000);
    r.set_memory_limit(65536);
    r.set_in_fd(0);
    r.set_out_fd(1);
    r.set_err_fd(2);
    assert_eq!(r.get_time_limit(), Some(1000));
    assert_eq!(r.get_memory_limit(), Some(65536));
    assert_eq!(r.get_in_fd(), Some(0));
    assert_eq!(r.get_out_fd(), Some(1));
    assert_eq!(r.get_err_fd(), Some(2));
}

#[test]
fn river_summary_lists_command_and_limits() {
    let mut r = River::new("/bin/echo hello");
    r.set_time_limit(1000);
    r.set_memory_limit(65536);
    assert_eq!(
        r.__str__(),
        "command:      /bin/echo hello\ntime limit:   1000\nmemory limit: 65536"
    );
}

#[test]
fn river_summary_without_limits_is_one_line() {
    let r = River::new("prog");
    assert_eq!(r.__str__(), "command:      prog");
}

#[test]
fn river_result_getters() {
    let r = RiverResult { time_used: 12, memory_used: 34, signal: 9, exit_code: 1 };
    assert_eq!(r.time_used(), 12);
    assert_eq!(r.memory_used(), 34);
    assert_eq!(r.signal(), 9);
    assert_eq!(r.exit_code(), 1);
}

#[test]
fn runner_clone_plan_uses_a_fixed_stack_and_all_namespaces() {
    let p = Runner::clone_plan();
    assert_eq!(p.stack_size, 1024 * 1024);
    assert_eq!(p.stack_size, STACK_SIZE);
    assert!(p.namespaces.user && p.namespaces.net && p.namespaces.pid);
    assert!(p.namespaces.uts && p.namespaces.mount && p.namespaces.ipc && p.namespaces.cgroup);
}

#[test]
fn runner_result_carries_wall_clock_and_decoded_end() {
    let ru = Rusage { utime_sec: 1, utime_usec: 0, stime_sec: 0, stime_usec: 0, maxrss: 2048 };
    // a deadline kill: the guest died by SIGKILL after 1.5 s of wall time
    let killed = Runner::result_of_wait(9, &ru, 1500);
    assert_eq!(killed.time_used(), 1500);
    assert_eq!(killed.memory_used(), 2048);
    assert_eq!(killed.signal(), 9);
    assert_eq!(killed.exit_code(), 0);
    // a normal exit with code 3
    let exited = Runner::result_of_wait(3 << 8, &ru, 20);
    assert_eq!(exited.time_used(), 20);
    assert_eq!(exited.exit_code(), 3);
    assert_eq!(exited.signal(), 0);
}

#[test]
fn sandbox_builder_sets_each_limit() {
    let sb = Sandbox::new(vec!["prog".to_string(), "arg".to_string()])
        .time_limit(Some(1000))
        .cpu_time_limit(Some(2000))
        .memory_limit(Some(65536));
    assert_eq!(sb.inner_args, vec!["prog".to_string(), "arg".to_string()]);
    assert_eq!(sb.time_limit, Some(1000));
    assert_eq!(sb.cpu_time_limit, Some(2000));
    assert_eq!(sb.memory_limit, Some(65536));
}

#[test]
fn sandbox_run_plan_combines_creation_limits_and_timeout() {
    let sb = Sandbox::new(vec!["prog".to_string(), "a".to_string(), "b".to_string()])
        .time_limit(Some(1000))
        .cpu_time_limit(Some(500))
        .memory_limit(Some(1024));
    let (creation, limits, timeout) = sb.run_plan().unwrap();
    assert_eq!(creation.app, "prog");
    assert_eq!(creation.command_line, Some("a b".to_string()));
    assert!(creation.create_suspended);
    assert!(!creation.inherit_handles);
    assert_eq!(limits.process_time_limit_100ns, Some(5_000_000));
    assert_eq!(limits.working_set_bytes, Some(1024 * 1024));
    assert_eq!(timeout, 1000);
}

#[test]
fn sandbox_run_plan_rejects_empty_command() {
    let sb = Sandbox::new(Vec::new());
    assert!(sb.run_plan().is_err());
}
