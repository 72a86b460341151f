use river::opts::Opts;
use river::sys::linux::{
    cpu_rlimit_seconds, memory_rlimit_bytes, namespace_plan, OpenKind, RlimitResource, Sandbox,
};
use river::sys::SandboxImpl;

fn opts_for(cmd: &[&str]) -> Opts {
    let mut o = Opts::default();
    for c in cmd {
        o.command.push(c.to_string());
    }
    o
}

#[test]
fn cpu_seconds_round_up_with_margin() {
    assert_eq!(cpu_rlimit_seconds(1000), 1);
    assert_eq!(cpu_rlimit_seconds(2000), 2);
    assert_eq!(cpu_rlimit_seconds(1), 1);
    assert_eq!(cpu_rlimit_seconds(800), 1);
    assert_eq!(cpu_rlimit_seconds(801), 2);
    assert_eq!(cpu_rlimit_seconds(999), 2);
    assert_eq!(cpu_rlimit_seconds(1500), 2);
    assert_eq!(cpu_rlimit_seconds(1801), 3);
    assert_eq!(cpu_rlimit_seconds(0), 0);
}

#[test]
fn memory_bytes_are_twice_the_kib() {
    assert_eq!(memory_rlimit_bytes(1), 2048);
    assert_eq!(memory_rlimit_bytes(65536), 134217728);
    assert_eq!(memory_rlimit_bytes(u32::MAX), (u32::MAX as u64) * 2048);
}

#[test]
fn namespaces_follow_the_network_switch() {
    let closed = namespace_plan(false);
    assert!(closed.net && closed.user && closed.uts && closed.mount);
    assert!(closed.ipc && closed.cgroup && closed.pid);
    let open = namespace_plan(true);
    assert!(!open.net);
    assert!(open.user && open.pid);
}

#[test]
fn with_opts_carries_every_field() {
    let mut o = opts_for(&["/bin/echo", "hello"]);
    o.time_limit = Some(1000);
    o.cpu_time_limit = Some(2000);
    o.memory_limit = Some(65536);
    o.file_size_limit = Some(1024);
    o.pids_limit = Some(10);
    o.input = Some("in.txt".to_string());
    o.workdir = Some("/tmp".to_string());
    o.network_enabled = true;
    let sb = Sandbox::with_opts(o);
    assert_eq!(sb.inner_args, vec!["/bin/echo".to_string(), "hello".to_string()]);
    assert_eq!(sb.time_limit, Some(1000));
    assert_eq!(sb.cpu_time_limit, Some(2000));
    assert_eq!(sb.memory_limit, Some(65536));
    assert_eq!(sb.file_size_limit, Some(1024));
    assert_eq!(sb.pids_limit, Some(10));
    assert_eq!(sb.input, Some("in.txt".to_string()));
    assert_eq!(sb.output, None);
    assert_eq!(sb.workdir, Some("/tmp".to_string()));
    assert!(sb.network_enabled);
}

#[test]
fn rlimit_plan_orders_all_active_ceilings() {
    let mut o = opts_for(&["./alloc", "256"]);
    o.cpu_time_limit = Some(1000);
    o.memory_limit = Some(65536);
    o.file_size_limit = Some(1024);
    o.pids_limit = Some(10);
    let sb = Sandbox::with_opts(o);
    let plan = sb.rlimit_plan();
    assert_eq!(plan.len(), 5);
    assert_eq!(plan[0].resource, RlimitResource::CpuSeconds);
    assert_eq!(plan[0].soft, 1);
    assert_eq!(plan[0].hard, 1);
    assert_eq!(plan[1].resource, RlimitResource::AddressSpace);
    assert_eq!(plan[1].soft, 134217728);
    assert_eq!(plan[2].resource, RlimitResource::Stack);
    assert_eq!(plan[2].soft, 134217728);
    assert_eq!(plan[3].resource, RlimitResource::FileSize);
    assert_eq!(plan[3].soft, 1024);
    assert_eq!(plan[4].resource, RlimitResource::ProcessCount);
    assert_eq!(plan[4].soft, 10);
    assert_eq!(plan[4].hard, 10);
}

#[test]
fn zero_and_absent_limits_are_uncapped() {
    let mut o = opts_for(&["/bin/echo", "hello"]);
    o.file_size_limit = Some(0);
    let sb = Sandbox::with_opts(o);
    assert_eq!(sb.rlimit_plan().len(), 0);
}

#[test]
fn pids_cap_alone_makes_one_entry() {
    let mut o = opts_for(&["./forkbomb"]);
    o.pids_limit = Some(10);
    let sb = Sandbox::with_opts(o);
    let plan = sb.rlimit_plan();
    assert_eq!(plan.len(), 1);
    assert_eq!(plan[0].resource, RlimitResource::ProcessCount);
    assert_eq!(plan[0].soft, 10);
}

#[test]
fn redirects_follow_stream_order() {
    let mut o = opts_for(&["/bin/echo", "hello"]);
    o.output = Some("/tmp/o".to_string());
    let sb = Sandbox::with_opts(o);
    let rs = sb.redirect_plan();
    assert_eq!(rs.len(), 1);
    assert_eq!(rs[0].path, "/tmp/o");
    assert_eq!(rs[0].kind, OpenKind::CreateTruncate);
    assert_eq!(rs[0].mode, 0o644);
    assert_eq!(rs[0].target_fd, 1);
}

#[test]
fn all_three_redirects() {
    let mut o = opts_for(&["./a"]);
    o.input = Some("i".to_string());
    o.output = Some("o".to_string());
    o.error = Some("e".to_string());
    let sb = Sandbox::with_opts(o);
    let rs = sb.redirect_plan();
    assert_eq!(rs.len(), 3);
    assert_eq!(rs[0].kind, OpenKind::ReadOnly);
    assert_eq!(rs[0].target_fd, 0);
    assert_eq!(rs[1].target_fd, 1);
    assert_eq!(rs[2].target_fd, 2);
    assert_eq!(rs[2].path, "e");
}

#[test]
fn guest_plan_combines_everything() {
    let mut o = opts_for(&["/bin/echo", "hello"]);
    o.memory_limit = Some(65536);
    o.output = Some("/tmp/o".to_string());
    o.workdir = Some("/work".to_string());
    let sb = Sandbox::with_opts(o);
    let g = sb.guest_plan().unwrap();
    assert_eq!(g.rlimits.len(), 2);
    assert_eq!(g.redirects.len(), 1);
    assert_eq!(g.workdir, Some("/work".to_string()));
    assert_eq!(g.exec_args.pathname, "/bin/echo");
    assert_eq!(g.exec_args.argv, vec!["/bin/echo".to_string(), "hello".to_string()]);
    assert_eq!(g.exec_args.envp.len(), 0);
}

#[test]
fn guest_plan_rejects_empty_command() {
    let sb = Sandbox::with_opts(Opts::default());
    assert!(sb.guest_plan().is_err());
}
