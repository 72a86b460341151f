use river::error::Error;
use river::opts::Opts;
use river::sys::linux::seccomp::{FilterAction, Policy};
use river::sys::linux::utils::ExecArgs;
use river::utils::{errno_str, last_err};

#[test]
fn error_messages_name_their_kind() {
    assert_eq!(Error::E("boom".to_string()).to_string(), "boom");
    assert_eq!(Error::Config("empty command".to_string()).to_string(), "config error: empty command");
    assert_eq!(
        Error::Os("src/run.rs".to_string(), 42, 13).to_string(),
        "src/run.rs:42: os error 13"
    );
    assert_eq!(
        Error::Os("w.rs".to_string(), 7, -2147024894).to_string(),
        "w.rs:7: os error -2147024894"
    );
    assert_eq!(Error::Io("short write".to_string()).to_string(), "io error: short write");
    assert_eq!(Error::Serialize("bad utf8".to_string()).to_string(), "serialize error: bad utf8");
}

#[test]
fn errno_text_has_a_fixed_fallback() {
    assert_eq!(errno_str(None), "Unknown Error!");
    // a real errno renders to some platform message
    let msg = errno_str(Some(2));
    assert!(!msg.is_empty());
    let _ = last_err();
}

#[test]
fn opts_default_is_empty_and_closed() {
    let o = Opts::default();
    assert!(o.command.is_empty());
    assert_eq!(o.time_limit, None);
    assert_eq!(o.cpu_time_limit, None);
    assert_eq!(o.memory_limit, None);
    assert_eq!(o.file_size_limit, None);
    assert_eq!(o.pids_limit, None);
    assert_eq!(o.input, None);
    assert_eq!(o.output, None);
    assert_eq!(o.error, None);
    assert_eq!(o.workdir, None);
    assert!(!o.network_enabled);
    assert_eq!(o.cgroup_version, 1);
    assert_eq!(o.result, None);
}

#[test]
fn validation_rejects_an_empty_command() {
    let o = Opts::default();
    let e = o.validate().unwrap_err();
    assert!(matches!(e, Error::Config(_)));
}

#[test]
fn validation_rejects_an_unknown_cgroup_version() {
    let mut o = Opts::default();
    o.command.push("/bin/true".to_string());
    o.cgroup_version = 3;
    assert!(o.validate().is_err());
    o.cgroup_version = 2;
    assert!(o.validate().is_ok());
}

#[test]
fn exec_args_carry_the_whole_vector() {
    let args = vec!["/bin/echo".to_string(), "hello".to_string()];
    let e = ExecArgs::build(&args).unwrap();
    assert_eq!(e.pathname, "/bin/echo");
    assert_eq!(e.argv, args);
    assert!(e.envp.is_empty());
}

#[test]
fn exec_args_reject_interior_nul() {
    let args = vec!["/bin/echo".to_string(), "he\0llo".to_string()];
    let e = ExecArgs::build(&args).unwrap_err();
    assert!(matches!(e, Error::E(_)));
}

#[test]
fn seccomp_policy_kills_what_it_does_not_list() {
    let mut p = Policy::new();
    assert_eq!(p.decide(0), FilterAction::Kill);
    p.allow(0);
    p.allow(60);
    assert_eq!(p.decide(0), FilterAction::Allow);
    assert_eq!(p.decide(60), FilterAction::Allow);
    assert_eq!(p.decide(59), FilterAction::Kill);
}
