use lilium_sys::process::{
    Command, CommandStatus, ExitStatus, ExitStatusError, JoinStep, Stdio, process_join_decision,
};
use lilium_sys::fs::PathBuf;
use lilium_sys::sys::except::ExceptionStatusInfo;
use lilium_sys::sys::handle::HandlePtr;
use lilium_sys::sys::result::{INTERRUPTED, KILLED, PERMISSION, SIGNALED, TIMEOUT};
use lilium_sys::uuid::Uuid;

fn some_exception() -> ExceptionStatusInfo {
    ExceptionStatusInfo { except_code: Uuid::nil(), except_info: 3, except_reason: 4 }
}

#[test]
fn normal_zero_exit_is_success() {
    let s = ExitStatus(CommandStatus::Normal(0));
    assert!(s.success());
    assert!(s.exit_ok().is_ok());
    assert_eq!(s.exit_code(), Some(0));
    assert!(!s.killed());
    assert!(!s.abnormal());
    assert!(s.exception().is_none());
    assert_eq!(ExitStatus::default(), s);
}

#[test]
fn nonzero_exit_is_an_error_but_not_abnormal() {
    let s = ExitStatus(CommandStatus::Normal(3));
    assert!(!s.success());
    let e: ExitStatusError = s.exit_ok().unwrap_err();
    assert_eq!(e.exit_code(), Some(3));
    assert!(!e.killed());
    assert!(!e.abnormal());
    assert!(!s.abnormal());
}

#[test]
fn killed_and_exceptional_ends_are_abnormal() {
    let k = ExitStatus(CommandStatus::Killed);
    assert!(k.killed());
    assert!(k.abnormal());
    assert_eq!(k.exit_code(), None);

    let x = ExitStatus(CommandStatus::UnmanagedException(some_exception()));
    assert!(x.abnormal());
    assert_eq!(x.exception().unwrap().except_info, 3);
    let e = x.exit_ok().unwrap_err();
    assert!(e.abnormal());
    assert_eq!(e.exception().unwrap().except_reason, 4);
}

#[test]
fn join_decisions_classify_every_outcome() {
    let exc = some_exception();
    assert_eq!(
        process_join_decision(17, exc),
        JoinStep::Finished(CommandStatus::Normal(17))
    );
    assert_eq!(
        process_join_decision(SIGNALED, exc),
        JoinStep::Finished(CommandStatus::UnmanagedException(exc))
    );
    assert_eq!(process_join_decision(KILLED, exc), JoinStep::Finished(CommandStatus::Killed));
    assert_eq!(process_join_decision(INTERRUPTED, exc), JoinStep::Retry);
    assert_eq!(process_join_decision(TIMEOUT, exc), JoinStep::RetryClearTimeout);
    assert!(matches!(process_join_decision(PERMISSION, exc), JoinStep::Fail(_)));
}

#[test]
fn command_constructor_fills_the_standard_slots() {
    let stdin: HandlePtr<lilium_sys::sys::io::IOHandle> =
        HandlePtr { addr: 0x10, _marker: core::marker::PhantomData };
    let stdout: HandlePtr<lilium_sys::sys::io::IOHandle> =
        HandlePtr { addr: 0x20, _marker: core::marker::PhantomData };
    let stderr: HandlePtr<lilium_sys::sys::io::IOHandle> =
        HandlePtr { addr: 0x30, _marker: core::marker::PhantomData };
    let cmd = Command::new(PathBuf::from_string(String::from("/bin/init")), stdin, stdout, stderr);
    assert_eq!(cmd.cmd.as_path().as_str(), "/bin/init");
    assert_eq!(cmd.args.len(), 1);
    assert_eq!(cmd.args[0], "/bin/init");
    assert_eq!(cmd.init_handles.len(), 3);
    assert_eq!(cmd.init_handles[0].addr(), 0x10);
    assert_eq!(cmd.init_handles[1].addr(), 0x20);
    assert_eq!(cmd.init_handles[2].addr(), 0x30);
    assert!(cmd.resolution_base.is_null());
    assert!(cmd.env.is_null());
    assert_eq!(cmd.flags, 0);

    let base: HandlePtr<lilium_sys::sys::fs::FileHandle> =
        HandlePtr { addr: 0x99, _marker: core::marker::PhantomData };
    let rooted =
        Command::new_in(base, PathBuf::from_string(String::from("tool")), stdin, stdout, stderr);
    assert_eq!(rooted.resolution_base.addr(), 0x99);
}

#[test]
fn command_builder_keeps_the_standard_streams_in_order() {
    let mut cmd = Command::new(
        PathBuf::from_string(String::from("/bin/init")),
        HandlePtr::null(),
        HandlePtr::null(),
        HandlePtr::null(),
    );
    let extra: HandlePtr<lilium_sys::sys::handle::Handle> =
        HandlePtr { addr: 0x4000, _marker: core::marker::PhantomData };
    cmd.init_handle(extra);
    assert_eq!(cmd.init_handles.len(), 4);
    assert_eq!(cmd.init_handles[3].addr(), 0x4000);

    let stream: HandlePtr<lilium_sys::sys::io::IOHandle> =
        HandlePtr { addr: 0x1000, _marker: core::marker::PhantomData };
    cmd.stdin(stream);
    assert_eq!(cmd.init_handles[0].addr(), 0x1000);
    let stream2: HandlePtr<lilium_sys::sys::io::IOHandle> =
        HandlePtr { addr: 0x2000, _marker: core::marker::PhantomData };
    cmd.stdout(stream2);
    assert_eq!(cmd.init_handles[1].addr(), 0x2000);
    let stream3: HandlePtr<lilium_sys::sys::io::IOHandle> =
        HandlePtr { addr: 0x3000, _marker: core::marker::PhantomData };
    cmd.stderr(stream3);
    assert_eq!(cmd.init_handles[2].addr(), 0x3000);

    assert_eq!(Stdio::null().0.addr(), 0);
}

#[test]
fn handle_casts_keep_the_token() {
    let h: HandlePtr<lilium_sys::sys::io::IOHandle> =
        HandlePtr { addr: 0xabc, _marker: core::marker::PhantomData };
    let g: HandlePtr<lilium_sys::sys::handle::Handle> = h.cast();
    assert_eq!(g.addr(), 0xabc);
    assert!(!g.is_null());
    assert!(HandlePtr::<lilium_sys::sys::handle::Handle>::null().is_null());
}
