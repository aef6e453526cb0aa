use litebox_test_harness::agents::AgentName;
use litebox_test_harness::clone3::{
    cgroup_unavailable, check_cgroup_outcome, check_dropbear_clone_success,
    check_dropbear_session_setup_success, check_set_tid_outcome, check_success_with_pidfd,
    check_success_without_pidfd, check_vfork_success, checked_outcome, clone_result_error,
    clone_wait_step, documented_error, expect_cgroup_outcome, expect_set_tid_outcome,
    expect_success_with_pidfd, expect_success_without_pidfd, expect_vfork_success, legacy_flags,
    marker_report, process_args, process_argv, process_report, pty_complaint, session_report,
    session_result, session_sockets, session_steps, session_wait_secs, setup_failed, thread_args, thread_report,
    timed_wait_step, vfork_args, vfork_report, waited_report, Clone3Out, CloneWait, DropbearSessionStage, PtyRead,
    SessionEvent, SessionStep, TimedWait, CLONE_CHILD_CLEARTID, CLONE_FILES, CLONE_FS, CLONE_INTO_CGROUP,
    CLONE_PARENT_SETTID, CLONE_PIDFD, CLONE_SETTLS, CLONE_SIGHAND, CLONE_SYSVSEM, CLONE_THREAD,
    CLONE_VFORK, CLONE_VM, DROPBEAR_MARKER, SIGCHLD,
};

fn worked(pid: u64, pidfd: Option<i32>) -> Clone3Out {
    Clone3Out { pid, pidfd, ok: true, error: None }
}

fn refused(error: &str) -> Clone3Out {
    clone_result_error(error.to_string())
}

#[test]
fn flags_are_the_systems() {
    assert_eq!(CLONE_VM, libc::CLONE_VM as u64);
    assert_eq!(CLONE_FS, libc::CLONE_FS as u64);
    assert_eq!(CLONE_FILES, libc::CLONE_FILES as u64);
    assert_eq!(CLONE_SIGHAND, libc::CLONE_SIGHAND as u64);
    assert_eq!(CLONE_PIDFD, libc::CLONE_PIDFD as u64);
    assert_eq!(CLONE_VFORK, libc::CLONE_VFORK as u64);
    assert_eq!(CLONE_THREAD, libc::CLONE_THREAD as u64);
    assert_eq!(CLONE_SYSVSEM, libc::CLONE_SYSVSEM as u64);
    assert_eq!(CLONE_SETTLS, libc::CLONE_SETTLS as u64);
    assert_eq!(CLONE_PARENT_SETTID, libc::CLONE_PARENT_SETTID as u64);
    assert_eq!(CLONE_CHILD_CLEARTID, libc::CLONE_CHILD_CLEARTID as u64);
    assert_eq!(CLONE_INTO_CGROUP, 1 << 33);
    assert_eq!(SIGCHLD, libc::SIGCHLD as u64);
    assert_eq!(DROPBEAR_MARKER, b'H');
}

#[test]
fn results_show_as_derived_debug_does() {
    let rows = [
        worked(7, None),
        worked(u64::MAX, Some(-1)),
        refused("a \"quote\" and\nmore"),
    ];
    for r in rows {
        assert_eq!(r.debug_text(), format!("{r:?}"));
    }
}

#[test]
fn documented_errors() {
    assert!(documented_error("clone3: ENOSYS", &["ENOSYS", "EPERM"]));
    assert!(documented_error("EPERM", &["ENOSYS", "EPERM"]));
    assert!(!documented_error("EINVAL", &["ENOSYS", "EPERM"]));
    assert!(!documented_error("EINVAL", &[]));
}

#[test]
fn calls_without_a_descriptor() {
    assert_eq!(expect_success_without_pidfd(&worked(3, None)), Ok(()));
    assert_eq!(expect_success_without_pidfd(&refused("ENOSYS")), Ok(()));
    assert_eq!(
        expect_success_without_pidfd(&refused("EINVAL")),
        Err("expected clone3 success or documented native ENOSYS/seccomp result without pidfd, \
             got Clone3Out { pid: 0, pidfd: None, ok: false, error: Some(\"EINVAL\") }"
            .to_string())
    );
    assert!(expect_success_without_pidfd(&worked(3, Some(4))).is_err());
    assert!(expect_success_without_pidfd(&worked(0, None)).is_err());
    assert_eq!(expect_vfork_success(&worked(3, None)), Ok(()));
    let e = expect_vfork_success(&refused("EPERM")).unwrap_err();
    assert!(e.starts_with("expected clone3(CLONE_VFORK) success or documented native"));
    assert_eq!(check_success_without_pidfd(&worked(3, None)), Ok(worked(3, None).debug_text()));
    assert_eq!(check_vfork_success(&worked(3, None)), Ok(worked(3, None).debug_text()));
    assert!(check_vfork_success(&refused("EPERM")).is_err());
}

#[test]
fn calls_with_options() {
    assert_eq!(expect_success_with_pidfd(&worked(3, Some(5))), Ok(()));
    assert!(expect_success_with_pidfd(&worked(3, None)).is_err());
    assert!(expect_success_with_pidfd(&worked(3, Some(-1))).is_err());
    assert!(check_success_with_pidfd(&refused("ENOSYS")).is_ok());
    assert_eq!(expect_set_tid_outcome(&refused("EPERM")), Ok(()));
    assert!(expect_set_tid_outcome(&refused("EINVAL")).is_err());
    assert!(check_set_tid_outcome(&worked(1, None)).is_ok());
    for name in ["EACCES", "EBADF", "EINVAL", "ENOENT", "ENOSYS", "EOPNOTSUPP", "EPERM", "EROFS"] {
        assert_eq!(expect_cgroup_outcome(&refused(name)), Ok(()));
    }
    assert!(expect_cgroup_outcome(&refused("EAGAIN")).is_err());
    assert!(check_cgroup_outcome(&cgroup_unavailable(Some(libc::EINTR))).is_ok());
    assert_eq!(
        cgroup_unavailable(Some(libc::ENOENT)).error.as_deref(),
        Some("cgroup_fd_unavailable:ENOENT; fallback attempted /sys/fs/cgroup")
    );
}

#[test]
fn session_children() {
    assert!(check_dropbear_clone_success(&worked(3, None)).is_ok());
    assert!(check_dropbear_clone_success(&refused("ENOSYS")).is_err());
    assert!(check_dropbear_session_setup_success(&worked(3, None)).is_ok());
    let bad = refused("child_status:1");
    let checked = check_dropbear_session_setup_success(&bad);
    let o = checked_outcome(AgentName::Dpg2, checked, &bad);
    assert!(!o.pass);
    assert_eq!(o.agent, "dpg2");
    let shown = bad.debug_text();
    assert_eq!(
        o.detail,
        format!(
            "expected dropbear session child to exec and exit successfully, got {shown}; \
             response={shown}"
        )
    );
    let o = checked_outcome(AgentName::Dpg2, Ok("fine".to_string()), &bad);
    assert!(o.pass);
    assert_eq!(o.detail, "fine");
}

#[test]
fn waiting_for_a_clone() {
    assert!(matches!(clone_wait_step(true, 0, None), CloneWait::Done { result: Ok(()) }));
    assert!(matches!(
        clone_wait_step(true, 256, None),
        CloneWait::Done { result: Err(e) } if e == "child status=256"
    ));
    assert!(matches!(clone_wait_step(false, 0, Some(libc::EINTR)), CloneWait::Again));
    assert!(matches!(
        clone_wait_step(false, 0, Some(libc::EBADF)),
        CloneWait::Done { result: Err(e) } if e == "EBADF"
    ));
    assert!(matches!(
        clone_wait_step(false, 0, None),
        CloneWait::Done { result: Err(e) } if e == "errno=0"
    ));
}

#[test]
fn reports_of_clones() {
    assert_eq!(waited_report(4, Ok(())).debug_text(), worked(4, None).debug_text());
    let r = waited_report(4, Err("EBADF".to_string()));
    assert_eq!((r.pid, r.ok, r.error.as_deref()), (4, false, Some("wait:EBADF")));
    assert!(marker_report("clone", 1, b'H', 4, Ok(())).ok);
    assert_eq!(
        marker_report("clone", 1, b'h', 4, Ok(())).error.as_deref(),
        Some("clone_marker_failed:read=1,byte=104")
    );
    assert!(vfork_report(4, 2, Ok(())).ok);
    assert_eq!(
        vfork_report(4, 1, Ok(())).error.as_deref(),
        Some("vfork_parent_resumed_before_child_exit:stage=1")
    );
    assert_eq!(thread_report(1, 9).debug_text(), worked(9, None).debug_text());
    assert_eq!(
        thread_report(0, 9).error.as_deref(),
        Some("thread_signal_failed:read=0,tid=9")
    );
    assert_eq!(process_report(4, true, 6, Ok(())).debug_text(), worked(4, Some(6)).debug_text());
    assert_eq!(process_report(4, true, -1, Ok(())).error.as_deref(), Some("missing_pidfd"));
    assert_eq!(process_report(4, false, 6, Ok(())).pidfd, None);
    assert_eq!(setup_failed("pipe", "EMFILE").error.as_deref(), Some("pipe:EMFILE"));
    for with_pidfd in [false, true] {
        let r = process_report(4, with_pidfd, 6, Ok(()));
        let judged = if with_pidfd {
            expect_success_with_pidfd(&r)
        } else {
            expect_success_without_pidfd(&r)
        };
        assert_eq!(judged, Ok(()));
    }
}

#[test]
fn arguments_of_clones() {
    let a = process_args(16, None, None, None);
    assert_eq!(a.flags, CLONE_CHILD_CLEARTID);
    assert_eq!((a.child_tid, a.exit_signal, a.pidfd, a.set_tid_size), (16, SIGCHLD, 0, 0));
    let a = process_args(16, Some(32), Some(48), Some(7));
    assert_eq!(a.flags, CLONE_CHILD_CLEARTID | CLONE_PIDFD | CLONE_INTO_CGROUP);
    assert_eq!((a.pidfd, a.set_tid, a.set_tid_size, a.cgroup), (32, 48, 1, 7));
    let a = thread_args(1, 2, 3);
    assert_eq!(a.flags, 0x3d0f00);
    assert_eq!((a.parent_tid, a.child_tid, a.tls, a.exit_signal), (1, 2, 3, 0));
    let a = vfork_args(Some(5));
    assert_eq!(a.flags, CLONE_VM | CLONE_VFORK | CLONE_CHILD_CLEARTID);
    assert_eq!((a.child_tid, a.exit_signal), (5, SIGCHLD));
    assert_eq!(vfork_args(None).flags, CLONE_VM | CLONE_VFORK);
    assert_eq!(legacy_flags(), 0x4111);
    assert_eq!(
        process_argv(None),
        vec!["/bin/sh", "sh", "-c", "getpid >/dev/null; exit 0"]
    );
    assert_eq!(process_argv(Some("/h")), vec!["/h", "/h", "echo-test"]);
    assert_eq!(process_argv(Some("a\0b")), vec!["/bin/false", "/bin/false", "echo-test"]);
}

#[test]
fn session_stages_take_their_steps() {
    assert_eq!(
        session_steps(DropbearSessionStage::ExecOnly, 2),
        vec![SessionStep::CloseMaster, SessionStep::ExecTrue]
    );
    assert_eq!(
        session_steps(DropbearSessionStage::Full, 5),
        vec![
            SessionStep::Setsid,
            SessionStep::TakeTerminal,
            SessionStep::DupTerminal { target: 0 },
            SessionStep::DupTerminal { target: 1 },
            SessionStep::DupTerminal { target: 2 },
            SessionStep::CloseSlave,
            SessionStep::CloseMaster,
            SessionStep::ExecEcho,
        ]
    );
    let all = [
        DropbearSessionStage::ExecOnly,
        DropbearSessionStage::Setsid,
        DropbearSessionStage::DupStdio,
        DropbearSessionStage::Tiocsctty,
        DropbearSessionStage::Full,
        DropbearSessionStage::FullBash,
        DropbearSessionStage::FullSetidNetwork,
    ];
    for stage in all {
        let steps = session_steps(stage, 9);
        let last = steps[steps.len() - 1];
        assert_eq!(last.failure_code(), Some(127));
        assert!(steps[..steps.len() - 1].iter().all(|s| s.failure_code() != Some(127)));
        let sets_ids = stage == DropbearSessionStage::FullSetidNetwork;
        assert_eq!(steps.contains(&SessionStep::Setuid), sets_ids);
        assert_eq!(session_sockets(stage), if sets_ids { 2 } else { 0 });
    }
    assert_eq!(DropbearSessionStage::FullBash.label(), "full_bash");
    assert!(DropbearSessionStage::DupStdio.uses_pty_stdio());
    assert!(!DropbearSessionStage::FullSetidNetwork.uses_pty_stdio());
    assert_eq!(SessionStep::Setgid.failure_code(), Some(114));
    assert_eq!(SessionStep::CloseSlave.failure_code(), None);
}

#[test]
fn reports_of_sessions() {
    let hello = || PtyRead::Data { text: "HELLO_CL3\r\n".to_string() };
    let noise = || PtyRead::Data { text: "x\n".to_string() };
    assert!(pty_complaint(&hello()).is_none());
    assert!(pty_complaint(&PtyRead::Unused).is_none());
    assert_eq!(
        pty_complaint(&noise()).and_then(|o| o.error),
        Some("missing HELLO_CL3 in pty data \"x\\n\"".to_string())
    );
    assert_eq!(
        pty_complaint(&PtyRead::Failed { error: "EIO".to_string() }).and_then(|o| o.error),
        Some("pty_read:EIO".to_string())
    );
    assert_eq!(session_wait_secs(&pty_complaint(&noise())), 1);
    assert_eq!(session_wait_secs(&None), 10);
    assert!(session_report(4, hello(), Ok(0)).ok);
    assert_eq!(
        session_report(4, hello(), Ok(127)).error.as_deref(),
        Some("child_status:127")
    );
    assert_eq!(
        session_report(4, PtyRead::Unused, Err("late".to_string())).error.as_deref(),
        Some("wait:late")
    );
    assert!(!session_report(4, noise(), Ok(0)).ok);
}

#[test]
fn a_session_works_where_its_child_and_its_terminal_do() {
    let shows = |word: &str| PtyRead::Data { text: format!("{word}\r\n") };
    let rows = vec![
        (SessionEvent::Ran { pid: 7, pty: shows("HELLO_CL3"), waited: Ok(0) }, None),
        (SessionEvent::Ran { pid: 7, pty: PtyRead::Unused, waited: Ok(0) }, None),
        (
            SessionEvent::Ran { pid: 7, pty: shows("HELLO_CL3"), waited: Ok(113) },
            Some("child_status:113"),
        ),
        (
            SessionEvent::Ran { pid: 7, pty: shows("HELLO"), waited: Ok(0) },
            Some("missing HELLO_CL3 in pty data \"HELLO\\r\\n\""),
        ),
        (
            SessionEvent::Ran {
                pid: 7,
                pty: PtyRead::Failed { error: "timeout".to_string() },
                waited: Ok(0),
            },
            Some("pty_read:timeout"),
        ),
        (
            SessionEvent::SetupFailed { step: "pty_open".to_string(), error: "EIO".to_string() },
            Some("pty_open:EIO"),
        ),
        (SessionEvent::Refused { error: "ENOSYS".to_string() }, Some("ENOSYS")),
    ];
    for (ev, error) in rows {
        let out = session_result(ev);
        assert_eq!(out.error.as_deref(), error);
        assert_eq!(out.pidfd, None);
        assert_eq!(out.ok, error.is_none());
        assert_eq!(out.pid > 0, out.ok);
        assert_eq!(check_dropbear_session_setup_success(&out).is_ok(), out.ok);
    }
}

#[test]
fn a_session_child_is_awaited_for_a_time() {
    let code = |waited, status, last, late| match timed_wait_step(5, waited, status, last, late) {
        TimedWait::Again => None,
        TimedWait::Done { result } => Some(result),
    };
    assert_eq!(code(0, 0, None, false), None);
    assert_eq!(code(0, 0, None, true), Some(Err("timeout".to_string())));
    assert_eq!(code(5, 0x7f00, None, true), Some(Ok(127)));
    assert_eq!(code(5, 9, None, false), Some(Ok(99)));
    assert!(matches!(code(-1, 0, Some(libc::EINTR), false), Some(Err(_))));
}
