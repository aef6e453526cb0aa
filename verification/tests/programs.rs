use litebox_test_harness::agents::AgentName;
use litebox_test_harness::canary::{
    canary, canary_args, canary_outcome, canary_report, complaint, plain_complaint,
    plain_wait_step, repeat_complaint, repeat_report, target_binary, work_complaint, ChildRun,
    Looks, PlainWait, REPEATS,
};
use litebox_test_harness::common::{
    bash_result_debug, check_argv, chunk_step, common_handler, common_program, count_arg,
    echo_result, exit_code_arg, fd_message, known_line, known_tag, large_next, large_trailer,
    letter_bytes, poll_end, poll_millis, run_millis, run_result, saw_parent, write_failed,
    write_tally, BashOut, PollEnd, RunEnd, WriteTally, COMMON_HANDLERS, COMMON_PROGRAMS,
    LARGE_BYTES, READ_CHUNK,
};
use litebox_test_harness::concurrent::{
    all_good, child_look, files_marker, files_outcome, files_report, install_outcome, openers,
    opener_code, parallel_command, parallel_outcome, pipeline, pipeline_outcome, shared_library,
    writer_args, writer_failed, writer_outcome, writer_path, ChildLook, SHARED_LIBRARIES,
};
use litebox_test_harness::df_parent::{
    fd_vanished, listener_step, open_failed, open_result, opened, opener, parent_fd_kind, pidfd_of,
    trigger_outcome, trigger_result, unknown_kind, CallEnd, ListenerCall, ListenerNext, OpenCalls,
    ParentFdKind, TriggerEnd, PARENT_FD_KINDS,
};
use litebox_test_harness::protocol::Response;
use litebox_test_harness::random::{
    nonblock, nonblock_detail, novelty, novelty_detail, sample_of, size_detail, size_exact,
    NonblockOut, RandomBytes,
};

fn words(args: &[&str]) -> Vec<String> {
    args.iter().map(|a| a.to_string()).collect()
}

fn shell(code: i32, stdout: &str) -> BashOut {
    BashOut {
        stdout: stdout.to_string(),
        stderr: String::new(),
        exit_code: code,
        timed_out: false,
    }
}

#[test]
fn runs_of_a_shell() {
    let out = run_result(RunEnd::Ended {
        code: None,
        stdout: b"o\xff".to_vec(),
        stderr: b"e".to_vec(),
    });
    let shown = bash_result_debug(&out);
    assert_eq!(shown, format!("{out:?}"));
    assert_eq!(out.map(|o| (o.exit_code, o.stdout)), Ok((-1, "o\u{fffd}".to_string())));
    let late = run_result(RunEnd::TimedOut);
    assert_eq!(bash_result_debug(&late), format!("{late:?}"));
    assert_eq!(late.map(|o| o.timed_out), Ok(true));
    assert_eq!(
        run_result(RunEnd::NotSpawned { error: "x".to_string() }).map(|o| o.exit_code),
        Err("spawn: x".to_string())
    );
    let broken = run_result(RunEnd::WaitFailed { error: "\"x\"".to_string() });
    assert_eq!(bash_result_debug(&broken), format!("{broken:?}"));
    assert_eq!(broken.map(|o| o.exit_code), Err("wait_with_output: \"x\"".to_string()));
    assert_eq!(run_millis(None), 30_000);
    assert_eq!(run_millis(Some(5)), 5);
    assert_eq!(check_argv(&words(&["x"])), Ok(()));
    assert_eq!(check_argv(&Vec::new()), Err("exec_bin: empty argv".to_string()));
}

#[test]
fn letters_repeat() {
    assert_eq!(letter_bytes(18), b"ABCDEFGHIJKLMNOPAB".to_vec());
    let long = letter_bytes(4096);
    for n in [0, 1, 15, 16, 17, 4096] {
        assert_eq!(letter_bytes(n), long[..n].to_vec());
    }
}

#[test]
fn arguments_of_programs() {
    assert_eq!(known_line("t"), "PIPEDATA:t");
    assert_eq!(known_tag(&words(&["h", "write-known"])), "default");
    assert_eq!(known_tag(&words(&["h", "write-known", "x"])), "x");
    assert_eq!(exit_code_arg(&words(&["h", "exit-with", "-7"])), -7);
    assert_eq!(exit_code_arg(&words(&["h", "exit-with", "seven"])), 0);
    assert_eq!(exit_code_arg(&words(&["h"])), 0);
    assert_eq!(count_arg(&words(&["h", "large", "12"]), LARGE_BYTES), 12);
    assert_eq!(count_arg(&words(&["h", "large", "-12"]), LARGE_BYTES), 65536);
    assert_eq!(write_failed("write", "/p", "EROFS"), "write /p: EROFS");
    assert_eq!(fd_message("CHILD", 5), "CHILD:fd=5\n");
    for k in 0..COMMON_HANDLERS {
        assert!(common_handler(k).starts_with("common."));
    }
    assert_eq!(common_handler(12), "common.echo_on_fd");
    assert_eq!(common_program(COMMON_PROGRAMS - 1), "exit-with");
}

#[test]
fn descriptors() {
    assert_eq!(write_tally(&vec![3, -1, 0, -5]), Ok(WriteTally { attempted: 4, failed: 2 }));
    assert_eq!(write_tally(&Vec::new()), Err("no fds provided".to_string()));
    assert!(saw_parent(b"\xffPB_PARENT_WROTE\n"));
    assert!(!saw_parent(b"PB_PARENT"));
    assert_eq!(poll_millis(3), 3000);
    assert_eq!(poll_millis(-1), -1000);
    assert_eq!(poll_millis(i32::MAX), i32::MAX);
    assert_eq!(poll_millis(i32::MIN), i32::MIN);
    assert!(matches!(poll_end(1, ""), PollEnd::Read));
    assert!(matches!(poll_end(0, ""), PollEnd::Nothing));
    assert!(matches!(poll_end(-1, "EINTR"), PollEnd::Fail { error } if error == "poll: EINTR"));
    assert_eq!(chunk_step(READ_CHUNK as i64), (READ_CHUNK, true));
    assert_eq!(chunk_step(10), (10, false));
    assert_eq!(chunk_step(-1), (0, false));
    assert_eq!(echo_result(4, 4, ""), Ok(4));
    assert_eq!(echo_result(0, 4, "eof"), Err("echo-on-fd read: eof".to_string()));
    assert_eq!(echo_result(4, -1, "pipe"), Err("echo-on-fd write: pipe".to_string()));
}

#[test]
fn large_output_comes_in_chunks() {
    let mut written = 0;
    let mut chunks = 0;
    loop {
        let n = large_next(200, written);
        if n == 0 {
            break;
        }
        written += n;
        chunks += 1;
    }
    assert_eq!((written, chunks), (200, 4));
    assert_eq!(large_next(200, 192), 8);
    assert_eq!(large_trailer(200), "\nLARGE_STDOUT_OK n=200\n");
}

fn ended(success: bool, stdout: &[u8], stderr: &[u8]) -> ChildRun {
    ChildRun::Ended {
        success,
        status: "exit status: 3".to_string(),
        stdout: stdout.to_vec(),
        stderr: stderr.to_vec(),
    }
}

#[test]
fn canaries_complain() {
    assert_eq!(target_binary(Some("/x"), "/f"), "/x");
    assert_eq!(target_binary(Some(""), "/f"), "/f");
    assert_eq!(target_binary(None, "/f"), "/f");
    let spawn = ChildRun::NotSpawned { error: "e".to_string() };
    assert_eq!(complaint(spawn, Looks::ForEcho), Some("spawn: e".to_string()));
    let feed = ChildRun::NotFed { error: "e".to_string() };
    assert_eq!(complaint(feed, Looks::ForPing), Some("write stdin: e".to_string()));
    let wait = ChildRun::NotWaited { error: "e".to_string() };
    assert_eq!(complaint(wait, Looks::ForPing), Some("wait: e".to_string()));
    for looks in [Looks::ForNothing, Looks::ForEcho, Looks::ForError, Looks::ForLarge] {
        let wait = ChildRun::NotWaited { error: "e".to_string() };
        assert_eq!(complaint(wait, looks), Some("spawn: e".to_string()));
    }
    assert_eq!(
        complaint(ended(false, b"", b""), Looks::ForNothing),
        Some("child exit: exit status: 3".to_string())
    );
    assert_eq!(complaint(ended(true, b"", b""), Looks::ForNothing), None);
    assert_eq!(complaint(ended(true, b"ECHO_TEST_OK\n", b""), Looks::ForEcho), None);
    assert_eq!(
        complaint(ended(true, b"no\n", b""), Looks::ForEcho),
        Some("child stdout missing ECHO_TEST_OK: \"no\\n\"".to_string())
    );
    assert_eq!(complaint(ended(true, b"", b"STDERR_ONLY_OK"), Looks::ForError), None);
    assert_eq!(
        complaint(ended(true, b"STDERR_ONLY_OK", b""), Looks::ForError),
        Some("child stderr missing STDERR_ONLY_OK: \"\"".to_string())
    );
    assert_eq!(complaint(ended(true, b"BS2_PING", b""), Looks::ForPing), None);
    assert_eq!(
        complaint(ended(true, "é".as_bytes(), b""), Looks::ForLarge),
        Some("child stdout missing LARGE_STDOUT_OK (got 2 bytes)".to_string())
    );
}

#[test]
fn canaries_report() {
    assert_eq!(canary_report("M1", 7, None), ("M1_OK pid=7".to_string(), 0));
    assert_eq!(
        canary_report("M1", 7, Some("wait: e".to_string())),
        ("M1_FAIL:wait: e".to_string(), 1)
    );
    assert_eq!(plain_complaint(0, 12, b"ECHO_TEST_OK"), None);
    assert_eq!(plain_complaint(256, 12, b""), Some("child_status=256".to_string()));
    assert_eq!(plain_complaint(0, 0, b""), Some("no_child_stdout".to_string()));
    assert_eq!(plain_complaint(0, 1, b"x"), Some("bad_stdout:\"x\"".to_string()));
    assert!(matches!(plain_wait_step(0, 0, false, 0, b""), PlainWait::Again));
    assert!(matches!(plain_wait_step(-1, 0, false, 0, b""), PlainWait::Again));
    assert!(matches!(
        plain_wait_step(0, 0, true, 12, b"ECHO_TEST_OK"),
        PlainWait::GiveUp { found } if found == "wait_timeout"
    ));
    assert!(matches!(
        plain_wait_step(5, 0, true, 12, b"ECHO_TEST_OK"),
        PlainWait::Ended { found: None }
    ));
    assert!(matches!(
        plain_wait_step(5, 256, false, 12, b"ECHO_TEST_OK"),
        PlainWait::Ended { found: Some(c) } if c == "child_status=256"
    ));
    let alive = || Ok("M3_PARENT_ALIVE\n".to_string());
    assert_eq!(work_complaint(Ok("s".to_string()), Ok(()), alive()), None);
    assert_eq!(
        work_complaint(Err("gone".to_string()), Ok(()), alive()),
        Some(
            "step2:stat=Err(\"gone\"),write=Ok(()),read=Ok(\"M3_PARENT_ALIVE\\n\")".to_string()
        )
    );
    assert_eq!(repeat_complaint(2, ended(true, b"ECHO_TEST_OK", b"")), None);
    assert_eq!(
        repeat_complaint(2, ended(false, b"", b"")),
        Some("iter=2 child exit: exit status: 3".to_string())
    );
    assert_eq!(
        repeat_complaint(2, ended(true, b"x", b"")),
        Some("iter=2 bad stdout: \"x\"".to_string())
    );
    assert_eq!(
        repeat_complaint(2, ChildRun::NotSpawned { error: "e".to_string() }),
        Some("spawn iter=2: e".to_string())
    );
    assert_eq!(repeat_report(7, Ok(REPEATS)), ("M4_OK pid=7 iterations=5".to_string(), 0));
    assert_eq!(repeat_report(7, Err("e".to_string())), ("M4_FAIL:e".to_string(), 1));
}

#[test]
fn a_canary_that_reports_success_passes() {
    for k in 0..7 {
        let (name, program, word, secs) = canary(k);
        let args = canary_args("/h", k, "/t");
        assert_eq!(args.args, vec!["/h", program]);
        assert_eq!(args.timeout_secs, Some(secs));
        assert_eq!(
            args.env,
            vec![("LITEBOX_M_TARGET_BINARY".to_string(), "/t".to_string())]
        );
        let (line, code) = canary_report(name, 9, None);
        assert!(line.contains(word));
        let r = Response::ExecResult { exit_code: code, stdout: line, stderr: String::new() };
        assert!(canary_outcome(AgentName::Dpg1, k, &r).pass);
        let (line, code) = canary_report(name, 9, Some("x".to_string()));
        let r = Response::ExecResult { exit_code: code, stdout: line, stderr: String::new() };
        assert!(!canary_outcome(AgentName::Dpg1, k, &r).pass);
    }
}

#[test]
fn children_of_a_pipeline() {
    assert_eq!(child_look(5, 0, false), ChildLook::Good);
    assert_eq!(child_look(5, 256, false), ChildLook::Bad);
    assert_eq!(child_look(0, 0, true), ChildLook::Kill);
    assert_eq!(child_look(0, 0, false), ChildLook::Again);
    assert!(all_good(&vec![ChildLook::Good, ChildLook::Good]));
    assert!(!all_good(&vec![ChildLook::Good, ChildLook::Kill]));
    assert!(all_good(&Vec::new()));
    assert_eq!((opener_code(true), opener_code(false)), (0, 1));
    assert_eq!(files_report(false, 4, true), "CONCURRENT_FS_OK:4");
    assert_eq!(
        files_report(false, 4, false),
        "CONCURRENT_FS_FAIL:4 (concurrent open+close deadlocked)"
    );
    assert_eq!(files_report(true, 6, true), "CONCURRENT_FS_MULTI_OK:6");
    assert_eq!(
        files_report(true, 6, false),
        "CONCURRENT_FS_MULTI_FAIL:6 (open write-lock deadlock)"
    );
    for many in [false, true] {
        assert!(files_report(many, 3, true).contains(files_marker(many)));
        assert!(files_outcome(AgentName::Dpg1, many, Ok(files_report(many, 3, true))).pass);
        assert!(!files_outcome(AgentName::Dpg1, many, Ok(files_report(many, 3, false))).pass);
    }
    assert_eq!((openers(false, 2), openers(true, 2)), (4, 6));
    assert_eq!(shared_library(SHARED_LIBRARIES - 1), "/lib/x86_64-linux-gnu/libnss_dns.so.2");
}

#[test]
fn pipelines_and_parallel_programs() {
    assert_eq!(pipeline(3).0, "pipe4_vscode");
    let o = pipeline_outcome(AgentName::Dpg1, 3, Ok(shell(0, "pipe4_vscode_ok: pass\n")));
    assert!(o.pass);
    assert_eq!(
        o.detail,
        "Ok(BashOut { stdout: \"pipe4_vscode_ok: pass\\n\", stderr: \"\", exit_code: 0, \
         timed_out: false })"
    );
    assert!(!pipeline_outcome(AgentName::Dpg1, 3, Err("spawn: x".to_string())).pass);
    assert_eq!(parallel_command("/t", 2), "/t echo-test & /t echo-test & wait");
    let o = parallel_outcome(AgentName::Dpg1, 2, Ok(shell(0, "ECHO_TEST_OK\nECHO_TEST_OK\n")));
    assert!(o.pass);
    assert_eq!(o.detail, "got 2/2 ECHO_TEST_OK");
    let o = parallel_outcome(AgentName::Dpg1, 3, Ok(shell(0, "ECHO_TEST_OK\n")));
    assert!(!o.pass);
    assert_eq!(o.detail, "got 1/3 ECHO_TEST_OK");
    let o = parallel_outcome(AgentName::Dpg1, 3, Err("e".to_string()));
    assert_eq!(o.detail, "Err(\"e\")");
    assert!(install_outcome(AgentName::Dpg1, 0, Ok(shell(0, "1\n"))).pass);
    assert!(!install_outcome(AgentName::Dpg1, 0, Ok(shell(0, " \n"))).pass);
    assert!(install_outcome(AgentName::Dpg1, 2, Ok(shell(0, "16384kB\n"))).pass);
    assert!(!install_outcome(AgentName::Dpg1, 3, Ok(shell(1, "Linux\n"))).pass);
}

#[test]
fn writers_at_the_same_time() {
    assert_eq!(writer_path(1, AgentName::Dpg2), "/shared/cc-fork_exec-dpg2.txt");
    let args = writer_args(1, "/p", "/h", AgentName::Dpg2);
    assert_eq!(args.args, vec!["bash", "-c", "/h echo-test > /p 2>&1"]);
    assert_eq!(args.timeout_secs, Some(10));
    let args = writer_args(3, "/p", "/h", AgentName::Dpg2);
    assert_eq!(args.args[2], "echo agent-wrote-dpg2 > /p");
    let ok = Response::ExecResult {
        exit_code: 0,
        stdout: String::new(),
        stderr: String::new(),
    };
    assert!(writer_failed(AgentName::Dpg2, &ok).is_none());
    assert_eq!(
        writer_failed(AgentName::Dpg2, &Response::NotFound).map(|o| o.detail),
        Some("writer failed: NotFound".to_string())
    );
    let done = |d: &str| Response::Done { data: Some(d.to_string()) };
    assert!(writer_outcome(AgentName::Dpg2, 0, &done("hello\n")).pass);
    assert!(!writer_outcome(AgentName::Dpg2, 0, &done("hello x")).pass);
    assert!(writer_outcome(AgentName::Dpg2, 1, &done("x ECHO_TEST_OK")).pass);
    assert!(writer_outcome(AgentName::Dpg2, 2, &done("data\n")).pass);
    assert!(writer_outcome(AgentName::Dpg2, 3, &done("agent-wrote-dpg2\n")).pass);
    assert!(!writer_outcome(AgentName::Dpg2, 3, &Response::NotFound).pass);
}

#[test]
fn kinds_of_descriptors() {
    for k in 0..PARENT_FD_KINDS {
        let kind = parent_fd_kind(k);
        assert_eq!(ParentFdKind::from_wire(kind.wire()), Some(kind));
        assert_eq!(kind.suffix(), kind.wire());
        let fds = opened(kind, 0, (8, 9), None).unwrap();
        let expected = match kind {
            ParentFdKind::StdioOnly => Vec::new(),
            ParentFdKind::Pipe | ParentFdKind::UnixSocket => vec![8, 9],
            _ => vec![0],
        };
        assert_eq!(fds, expected);
    }
    assert_eq!(ParentFdKind::from_wire("socket"), None);
    assert_eq!(unknown_kind("x"), "unknown fd_class: x");
    assert_eq!(opener(ParentFdKind::Epoll), "epoll_create1");
    assert_eq!(
        opened(ParentFdKind::Pipe, -1, (8, 9), Some(24)),
        Err("pipe2: errno=24".to_string())
    );
    assert_eq!(
        opened(ParentFdKind::TimerFd, -1, (8, 9), None),
        Err("timerfd_create: errno=-1".to_string())
    );
    assert_eq!(
        opened(ParentFdKind::PidFd, 1 << 32, (8, 9), None),
        Err("pidfd_open returned non-int fd value: 4294967296".to_string())
    );
    assert_eq!(open_failed("pipe2", Some(1)), "pipe2: errno=1");
    assert_eq!(pidfd_of(7), Ok(7));
    assert_eq!(fd_vanished(7, Some(9)), "pre-fork F_GETFD on fd=7 failed errno=9");
}

#[test]
fn a_listener_that_fails_is_closed() {
    assert!(matches!(
        listener_step(7, ListenerCall::Bind, 0, None),
        ListenerNext::Listen { fd: 7 }
    ));
    assert!(matches!(
        listener_step(7, ListenerCall::Listen, 0, None),
        ListenerNext::Ready { fd: 7 }
    ));
    for (at, text) in [
        (ListenerCall::Bind, "bind: errno=98"),
        (ListenerCall::Listen, "listen: errno=98"),
    ] {
        assert!(matches!(
            listener_step(7, at, -1, Some(98)),
            ListenerNext::Failed { close: 7, error } if error == text
        ));
    }
}

#[test]
fn no_failure_leaves_a_descriptor_open() {
    let good = CallEnd { rc: 0, errno: None };
    let bad = CallEnd { rc: -1, errno: Some(13) };
    let calls = |rc, bind, listen| OpenCalls { rc, pair: (8, 9), errno: Some(24), bind, listen };
    for k in 0..PARENT_FD_KINDS {
        let kind = parent_fd_kind(k);
        assert!(open_result(kind, calls(0, good, good)).is_ok());
        let failed = open_result(kind, calls(-1, bad, bad));
        match kind {
            ParentFdKind::StdioOnly => assert_eq!(failed, Ok(Vec::new())),
            _ => assert_eq!(failed, Err((None, format!("{}: errno=24", opener(kind))))),
        }
        // Binding and listening are calls of the listener alone.
        let closes = open_result(kind, calls(0, bad, good)).is_err();
        assert_eq!(closes, kind == ParentFdKind::InetListener);
    }
    let listener = |bind, listen| open_result(ParentFdKind::InetListener, calls(5, bind, listen));
    assert_eq!(listener(good, good), Ok(vec![5]));
    assert_eq!(listener(bad, bad), Err((Some(5), "bind: errno=13".to_string())));
    assert_eq!(listener(good, bad), Err((Some(5), "listen: errno=13".to_string())));
}

#[test]
fn triggers() {
    let ended = |success, stdout: &[u8]| TriggerEnd::Ended {
        success,
        status: "exit status: 1".to_string(),
        stdout: stdout.to_vec(),
        stderr: b"bad\xff".to_vec(),
    };
    let ok = trigger_result("/t", ended(true, b"ECHO_TEST_OK\n"));
    assert_eq!(ok, Ok("ECHO_TEST_OK\n".to_string()));
    assert!(trigger_outcome(ok).pass);
    let bad = trigger_result("/t", ended(false, b""));
    assert_eq!(bad, Err("child /t exit=exit status: 1 stderr=bad\u{fffd}".to_string()));
    assert!(!trigger_outcome(bad).pass);
    assert_eq!(
        trigger_result("/t", TriggerEnd::NotSpawned { error: "e".to_string() }),
        Err("child /t fork+exec failed: e".to_string())
    );
}

#[test]
fn random_samples() {
    let full = |n: usize, b: u8| RandomBytes { bytes: vec![b; n], errno: None };
    let s = full(3, 7);
    assert_eq!(s.debug_text(), format!("{s:?}"));
    let s = RandomBytes { bytes: Vec::new(), errno: Some(11) };
    assert_eq!(s.debug_text(), format!("{s:?}"));
    assert_eq!(sample_of(2, vec![1, 2, 3], None).bytes, vec![1, 2]);
    let none = sample_of(-1, vec![1, 2, 3], Some(libc::EAGAIN));
    assert_eq!((none.bytes.len(), none.errno), (0, Some(libc::EAGAIN)));
    assert_eq!(size_exact(&full(32, 1)), Ok(64));
    assert_eq!(
        size_exact(&full(1, 1)),
        Err("expected 32-byte success as 64 hex chars, got RandomBytes { bytes: [1], errno: \
             None }"
            .to_string())
    );
    assert_eq!(novelty(&full(32, 1), &full(32, 2)), Ok((64, 64)));
    assert!(novelty(&full(32, 1), &full(32, 1)).is_err());
    assert!(novelty(&full(32, 1), &full(31, 2)).is_err());
    assert_eq!(nonblock(&full(4096, 1)), Ok(NonblockOut { hex_len: 8192, errno: None }));
    assert_eq!(
        nonblock(&none),
        Ok(NonblockOut { hex_len: 0, errno: Some(libc::EAGAIN) })
    );
    assert!(nonblock(&full(100, 1)).is_err());
    assert_eq!(size_detail(64), "hex_len=64");
    assert_eq!(novelty_detail(), "two 32-byte samples differed");
    assert_eq!(
        nonblock_detail(&NonblockOut { hex_len: 8192, errno: None }),
        Ok("nonblock_success_hex_len=8192".to_string())
    );
    assert_eq!(
        nonblock_detail(&NonblockOut { hex_len: 0, errno: Some(libc::EAGAIN) }),
        Ok("nonblock_eagain".to_string())
    );
    assert_eq!(
        nonblock_detail(&NonblockOut { hex_len: 0, errno: Some(5) }),
        Err("unexpected errno 5".to_string())
    );
}
