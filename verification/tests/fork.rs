use litebox_test_harness::agents::AgentName;
use litebox_test_harness::fork_plans::{
    contamination_case, df_binary, exec_method, nonpie_case, shell_pattern, DfBinary, DfInvocation,
    DfTrigger, ExecBinary,
};
use litebox_test_harness::fork_probes::{
    buffered_scm_report, fd_arg, pidfd_child_code, pidfd_inherit_report, ping_complaint, pipe_report,
    pong_report, program_outcome, relaunch, relaunch_step, reply_of, scm_child_code,
    socketpair_child_code, step_failed, stress_uses_nonpie, wait_step, write_step, ProgramEvent,
    RelaunchStep, StressEvent, StressLog, WaitStep, WriteStep, SCM_SENTINEL,
};
use litebox_test_harness::fork_verdicts::{
    bash_command, bash_outcome, contamination_command, contamination_outcome, delayed_inner,
    delayed_outcome, exec_args, has_interfaces, inherited_outcome, init_level_first,
    init_level_second, kill_outcome, kill_setup_failed, leaf_outcome, method_command,
    method_outcome, needs_binary, netif_outcome, node_argv, node_outcome, nonpie_command,
    nonpie_outcome, result_debug, shell_outcome, stress_outcome, worker_argv, worker_outcome,
    Inherited,
};
use litebox_test_harness::protocol::Response;
use litebox_test_harness::registry::BinaryType;
use litebox_test_harness::wait_status::{child_end, exit_code, succeeded};

fn ran(code: i32, stdout: &str) -> Response {
    Response::ExecResult {
        exit_code: code,
        stdout: stdout.to_string(),
        stderr: String::new(),
    }
}

fn words(args: &[&str]) -> Vec<String> {
    args.iter().map(|a| a.to_string()).collect()
}

#[test]
fn status_words() {
    for code in 0..256 {
        let status = code << 8;
        assert_eq!(exit_code(status), code);
        assert_eq!(succeeded(status), code == 0);
        let expected = if code == 0 { Ok(()) } else { Err(format!("child exited {code}")) };
        assert_eq!(child_end(status), expected);
    }
    for signal in 1..127 {
        assert_eq!(exit_code(signal), 99);
        assert!(!succeeded(signal));
        assert_eq!(child_end(signal), Err(format!("child killed by signal {signal}")));
        assert_eq!(child_end(signal | 0x80), Err(format!("child killed by signal {signal}")));
    }
    assert_eq!(child_end(0x137f), Err("child unexpected wait status 0x137f".to_string()));
    assert_eq!(child_end(-1), Err("child unexpected wait status 0xffffffff".to_string()));
    assert!(libc::WIFSTOPPED(0x137f));
}

#[test]
fn shell_patterns_print_their_text() {
    let echo = shell_pattern(0);
    assert_eq!((echo.name, echo.expected), ("echo", "hello_from_bash"));
    let o = shell_outcome(AgentName::Dpg1, echo, &ran(0, "hello_from_bash\n"));
    assert!(o.pass);
    assert_eq!(o.agent, "dpg1");
    assert_eq!(
        o.detail,
        "timeout=false ExecResult { exit_code: 0, stdout: \"hello_from_bash\\n\", stderr: \"\" }"
    );
    assert!(!shell_outcome(AgentName::Dpg1, echo, &ran(1, "hello_from_bash\n")).pass);
    let counted = shell_pattern(14);
    assert_eq!(counted.expected, "");
    assert!(shell_outcome(AgentName::Dpg1, counted, &ran(0, "3\n")).pass);
    assert!(!shell_outcome(AgentName::Dpg1, counted, &ran(0, " \n")).pass);
    let late = Response::ExecTimeout { stderr: "slow".to_string() };
    let o = shell_outcome(AgentName::Dpg1, echo, &late);
    assert!(!o.pass);
    assert!(o.detail.starts_with("timeout=true "));
}

#[test]
fn node_and_methods() {
    assert_eq!(
        node_argv(AgentName::Dpg2),
        vec!["/usr/local/bin/node", "-e", "console.log('node_dpg2_ok')"]
    );
    assert!(node_outcome(AgentName::Dpg2, &ran(0, "node_dpg2_ok\n")).pass);
    assert!(!node_outcome(AgentName::Dpg2, &ran(0, "node_dpg1_ok\n")).pass);
    let m = exec_method(0);
    assert!(!needs_binary(m.cmd_template));
    assert_eq!(method_command(m, "/h"), m.cmd_template);
    assert!(needs_binary("x {self_exe}"));
    assert!(method_outcome(AgentName::Dpg1, m, &ran(0, " script_echo_ok\n")).pass);
    assert!(!method_outcome(AgentName::Dpg1, m, &ran(0, "script_echo_ok more\n")).pass);
    assert_eq!(ExecBinary::Node.suffix(), "node");
    assert_eq!(DfTrigger::Thread.suffix(), "thread");
    assert_eq!(DfInvocation::ScriptFile.suffix(), "script");
    let args = exec_args(words(&["a"]));
    assert_eq!(args.args, vec!["a"]);
    assert!(!args.background && args.stdin.is_none() && args.env.is_empty());
}

#[test]
fn interfaces_are_counted() {
    assert!(has_interfaces("noise\nNETIF_OK: 2 \n"));
    assert!(!has_interfaces("NETIF_OK:0\n"));
    assert!(!has_interfaces("NETIF_OK:x\nNETIF_OK:3\n"));
    assert!(!has_interfaces(" NETIF_OK:3"));
    assert!(netif_outcome(AgentName::Dpg1, &ran(0, "NETIF_OK:1")).pass);
    assert!(!netif_outcome(AgentName::Dpg1, &ran(2, "NETIF_OK:1")).pass);
}

#[test]
fn delayed_forks() {
    assert_eq!(
        delayed_inner(DfBinary::Harness(BinaryType::PieGlibc), "/h"),
        ("/h".to_string(), words(&["echo-test"]))
    );
    assert_eq!(
        delayed_inner(DfBinary::Node, "/h"),
        ("/usr/local/bin/node".to_string(), words(&["-e", "console.log('df_node_ok')"]))
    );
    assert_eq!(df_binary(5), DfBinary::Node);
    assert_eq!(DfBinary::Node.expected(), "df_node_ok");
    let o = delayed_outcome(AgentName::Dpg1, DfBinary::Node, Ok("df_node_ok\n".to_string()));
    assert!(o.pass);
    assert_eq!(o.detail, "Ok(TriggerDelayedForkOut { detail: \"df_node_ok\\n\" })");
    let o = delayed_outcome(AgentName::Dpg1, DfBinary::Node, Err("boom".to_string()));
    assert!(!o.pass);
    assert_eq!(o.detail, "Err(\"boom\")");
    assert_eq!(result_debug("Out", &Ok("d".to_string())), "Ok(Out { detail: \"d\" })");
    let o = leaf_outcome("x", "Out", Ok("one".to_string()), "one", "two");
    assert!(!o.pass);
    assert!(leaf_outcome("x", "Out", Ok("two one".to_string()), "one", "two").pass);
}

#[test]
fn stress_runs() {
    assert!(stress_uses_nonpie("nonpie", 0));
    assert!(!stress_uses_nonpie("mixed", 0));
    assert!(stress_uses_nonpie("mixed", 1));
    assert!(!stress_uses_nonpie("pie", 1));
    let mut log = StressLog::start("mixed", 3, true);
    log.feed(StressEvent::Ran {
        stdout: b" ECHO_TEST_OK\n".to_vec(),
        status: "exit status: 0".to_string(),
    });
    log.feed(StressEvent::Ran {
        stdout: b"no\xff".to_vec(),
        status: "signal: 9 (SIGKILL)".to_string(),
    });
    log.feed(StressEvent::SpawnFailed { error: "EAGAIN".to_string() });
    let text = log.finish();
    assert_eq!(
        text,
        "STRESS_START mode=mixed count=3 tokio=true\n\
         i=0 ok=ECHO_TEST_OK\n\
         i=1 FAIL: expected=\"ECHO_TEST_OK\" got=\"no\u{fffd}\" exit=signal: 9 (SIGKILL)\n\
         i=2 FAIL: spawn error: EAGAIN\n\
         STRESS_END failures=2"
    );
    assert!(!stress_outcome(Ok(text)).pass);
    assert!(stress_outcome(Ok(StressLog::start("pie", 0, false).finish())).pass);
}

#[test]
fn stress_runs_differ_in_their_first_line() {
    let report = |tokio: bool| {
        let mut log = StressLog::start("pie", 2, tokio);
        log.feed(StressEvent::Ran { stdout: b"ECHO_TEST_OK".to_vec(), status: "0".to_string() });
        log.feed(StressEvent::SpawnFailed { error: "no".to_string() });
        log.finish()
    };
    let (a, b) = (report(true), report(false));
    let (head_a, tail_a) = a.split_once('\n').unwrap();
    let (head_b, tail_b) = b.split_once('\n').unwrap();
    assert_eq!(tail_a, tail_b);
    assert_eq!(tail_a, "i=0 ok=ECHO_TEST_OK\ni=1 FAIL: spawn error: no\nSTRESS_END failures=1");
    assert_eq!(head_a, "STRESS_START mode=pie count=2 tokio=true");
    assert_eq!(head_b, "STRESS_START mode=pie count=2 tokio=false");
}

#[test]
fn inherited_resources() {
    assert!(inherited_outcome(Inherited::BufferedScm, Ok("BSF_OK".to_string())).pass);
    assert!(!inherited_outcome(Inherited::Socketpair, Ok("BSF_OK".to_string())).pass);
    assert!(inherited_outcome(Inherited::Socketpair, Ok("SXF_OK".to_string())).pass);
    let o = inherited_outcome(Inherited::Pidfd, Ok("PIF_FAIL:exit=2".to_string()));
    assert!(!o.pass);
    assert_eq!(o.detail, "Ok(PidfdInheritForkOut { detail: \"PIF_FAIL:exit=2\" })");
    assert_eq!(step_failed("BSF_PIPE_FAIL", 24), "BSF_PIPE_FAIL:24");
    assert_eq!(buffered_scm_report(0), "BSF_OK");
    assert_eq!(buffered_scm_report(4), "BSF_FAIL:exit=4");
    assert_eq!(pidfd_inherit_report(0), "PIF_OK");
    assert_eq!(pidfd_inherit_report(3), "PIF_FAIL:exit=3");
}

#[test]
fn socket_pair_conversation() {
    assert_eq!(reply_of(b"SXF_PONG"), "SXF_PONG");
    assert_eq!(reply_of(b"\xff"), "?");
    assert_eq!(ping_complaint(8, 0), None);
    assert_eq!(ping_complaint(-1, 32), Some("SXF_WRITE_FAIL:n=-1 errno=32".to_string()));
    assert_eq!(pong_report(8, 0, b"SXF_PONG", 0), "SXF_OK");
    assert_eq!(pong_report(8, 0, b"SXF_PONG", 1), "SXF_FAIL:reply=SXF_PONG,exit=1");
    assert_eq!(pong_report(1, 0, b"\xc0", 0), "SXF_FAIL:reply=?,exit=0");
    assert_eq!(pong_report(0, 0, b"", 2), "SXF_READ_FAIL:n=0,errno=0,exit=2");
    assert_eq!(socketpair_child_code(-1, 8, b"SXF_PING", 8), 1);
    assert_eq!(socketpair_child_code(3, 0, b"", 8), 2);
    assert_eq!(socketpair_child_code(3, 8, b"SXF_PONG", 8), 3);
    assert_eq!(socketpair_child_code(3, 8, b"SXF_PING", 7), 4);
    assert_eq!(socketpair_child_code(3, 8, b"SXF_PING", 8), 0);
}

#[test]
fn child_codes() {
    assert_eq!(SCM_SENTINEL, 0x4243_5f4f_4b21);
    assert_eq!(scm_child_code(-1, 1, 4, 8, 8, SCM_SENTINEL), 1);
    assert_eq!(scm_child_code(3, -1, 4, 8, 8, SCM_SENTINEL), 2);
    assert_eq!(scm_child_code(3, 1, -1, 8, 8, SCM_SENTINEL), 3);
    assert_eq!(scm_child_code(3, 1, 4, 4, 8, SCM_SENTINEL), 4);
    assert_eq!(scm_child_code(3, 1, 4, 8, 8, 1), 5);
    assert_eq!(scm_child_code(3, 1, 4, 8, 8, SCM_SENTINEL), 0);
    assert_eq!(pidfd_child_code(-1, 5, 1, true), 1);
    assert_eq!(pidfd_child_code(3, 5, 0, true), 2);
    assert_eq!(pidfd_child_code(3, 5, 1, false), 3);
    assert_eq!(pidfd_child_code(3, 5, 1, true), 0);
    assert_eq!(fd_arg(&words(&["a", "b", "17"]), 2), 17);
    assert_eq!(fd_arg(&words(&["a", "b", "x"]), 2), -1);
    assert_eq!(fd_arg(&words(&["a"]), 2), -1);
}

#[test]
fn launching_once_more() {
    assert_eq!(
        relaunch(&words(&["h", "fork-exec-pie"])),
        ("/opt/litebox/litebox_test_harness", "echo-test")
    );
    assert_eq!(relaunch(&words(&["h", "s", "/x", "sub"])), ("/x", "sub"));
    assert!(matches!(
        relaunch_step(5, 0, true),
        RelaunchStep::Ended { line, code: 0 } if line == "FORK_EXEC_PIE_OK"
    ));
    assert!(matches!(
        relaunch_step(5, 256, false),
        RelaunchStep::Ended { line, code: 1 } if line == "FORK_EXEC_PIE_FAIL:exit=256"
    ));
    assert!(matches!(relaunch_step(0, 0, false), RelaunchStep::Again));
    assert!(matches!(
        relaunch_step(0, 0, true),
        RelaunchStep::GiveUp { line } if line == "FORK_EXEC_PIE_FAIL:timeout"
    ));
    assert_eq!(worker_argv("/l", "/t"), vec!["/l", "fork-exec-pie", "/t", "echo-test"]);
    assert!(worker_outcome(AgentName::Dpg1, &ran(0, "FORK_EXEC_PIE_OK\n")).pass);
    assert!(!worker_outcome(AgentName::Dpg1, &ran(1, "FORK_EXEC_PIE_OK\n")).pass);
}

#[test]
fn other_binary_types() {
    assert_eq!(nonpie_command(nonpie_case(0), "/np"), None);
    assert_eq!(
        nonpie_command(nonpie_case(2), "/np"),
        Some("if [ -x /np ]; then /np echo-test; else echo SKIP; fi".to_string())
    );
    assert!(nonpie_outcome(&ran(0, "ECHO_TEST_OK\n")).pass);
    assert_eq!(nonpie_outcome(&ran(127, "")).detail, "FAIL: binary not found");
    assert_eq!(nonpie_outcome(&ran(0, "SKIP\n")).detail, "FAIL: binary not found");
    assert!(init_level_first(&ran(0, "")).is_none());
    assert_eq!(
        init_level_first(&ran(127, "")).map(|o| o.detail),
        Some("FAIL: nonpie binary not found".to_string())
    );
    assert!(init_level_second(&ran(0, "ECHO_TEST_OK\n")).pass);
    assert!(!init_level_second(&ran(0, "x ECHO_TEST_OK\n")).pass);
}

#[test]
fn contamination() {
    assert_eq!(
        contamination_command(contamination_case(3), "/h", "/np"),
        "if [ -x /np ]; then bash -c '/np echo-test >/dev/null; /h echo-test'; else echo SKIP; fi"
    );
    let c = contamination_case(0);
    assert!(contamination_outcome(c, &ran(0, "CHILD_CLEAN\n")).pass);
    let o = contamination_outcome(c, &ran(0, "SKIP\n"));
    assert!(!o.pass);
    assert_eq!(o.detail, "FAIL: nonpie binary not found");
}

#[test]
fn bash_tests() {
    assert_eq!(bash_command(1), "echo HOST=$(cat /etc/hostname)");
    assert!(bash_outcome(AgentName::Dpg1, 0, &ran(0, "LS_OK\n")).pass);
    assert!(bash_outcome(AgentName::Dpg1, 1, &ran(0, "HOST=box\n")).pass);
    assert!(!bash_outcome(AgentName::Dpg1, 1, &ran(0, "HOST=\n")).pass);
    assert!(!bash_outcome(AgentName::Dpg1, 1, &ran(0, "x HOST=box\n")).pass);
    assert!(bash_outcome(AgentName::Dpg1, 2, &ran(0, "FG_DONE\nBG_DONE\n")).pass);
    assert!(!bash_outcome(AgentName::Dpg1, 2, &ran(0, "FG_DONE\n")).pass);
}

#[test]
fn killing_a_subtree() {
    let o = kill_outcome(true, 12);
    assert!(o.pass);
    assert_eq!(o.detail, "kill_and_wait Ok elapsed=12ms budget=5s");
    let o = kill_outcome(false, 5001);
    assert!(!o.pass);
    assert_eq!(o.detail, "kill_and_wait TIMEOUT elapsed=5001ms budget=5s");
    assert_eq!(
        kill_setup_failed(true, &Response::NotFound).detail,
        "setup: spawn_ephemeral(NPx via EE) failed: NotFound"
    );
    assert_eq!(
        kill_setup_failed(false, &Response::NotFound).detail,
        "setup: spawn_ephemeral(NPx) failed: NotFound"
    );
}

#[test]
fn pipe_inheritance() {
    let ev = ProgramEvent::Ran {
        success: true,
        status: "exit status: 0".to_string(),
        stdout: b"PASS child 3\n".to_vec(),
        stderr: b"\xff".to_vec(),
    };
    let o = program_outcome("pie-glibc", "/h", " exited with ", ev);
    assert!(o.pass);
    assert_eq!(o.agent, "pie-glibc");
    assert_eq!(
        o.detail,
        "/h exited with exit status: 0 stdout=\"PASS child 3\\n\" stderr=\"\u{fffd}\""
    );
    let ev = ProgramEvent::SpawnFailed { error: "gone".to_string() };
    let o = program_outcome("pie-glibc", "/h", " exited with ", ev);
    assert!(!o.pass);
    assert_eq!(o.detail, "spawn /h: gone");
    assert!(matches!(wait_step(5, 5, 0, None, ""), WaitStep::Ended { result: Ok(()) }));
    assert!(matches!(wait_step(5, 5, 9, None, ""), WaitStep::Ended { result: Err(_) }));
    assert!(matches!(wait_step(5, -1, 0, Some(libc::EINTR), ""), WaitStep::Again));
    assert!(matches!(wait_step(5, 0, 0, None, ""), WaitStep::Again));
    assert!(matches!(
        wait_step(5, -1, 0, Some(libc::ECHILD), "No child"),
        WaitStep::Failed { error } if error == "waitpid(5): No child"
    ));
    assert_eq!(
        pipe_report(5, Ok(())),
        ("PASS child 5 epoll_ctl ADD accepted inherited pipe read fd".to_string(), 0)
    );
    assert_eq!(pipe_report(5, Err("e".to_string())), ("FAIL e".to_string(), 1));
    assert_eq!(write_step(4, 3, None), WriteStep::Advance { bytes: 3 });
    assert_eq!(write_step(4, 0, None), WriteStep::Fail);
    assert_eq!(write_step(4, -1, Some(libc::EINTR)), WriteStep::Again);
    assert_eq!(write_step(4, -1, Some(libc::EPIPE)), WriteStep::Fail);
}
