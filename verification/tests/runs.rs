use litebox_test_harness::agents::AgentName;
use litebox_test_harness::asks::{two_words, Ask, Paths};
use litebox_test_harness::canary::register_minimal_canary_tests;
use litebox_test_harness::clone3::{register_clone3_matrix, Clone3Out, DropbearSessionStage};
use litebox_test_harness::clone_runs::{clone_ask, clone_check, clone_judge};
use litebox_test_harness::common::BashOut;
use litebox_test_harness::concurrent::{
    register_concurrent_fork_pipeline, register_concurrent_fs_rwlock,
};
use litebox_test_harness::counter_runs::{
    counter_answer, counter_ask, inheritance, runtime_drop_argv, CounterAnswer, RUNTIME_DROP_TEST,
};
use litebox_test_harness::epoll_plans::{register_epoll_pidfd_tests, register_epoll_socket_tests};
use litebox_test_harness::epoll_runs::{
    counts_result, detail_result, found_outcome, has_detail, listener_of, not_asked, observer,
    opened_peer, poll_ask, poll_judge, readiness_ask, socket_ask, socket_judge,
};
use litebox_test_harness::eventfd::{register_eventfd_tests, Inheritance};
use litebox_test_harness::file_runs::{
    across_client_ask, across_judge, across_server_ask, file_ask, file_judge, file_way, serve_ask,
    served_asks, served_judge, FileWay,
};
use litebox_test_harness::file_tcp::register_file_tcp;
use litebox_test_harness::fork_plans::{
    contamination_case, contamination_row, exec_method, register_fork_matrix,
};
use litebox_test_harness::fork_probes::{
    nested_result, pipe_child_report, program_limit, usage, ProgramEvent,
};
use litebox_test_harness::fork_runs::{
    bash_ask, bash_judge, fork_ask, fork_asks_twice, fork_leaf_outcome, fork_reply_outcome,
    fork_second, kill_step, worker_ask, worker_judge, KillStep, SecondAsk,
};
use litebox_test_harness::fork_verdicts::{needs_binary, Inherited};
use litebox_test_harness::observers::Observer;
use litebox_test_harness::program_runs::{
    canary_ask, canary_judge, files_ask, files_judge, install_ask, install_judge, parallel_ask,
    parallel_judge, pipe_judge, pipeline_ask, pipeline_judge, runtime_drop_judge, trigger_ask,
    writer_ask, writer_judge,
};
use litebox_test_harness::protocol::Response;
use litebox_test_harness::registry::{BinaryType, Handler};
use litebox_test_harness::spin::EpollSpinOut;

fn paths() -> Paths {
    Paths {
        own: "/own".to_string(),
        nonpie: "/np".to_string(),
        targets: (0..5).map(|k| format!("/bin{k}")).collect(),
    }
}

fn ran(code: i32, stdout: &str) -> Response {
    Response::ExecResult {
        exit_code: code,
        stdout: stdout.to_string(),
        stderr: String::new(),
    }
}

fn ok(text: &str) -> Result<String, String> {
    Ok(text.to_string())
}

fn failed(text: &str) -> Result<String, String> {
    Err(text.to_string())
}

fn bash(code: i32, stdout: &str) -> Result<BashOut, String> {
    Ok(BashOut {
        stdout: stdout.to_string(),
        stderr: String::new(),
        exit_code: code,
        timed_out: false,
    })
}

fn shell(ask: Ask) -> String {
    match ask {
        Ask::Shell { cmd, timeout_secs: None } => cmd,
        other => panic!("{other:?}"),
    }
}

fn program(ask: Ask) -> (Vec<String>, Option<u64>) {
    match ask {
        Ask::Program { argv, timeout_secs } => (argv, timeout_secs),
        other => panic!("{other:?}"),
    }
}

#[test]
fn programs_by_binary_type() {
    let p = paths();
    assert_eq!(p.target(BinaryType::PieGlibc), "/bin0");
    assert_eq!(p.target(BinaryType::NonPieGlibc), "/bin1");
    assert_eq!(p.target(BinaryType::StaticPieGlibc), "/bin2");
    assert_eq!(p.target(BinaryType::StaticPieMusl), "/bin3");
    assert_eq!(p.target(BinaryType::NonPieStaticMusl), "/bin4");
    assert_eq!(two_words("a", "b"), vec!["a", "b"]);
}

#[test]
fn fork_tests_ask_their_handler() {
    let p = paths();
    for (t, plan) in register_fork_matrix().iter().enumerate() {
        let name = match plan.handler {
            Handler::Named(name) => name,
            other => panic!("{other:?}"),
        };
        let fits = match fork_ask(t, &p) {
            Ask::Shell { .. } => name == "fork_matrix.bash",
            Ask::Program { .. } => name == "fork_matrix.exec_bin",
            Ask::Delayed { .. } => name.starts_with("fork_matrix.trigger_delayed_fork"),
            Ask::Child { .. } => matches!(
                name,
                "fork_matrix.buffered_scm_fork"
                    | "fork_matrix.socketpair_fork_cross"
                    | "fork_matrix.pidfd_inherit_fork"
            ),
            Ask::Stress { .. } => name == "fork_matrix.stress_exec",
            _ => false,
        };
        assert!(fits, "{t} {}", plan.id);
        assert_eq!(plan.cx.leaves().len() + plan.cx.agents().len(), 1);
        assert_eq!(fork_asks_twice(t), plan.id.ends_with(".init_level"));
    }
}

#[test]
fn a_binary_type_goes_with_a_template_that_names_it() {
    for j in 0..12 {
        let (c, bt) = contamination_row(j);
        assert_eq!(bt.is_some(), needs_binary(contamination_case(c).bash_template));
    }
    for k in 0..6 {
        assert!(!needs_binary(exec_method(k).cmd_template));
    }
}

#[test]
fn what_fork_tests_ask() {
    let p = paths();
    assert_eq!(shell(fork_ask(0, &p)), "echo hello_from_bash");
    assert_eq!(
        program(fork_ask(54, &p)),
        (
            vec![
                "/usr/local/bin/node".to_string(),
                "-e".to_string(),
                "console.log('node_dpg1_ok')".to_string()
            ],
            None
        )
    );
    assert_eq!(program(fork_ask(57, &p)).0[2], "process.stdout.write('stdout_write_ok\\n')");
    let (netif, secs) = program(fork_ask(64, &p));
    assert!(netif[2].starts_with("try { const r = require('os').networkInterfaces(); console.log("));
    assert!(netif[2].ends_with("catch(e) { console.log('NETIF_ERR:' + e.code); }"));
    assert_eq!(secs, Some(30));
    match fork_ask(68, &p) {
        Ask::Delayed { cmd, args } => assert_eq!((cmd.as_str(), args), ("/bin0", vec!["echo-test".to_string()])),
        other => panic!("{other:?}"),
    }
    match fork_ask(90, &p) {
        Ask::Delayed { cmd, args } => {
            assert_eq!(cmd, "/usr/local/bin/node");
            assert_eq!(args, vec!["-e", "console.log('df_node_ok')"]);
        }
        other => panic!("{other:?}"),
    }
    match fork_ask(123, &p) {
        Ask::Child { child_target } => assert_eq!(child_target, "/bin2"),
        other => panic!("{other:?}"),
    }
    match fork_ask(165, &p) {
        Ask::Stress { count, mode, use_tokio } => {
            assert_eq!((count, mode, use_tokio), (10, "mixed", true))
        }
        other => panic!("{other:?}"),
    }
    match fork_ask(136, &p) {
        Ask::Stress { count, mode, use_tokio } => {
            assert_eq!((count, mode, use_tokio), (10, "pie", false))
        }
        other => panic!("{other:?}"),
    }
    assert_eq!(program(fork_ask(166, &p)).0, vec!["/bin0", "echo-test"]);
    assert_eq!(program(fork_ask(183, &p)).0, vec!["/np", "echo-test"]);
    for t in 187..192 {
        assert!(shell(fork_ask(t, &p)).contains(&format!("/bin{}", t - 187)));
    }
}

#[test]
fn how_fork_tests_are_judged() {
    let o = fork_reply_outcome(0, &ran(0, "hello_from_bash\n"));
    assert!(o.pass);
    assert_eq!(o.agent, "dpg1");
    assert!(!fork_reply_outcome(0, &ran(0, "goodbye")).pass);
    assert!(fork_reply_outcome(57, &ran(0, "stdout_write_ok\n")).pass);
    assert_eq!(fork_reply_outcome(57, &ran(1, "stdout_write_ok\n")).agent, "A");
    assert!(!fork_reply_outcome(57, &ran(1, "stdout_write_ok\n")).pass);
    assert!(fork_reply_outcome(64, &ran(0, "NETIF_OK:2\n")).pass);
    assert!(!fork_reply_outcome(64, &ran(0, "NETIF_OK:0\n")).pass);
    assert_eq!(fork_reply_outcome(170, &ran(127, "")).detail, "FAIL: binary not found");
    assert!(fork_leaf_outcome(68, ok("ECHO_TEST_OK")).pass);
    assert!(fork_leaf_outcome(88, ok("df_node_ok")).pass);
    assert!(!fork_leaf_outcome(88, ok("ECHO_TEST_OK")).pass);
    assert!(fork_leaf_outcome(116, ok("BSF_OK")).pass);
    assert!(fork_leaf_outcome(121, ok("SXF_OK")).pass);
    assert!(fork_leaf_outcome(126, ok("PIF_OK")).pass);
    assert!(!fork_leaf_outcome(126, ok("SXF_OK")).pass);
    assert!(fork_leaf_outcome(131, ok("ECHO_TEST_OK")).pass);
    assert!(fork_leaf_outcome(140, ok("STRESS_START\nSTRESS_END failures=0")).pass);
    assert!(!fork_leaf_outcome(140, ok("STRESS_START\nSTRESS_END failures=2")).pass);
    assert!(!fork_leaf_outcome(140, failed("STRESS_START STRESS_END failures=0")).pass);
}

#[test]
fn the_second_program_runs_only_beside_the_first() {
    let p = paths();
    match fork_second(183, &p, &ran(0, "ECHO_TEST_OK\n")) {
        SecondAsk::Also { ask } => assert_eq!(program(ask).0, vec!["/bin2", "echo-test"]),
        SecondAsk::Over { outcome } => panic!("{}", outcome.detail),
    }
    for gone in [ran(127, ""), Response::Error { error: "x".to_string() }] {
        match fork_second(183, &p, &gone) {
            SecondAsk::Over { outcome } => {
                assert!(!outcome.pass);
                assert_eq!(outcome.detail, "FAIL: nonpie binary not found");
            }
            SecondAsk::Also { ask } => panic!("{ask:?}"),
        }
    }
    assert!(fork_reply_outcome(183, &ran(0, " ECHO_TEST_OK\n")).pass);
    assert!(!fork_reply_outcome(183, &ran(0, "ECHO_TEST_OK and more\n")).pass);
}

#[test]
fn a_subtree_is_killed_once_its_child_runs() {
    let up = Response::Done { data: None };
    assert!(matches!(kill_step(0, true, &up), KillStep::Kill));
    assert!(matches!(kill_step(1, true, &up), KillStep::Kill));
    assert!(matches!(kill_step(2, true, &up), KillStep::ExitThenKill));
    for (t, head) in [
        (0, "setup: spawn_ephemeral(NPx) failed: "),
        (1, "setup: spawn_ephemeral(NPx via EE) failed: "),
        (2, "setup: spawn_ephemeral(NPx) failed: "),
    ] {
        match kill_step(t, false, &Response::NotFound) {
            KillStep::Over { outcome } => {
                assert_eq!(outcome.agent, "E");
                assert_eq!(outcome.detail, format!("{head}NotFound"));
            }
            _ => panic!("{t}"),
        }
    }
}

#[test]
fn bash_and_worker_tests() {
    let a = bash_ask(4);
    assert_eq!(a.args, vec!["bash", "-c", "echo HOST=$(cat /etc/hostname)"]);
    assert_eq!((a.timeout_secs, a.background), (None, false));
    let o = bash_judge(4, &ran(0, "HOST=box\n"));
    assert_eq!((o.agent.as_str(), o.pass), ("dpg2", true));
    assert!(!bash_judge(4, &ran(0, "HOST=\n")).pass);
    let w = worker_ask(5, &paths());
    assert_eq!(w.args, vec!["/np", "fork-exec-pie", "/bin2", "echo-test"]);
    assert_eq!(w.timeout_secs, Some(30));
    let w = worker_ask(4, &paths());
    assert_eq!(w.args[0], "/own");
    assert_eq!(w.timeout_secs, Some(20));
    let o = worker_judge(5, &ran(0, "FORK_EXEC_PIE_OK\n"));
    assert_eq!((o.agent.as_str(), o.pass), ("dpg1_dng", true));
    assert!(!worker_judge(5, &ran(1, "FORK_EXEC_PIE_OK\n")).pass);
}

#[test]
fn probes_of_forks_without_a_program() {
    assert_eq!(
        usage(Inherited::BufferedScm, ""),
        Some("BSF_USAGE: buffered-scm-fork <child_exe>".to_string())
    );
    assert_eq!(
        usage(Inherited::Socketpair, ""),
        Some("SXF_USAGE: socketpair-fork-cross <child_exe>".to_string())
    );
    assert_eq!(
        usage(Inherited::Pidfd, ""),
        Some("PIF_USAGE: pidfd-inherit-fork <child_exe>".to_string())
    );
    assert_eq!(usage(Inherited::Pidfd, "/bin/x"), None);
    match program_limit(&Vec::new(), Some(3)) {
        Err(Response::Error { error }) => assert_eq!(error, "exec: empty argv"),
        _ => panic!("no error"),
    }
    let argv = vec!["x".to_string()];
    assert!(matches!(program_limit(&argv, None), Ok(10)));
    assert!(matches!(program_limit(&argv, Some(3)), Ok(3)));
}

#[test]
fn reports_of_nested_forks_and_pipes() {
    let run = |success: bool| ProgramEvent::Ran {
        success,
        status: "exit status: 3".to_string(),
        stdout: b"out".to_vec(),
        stderr: b"err\xff".to_vec(),
    };
    assert_eq!(nested_result(run(true)), ok("out"));
    assert_eq!(
        nested_result(run(false)),
        failed("nested fork+exec exit=exit status: 3 stderr=err\u{fffd}")
    );
    assert_eq!(
        nested_result(ProgramEvent::SpawnFailed { error: "gone".to_string() }),
        failed("nested fork+exec failed: gone")
    );
    assert_eq!(pipe_child_report(Ok(())), ("PASS child epoll_ctl ADD ok\n".to_string(), 0));
    assert_eq!(
        pipe_child_report(Err("no".to_string())),
        ("FAIL child epoll_ctl ADD failed: no\n".to_string(), 1)
    );
    let passed = ProgramEvent::Ran {
        success: true,
        status: "exit status: 0".to_string(),
        stdout: b"PASS child".to_vec(),
        stderr: Vec::new(),
    };
    let o = pipe_judge(BinaryType::StaticPieMusl, &paths(), passed);
    assert_eq!((o.agent.as_str(), o.pass), ("static-pie-musl", true));
    assert_eq!(o.detail, "/bin3 status=exit status: 0 stdout=\"PASS child\" stderr=\"\"");
    let o = runtime_drop_judge(&paths(), ProgramEvent::SpawnFailed { error: "e".to_string() });
    assert_eq!(o.detail, "spawn /bin3: e");
    let (path, args) = runtime_drop_argv(&paths());
    assert_eq!(path, "/bin3");
    assert_eq!(args, vec!["eventfd-test", "tokio-release-after-deregister"]);
}

#[test]
fn a_peer_listens_where_the_plan_has_one() {
    for (t, p) in register_epoll_pidfd_tests().iter().enumerate() {
        assert_eq!(observer(t), p.observer);
        assert_eq!(p.leaf, None);
        let plan = &p.plan;
        let mut declared = match p.observer {
            Observer::Tree(a) => vec![a],
            _ => Vec::new(),
        };
        match listener_of(t) {
            Some((peer, ask)) => {
                assert!(matches!(ask, Ask::Port { port: 0 }));
                declared.push(peer);
                assert_eq!(plan.timeout_secs, Some(60));
            }
            None => assert_eq!(plan.timeout_secs, None),
        }
        assert_eq!(plan.cx.agents(), &declared);
        assert!(plan.id.ends_with(p.observer.name()));
        assert_eq!(has_detail(t), plan.id.starts_with("EPI."));
    }
    assert_eq!(opened_peer(Ok(4711)), ok("127.0.0.1:4711"));
    assert_eq!(opened_peer(Err("e".to_string())), failed("setup_tcp_listen: e"));
    assert_eq!(not_asked("e"), "send_named: e");
}

fn spin(first_events: i32, iterations: u64, zero_event_returns: u64, timer_ready: u64) -> EpollSpinOut {
    EpollSpinOut {
        detail: "d".to_string(),
        first_elapsed_ms: 1000,
        first_events,
        iterations,
        loop_elapsed_ms: 1000,
        timer_ready,
        zero_event_returns,
    }
}

#[test]
fn readiness_tests_ask_and_judge() {
    let p = paths();
    match readiness_ask(3, "addr", &p) {
        Ask::PidfdExit { target, peer_addr } => {
            assert_eq!((target.as_str(), peer_addr.as_str()), ("/bin3", "addr"))
        }
        other => panic!("{other:?}"),
    }
    match readiness_ask(5, "addr", &p) {
        Ask::Peer { peer_addr } => assert_eq!(peer_addr, "addr"),
        other => panic!("{other:?}"),
    }
    assert!(matches!(readiness_ask(6, "", &p), Ask::Nothing));
    assert!(matches!(readiness_ask(30, "", &p), Ask::Nothing));
    assert_eq!(detail_result(5, ""), ok(""));
    assert_eq!(detail_result(6, ""), failed("handler returned empty detail"));
    assert_eq!(detail_result(6, "x"), ok("x"));
    // Idle, timers, writable, sticky, edges, refire, spans.
    assert_eq!(counts_result(30, &spin(0, 4, 5, 0)), ok("d"));
    assert_eq!(counts_result(30, &spin(1, 4, 5, 0)), failed("d"));
    assert_eq!(counts_result(31, &spin(1, 4, 0, 5)), ok("d"));
    assert_eq!(counts_result(32, &spin(1, 4, 1, 5)), failed("d"));
    assert_eq!(counts_result(33, &spin(0, 10, 0, 0)), ok("d"));
    assert_eq!(counts_result(33, &spin(0, 11, 0, 0)), failed("d"));
    assert_eq!(counts_result(34, &spin(1, 40, 40, 0)), ok("d"));
    assert_eq!(counts_result(35, &spin(1, 40, 40, 0)), failed("d"));
    assert_eq!(counts_result(36, &spin(1, 10, 9, 0)), ok("d"));
    assert_eq!(counts_result(37, &spin(1, 4, 0, 4)), ok("d"));
    assert_eq!(counts_result(38, &spin(1, 10, 0, 0)), ok("d"));
    assert_eq!(counts_result(45, &spin(1, 2, 1, 1)), ok("d"));
    assert_eq!(counts_result(45, &spin(1, 2, 0, 1)), failed("d"));
    assert_eq!(counts_result(46, &spin(1, 101, 0, 0)), ok("d"));
    assert_eq!(counts_result(46, &spin(1, 100, 0, 0)), failed("d"));
    for (t, o) in [(30, Observer::Tree(AgentName::Dpg1)), (47, Observer::DngSpm)] {
        assert_eq!(observer(t), o);
        assert_eq!(counts_result(t, &spin(0, 4, 5, 0)), ok("d"));
    }
    assert_eq!(observer(64), Observer::Tree(AgentName::VsCodeCli));
    assert_eq!(observer(97), Observer::Tree(AgentName::VsCodeNode));
    let o = found_outcome("dpg2", failed("why"));
    assert_eq!((o.agent.as_str(), o.pass, o.detail.as_str()), ("dpg2", false, "why"));
    assert!(found_outcome("dpg2", ok("d")).pass);
}

#[test]
fn socket_and_poll_tests_ask_and_judge() {
    for p in register_epoll_socket_tests() {
        let label = p.leaf.unwrap();
        assert!(label.starts_with("EpollSocket") && label.ends_with(p.observer.name()));
        let leaves: Vec<&str> = p.plan.cx.leaves().iter().map(|l| l.label()).collect();
        match p.observer {
            Observer::Tree(_) => assert_eq!(leaves, vec![label.as_str()]),
            _ => assert!(leaves.is_empty()),
        }
        assert!(p.plan.cx.agents().is_empty());
    }
    let ids: Vec<String> =
        register_epoll_socket_tests().into_iter().map(|p| p.plan.id).collect();
    for (t, id) in ids.iter().enumerate() {
        match socket_ask(t) {
            Ask::Socket { port, variant } => {
                assert!(id.starts_with(&format!("EP.{variant}.")));
                assert!((19970..20000).contains(&port));
            }
            other => panic!("{other:?}"),
        }
        let accepts = socket_judge(t, ok("EPOLL_ACCEPT=1"));
        assert_eq!(accepts.pass, id.contains(".accept."));
        assert!(id.ends_with(&accepts.agent));
        let reads = socket_judge(t, ok("EPOLL_ACCEPT=TIMEOUT\nEPOLL_READ=OK"));
        assert_eq!(reads.pass, id.contains(".read."));
    }
    match socket_ask(18) {
        Ask::Socket { port, variant } => assert_eq!((port, variant), (19972, "direct")),
        other => panic!("{other:?}"),
    }
    assert!(ids.iter().any(|id| id == "EP.tokio.read.dpg1_dng_spm"));
    match socket_ask(22) {
        Ask::Socket { port, variant } => assert_eq!((port, variant), (19995, "tokio")),
        other => panic!("{other:?}"),
    }
    assert!(matches!(poll_ask(), Ask::Poll { timeout_ms: 2000 }));
    assert!(poll_judge(0, ok("POLLIN")).pass);
    assert!(!poll_judge(0, ok("POLLIN|POLLHUP")).pass);
}

fn cloned(ok: bool, pidfd: Option<i32>, error: Option<&str>) -> Clone3Out {
    Clone3Out { pid: if ok { 77 } else { 0 }, pidfd, ok, error: error.map(|e| e.to_string()) }
}

#[test]
fn clone_tests_ask_and_judge() {
    let p = paths();
    for (t, plan) in register_clone3_matrix().iter().enumerate() {
        let takes_target = plan.timeout_secs == Some(60) && !plan.id.contains("session");
        match clone_ask(t, &p) {
            Ask::Target { .. } => assert!(takes_target, "{}", plan.id),
            Ask::Session { stage } => {
                assert!(plan.id.contains(&format!("session_setup.{}.", stage.label())))
            }
            Ask::Nothing => assert_eq!(plan.timeout_secs, None),
            other => panic!("{other:?}"),
        }
    }
    match clone_ask(8, &p) {
        Ask::Target { exec_target } => assert_eq!(exec_target, "/bin2"),
        other => panic!("{other:?}"),
    }
    match clone_ask(30, &p) {
        Ask::Session { stage } => assert_eq!(stage, DropbearSessionStage::FullSetidNetwork),
        other => panic!("{other:?}"),
    }
    let plain = cloned(true, None, None);
    let with_fd = cloned(true, Some(9), None);
    assert!(clone_check(0, &plain).is_ok());
    assert!(clone_check(6, &plain).is_err());
    assert!(clone_check(6, &with_fd).is_ok());
    assert!(clone_check(1, &with_fd).is_err());
    assert!(clone_check(23, &plain).is_ok());
    assert!(clone_check(24, &plain).is_ok());
    let o = clone_judge(6, Ok(plain));
    assert!(!o.pass);
    assert!(o.detail.contains("; response=Clone3Out { pid: 77, pidfd: None, ok: true, error: None }"));
    let o = clone_judge(6, Err("lost".to_string()));
    assert_eq!((o.pass, o.detail.as_str()), (false, "lost"));
    let o = clone_judge(6, Ok(with_fd));
    assert_eq!(
        (o.pass, o.detail.as_str()),
        (true, "Clone3Out { pid: 77, pidfd: Some(9), ok: true, error: None }")
    );
}

#[test]
fn counter_tests_ask() {
    let p = paths();
    for (t, plan) in register_eventfd_tests().iter().enumerate() {
        let kind = counter_answer(t);
        assert_eq!(kind == CounterAnswer::Program, t == RUNTIME_DROP_TEST);
        if kind == CounterAnswer::Program {
            assert_eq!(plan.id, "EV.tokio_runtime_drop.static-pie-musl");
            continue;
        }
        let fits = match counter_ask(t, &p) {
            Ask::Nothing => matches!(
                kind,
                CounterAnswer::Value
                    | CounterAnswer::Reads
                    | CounterAnswer::Edge
                    | CounterAnswer::Detail
            ),
            Ask::Reader { reader_name } => plan.id.ends_with(&format!("_to_{reader_name}")),
            Ask::Inherit { child_binary, sentinel } => {
                assert_eq!(inheritance(t), Inheritance::Read);
                assert_eq!(child_binary, format!("/bin{}", t - 28));
                sentinel == 0xA5A5_A5A5_A5A5_A5A5 && plan.id.starts_with("EV.fork_inherit.")
            }
            Ask::InheritPoll { child_binary, sentinel, timeout_ms } => {
                assert_eq!(inheritance(t), Inheritance::Poll);
                assert_eq!(child_binary, format!("/bin{}", t - 33));
                assert_eq!((sentinel, timeout_ms), (0x5A5A_5A5A_5A5A_5A5A, 5000));
                plan.id.starts_with("EV.fork_inherit_poll.")
            }
            Ask::InheritDrain { child_binary, timeout_ms } => {
                assert_eq!(inheritance(t), Inheritance::Drain);
                assert_eq!((child_binary, timeout_ms), (format!("/bin{}", t - 22), 200));
                plan.id.starts_with("EV.epoll_fork_drain_clears.")
            }
            other => panic!("{other:?}"),
        };
        assert!(fits, "{}", plan.id);
    }
}

#[test]
fn program_tests_ask_and_judge() {
    let p = paths();
    for (t, plan) in register_concurrent_fork_pipeline().iter().enumerate() {
        let o = pipeline_judge(t, Err("e".to_string()));
        assert!(plan.id.ends_with(&format!(".{}", o.agent)));
        assert!(!o.pass);
    }
    match pipeline_ask(18) {
        Ask::Bash { cmd, timeout_ms } => {
            assert_eq!(cmd, "echo 'pipe4_vscode_ok: test' | cat | grep pipe4 | sed 's/test/pass/'");
            assert_eq!(timeout_ms, Some(15_000));
        }
        other => panic!("{other:?}"),
    }
    assert!(pipeline_judge(18, bash(0, "pipe4_vscode_ok: pass\n")).pass);
    match parallel_ask(44, &p) {
        Ask::Bash { cmd, .. } => assert_eq!(
            cmd,
            "/bin4 echo-test & /bin4 echo-test & /bin4 echo-test & /bin4 echo-test & wait"
        ),
        other => panic!("{other:?}"),
    }
    let o = parallel_judge(0, bash(0, "ECHO_TEST_OK\nECHO_TEST_OK\n"));
    assert_eq!((o.pass, o.detail.as_str()), (true, "got 2/2 ECHO_TEST_OK"));
    assert!(!parallel_judge(44, bash(0, "ECHO_TEST_OK\n")).pass);
    match install_ask(7) {
        Ask::Bash { cmd, .. } => assert_eq!(cmd, "uname -a | grep -o 'Linux' | head -1"),
        other => panic!("{other:?}"),
    }
    let o = install_judge(7, bash(0, "Linux\n"));
    assert_eq!((o.agent.as_str(), o.pass), ("dpg1_dpg1", true));
}

#[test]
fn file_openers_fit_their_plan() {
    for (t, plan) in register_concurrent_fs_rwlock().iter().enumerate() {
        let n = match files_ask(t) {
            Ask::Openers { n } => n,
            other => panic!("{other:?}"),
        };
        let many = plan.id.starts_with("CF.rwlock_multi_");
        let head = if many { format!("CF.rwlock_multi_{n}.") } else { format!("CF.rwlock_{n}.") };
        assert!(plan.id.starts_with(&head), "{}", plan.id);
        assert_eq!(files_judge(t, ok("CONCURRENT_FS_OK:2")).pass, !many);
        assert_eq!(files_judge(t, ok("CONCURRENT_FS_MULTI_OK:2")).pass, many);
    }
}

#[test]
fn writers_canaries_and_parents() {
    let p = paths();
    let (args, path) = writer_ask(4, &p);
    assert_eq!(path, "/shared/cc-fork_exec-dpg1_dpg1.txt");
    assert_eq!(
        args.args,
        vec!["bash", "-c", "/own echo-test > /shared/cc-fork_exec-dpg1_dpg1.txt 2>&1"]
    );
    let data = Response::Done { data: Some("ECHO_TEST_OK\n".to_string()) };
    assert!(writer_judge(4, &ran(0, ""), &data).pass);
    let o = writer_judge(4, &ran(1, ""), &data);
    assert!(!o.pass);
    assert!(o.detail.starts_with("writer failed: ExecResult { exit_code: 1"));

    for (t, plan) in register_minimal_canary_tests().iter().enumerate() {
        let a = canary_ask(t, &p);
        assert_eq!(a.args[0], "/own");
        assert_eq!(a.env, vec![("LITEBOX_M_TARGET_BINARY".to_string(), format!("/bin{}", t % 5))]);
        assert_eq!(a.timeout_secs.map(|s| s + 10), plan.timeout_secs);
        let name = a.args[1].split('-').next().unwrap();
        assert!(plan.id.starts_with(&format!("{name}.")));
        let o = canary_judge(t, &ran(0, &format!("{name}_OK pid=1")));
        assert!(o.pass);
        assert!(plan.id.contains(&format!(".{}.", o.agent)));
    }

    match trigger_ask(98, &p) {
        Ask::Parent { fd_class, child_cmd, child_args } => {
            assert_eq!((fd_class, child_cmd.as_str()), ("pidfd", "/bin2"));
            assert_eq!(child_args, vec!["echo-test"]);
        }
        other => panic!("{other:?}"),
    }
}

#[test]
fn file_tests_ask_and_judge() {
    for (t, plan) in register_file_tcp().iter().enumerate() {
        let two = plan.cx.agents().len() == 2;
        assert_eq!(file_way(t) != FileWay::Once, two);
    }
    match file_ask(3) {
        Ask::File { port, path, data } => assert_eq!(
            (port, path, data),
            (18101, "/tmp/ft_test.txt", "file_tcp_test_data_1234567890")
        ),
        other => panic!("{other:?}"),
    }
    match file_ask(2) {
        Ask::ListenRead { port, path, prewrite, expected } => {
            assert_eq!((port, path, prewrite, expected), (18100, "/etc/hostname", None, None))
        }
        other => panic!("{other:?}"),
    }
    assert!(matches!(file_ask(6), Ask::Port { port: 18110 }));
    assert!(matches!(file_ask(7), Ask::Port { port: 18110 }));
    match file_ask(9) {
        Ask::File { port, path, data } => {
            assert_eq!((port, path, data), (18110, "/tmp/ft_conn.txt", "during_conn"))
        }
        other => panic!("{other:?}"),
    }
    match file_ask(12) {
        Ask::Send { port, size, path } => {
            assert_eq!((port, size, path.as_str()), (18120, 32768, "/tmp/ft_interleave.txt"))
        }
        other => panic!("{other:?}"),
    }
    assert!(matches!(file_ask(15), Ask::Cycles { port: 18130, count: 5 }));
    match file_ask(18) {
        Ask::File { port, path, data } => {
            assert_eq!((port, path, data), (18140, "/tmp/ft_exec.txt", "exec_test_content"))
        }
        other => panic!("{other:?}"),
    }
    assert_eq!(file_judge(0, ok("x")).agent, "dpg1");
    assert_eq!(file_judge(5, ok("x")).agent, "dpg2");
    let o = file_judge(6, failed("x"));
    assert_eq!((o.agent.as_str(), o.pass, o.detail.as_str()), ("A", false, "x"));
}

#[test]
fn file_tests_between_agents() {
    assert!(matches!(across_server_ask(), Ask::Port { port: 18121 }));
    match across_client_ask(14) {
        Ask::Send { port, size, path } => {
            assert_eq!((port, size, path.as_str()), (18121, 4096, "/etc/hostname"))
        }
        other => panic!("{other:?}"),
    }
    assert!(across_judge(Ok(()), ok("x")).pass);
    assert_eq!(across_judge(Err("e".to_string()), ok("x")).detail, "listen failed: e");

    match serve_ask(21) {
        Ask::Serve { path, data } => {
            assert_eq!(path, "/root/litebox_ft_axis_depth2.txt");
            assert_eq!(data, "ft_axis_payload_depth2");
        }
        other => panic!("{other:?}"),
    }
    let (send, delete) = served_asks(21, 5000);
    match send {
        Ask::Send { port, size, path } => {
            assert_eq!((port, size, path.as_str()), (5000, 128, "/root/litebox_ft_axis_depth2.txt"))
        }
        other => panic!("{other:?}"),
    }
    match delete {
        Ask::Delete { path } => assert_eq!(path, "/root/litebox_ft_axis_depth2.txt"),
        other => panic!("{other:?}"),
    }
    let o = served_judge(21, Ok(()), ok("tcp_ok=128,file_len=22"));
    assert_eq!((o.agent.as_str(), o.pass), ("dpg1_dng<-dpg1_dng_dpg", true));
    let o = served_judge(21, Ok(()), ok("tcp_ok=128,file_len=21"));
    assert_eq!(o.detail, "expected=tcp_ok=128,file_len=22 got=tcp_ok=128,file_len=21");
    let o = served_judge(21, Err("e".to_string()), ok("x"));
    assert_eq!((o.pass, o.detail.as_str()), (false, "server failed: e"));
}
