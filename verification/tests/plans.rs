use std::collections::HashSet;

use litebox_test_harness::agents::{AgentName, SpawnKind};
use litebox_test_harness::broker::register_broker_listener_tests;
use litebox_test_harness::canary::register_minimal_canary_tests;
use litebox_test_harness::clone3::register_clone3_matrix;
use litebox_test_harness::concurrent::{
    register_concurrent_exec, register_concurrent_fork_pipeline, register_concurrent_fork_tests,
    register_concurrent_fs_rwlock, register_vscode_install_pipeline,
};
use litebox_test_harness::df_parent::register_df_parent_trigger;
use litebox_test_harness::epoll_plans::{
    register_epoll_pidfd_tests, register_epoll_socket_tests, register_poll_ready_tests,
};
use litebox_test_harness::eventfd::{register_eventfd_fork_tests, register_eventfd_tests};
use litebox_test_harness::file_tcp::register_file_tcp;
use litebox_test_harness::fork_plans::{
    register_bash_fork_exec_tests, register_fork_from_worker_exec_tests, register_fork_matrix,
    register_subtree_kill_tests,
};
use litebox_test_harness::fork_probes::register_fork_pipe_inheritance_tests;
use litebox_test_harness::observers::ReadinessPlan;
use litebox_test_harness::random::register_getrandom_tests;
use litebox_test_harness::registry::{
    binary_type, fork_binary_label, BinaryType, Handler, TestOutcome, TestPlan, BINARY_TYPES,
};

fn plans_of(list: Vec<ReadinessPlan>) -> Vec<TestPlan> {
    list.into_iter().map(|p| p.plan).collect()
}

fn all() -> Vec<(&'static str, Vec<TestPlan>, usize)> {
    vec![
        ("broker", register_broker_listener_tests(), 11),
        ("canary", register_minimal_canary_tests(), 175),
        ("clone3", register_clone3_matrix(), 124),
        ("pipeline", register_concurrent_fork_pipeline(), 20),
        ("exec", register_concurrent_exec(), 45),
        ("install", register_vscode_install_pipeline(), 12),
        ("rwlock", register_concurrent_fs_rwlock(), 90),
        ("writers", register_concurrent_fork_tests(), 12),
        ("trigger", register_df_parent_trigger(), 99),
        ("epoll", plans_of(register_epoll_pidfd_tests()), 98),
        ("sockets", plans_of(register_epoll_socket_tests()), 44),
        ("poll", register_poll_ready_tests(), 3),
        ("eventfd", register_eventfd_tests(), 38),
        ("file_tcp", register_file_tcp(), 22),
        ("fork", register_fork_matrix(), 198),
        ("bash", register_bash_fork_exec_tests(), 6),
        ("worker", register_fork_from_worker_exec_tests(), 10),
        ("kill", register_subtree_kill_tests(), 3),
        ("pipes", register_fork_pipe_inheritance_tests(), 5),
        ("random", register_getrandom_tests(), 12),
    ]
}

#[test]
fn every_test_has_an_id_of_its_own() {
    let mut seen = HashSet::new();
    for (name, plans, count) in all() {
        assert_eq!(plans.len(), count, "{name}");
        for p in plans {
            assert!(seen.insert(p.id.clone()), "{}", p.id);
            assert!(!p.suite.is_empty() && !p.family.is_empty());
        }
    }
}

#[test]
fn expected_ids_are_registered() {
    let ids: HashSet<String> =
        all().into_iter().flat_map(|(_, plans, _)| plans).map(|p| p.id).collect();
    for id in [
        "BL.listen_basic.pie-glibc.dpg1",
        "CL3.thread.dpg1",
        "CL3.dropbear_session_setup.full_bash.dpg2_dpg",
        "CL3.with_cgroup.static-pie-musl.dpg1_dpg1",
        "CF.pipe4_vscode.dpg1_dng",
        "CF.rwlock_multi_6.non-pie-static-musl.dpg2",
        "CC.fork_exec.dpg1",
        "EP.spin.eventfd_idle.vscode_node",
        "EP.tokio.read.dpg1_snm",
        "POLL.pipe.dpg2",
        "EV.cross_agent_wakeup.dpg1_to_dpg2",
        "EV.fork_inherit_poll.nonpie-glibc",
        "FT.axis.depth2",
        "XB.heredoc.dpg1_dpg1_dpg1",
        "XM.node_networkInterfaces.AA",
        "XDF.pie-glibc.triple_nesting",
        "BASH.fork_subst.dpg1",
        "FORK.pipe_fd_inheritance.static-pie-glibc",
        "RAND.novelty.dpg1_spm",
    ] {
        assert!(ids.contains(id), "{id}");
    }
}

#[test]
fn fork_tests_are_among_the_counter_tests() {
    let whole: HashSet<String> = register_eventfd_tests().into_iter().map(|p| p.id).collect();
    let part = register_eventfd_fork_tests();
    assert_eq!(part.len(), 10);
    for p in part {
        assert!(whole.contains(&p.id), "{}", p.id);
    }
}

#[test]
fn a_test_declares_the_agents_it_speaks_to() {
    for p in register_poll_ready_tests() {
        assert_eq!(p.cx.agents().len(), 1);
        assert_eq!(p.id, format!("POLL.pipe.{}", p.cx.agents()[0].name()));
        assert!(matches!(p.handler, Handler::Named("platform_fixes.poll_ready")));
        assert_eq!(p.timeout_secs, Some(60));
    }
    for p in register_eventfd_fork_tests() {
        assert_eq!(p.cx.agents(), &vec![AgentName::Dpg1]);
        assert!(p.cx.leaves().is_empty());
    }
    let kills = register_subtree_kill_tests();
    let deep = &kills[1];
    assert_eq!(deep.id, "SK.subtree.deep");
    assert_eq!(deep.cx.agents(), &vec![AgentName::Dpg3, AgentName::Dpg3Dpg]);
    assert_eq!(deep.cx.leaves()[0].parent(), AgentName::Dpg3Dpg);
    assert_eq!(deep.cx.leaves()[0].kind(), &SpawnKind::NonPie);
}

#[test]
fn leaves_run_the_binary_type_they_are_named_after() {
    let labels = ["self", "nonpie", "static-pie-glibc", "static-pie-musl", "non-pie-static-musl"];
    for p in register_concurrent_fs_rwlock() {
        let bt = (0..BINARY_TYPES)
            .map(binary_type)
            .find(|b| p.id.contains(&format!(".{}.", b.label())))
            .unwrap();
        let leaf = &p.cx.leaves()[0];
        assert!(p.id.ends_with(leaf.parent().name()), "{}", p.id);
        match leaf.kind() {
            SpawnKind::Fork { binary, inherit_listen_ports } => {
                assert_eq!(*binary, fork_binary_label(bt));
                assert!(labels.contains(binary));
                assert!(inherit_listen_ports.is_empty());
            }
            other => panic!("{other:?}"),
        }
    }
}

#[test]
fn binary_types() {
    let rows = [
        (BinaryType::PieGlibc, "pie-glibc", "dpg", "self"),
        (BinaryType::NonPieGlibc, "nonpie-glibc", "dng", "nonpie"),
        (BinaryType::StaticPieGlibc, "static-pie-glibc", "spg", "static-pie-glibc"),
        (BinaryType::StaticPieMusl, "static-pie-musl", "spm", "static-pie-musl"),
        (BinaryType::NonPieStaticMusl, "non-pie-static-musl", "snm", "non-pie-static-musl"),
    ];
    for (k, (bt, label, short, fork)) in rows.into_iter().enumerate() {
        assert_eq!(binary_type(k), bt);
        assert_eq!(bt.label(), label);
        assert_eq!(bt.short_label(), short);
        assert_eq!(fork_binary_label(bt), fork);
    }
    let o = TestOutcome::new("a", true, "d".to_string());
    assert!(o.pass && o.agent == "a" && o.detail == "d");
}

#[test]
fn a_plan_gives_handles_of_what_it_declared() {
    for (name, plans, _) in all() {
        for p in plans {
            for (k, agent) in p.cx.agents().iter().enumerate() {
                assert_eq!(p.cx.handle(k).name(), *agent, "{name}");
            }
        }
    }
}
