use litebox_test_harness::agents::AgentName;
use litebox_test_harness::epoll::{
    detail_out, edge_verdict, eventfd_verdict, has_in, has_name, idle_verdict, peer_addr,
    ready_count, ready_socket_ids, socket_payload, some_ready, EpollEvent, Goal, Watch,
};
use litebox_test_harness::epoll_plans::{
    accept_line, accept_outcome, peer_for, peer_for_observer, poll_detail, poll_outcome,
    read_outcome, scenario_agent, socket_agent, socket_detail, socket_port, ConnectionEnd,
    SocketVariant, POLLIN,
};
use litebox_test_harness::observers::Observer;
use litebox_test_harness::spin::{
    check_broker_tcp_refire, check_epoll_spin_broker_tcp_sticky_out,
    check_epoll_spin_broker_writable_et, check_epoll_spin_eventfd_idle, check_epoll_spin_timerfd,
    check_span_et_no_spin, check_span_lt_persistent, check_span_refire, clamp_i32, drain_step,
    duration_to_timespec, elapsed_ms, peek_step, read_step, refire_failed, refire_payload,
    refire_report, round_byte, send_step, timer_among, timer_child_code, timer_child_end,
    timer_report_unreadable, DrainStep, EpollSpinOut, PeekStep, ReadStep, RefireLog, SendStep,
    SpinLog, SpinStyle, StreamEvent, WaitSample, EPOLLIN, TIMER_TOKEN,
};

fn event(kind: &str, id: u64, observed: &str) -> EpollEvent {
    EpollEvent { kind: kind.to_string(), id, observed_events: observed.to_string() }
}

#[test]
fn names_of_events() {
    let e = event("socket", 1, "in|rdhup");
    assert!(has_in(&e));
    assert!(has_name(&e, "rdhup"));
    assert!(!has_name(&e, "hup"));
    assert!(!has_in(&event("socket", 1, "")));
    assert!(!has_in(&event("socket", 1, "pri|out")));
}

#[test]
fn ready_sockets_are_listed_once_and_in_order() {
    let events = vec![
        event("socket", 3, "in"),
        event("socket", 1, "in|out"),
        event("eventfd", 2, "in"),
        event("socket", 3, "in"),
        event("socket", 4, "out"),
    ];
    assert_eq!(ready_socket_ids(&events), vec![1, 3]);
    assert_eq!(ready_count(&events, "socket", 3), 2);
    assert_eq!(ready_count(&events, "socket", 4), 0);
    assert!(some_ready(&events, "eventfd", 2));
    assert!(!some_ready(&events, "eventfd", 1));
    assert!(ready_socket_ids(&Vec::new()).is_empty());
}

#[test]
fn a_watch_waits_until_its_goal_is_met() {
    let goal = Goal::ProcessAndSocket { pid: 7 };
    let mut w = Watch::start(goal, vec![event("pidfd", 7, "in")]);
    assert!(w.wants_more());
    assert_eq!(
        w.verdict("[..]"),
        Err("missing pidfd/socket readiness pid=7 conn=1 events=[..]".to_string())
    );
    w.feed(vec![event("socket", 1, "in")]);
    assert!(!w.wants_more());
    assert_eq!(w.events().len(), 2);
    assert_eq!(w.verdict("[..]"), Ok("pidfd pid=7 and socket conn=1 events=[..]".to_string()));
}

#[test]
fn a_watch_gives_up() {
    let mut w = Watch::start(Goal::FourSockets, Vec::new());
    let mut waits = 0;
    while w.wants_more() {
        w.feed(vec![event("socket", 2, "in")]);
        waits += 1;
    }
    assert_eq!(waits, 5);
    assert_eq!(
        w.verdict("e"),
        Err("socket readiness mismatch expected=[1, 2, 3, 4] ready=[2] events=e".to_string())
    );
    let mut w = Watch::start(Goal::FourSockets, Vec::new());
    w.feed(Vec::new());
    assert!(!w.wants_more());
    let all = (1..5).map(|i| event("socket", i, "in")).collect();
    let w = Watch::start(Goal::FourSockets, all);
    assert!(!w.wants_more());
    assert_eq!(w.verdict("e"), Ok("all sockets ready conns=[1, 2, 3, 4] events=e".to_string()));
}

#[test]
fn verdicts_on_events() {
    let one = vec![event("eventfd", 1, "in")];
    assert_eq!(eventfd_verdict(&one, "x"), Ok("eventfd ready id=1 events=x".to_string()));
    assert_eq!(
        eventfd_verdict(&Vec::new(), "x"),
        Err("missing eventfd readiness id=1 events=x".to_string())
    );
    assert_eq!(
        idle_verdict(&Vec::new(), "x"),
        Ok("idle epoll returned no events".to_string())
    );
    assert_eq!(
        idle_verdict(&one, "x"),
        Err("idle epoll returned unexpected events x".to_string())
    );
    let socket = vec![event("socket", 1, "in")];
    assert_eq!(
        edge_verdict(&socket, &Vec::new(), "a", "b"),
        Ok("edge-trigger coalesced first=a second=b".to_string())
    );
    assert_eq!(
        edge_verdict(&socket, &socket, "a", "b"),
        Err("edge-trigger mismatch first_count=1 second_count=1 first=a second=b".to_string())
    );
    assert_eq!(detail_out("d"), Ok("d".to_string()));
    assert_eq!(detail_out(""), Err("handler returned empty detail".to_string()));
    assert_eq!(peer_addr(9000), "127.0.0.1:9000");
    assert_eq!(socket_payload(3), "multi-socket-3");
}

fn sample(events: i32, elapsed_ms: u64, timer_ready: bool) -> WaitSample {
    WaitSample { events, elapsed_ms, timer_ready }
}

#[test]
fn an_idle_descriptor_stays_idle() {
    let mut log = SpinLog::start(sample(0, 600, false));
    for _ in 0..3 {
        log.feed(sample(0, 600, false));
    }
    let out = log.finish(SpinStyle::Plain, "step=idle", 1900);
    assert_eq!(
        out.detail,
        "step=idle first_events=0 first_elapsed_ms=600 iterations=3 loop_elapsed_ms=1900 \
         zero_event_returns=4"
    );
    assert_eq!(check_epoll_spin_eventfd_idle(&out), Ok(out.detail.clone()));
    log.feed(sample(1, 0, false));
    let out = log.finish(SpinStyle::Plain, "step=idle", 1900);
    assert_eq!(check_epoll_spin_eventfd_idle(&out), Err(out.detail.clone()));
}

#[test]
fn a_timer_fires_on_time() {
    let mut log = SpinLog::start(sample(1, 1000, true));
    log.feed(sample(1, 1000, true));
    let out = log.finish(SpinStyle::Timer, "t", 1000);
    assert_eq!(
        out.detail,
        "t first_events=1 first_elapsed_ms=1000 iterations=1 loop_elapsed_ms=1000 timer_ready=2 \
         zero_event_returns=0"
    );
    assert!(check_epoll_spin_timerfd(&out).is_ok());
    let late = EpollSpinOut { first_elapsed_ms: 1801, ..out.clone() };
    assert!(check_epoll_spin_timerfd(&late).is_err());
    let plain = log.finish(SpinStyle::Plain, "t", 1000);
    assert_eq!(plain.timer_ready, 0);
}

#[test]
fn edges_and_levels_exclude_each_other() {
    let mut log = SpinLog::start(sample(1, 0, false));
    for _ in 0..101 {
        log.feed(sample(1, 0, false));
    }
    let out = log.finish(SpinStyle::Level, "l", 5);
    assert_eq!(out.detail, "l first_events=1 iterations=101 zero_event_returns=0");
    assert!(check_span_lt_persistent(&out).is_ok());
    assert!(check_span_et_no_spin(&out).is_err());
    let mut log = SpinLog::start(sample(1, 0, false));
    log.feed(sample(0, 100, false));
    let out = log.finish(SpinStyle::Plain, "e", 5);
    assert!(check_span_et_no_spin(&out).is_ok());
    assert!(check_span_lt_persistent(&out).is_err());
    assert!(check_epoll_spin_broker_writable_et(&out).is_ok());
    assert!(check_epoll_spin_broker_tcp_sticky_out(&out).is_ok());
    let many = EpollSpinOut { iterations: 41, zero_event_returns: 41, ..out };
    assert!(check_epoll_spin_broker_tcp_sticky_out(&many).is_err());
    assert!(check_epoll_spin_broker_writable_et(&many).is_err());
}

#[test]
fn firing_again() {
    let out = refire_report(sample(1, 2, false), sample(0, 100, false), sample(1, 3, false));
    assert_eq!(out.detail, "step=eventfd_in_refire e1=1 e2=0 e3=1 e1_ms=2 e3_ms=3");
    assert!(check_span_refire(&out).is_ok());
    let out = refire_report(sample(1, 2, false), sample(1, 100, false), sample(1, 3, false));
    assert!(check_span_refire(&out).is_err());
    let mut log = RefireLog::new();
    for _ in 0..4 {
        assert!(log.feed(sample(1, 9, false)).is_none());
        log.drain(10);
    }
    let out = log.finish();
    assert_eq!(
        out.detail,
        "step=broker_tcp_drain_in_refire_et cycles=4 samples=[1, 1, 1, 1] drained_bytes=40"
    );
    assert!(check_broker_tcp_refire(&out).is_ok());
    let mut log = RefireLog::new();
    assert!(log.feed(sample(2, 9, false)).is_none());
    log.drain(5);
    let out = log.feed(sample(0, 1000, false));
    assert_eq!(
        out.as_ref().map(|o| o.detail.as_str()),
        Some(
            "step=broker_tcp_drain_in_refire_et cycle=1 timed out samples=[2, 0] drained_bytes=5"
        )
    );
    assert_eq!(out.map(|o| check_broker_tcp_refire(&o).is_ok()), Some(false));
    assert_eq!(refire_payload(2), "broker-tcp-drain-refire-cycle-2");
    assert_eq!(refire_failed(2, "write", "EPIPE"), "cycle 2 write: EPIPE");
}

#[test]
fn streams() {
    assert!(matches!(
        send_step(StreamEvent::Bytes { n: 3 }, true),
        SendStep::Advance { n: 3 }
    ));
    assert!(matches!(
        send_step(StreamEvent::Bytes { n: 0 }, false),
        SendStep::Fail { error } if error == "tcp write returned zero"
    ));
    assert!(matches!(send_step(StreamEvent::WouldBlock, false), SendStep::Again));
    assert!(matches!(
        send_step(StreamEvent::WouldBlock, true),
        SendStep::Fail { error } if error == "timed out writing to tcp stream"
    ));
    assert!(matches!(
        drain_step(4, StreamEvent::Bytes { n: 3 }),
        DrainStep::Again { total: 7 }
    ));
    assert!(matches!(
        drain_step(4, StreamEvent::Bytes { n: 0 }),
        DrainStep::Fail { error } if error == "tcp stream closed while draining"
    ));
    assert!(matches!(drain_step(4, StreamEvent::WouldBlock), DrainStep::Empty { total: 4 }));
    assert!(matches!(
        drain_step(0, StreamEvent::WouldBlock),
        DrainStep::Fail { error } if error == "epoll reported readable but drain saw no bytes"
    ));
    assert!(matches!(drain_step(4, StreamEvent::Interrupted), DrainStep::Again { total: 4 }));
    assert!(matches!(peek_step(StreamEvent::Bytes { n: 1 }, false), PeekStep::Ready));
    assert!(matches!(
        peek_step(StreamEvent::Bytes { n: 0 }, false),
        PeekStep::Fail { error } if error == "socket closed before readability"
    ));
    assert!(matches!(peek_step(StreamEvent::WouldBlock, false), PeekStep::Pause));
    assert!(matches!(peek_step(StreamEvent::Interrupted, true), PeekStep::Again));
    assert!(matches!(
        peek_step(StreamEvent::WouldBlock, true),
        PeekStep::Fail { error } if error == "timed out waiting for socket readability"
    ));
    assert_eq!(read_step(5, None), ReadStep::More { n: 5 });
    assert_eq!(read_step(-1, Some(libc::EINTR)), ReadStep::Again);
    assert_eq!(read_step(-1, Some(libc::EIO)), ReadStep::End);
    assert_eq!(read_step(0, None), ReadStep::End);
}

#[test]
fn times_and_clamps() {
    assert_eq!(round_byte(257), 1);
    assert_eq!(elapsed_ms(2, 3_999_999), 2003);
    assert_eq!(elapsed_ms(u64::MAX, 0), u64::MAX);
    assert_eq!(duration_to_timespec(1, 5), Ok((1, 5)));
    assert_eq!(
        duration_to_timespec(u64::MAX, 0),
        Err("duration seconds exceed time_t".to_string())
    );
    assert_eq!(clamp_i32(7), 7);
    assert_eq!(clamp_i32(u64::MAX), i32::MAX);
    assert_eq!(EPOLLIN, libc::EPOLLIN as u32);
    assert!(timer_among(&[(1, EPOLLIN), (TIMER_TOKEN, EPOLLIN | 0x10)]));
    assert!(!timer_among(&[(1, EPOLLIN), (TIMER_TOKEN, 0x10)]));
}

#[test]
fn a_forked_timer_probe() {
    assert_eq!(timer_child_code(true, true), 0);
    assert_eq!(timer_child_code(true, false), 1);
    assert_eq!(timer_child_code(false, true), 2);
    assert_eq!(timer_child_end(0, b""), Ok(()));
    assert_eq!(
        timer_child_end(0x200, b"oops\xff"),
        Err("forked timerfd probe child status=0x200 output=oops\u{fffd}".to_string())
    );
    assert_eq!(
        timer_child_end(-1, b""),
        Err("forked timerfd probe child status=0xffffffff output=".to_string())
    );
    assert_eq!(
        timer_report_unreadable("eof", b"{"),
        "forked timerfd probe JSON parse: eof; {"
    );
}

#[test]
fn peers_and_ports() {
    for k in 0..4 {
        let a = scenario_agent(k);
        assert!(peer_for(a) != a);
    }
    assert_eq!(peer_for(AgentName::Dpg1Dpg1), AgentName::Dpg2);
    assert_eq!(peer_for(AgentName::VsCodeCli), AgentName::Dpg1);
    let mut ports = Vec::new();
    for k in 0..11 {
        for v in [SocketVariant::Direct, SocketVariant::Tokio] {
            ports.push(socket_port(v, socket_agent(k)));
        }
    }
    ports.sort();
    ports.dedup();
    assert_eq!(ports.len(), 22);
    assert!(!ports.contains(&19960));
    let tree = |a| Observer::Tree(a);
    assert_eq!(socket_port(SocketVariant::Direct, tree(AgentName::Dpg1)), 19990);
    assert_eq!(socket_port(SocketVariant::Tokio, tree(AgentName::Dpg1Snm)), 19987);
    let outside = [Observer::DngDng, Observer::DngSpm, Observer::SpmDng];
    for (port, o) in (19970..).zip(outside) {
        assert_eq!(socket_port(SocketVariant::Direct, o), port);
        assert_eq!(socket_port(SocketVariant::Tokio, o), port + 5);
        assert_eq!(peer_for_observer(o), AgentName::Dpg1);
    }
    assert_eq!(socket_port(SocketVariant::Tokio, tree(AgentName::Dpg3)), 19960);
    let names: Vec<&str> = outside.iter().map(|o| o.name()).collect();
    assert_eq!(names, vec!["dpg1_dng_dng", "dpg1_dng_spm", "dpg1_spm_dng"]);
    assert_eq!(tree(AgentName::Dpg2).name(), "dpg2");
    assert_eq!(peer_for_observer(tree(AgentName::Dpg1)), AgentName::Dpg2);
}

#[test]
fn socket_variants() {
    assert_eq!(SocketVariant::of("tokio"), SocketVariant::Tokio);
    assert_eq!(SocketVariant::of("direct"), SocketVariant::Direct);
    assert_eq!(SocketVariant::of("?"), SocketVariant::Direct);
    assert_eq!(SocketVariant::Tokio.name(), "tokio");
    assert_eq!(accept_line(SocketVariant::Tokio, 1, 0), ("EPOLL_ACCEPT=IMMEDIATE", true));
    assert_eq!(accept_line(SocketVariant::Tokio, 0, 1), ("EPOLL_ACCEPT=WOKE", true));
    assert_eq!(accept_line(SocketVariant::Tokio, 0, 0), ("EPOLL_ACCEPT=TIMEOUT", false));
    assert_eq!(accept_line(SocketVariant::Direct, 1, 0), ("EPOLL_ACCEPT=TIMEOUT", false));
    assert_eq!(accept_line(SocketVariant::Direct, 0, 1), ("EPOLL_ACCEPT=READY", true));
}

#[test]
fn socket_reports() {
    let accepted = "EPOLL_ACCEPT=READY";
    let got = |nr: i64, bytes: &[u8]| Some(ConnectionEnd::Got { nr, bytes: bytes.to_vec() });
    let detail = socket_detail(accepted, got(4, b"ping"));
    assert_eq!(detail, "EPOLL_ACCEPT=READY\nEPOLL_READ=OK data=ping");
    assert!(accept_outcome(Observer::Tree(AgentName::Dpg1), Ok(detail.clone())).pass);
    let o = read_outcome(Observer::Tree(AgentName::Dpg1), Ok(detail));
    assert!(o.pass);
    assert_eq!(
        o.detail,
        "Ok(EpollSocketDetailOut { detail: \"EPOLL_ACCEPT=READY\\nEPOLL_READ=OK data=ping\" })"
    );
    assert_eq!(
        socket_detail(accepted, got(1, b"\xff")),
        "EPOLL_ACCEPT=READY\nEPOLL_READ=OK data=?"
    );
    assert_eq!(
        socket_detail(accepted, got(-1, b"")),
        "EPOLL_ACCEPT=READY\nEPOLL_READ=NO_DATA nr=-1"
    );
    let late = socket_detail(accepted, Some(ConnectionEnd::NotReady));
    assert_eq!(late, "EPOLL_ACCEPT=READY\nEPOLL_READ=TIMEOUT");
    assert!(!accept_outcome(Observer::Tree(AgentName::Dpg1), Ok(late.clone())).pass);
    assert!(!read_outcome(Observer::Tree(AgentName::Dpg1), Ok(late)).pass);
    assert_eq!(
        socket_detail(accepted, Some(ConnectionEnd::NotAccepted)),
        "EPOLL_ACCEPT=READY\nEPOLL_ACCEPT=FAIL"
    );
    assert_eq!(socket_detail("EPOLL_ACCEPT=TIMEOUT", None), "EPOLL_ACCEPT=TIMEOUT");
    assert!(!accept_outcome(Observer::Tree(AgentName::Dpg1), Err("e".to_string())).pass);
}

#[test]
fn polling_a_pipe() {
    assert_eq!(POLLIN, libc::POLLIN);
    assert_eq!(poll_detail(1, POLLIN | libc::POLLHUP), "POLLIN");
    assert_eq!(poll_detail(1, libc::POLLHUP), "TIMEOUT");
    assert_eq!(poll_detail(0, POLLIN), "TIMEOUT");
    let o = poll_outcome(AgentName::Dpg2, Ok("POLLIN".to_string()));
    assert!(o.pass);
    assert_eq!(o.detail, "Ok(PollReadyOut { detail: \"POLLIN\" })");
    assert!(!poll_outcome(AgentName::Dpg2, Ok("TIMEOUT".to_string())).pass);
}
