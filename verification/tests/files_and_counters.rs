use litebox_test_harness::agents::AgentName;
use litebox_test_harness::epoll::EpollEvent;
use litebox_test_harness::eventfd::{
    check_counter, check_edge_detail, check_mask, child_read_step, child_write_step,
    counter_detail, counter_program, cross_agent_outcome, cross_agent_result, edge_test_detail,
    first_wait_complaint, inherit_out, parent_drain_complaint, parse_child_args, part_code,
    poll_args, poll_complaint, read_args, read_byte_step, second_wait_complaint,
    semaphore_complaint, semaphore_detail, semaphore_end, value_complaint, watch_step,
    write_byte_step, ByteStep, CounterProgram, CounterRead, Inheritance, LevelCall, LevelEvent,
    LevelNext, LevelProbe, WatchCall, WatchEvent, WatchNext,
};
use litebox_test_harness::file_tcp::{
    axis_names, axis_outcome, cat_complaint, check_echo, check_hostname, check_readback,
    conn_echo_detail, conn_write_detail, cycle_echo_complaint, cycle_file_complaint,
    cycle_send_complaint, cycle_texts, cycles_detail, delete_result, echo_run_result,
    listen_port, listen_read_result, listen_write_detail, needs_marker, outcome, pattern_bytes,
    read_after_detail, sendfile_result, sendfile_source, sendfile_step, server_detail,
    server_failed, test_data, test_file, DeleteEnd, ReadExpectation, SendfileStep, ServerEnd,
};

fn text_of(bytes: Vec<u8>) -> String {
    String::from_utf8(bytes).unwrap()
}

#[test]
fn patterns() {
    assert_eq!(pattern_bytes(17), b"ABCDEFGHIJKLMNOPA".to_vec());
    assert_eq!(pattern_bytes(100)[..40].to_vec(), pattern_bytes(40));
}

#[test]
fn listening_and_files() {
    assert_eq!(listen_port(AgentName::Dpg1), 18100);
    assert_eq!(listen_port(AgentName::Dpg1Dpg1), 18101);
    assert_eq!(listen_write_detail(18100, test_file()), "listening=18100 wrote=/tmp/ft_test.txt");
    let exact = ReadExpectation::Exact(test_data().to_string());
    assert_eq!(
        listen_read_result(&exact, test_data(), 1),
        Ok("listening=1 read_len=29".to_string())
    );
    assert_eq!(
        listen_read_result(&ReadExpectation::Exact("a".to_string()), "b\n", 1),
        Err("expected \"a\", got \"b\\n\"".to_string())
    );
    assert_eq!(
        listen_read_result(&ReadExpectation::NonEmpty, "é", 1),
        Ok("listening=1 read_len=2".to_string())
    );
    assert_eq!(
        listen_read_result(&ReadExpectation::NonEmpty, "", 1),
        Err("read empty file".to_string())
    );
    let o = outcome(Ok("d".to_string()), "dpg1");
    assert!(o.pass && o.detail == "d" && o.agent == "dpg1");
    assert!(!outcome(Err("e".to_string()), "dpg1").pass);
    assert_eq!(server_failed("server", "a<-b", "e").detail, "server failed: e");
}

#[test]
fn echo_runs() {
    let ok = || Ok("d".to_string());
    assert_eq!(
        echo_run_result(ok(), ServerEnd::Accepted { n: 2 }),
        Ok("d; accepted=2".to_string())
    );
    assert_eq!(
        echo_run_result(ok(), ServerEnd::Failed { error: "s".to_string() }),
        Err("s".to_string())
    );
    assert_eq!(
        echo_run_result(ok(), ServerEnd::Panicked),
        Err("server thread panicked".to_string())
    );
    assert_eq!(
        echo_run_result(Err("c".to_string()), ServerEnd::Panicked),
        Err("c".to_string())
    );
    assert_eq!(check_echo("x", "x", "fine"), Ok("fine".to_string()));
    assert_eq!(check_echo("x", "y\n", "fine"), Err("echo mismatch: \"y\\n\"".to_string()));
    assert_eq!(conn_echo_detail("d"), "accepted=d");
    assert_eq!(check_hostname("box\n"), Ok("read_len=4".to_string()));
    assert_eq!(check_hostname(""), Err("hostname empty".to_string()));
    assert_eq!(read_after_detail("d"), "d file read after conn");
    assert_eq!(conn_write_detail("/p"), "wrote=/p");
    assert_eq!(check_readback("x", "x"), Ok("readback=x".to_string()));
    assert_eq!(check_readback("x", "y"), Err("readback mismatch: \"y\"".to_string()));
}

#[test]
fn cycles() {
    assert_eq!(
        cycle_texts(3),
        ("cycle_3".to_string(), "cycle_data_3".to_string(), "/tmp/ft_multi_3.txt".to_string())
    );
    assert_eq!(cycle_echo_complaint(3, "x", "x"), None);
    assert_eq!(
        cycle_echo_complaint(3, "x", "y"),
        Some("cycle 3 echo mismatch: \"y\"".to_string())
    );
    assert_eq!(cycle_file_complaint(3, "x", "x"), None);
    assert_eq!(
        cycle_file_complaint(3, "x", "y"),
        Some("cycle 3 readback mismatch".to_string())
    );
    assert_eq!(cycle_send_complaint(3, "tcp_ok=256,file_len=1"), None);
    assert_eq!(
        cycle_send_complaint(3, "tcp_ok=64"),
        Some("cycle 3 sendfile failed: tcp_ok=64".to_string())
    );
    assert_eq!(cycles_detail(5, true), "5 interleaved file+TCP cycles");
    assert_eq!(cycles_detail(5, false), "5 file+TCP cycles");
}

#[test]
fn reading_files_through_programs() {
    assert_eq!(cat_complaint(Some(0), true, b" x\n", Some("x")), None);
    assert_eq!(cat_complaint(Some(0), true, b"\xff", None), None);
    assert_eq!(cat_complaint(None, false, b"", None), Some("cat exit=None".to_string()));
    assert_eq!(cat_complaint(Some(2), false, b"", None), Some("cat exit=Some(2)".to_string()));
    assert_eq!(
        cat_complaint(Some(0), true, b"y\n", Some("x")),
        Some("cat output mismatch: \"y\\n\"".to_string())
    );
    assert!(needs_marker("/tmp/x"));
    assert!(!needs_marker("/etc/hostname"));
    assert_eq!(delete_result("/p", DeleteEnd::Deleted), Ok("deleted=/p".to_string()));
    assert_eq!(delete_result("/p", DeleteEnd::NotFound), Ok("not_found=/p".to_string()));
    assert_eq!(
        delete_result("/p", DeleteEnd::Failed { error: "e".to_string() }),
        Err("e".to_string())
    );
}

#[test]
fn sending_files() {
    assert!(matches!(sendfile_step(10, 4, None, ""), SendfileStep::Sent { remaining: 6 }));
    assert!(matches!(
        sendfile_step(10, 0, None, ""),
        SendfileStep::Fail { error } if error == "sendfile EOF with 10 bytes remaining"
    ));
    assert!(matches!(
        sendfile_step(10, -1, Some(libc::EINTR), ""),
        SendfileStep::Again
    ));
    assert!(matches!(
        sendfile_step(10, -1, Some(libc::EIO), "io"),
        SendfileStep::Fail { error } if error == "sendfile: io"
    ));
    let echo = text_of(pattern_bytes(64));
    assert_eq!(sendfile_result(64, &echo, "abc"), Ok("tcp_ok=64,file_len=3".to_string()));
    assert_eq!(
        sendfile_result(65, &echo, "abc"),
        Err("echo mismatch: sent=65 recv=64".to_string())
    );
    assert_eq!(server_detail(9), "port=9");
    assert_eq!(sendfile_source(), "/root/litebox_ft_sendfile_source.bin");
    let (agent, path, data) = axis_names(AgentName::Dpg1, AgentName::Dpg1Dpg1, "child_parent");
    assert_eq!(agent, "dpg1<-dpg1_dpg1");
    assert_eq!(path, "/root/litebox_ft_axis_child_parent.txt");
    assert_eq!(data, "ft_axis_payload_child_parent");
    let sent = sendfile_result(128, &text_of(pattern_bytes(128)), &data);
    assert!(axis_outcome(&agent, &data, sent).pass);
    let o = axis_outcome(&agent, "x", Ok("tcp_ok=128,file_len=9".to_string()));
    assert!(!o.pass);
    assert_eq!(o.detail, "expected=tcp_ok=128,file_len=1 got=tcp_ok=128,file_len=9");
    assert!(!axis_outcome(&agent, "x", Err("e".to_string())).pass);
}

fn event(observed: &str) -> EpollEvent {
    EpollEvent { kind: "eventfd".to_string(), id: 1, observed_events: observed.to_string() }
}

#[test]
fn counters() {
    assert_eq!(check_counter(8, CounterRead::WouldBlock), Ok(8));
    assert_eq!(
        check_counter(7, CounterRead::WouldBlock),
        Err("expected accumulated=8 got 7".to_string())
    );
    assert!(check_counter(8, CounterRead::Value { value: 1 }).is_err());
    assert!(check_counter(8, CounterRead::Failed { error: "e".to_string() }).is_err());
    assert_eq!(counter_detail(8), "counter value=8");
    assert_eq!(semaphore_complaint(2, 1), None);
    assert_eq!(
        semaphore_complaint(2, 3),
        Some("semaphore read 2: expected 1 got 3".to_string())
    );
    assert_eq!(semaphore_end(CounterRead::WouldBlock), Ok(5));
    assert!(semaphore_end(CounterRead::Value { value: 1 }).is_err());
    assert_eq!(semaphore_detail(5), "semaphore reads=5");
    assert_eq!(
        check_edge_detail("first=1 second=0 value=8".to_string()),
        Ok("first=1 second=0 value=8".to_string())
    );
    assert_eq!(
        check_edge_detail("first=1 second=1 value=8".to_string()),
        Err("epollet detail mismatch: first=1 second=1 value=8".to_string())
    );
    assert_eq!(edge_test_detail("d"), "epollet d");
}

#[test]
fn levels() {
    let ready = vec![event("in")];
    assert_eq!(LevelProbe::Drain.check_ready(&ready, "x"), Ok(()));
    assert_eq!(
        LevelProbe::Drain.check_ready(&Vec::new(), "[]"),
        Err("written eventfd did not report EPOLLIN: events=[]".to_string())
    );
    assert_eq!(
        LevelProbe::NestedDrain.check_ready(&vec![event("out")], "x"),
        Err("outer epoll did not report inner readiness after write: events=x".to_string())
    );
    assert_eq!(LevelProbe::Drain.check_value(1), Ok(()));
    assert_eq!(
        LevelProbe::ThreadDrain.check_value(2),
        Err("reader got 2, want 1".to_string())
    );
    assert_eq!(
        LevelProbe::Drain.check_value(2),
        Err("eventfd read got 2, want 1".to_string())
    );
    assert_eq!(LevelProbe::Zero.check_quiet(&Vec::new(), ""), Ok(()));
    assert_eq!(
        LevelProbe::Zero.check_quiet(&ready, "x"),
        Err("counter=0 eventfd reported ready: events=x".to_string())
    );
    assert_eq!(LevelProbe::Zero.detail(), "counter=0 EPOLLIN wait timed out");
    assert_eq!(
        check_mask(&ready, "x"),
        Ok("EPOLLIN-only registration returned in".to_string())
    );
    assert_eq!(
        check_mask(&vec![event("in|out")], "x"),
        Err("EPOLLIN-only registration returned mask \"in|out\"; has_in=true has_out=true"
            .to_string())
    );
    assert_eq!(
        check_mask(&Vec::new(), "[]"),
        Err("written eventfd wait returned 0 events: []".to_string())
    );
}

/// Run a probe whose calls give what `gives` says; the calls it made, and its result.
fn level_run(
    probe: LevelProbe,
    gives: impl Fn(LevelCall) -> LevelEvent,
) -> (Vec<LevelCall>, Result<String, String>) {
    let mut calls = Vec::new();
    let mut at = probe.first_call();
    loop {
        calls.push(at);
        match probe.level_step(at, gives(at)) {
            LevelNext::Call { call } => at = call,
            LevelNext::Over { result } => return (calls, result),
        }
    }
}

fn right(at: LevelCall) -> LevelEvent {
    let events = |events| LevelEvent::Events { events, shown: "x".to_string() };
    match at {
        LevelCall::Put => LevelEvent::Written,
        LevelCall::WaitReady => events(vec![event("in")]),
        LevelCall::Drain => LevelEvent::Value { value: 1 },
        LevelCall::WaitQuiet => events(Vec::new()),
    }
}

#[test]
fn levels_are_probed_in_order() {
    let whole = vec![
        LevelCall::Put,
        LevelCall::WaitReady,
        LevelCall::Drain,
        LevelCall::WaitQuiet,
    ];
    for probe in [LevelProbe::Drain, LevelProbe::ThreadDrain, LevelProbe::NestedDrain] {
        assert_eq!(level_run(probe, right), (whole.clone(), Ok(probe.detail())));
        for k in 0..whole.len() {
            let (calls, result) = level_run(probe, |at| {
                if at == whole[k] {
                    LevelEvent::Failed { error: "E".to_string() }
                } else {
                    right(at)
                }
            });
            assert_eq!(calls, whole[..=k].to_vec());
            assert!(result.unwrap_err().ends_with(": E"));
        }
    }
    for probe in [LevelProbe::Zero, LevelProbe::NestedZero] {
        assert_eq!(level_run(probe, right), (vec![LevelCall::WaitQuiet], Ok(probe.detail())));
    }
    let fails = |probe: LevelProbe, at| {
        match probe.level_step(at, LevelEvent::Failed { error: "E".to_string() }) {
            LevelNext::Over { result } => result.unwrap_err(),
            LevelNext::Call { .. } => String::new(),
        }
    };
    assert_eq!(fails(LevelProbe::Drain, LevelCall::Put), "eventfd write: E");
    assert_eq!(fails(LevelProbe::NestedDrain, LevelCall::WaitReady), "first outer epoll wait: E");
    assert_eq!(fails(LevelProbe::ThreadDrain, LevelCall::Drain), "reader eventfd read: E");
    assert_eq!(fails(LevelProbe::Zero, LevelCall::WaitQuiet), "epoll wait: E");
    assert_eq!(fails(LevelProbe::NestedZero, LevelCall::WaitQuiet), "outer epoll wait: E");
    assert_eq!(fails(LevelProbe::Drain, LevelCall::WaitQuiet), "second epoll wait: E");
    assert!(matches!(
        LevelProbe::ThreadDrain.level_step(LevelCall::Drain, LevelEvent::Broken),
        LevelNext::Over { result: Err(e) } if e == "reader thread panicked"
    ));
    assert!(matches!(
        LevelProbe::Drain.level_step(LevelCall::Drain, LevelEvent::Value { value: 2 }),
        LevelNext::Over { result: Err(e) } if e == "eventfd read got 2, want 1"
    ));
}

#[test]
fn the_watching_part_goes_step_by_step() {
    let order = [
        WatchCall::Create,
        WatchCall::Add,
        WatchCall::TellReady,
        WatchCall::FirstWait,
        WatchCall::TellFirst,
        WatchCall::AwaitGo,
        WatchCall::SecondWait,
    ];
    let right = |at: WatchCall| match at {
        WatchCall::FirstWait => WatchEvent::Waited { rc: 1, events: libc::EPOLLIN as u32 },
        WatchCall::SecondWait => WatchEvent::Waited { rc: 0, events: 0 },
        _ => WatchEvent::Done,
    };
    for (k, &at) in order.iter().enumerate() {
        match watch_step(at, right(at)) {
            WatchNext::Call { call } => assert_eq!(Some(&call), order.get(k + 1)),
            WatchNext::Over { complaint } => {
                assert_eq!((at, complaint), (WatchCall::SecondWait, None))
            }
        }
    }
    let rows = [
        (WatchCall::Create, "child epoll_create1: E"),
        (WatchCall::Add, "child epoll_ctl ADD: E"),
        (WatchCall::TellFirst, "E"),
    ];
    for (at, text) in rows {
        assert!(matches!(
            watch_step(at, WatchEvent::Failed { error: "E".to_string() }),
            WatchNext::Over { complaint: Some(c) } if c == text
        ));
    }
    assert!(matches!(
        watch_step(WatchCall::SecondWait, WatchEvent::Waited { rc: 1, events: 1 }),
        WatchNext::Over { complaint: Some(c) }
            if c == "child second epoll_wait after parent drain returned rc=1 events=0x1"
    ));
}

#[test]
fn agents_share_a_counter() {
    let ok = cross_agent_result("dpg2", 7);
    assert_eq!(
        ok,
        Ok("cross_agent reader=dpg2 forward_via_creator=ok value=7".to_string())
    );
    let o = cross_agent_outcome(AgentName::Dpg1, AgentName::Dpg2, ok);
    assert!(o.pass);
    assert_eq!(o.agent, "dpg1->dpg2");
    let bad = cross_agent_result("dpg2", 6);
    assert_eq!(
        bad,
        Err("reader logical read forwarded through creator: expected 7 got 6".to_string())
    );
    let o = cross_agent_outcome(AgentName::Dpg1, AgentName::Dpg2, bad);
    assert!(!o.pass);
    assert!(o.detail.starts_with("cross_agent handler: reader logical"));
}

#[test]
fn inherited_counters() {
    assert_eq!(Inheritance::Read.sentinel(), 0xA5A5_A5A5_A5A5_A5A5);
    assert_eq!(Inheritance::Poll.sentinel(), 0x5A5A_5A5A_5A5A_5A5A);
    assert_eq!(Inheritance::Poll.wait_millis(), 5000);
    let o = Inheritance::Read.outcome(Ok(inherit_out(Some(0), b"")));
    assert!(o.pass);
    assert_eq!(o.detail, "child read inherited eventfd, got sentinel");
    let o = Inheritance::Drain.outcome(Ok(inherit_out(None, b"a\xff")));
    assert!(!o.pass);
    assert_eq!(o.detail, "exit_code=-1 stderr=\"a\u{fffd}\"");
    assert_eq!(Inheritance::Poll.outcome(Err("e".to_string())).detail, "handler: e");
    assert_eq!(parent_drain_complaint(1), None);
    assert_eq!(
        parent_drain_complaint(2),
        Some("parent drain got 2, want 1".to_string())
    );
}

fn failure(step: ByteStep) -> Option<String> {
    match step {
        ByteStep::Fail { error } => Some(error),
        _ => None,
    }
}

#[test]
fn bytes_between_parent_and_child() {
    assert!(matches!(read_byte_step("l", 1, None, ""), ByteStep::Done));
    assert!(matches!(read_byte_step("l", -1, Some(libc::EINTR), ""), ByteStep::Again));
    assert_eq!(failure(read_byte_step("l", 0, None, "")).as_deref(), Some("l: unexpected EOF"));
    assert_eq!(failure(read_byte_step("l", -1, None, "e")).as_deref(), Some("l: read: e"));
    assert_eq!(failure(read_byte_step("l", 2, None, "e")).as_deref(), Some("l: short read 2"));
    assert!(matches!(write_byte_step("l", 1, None, ""), ByteStep::Done));
    assert!(matches!(write_byte_step("l", -1, Some(libc::EINTR), ""), ByteStep::Again));
    assert_eq!(failure(write_byte_step("l", -1, None, "e")).as_deref(), Some("l: write: e"));
    assert_eq!(failure(write_byte_step("l", 0, None, "e")).as_deref(), Some("l: short write 0"));
    assert!(matches!(child_write_step("l", 1, None, ""), ByteStep::Done));
    assert_eq!(
        failure(child_write_step("l", -1, None, "e")).as_deref(),
        Some("child write l: e")
    );
    assert!(matches!(child_read_step("l", -1, Some(libc::EINTR), ""), ByteStep::Again));
    assert_eq!(
        failure(child_read_step("l", 0, None, "e")).as_deref(),
        Some("child read l: EOF")
    );
    assert_eq!(
        failure(child_read_step("l", -1, None, "e")).as_deref(),
        Some("child read l: e")
    );
}

fn words(args: &[&str]) -> Vec<String> {
    args.iter().map(|a| a.to_string()).collect()
}

#[test]
fn counter_programs() {
    let program = |sub: &str| counter_program(&words(&["h", "eventfd-test", sub]));
    assert_eq!(program("read-inherited"), CounterProgram::ReadInherited);
    assert_eq!(program("read-inherited-poll"), CounterProgram::ReadInheritedPoll);
    assert_eq!(program("epoll-fork-drain-clears-child"), CounterProgram::DrainChild);
    assert_eq!(
        program("tokio-release-after-deregister"),
        CounterProgram::ReleaseAfterDeregister
    );
    assert_eq!(program("x"), CounterProgram::Unknown);
    assert_eq!(counter_program(&words(&["h"])), CounterProgram::Unknown);
    assert_eq!(read_args(&words(&["h", "e", "r", "5", "9"])), Ok((5, 9)));
    assert_eq!(
        read_args(&words(&["h", "e", "r"])),
        Err("eventfd-test read-inherited: bad fd arg".to_string())
    );
    assert_eq!(
        read_args(&words(&["h", "e", "r", "5", "x"])),
        Err("eventfd-test read-inherited: bad expected arg".to_string())
    );
    assert_eq!(poll_args(&words(&["h", "e", "r", "5", "-1", "9"])), Ok((5, -1, 9)));
    assert_eq!(
        poll_args(&words(&["h", "e", "r", "5", "x", "9"])),
        Err("eventfd-test read-inherited-poll: bad timeout_ms arg".to_string())
    );
    assert_eq!(
        parse_child_args(&words(&["h", "e", "r", "1", "2", "3", "4", "5"])),
        Some((1, 2, 3, 4, 5))
    );
    assert_eq!(parse_child_args(&words(&["h", "e", "r", "1", "2", "3", "4"])), None);
}

#[test]
fn counter_complaints() {
    assert_eq!(poll_complaint(1, libc::POLLIN), None);
    assert_eq!(
        poll_complaint(1, libc::POLLHUP),
        Some("eventfd-test read-inherited-poll: poll rc=1 revents=16".to_string())
    );
    assert_eq!(value_complaint("p", 8, "", 5, 5), None);
    assert_eq!(
        value_complaint("p", -1, "e", 5, 5),
        Some("eventfd-test p: short read: n=-1 (e)".to_string())
    );
    assert_eq!(
        value_complaint("p", 8, "", 255, 5),
        Some("eventfd-test p: value mismatch: got 0xff expected 0x5".to_string())
    );
    assert_eq!(first_wait_complaint(1, libc::EPOLLIN as u32), None);
    assert_eq!(
        first_wait_complaint(0, 0),
        Some("child first epoll_wait rc=0 events=0x0".to_string())
    );
    assert_eq!(second_wait_complaint(0, 0), None);
    assert_eq!(
        second_wait_complaint(1, 1),
        Some("child second epoll_wait after parent drain returned rc=1 events=0x1".to_string())
    );
    assert_eq!(part_code(false, &None), 2);
    assert_eq!(part_code(true, &Some(String::new())), 1);
    assert_eq!(part_code(true, &None), 0);
}
