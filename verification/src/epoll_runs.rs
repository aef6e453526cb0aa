//! The readiness tests as they run: what each asks, of whom, and how its answer is judged.

use vstd::prelude::*;
use crate::agents::AgentName;
use crate::asks::{Ask, AskView, Paths, PathsView};
use crate::epoll::{detail_out, peer_addr};
use crate::epoll_plans::{
    accept_outcome, accept_passes, epoll_row, observer_peer, peer_for_observer, poll_agent,
    poll_outcome, read_outcome, scenario_agent, socket_agent, socket_port, socket_port_of,
    socket_row, socket_variant, spin_agent, variant_at, EPOLL_TESTS, POLL_TESTS, SOCKET_TESTS,
};
use crate::fork_verdicts::{leaf_outcome_view, result_text};
use crate::number::dec_text;
use crate::observers::Observer;
use crate::registry::{binary_at, binary_type, OutcomeView, TestOutcome};
use crate::spin::{
    answered, check_broker_tcp_refire, check_epoll_spin_broker_tcp_sticky_out,
    check_epoll_spin_broker_writable_et, check_epoll_spin_eventfd_idle, check_epoll_spin_timerfd,
    check_span_et_no_spin, check_span_lt_persistent, check_span_refire, idle_passes, level_passes,
    no_spin_passes, refire_passes, span_refire_passes, sticky_out_passes, timer_passes,
    EpollSpinOut, SpinView,
};
use crate::text::cat;

verus! {

/// The observer of a test.
pub open spec fn observer_of(t: int) -> Observer {
    if t < 9 {
        Observer::Tree(AgentName::Dpg1)
    } else if t < 30 {
        Observer::Tree(scenario_agent((1 + (t - 9) / 7) as usize))
    } else {
        spin_agent(((t - 30) / 17) as usize)
    }
}

/// The observer of a test.
pub fn observer(t: usize) -> (r: Observer)
    requires
        t < EPOLL_TESTS,
    ensures
        r == observer_of(t as int),
{
    if t < 9 {
        Observer::Tree(AgentName::Dpg1)
    } else if t < 30 {
        Observer::Tree(scenario_agent(1 + (t - 9) / 7))
    } else {
        spin_agent((t - 30) / 17)
    }
}

/// Which of its agent's tests a test is: the nine scenarios first, of which the end of a
/// process takes five places, then the seventeen counting probes.
pub open spec fn readiness_test(t: int) -> int {
    if t < 9 {
        t
    } else if t < 30 {
        (t - 9) % 7
    } else {
        9 + (t - 30) % 17
    }
}

fn readiness_index(t: usize) -> (r: usize)
    requires
        t < EPOLL_TESTS,
    ensures
        r == readiness_test(t as int),
{
    if t < 9 {
        t
    } else if t < 30 {
        (t - 9) % 7
    } else {
        9 + (t - 30) % 17
    }
}

/// The tests in which a peer listens first.
pub open spec fn with_peer(t: int) -> bool {
    let j = readiness_test(t);
    j <= 5 || j == 8 || 13 <= j < 17
}

/// The agent that listens first in a test, where one does: it is asked to listen on any
/// port.
pub fn listener_of(t: usize) -> (r: Option<(AgentName, Ask)>)
    requires
        t < EPOLL_TESTS,
    ensures
        match r {
            Some((a, ask)) => with_peer(t as int) && a == observer_peer(observer_of(t as int)) && ask@
                == (AskView::Port { port: 0 }),
            None => !with_peer(t as int),
        },
{
    let j: usize = readiness_index(t);
    if j <= 5 || j == 8 || (13 <= j && j < 17) {
        Some((peer_for_observer(observer(t)), Ask::Port { port: 0 }))
    } else {
        None
    }
}

/// Where the peer is reached that was asked to listen.
pub fn opened_peer(answer: Result<u16, String>) -> (r: Result<String, String>)
    ensures
        match answer {
            Ok(port) => r matches Ok(a) && a@ == "127.0.0.1:"@ + dec_text(port as nat),
            Err(e) => r matches Err(c) && c@ == "setup_tcp_listen: "@ + e@,
        },
{
    match answer {
        Ok(port) => Ok(peer_addr(port)),
        Err(e) => Err(cat("setup_tcp_listen: ", e.as_str())),
    }
}

/// What a test asks of its observer; `addr` is where its peer is reached.
pub open spec fn readiness_ask_of(t: int, addr: Seq<char>, p: PathsView) -> AskView {
    let j = readiness_test(t);
    if j < 5 {
        AskView::PidfdExit { target: p.target(binary_at(j)), peer_addr: addr }
    } else if with_peer(t) {
        AskView::Peer { peer_addr: addr }
    } else {
        AskView::Nothing
    }
}

/// What a test asks of its observer; `addr` is where its peer is reached.
pub fn readiness_ask(t: usize, addr: &str, p: &Paths) -> (r: Ask)
    requires
        t < EPOLL_TESTS,
        p@.wf(),
    ensures
        r@ == readiness_ask_of(t as int, addr@, p@),
{
    let j: usize = readiness_index(t);
    if j < 5 {
        Ask::PidfdExit {
            target: p.target(binary_type(j)).to_string(),
            peer_addr: addr.to_string(),
        }
    } else if j == 5 || j == 8 || (13 <= j && j < 17) {
        Ask::Peer { peer_addr: addr.to_string() }
    } else {
        Ask::Nothing
    }
}

/// The tests whose observer reports a detail; the others report counts.
pub open spec fn reports_detail(t: int) -> bool {
    readiness_test(t) < 9
}

/// Whether the observer of a test reports a detail.
pub fn has_detail(t: usize) -> (r: bool)
    requires
        t < EPOLL_TESTS,
    ensures
        r == reports_detail(t as int),
{
    readiness_index(t) < 9
}

/// What a test finds in the detail that its observer reports: a test without a peer wants
/// one that is not empty.
pub fn detail_result(t: usize, detail: &str) -> (r: Result<String, String>)
    requires
        t < EPOLL_TESTS,
        reports_detail(t as int),
    ensures
        match r {
            Ok(d) => (with_peer(t as int) || detail@.len() > 0) && d@ == detail@,
            Err(e) => !with_peer(t as int) && detail@.len() == 0 && e@
                == "handler returned empty detail"@,
        },
{
    let j: usize = readiness_index(t);
    if j == 6 || j == 7 {
        detail_out(detail)
    } else {
        Ok(detail.to_string())
    }
}

/// The counts that a test accepts.
pub open spec fn counts_pass(t: int, o: SpinView) -> bool {
    let j = readiness_test(t);
    if j == 9 {
        idle_passes(o)
    } else if j == 10 || j == 11 {
        timer_passes(o)
    } else if j == 12 {
        o.iterations <= 10
    } else if j == 13 {
        sticky_out_passes(o)
    } else if j == 16 {
        refire_passes(o)
    } else if j == 24 {
        span_refire_passes(o)
    } else if j == 25 {
        level_passes(o)
    } else {
        no_spin_passes(o)
    }
}

/// What a test finds in the counts that its observer reports.
pub fn counts_result(t: usize, out: &EpollSpinOut) -> (r: Result<String, String>)
    requires
        t < EPOLL_TESTS,
        !reports_detail(t as int),
    ensures
        answered(r, counts_pass(t as int, out@), out.detail@),
{
    let j: usize = readiness_index(t);
    if j == 9 {
        check_epoll_spin_eventfd_idle(out)
    } else if j == 10 || j == 11 {
        check_epoll_spin_timerfd(out)
    } else if j == 12 {
        check_epoll_spin_broker_writable_et(out)
    } else if j == 13 {
        check_epoll_spin_broker_tcp_sticky_out(out)
    } else if j == 16 {
        check_broker_tcp_refire(out)
    } else if j == 24 {
        check_span_refire(out)
    } else if j == 25 {
        check_span_lt_persistent(out)
    } else {
        check_span_et_no_spin(out)
    }
}

/// The complaint where the observer could not be asked.
pub fn not_asked(error: &str) -> (r: String)
    ensures
        r@ == "send_named: "@ + error@,
{
    cat("send_named: ", error)
}

/// The verdict on what a test found.
pub fn found_outcome(agent: &str, found: Result<String, String>) -> (o: TestOutcome)
    ensures
        o@ == (match found {
            Ok(d) => OutcomeView { agent: agent@, pass: true, detail: d@ },
            Err(d) => OutcomeView { agent: agent@, pass: false, detail: d@ },
        }),
{
    match found {
        Ok(d) => TestOutcome::new(agent, true, d),
        Err(d) => TestOutcome::new(agent, false, d),
    }
}

/// A readiness test runs on its observer, and its plan declares the observer where the tree
/// holds it, and after that the observer's peer exactly where a peer listens first.
pub proof fn law_peers_planned(t: int)
    requires
        0 <= t < EPOLL_TESTS,
    ensures
        epoll_row(t).observer == observer_of(t),
        epoll_row(t).plan.agents == observer_of(t).in_tree() + if with_peer(t) {
            seq![observer_peer(observer_of(t))]
        } else {
            Seq::empty()
        },
{
}

/// A socket test runs in a child of its observer, and the plan declares that child exactly
/// where the tree holds the observer.
pub proof fn law_socket_children_planned(t: int)
    requires
        0 <= t < SOCKET_TESTS,
    ensures
        socket_row(t).observer == socket_agent(((t % 22) / 2) as usize),
        socket_row(t).leaf is Some,
        socket_row(t).plan.leaves.len() == socket_row(t).observer.in_tree().len(),
        socket_row(t).plan.leaves.len() == 1 ==> socket_row(t).plan.leaves[0].parent
            == socket_row(t).observer.in_tree()[0] && Some(socket_row(t).plan.leaves[0].label)
            == socket_row(t).leaf,
{
}

/// What a socket test asks.
pub fn socket_ask(t: usize) -> (r: Ask)
    requires
        t < SOCKET_TESTS,
    ensures
        r@ == (AskView::Socket {
            port: socket_port_of(
                variant_at(t as int / 22),
                socket_agent(((t as int % 22) / 2) as usize),
            ),
            variant: variant_at(t as int / 22).text(),
        }),
{
    let v = socket_variant(t / 22);
    Ask::Socket { port: socket_port(v, socket_agent((t % 22) / 2)), variant: v.name() }
}

/// The verdict on a socket test: every other one looks at the data too.
pub fn socket_judge(t: usize, result: Result<String, String>) -> (o: TestOutcome)
    requires
        t < SOCKET_TESTS,
    ensures
        o@ == ({
            let a = socket_agent(((t as int % 22) / 2) as usize);
            if t % 2 == 0 {
                OutcomeView {
                    agent: a.wire(),
                    pass: accept_passes(result),
                    detail: result_text("EpollSocketDetailOut"@, result),
                }
            } else {
                leaf_outcome_view(
                    a.wire(),
                    "EpollSocketDetailOut"@,
                    result,
                    "EPOLL_READ=OK"@,
                    "EPOLL_READ=OK"@,
                )
            }
        }),
{
    let a = socket_agent((t % 22) / 2);
    if t % 2 == 0 {
        accept_outcome(a, result)
    } else {
        read_outcome(a, result)
    }
}

/// How long a poll test waits, in milliseconds.
pub const POLL_MILLIS: u32 = 2000;

/// What a poll test asks.
pub fn poll_ask() -> (r: Ask)
    ensures
        r@ == (AskView::Poll { timeout_ms: POLL_MILLIS }),
{
    Ask::Poll { timeout_ms: POLL_MILLIS }
}

/// The verdict on a poll test.
pub fn poll_judge(t: usize, result: Result<String, String>) -> (o: TestOutcome)
    requires
        t < POLL_TESTS,
    ensures
        o@ == (OutcomeView {
            agent: poll_agent(t).wire(),
            pass: result matches Ok(d) && d@ == "POLLIN"@,
            detail: result_text("PollReadyOut"@, result),
        }),
{
    poll_outcome(poll_agent(t), result)
}

/// A test hands its observer the address of the peer exactly where a peer listens, and the
/// program of the binary type where a process has to end.
pub proof fn law_readiness_asks(t: int, addr: Seq<char>, p: PathsView)
    requires
        0 <= t < EPOLL_TESTS,
        p.wf(),
    ensures
        with_peer(t) <==> !(readiness_ask_of(t, addr, p) is Nothing),
        readiness_ask_of(t, addr, p) matches AskView::Peer { peer_addr } ==> peer_addr == addr,
        readiness_ask_of(t, addr, p) matches AskView::PidfdExit { target, peer_addr } ==> peer_addr
            == addr && target == p.target(binary_at(readiness_test(t))),
        readiness_ask_of(t, addr, p) is PidfdExit <==> readiness_test(t) < 5,
        reports_detail(t) <==> t < 30,
{
}

/// What each counting probe must find: an idle counter, a timer in its own process and in a
/// child, a datagram socket, a connection, a half-closed or readable connection, a drained
/// connection, the descriptors that stay ready, the refilled counter and the level.
pub proof fn law_counts_by_probe(k: int, o: SpinView)
    requires
        0 <= k < 4,
    ensures
        ({
            let t = 30 + 17 * k;
            &&& counts_pass(t, o) <==> idle_passes(o)
            &&& counts_pass(t + 1, o) <==> timer_passes(o)
            &&& counts_pass(t + 2, o) <==> timer_passes(o)
            &&& counts_pass(t + 3, o) <==> o.iterations <= 10
            &&& counts_pass(t + 4, o) <==> sticky_out_passes(o)
            &&& counts_pass(t + 5, o) <==> no_spin_passes(o)
            &&& counts_pass(t + 6, o) <==> no_spin_passes(o)
            &&& counts_pass(t + 7, o) <==> refire_passes(o)
            &&& forall|j: int|
                8 <= j < 15 ==> (#[trigger] counts_pass(t + j, o) <==> no_spin_passes(o))
            &&& counts_pass(t + 15, o) <==> span_refire_passes(o)
            &&& counts_pass(t + 16, o) <==> level_passes(o)
        }),
{
    let t = 30 + 17 * k;
    assert forall|j: int| 0 <= j < 17 implies #[trigger] readiness_test(t + j) == 9 + j by {
        assert((17 * k + j) % 17 == j);
    }
    assert(readiness_test(t + 0) == 9);
    assert(readiness_test(t + 1) == 10 && readiness_test(t + 2) == 11 && readiness_test(t + 3) == 12
        && readiness_test(t + 4) == 13 && readiness_test(t + 5) == 14 && readiness_test(t + 6) == 15
        && readiness_test(t + 7) == 16 && readiness_test(t + 15) == 24 && readiness_test(t + 16)
        == 25);
    assert forall|j: int| 8 <= j < 15 implies (#[trigger] counts_pass(t + j, o) <==> no_spin_passes(
        o,
    )) by {
        assert(readiness_test(t + j) == 9 + j);
    }
}

} // verus!
