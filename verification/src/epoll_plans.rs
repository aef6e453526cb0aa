//! The readiness tests: their names, agents and ports, and how socket wakeups are judged.

use vstd::prelude::*;
use crate::agents::AgentName;
use crate::fork_probes::{reply_of, reply_text};
use crate::fork_verdicts::{leaf_outcome, leaf_outcome_view, result_debug, result_text};
use crate::number::{dec_i64, int_text};
use crate::observers::{
    in_child_of, on_observer, plan_in_child_of, plan_on_observer, readiness_views, Observer,
    ReadinessPlan, ReadinessView,
};
use crate::registry::{
    binary_at, binary_type, on_agents, plan_on, plan_views, Group, Handler, OutcomeView, PlanView,
    TestOutcome, TestPlan,
};
use crate::text::{cat, cat3, contains, contains_text, occurs_at, same};

verus! {

/// The agent at the other end of a probe's connection.
pub open spec fn peer_of(agent: AgentName) -> AgentName {
    if agent == AgentName::Dpg1 || agent == AgentName::Dpg1Dpg1 {
        AgentName::Dpg2
    } else {
        AgentName::Dpg1
    }
}

/// The agent at the other end of a probe's connection.
pub fn peer_for(agent: AgentName) -> (r: AgentName)
    ensures
        r == peer_of(agent),
{
    if agent == AgentName::Dpg1 || agent == AgentName::Dpg1Dpg1 {
        AgentName::Dpg2
    } else {
        AgentName::Dpg1
    }
}

/// The agent at the other end of an observer's connection.
pub open spec fn observer_peer(o: Observer) -> AgentName {
    match o {
        Observer::Tree(a) => peer_of(a),
        _ => AgentName::Dpg1,
    }
}

/// The agent at the other end of an observer's connection.
pub fn peer_for_observer(o: Observer) -> (r: AgentName)
    ensures
        r == observer_peer(o),
{
    match o {
        Observer::Tree(a) => peer_for(a),
        _ => AgentName::Dpg1,
    }
}

/// Nobody is its own peer.
pub proof fn law_peer_is_another(o: Observer)
    ensures
        o != Observer::Tree(observer_peer(o)),
{
}

/// The agents of the readiness scenarios.
#[verifier::allow_in_spec]
pub fn scenario_agent(k: usize) -> AgentName
    returns
        (if k == 0 {
            AgentName::Dpg1
        } else if k == 1 {
            AgentName::Dpg1Dpg1
        } else if k == 2 {
            AgentName::Dpg2
        } else {
            AgentName::Dpg2Dpg
        }),
{
    if k == 0 {
        AgentName::Dpg1
    } else if k == 1 {
        AgentName::Dpg1Dpg1
    } else if k == 2 {
        AgentName::Dpg2
    } else {
        AgentName::Dpg2Dpg
    }
}

/// The observers of the counting probes.
#[verifier::allow_in_spec]
pub fn spin_agent(k: usize) -> Observer
    returns
        (if k == 0 {
            Observer::Tree(AgentName::Dpg1)
        } else if k == 1 {
            Observer::DngSpm
        } else if k == 2 {
            Observer::Tree(AgentName::VsCodeCli)
        } else {
            Observer::Tree(AgentName::VsCodeNode)
        }),
{
    if k == 0 {
        Observer::Tree(AgentName::Dpg1)
    } else if k == 1 {
        Observer::DngSpm
    } else if k == 2 {
        Observer::Tree(AgentName::VsCodeCli)
    } else {
        Observer::Tree(AgentName::VsCodeNode)
    }
}

/// Name and handler of a counting probe without a peer.
#[verifier::allow_in_spec]
pub fn spin_case(k: usize) -> (&'static str, &'static str)
    returns
        (if k == 0 {
            ("eventfd_idle", "epoll_pidfd.epoll_spin_eventfd_idle")
        } else if k == 1 {
            ("timerfd", "epoll_pidfd.epoll_spin_timerfd")
        } else if k == 2 {
            ("timerfd_inherited_fork", "epoll_pidfd.epoll_spin_timerfd_inherited_fork")
        } else {
            ("broker_udp_writable_et", "epoll_pidfd.epoll_spin_broker_udp_writable")
        }),
{
    if k == 0 {
        ("eventfd_idle", "epoll_pidfd.epoll_spin_eventfd_idle")
    } else if k == 1 {
        ("timerfd", "epoll_pidfd.epoll_spin_timerfd")
    } else if k == 2 {
        ("timerfd_inherited_fork", "epoll_pidfd.epoll_spin_timerfd_inherited_fork")
    } else {
        ("broker_udp_writable_et", "epoll_pidfd.epoll_spin_broker_udp_writable")
    }
}

/// Name and handler of a counting probe with a peer.
#[verifier::allow_in_spec]
pub fn spin_peer_case(k: usize) -> (&'static str, &'static str)
    returns
        (if k == 0 {
            ("spin.broker_tcp_sticky_out_et", "epoll_pidfd.epoll_spin_broker_tcp_sticky_out")
        } else if k == 1 {
            ("spin.broker_tcp_sticky_in_et", "epoll_pidfd.epoll_spin_broker_tcp_sticky_in")
        } else if k == 2 {
            ("spin.broker_tcp_half_closed_et", "epoll_pidfd.epoll_spin_broker_tcp_half_closed")
        } else {
            ("refire.broker_tcp_drain_in_et", "epoll_pidfd.epoll_refire_broker_tcp_drain_in_et")
        }),
{
    if k == 0 {
        ("spin.broker_tcp_sticky_out_et", "epoll_pidfd.epoll_spin_broker_tcp_sticky_out")
    } else if k == 1 {
        ("spin.broker_tcp_sticky_in_et", "epoll_pidfd.epoll_spin_broker_tcp_sticky_in")
    } else if k == 2 {
        ("spin.broker_tcp_half_closed_et", "epoll_pidfd.epoll_spin_broker_tcp_half_closed")
    } else {
        ("refire.broker_tcp_drain_in_et", "epoll_pidfd.epoll_refire_broker_tcp_drain_in_et")
    }
}

/// Name and handler of a probe of the trigger modes.
#[verifier::allow_in_spec]
pub fn span_case(k: usize) -> (&'static str, &'static str)
    returns
        (if k == 0 {
            ("eventfd_out_et", "epoll_pidfd.span_eventfd_out_et")
        } else if k == 1 {
            ("eventfd_in_et", "epoll_pidfd.span_eventfd_in_et")
        } else if k == 2 {
            ("pipe_out_et", "epoll_pidfd.span_pipe_out_et")
        } else if k == 3 {
            ("pipe_in_et", "epoll_pidfd.span_pipe_in_et")
        } else if k == 4 {
            ("socketpair_out_et", "epoll_pidfd.span_socketpair_out_et")
        } else if k == 5 {
            ("socketpair_in_et", "epoll_pidfd.span_socketpair_in_et")
        } else if k == 6 {
            ("eventfd_in_oneshot", "epoll_pidfd.span_eventfd_in_oneshot")
        } else if k == 7 {
            ("eventfd_in_refire", "epoll_pidfd.span_eventfd_in_refire")
        } else {
            ("eventfd_out_lt", "epoll_pidfd.span_eventfd_out_lt")
        }),
{
    if k == 0 {
        ("eventfd_out_et", "epoll_pidfd.span_eventfd_out_et")
    } else if k == 1 {
        ("eventfd_in_et", "epoll_pidfd.span_eventfd_in_et")
    } else if k == 2 {
        ("pipe_out_et", "epoll_pidfd.span_pipe_out_et")
    } else if k == 3 {
        ("pipe_in_et", "epoll_pidfd.span_pipe_in_et")
    } else if k == 4 {
        ("socketpair_out_et", "epoll_pidfd.span_socketpair_out_et")
    } else if k == 5 {
        ("socketpair_in_et", "epoll_pidfd.span_socketpair_in_et")
    } else if k == 6 {
        ("eventfd_in_oneshot", "epoll_pidfd.span_eventfd_in_oneshot")
    } else if k == 7 {
        ("eventfd_in_refire", "epoll_pidfd.span_eventfd_in_refire")
    } else {
        ("eventfd_out_lt", "epoll_pidfd.span_eventfd_out_lt")
    }
}

/// The group of the readiness tests, with a time of its own or the default one.
#[verifier::allow_in_spec]
pub fn epoll_group(timed: bool) -> Group
    returns
        (Group {
            suite: "vscode",
            family: "epoll_pidfd",
            timeout_secs: if timed {
                Some(60u64)
            } else {
                None
            },
        }),
{
    Group {
        suite: "vscode",
        family: "epoll_pidfd",
        timeout_secs: if timed {
            Some(60u64)
        } else {
            None
        },
    }
}

/// The scenario at a position of an agent's list: the end of a process for each binary
/// type, four sockets, a counter, and on the first agent an idle set and edges.
pub open spec fn scenario_row(a: Observer, j: int) -> ReadinessView {
    if j < 5 {
        on_observer(
            epoll_group(true),
            "EPI.pidfd_exit."@ + binary_at(j).label_text() + "."@ + a.wire(),
            Handler::Named("epoll_pidfd.pidfd_exit"),
            a,
            Some(observer_peer(a)),
        )
    } else if j == 5 {
        on_observer(
            epoll_group(true),
            "EPI.multi_socket."@ + a.wire(),
            Handler::Named("epoll_pidfd.multi_socket"),
            a,
            Some(observer_peer(a)),
        )
    } else if j == 6 {
        on_observer(
            epoll_group(false),
            "EPI.eventfd_wakeup."@ + a.wire(),
            Handler::Named("epoll_pidfd.eventfd_wakeup"),
            a,
            None,
        )
    } else if j == 7 {
        on_observer(
            epoll_group(false),
            "EPI.timeout_zero."@ + a.wire(),
            Handler::Named("epoll_pidfd.timeout_zero"),
            a,
            None,
        )
    } else {
        on_observer(
            epoll_group(true),
            "EPI.edge_trigger."@ + a.wire(),
            Handler::Named("epoll_pidfd.edge_trigger"),
            a,
            Some(observer_peer(a)),
        )
    }
}

fn scenario_plan(a: Observer, j: usize) -> (r: ReadinessPlan)
    requires
        j < 9,
    ensures
        r@ == scenario_row(a, j as int),
{
    let peer = Some(peer_for_observer(a));
    if j < 5 {
        let mut id = cat3("EPI.pidfd_exit.", binary_type(j).label(), ".");
        id.append(a.name());
        plan_on_observer(epoll_group(true), id, Handler::Named("epoll_pidfd.pidfd_exit"), a, peer)
    } else if j == 5 {
        let id = cat("EPI.multi_socket.", a.name());
        plan_on_observer(epoll_group(true), id, Handler::Named("epoll_pidfd.multi_socket"), a, peer)
    } else if j == 6 {
        let id = cat("EPI.eventfd_wakeup.", a.name());
        plan_on_observer(epoll_group(false), id, Handler::Named("epoll_pidfd.eventfd_wakeup"), a, None)
    } else if j == 7 {
        let id = cat("EPI.timeout_zero.", a.name());
        plan_on_observer(epoll_group(false), id, Handler::Named("epoll_pidfd.timeout_zero"), a, None)
    } else {
        let id = cat("EPI.edge_trigger.", a.name());
        plan_on_observer(epoll_group(true), id, Handler::Named("epoll_pidfd.edge_trigger"), a, peer)
    }
}

/// The counting probe at a position of an agent's list.
pub open spec fn spin_row(a: Observer, j: int) -> ReadinessView {
    if j < 4 {
        let c = spin_case(j as usize);
        on_observer(
            epoll_group(false),
            "EP.spin."@ + c.0@ + "."@ + a.wire(),
            Handler::Named(c.1),
            a,
            None,
        )
    } else if j < 8 {
        let c = spin_peer_case((j - 4) as usize);
        on_observer(
            epoll_group(true),
            "EP."@ + c.0@ + "."@ + a.wire(),
            Handler::Named(c.1),
            a,
            Some(observer_peer(a)),
        )
    } else {
        let c = span_case((j - 8) as usize);
        on_observer(
            epoll_group(false),
            "EP.span."@ + c.0@ + "."@ + a.wire(),
            Handler::Named(c.1),
            a,
            None,
        )
    }
}

fn spin_plan(a: Observer, j: usize) -> (r: ReadinessPlan)
    requires
        j < 17,
    ensures
        r@ == spin_row(a, j as int),
{
    if j < 4 {
        let c = spin_case(j);
        let mut id = cat3("EP.spin.", c.0, ".");
        id.append(a.name());
        plan_on_observer(epoll_group(false), id, Handler::Named(c.1), a, None)
    } else if j < 8 {
        let c = spin_peer_case(j - 4);
        let mut id = cat3("EP.", c.0, ".");
        id.append(a.name());
        plan_on_observer(
            epoll_group(true),
            id,
            Handler::Named(c.1),
            a,
            Some(peer_for_observer(a)),
        )
    } else {
        let c = span_case(j - 8);
        let mut id = cat3("EP.span.", c.0, ".");
        id.append(a.name());
        plan_on_observer(epoll_group(false), id, Handler::Named(c.1), a, None)
    }
}

/// How many readiness tests there are: nine scenarios on the first agent, seven on each of
/// the other three, and seventeen counting probes on each of four observers.
pub const EPOLL_TESTS: usize = 98;

/// The readiness test at a position.
pub open spec fn epoll_row(t: int) -> ReadinessView {
    if t < 9 {
        scenario_row(Observer::Tree(AgentName::Dpg1), t)
    } else if t < 30 {
        scenario_row(
            Observer::Tree(scenario_agent((1 + (t - 9) / 7) as usize)),
            (t - 9) % 7,
        )
    } else {
        spin_row(spin_agent(((t - 30) / 17) as usize), (t - 30) % 17)
    }
}

fn epoll_plan(t: usize) -> (r: ReadinessPlan)
    requires
        t < EPOLL_TESTS,
    ensures
        r@ == epoll_row(t as int),
{
    if t < 9 {
        scenario_plan(Observer::Tree(AgentName::Dpg1), t)
    } else if t < 30 {
        scenario_plan(Observer::Tree(scenario_agent(1 + (t - 9) / 7)), (t - 9) % 7)
    } else {
        spin_plan(spin_agent((t - 30) / 17), (t - 30) % 17)
    }
}

/// The readiness tests, in order.
pub fn register_epoll_pidfd_tests() -> (r: Vec<ReadinessPlan>)
    ensures
        readiness_views(r@) == Seq::new(EPOLL_TESTS as nat, |t: int| epoll_row(t)),
{
    let mut out: Vec<ReadinessPlan> = Vec::new();
    let mut t: usize = 0;
    while t < EPOLL_TESTS
        invariant
            t <= EPOLL_TESTS,
            out@.len() == t,
            forall|k: int| 0 <= k < t ==> (#[trigger] out@[k])@ == epoll_row(k),
        decreases EPOLL_TESTS - t,
    {
        out.push(epoll_plan(t));
        t = t + 1;
    }
    assert(readiness_views(out@) =~= Seq::new(EPOLL_TESTS as nat, |t: int| epoll_row(t)));
    out
}

/// How a program waits for a connection.
#[derive(Clone, Copy, Debug, PartialEq, Eq, Structural)]
pub enum SocketVariant {
    /// It waits at once.
    Direct,
    /// It looks without waiting first, as an asynchronous runtime does.
    Tokio,
}

impl SocketVariant {
    pub open spec fn text(self) -> Seq<char> {
        match self {
            SocketVariant::Direct => "direct"@,
            SocketVariant::Tokio => "tokio"@,
        }
    }

    /// The name in test ids and arguments.
    pub fn name(self) -> (r: &'static str)
        ensures
            r@ == self.text(),
    {
        match self {
            SocketVariant::Direct => "direct",
            SocketVariant::Tokio => "tokio",
        }
    }

    /// The variant of that name; every other name means the first one.
    pub fn of(name: &str) -> (r: Self)
        ensures
            r == if name@ == "tokio"@ {
                SocketVariant::Tokio
            } else {
                SocketVariant::Direct
            },
    {
        if same(name, "tokio") {
            SocketVariant::Tokio
        } else {
            SocketVariant::Direct
        }
    }
}

/// What the wait for a connection prints. `at_once` is what the look without waiting gave,
/// `woken` what the wait gave.
pub open spec fn accept_line_of(variant: SocketVariant, at_once: i32, woken: i32) -> &'static str {
    if variant == SocketVariant::Tokio && at_once > 0 {
        "EPOLL_ACCEPT=IMMEDIATE"
    } else if woken <= 0 {
        "EPOLL_ACCEPT=TIMEOUT"
    } else if variant == SocketVariant::Tokio {
        "EPOLL_ACCEPT=WOKE"
    } else {
        "EPOLL_ACCEPT=READY"
    }
}

/// What the wait for a connection prints, and whether there is one to accept.
pub fn accept_line(variant: SocketVariant, at_once: i32, woken: i32) -> (r: (&'static str, bool))
    ensures
        r.0 == accept_line_of(variant, at_once, woken),
        r.1 == ((variant == SocketVariant::Tokio && at_once > 0) || woken > 0),
{
    match variant {
        SocketVariant::Tokio => if at_once > 0 {
            ("EPOLL_ACCEPT=IMMEDIATE", true)
        } else if woken <= 0 {
            ("EPOLL_ACCEPT=TIMEOUT", false)
        } else {
            ("EPOLL_ACCEPT=WOKE", true)
        },
        SocketVariant::Direct => if woken <= 0 {
            ("EPOLL_ACCEPT=TIMEOUT", false)
        } else {
            ("EPOLL_ACCEPT=READY", true)
        },
    }
}

/// What became of a connection that the wait reported.
pub enum ConnectionEnd {
    NotAccepted,
    /// No data came in time.
    NotReady,
    /// A read returned so much.
    Got { nr: i64, bytes: Vec<u8> },
}

/// What the probe prints about a connection.
pub open spec fn connection_line(end: ConnectionEnd) -> Seq<char> {
    match end {
        ConnectionEnd::NotAccepted => "EPOLL_ACCEPT=FAIL"@,
        ConnectionEnd::NotReady => "EPOLL_READ=TIMEOUT"@,
        ConnectionEnd::Got { nr, bytes } => if nr > 0 {
            "EPOLL_READ=OK data="@ + reply_text(bytes@)
        } else {
            "EPOLL_READ=NO_DATA nr="@ + int_text(nr as int)
        },
    }
}

/// The probe's report: the line about the wait and, where there was a connection, the line
/// about it.
pub open spec fn socket_report(accept: Seq<char>, end: Option<ConnectionEnd>) -> Seq<char> {
    match end {
        None => accept,
        Some(e) => accept + "\n"@ + connection_line(e),
    }
}

/// The probe's report.
pub fn socket_detail(accept: &str, end: Option<ConnectionEnd>) -> (r: String)
    ensures
        r@ == socket_report(accept@, end),
{
    match end {
        None => accept.to_string(),
        Some(e) => {
            let line = match e {
                ConnectionEnd::NotAccepted => "EPOLL_ACCEPT=FAIL".to_string(),
                ConnectionEnd::NotReady => "EPOLL_READ=TIMEOUT".to_string(),
                ConnectionEnd::Got { nr, bytes } => if nr > 0 {
                    let text = reply_of(bytes.as_slice());
                    cat("EPOLL_READ=OK data=", text.as_str())
                } else {
                    let n = dec_i64(nr);
                    cat("EPOLL_READ=NO_DATA nr=", n.as_str())
                },
            };
            cat3(accept, "\n", line.as_str())
        },
    }
}

/// The report shows that a connection came.
pub open spec fn accept_passes(result: Result<String, String>) -> bool {
    result matches Ok(d) && contains_text(d@, "EPOLL_ACCEPT="@) && !contains_text(d@, "TIMEOUT"@)
}

/// The verdict on the wait for a connection.
pub fn accept_outcome(agent: Observer, result: Result<String, String>) -> (o: TestOutcome)
    ensures
        o@ == (OutcomeView {
            agent: agent.wire(),
            pass: accept_passes(result),
            detail: result_text("EpollSocketDetailOut"@, result),
        }),
{
    let detail = result_debug("EpollSocketDetailOut", &result);
    let pass = match &result {
        Ok(d) => contains(d.as_str(), "EPOLL_ACCEPT=") && !contains(d.as_str(), "TIMEOUT"),
        Err(_) => false,
    };
    TestOutcome::new(agent.name(), pass, detail)
}

/// The verdict on the data of a connection.
pub fn read_outcome(agent: Observer, result: Result<String, String>) -> (o: TestOutcome)
    ensures
        o@ == leaf_outcome_view(
            agent.wire(),
            "EpollSocketDetailOut"@,
            result,
            "EPOLL_READ=OK"@,
            "EPOLL_READ=OK"@,
        ),
{
    leaf_outcome(agent.name(), "EpollSocketDetailOut", result, "EPOLL_READ=OK", "EPOLL_READ=OK")
}

/// A report with data passes the read test; one of a wait without a connection passes
/// neither test.
pub proof fn law_socket_report_judged(accept: Seq<char>, nr: i64, bytes: Vec<u8>)
    requires
        nr > 0,
    ensures
        contains_text(
            socket_report(accept, Some(ConnectionEnd::Got { nr, bytes })),
            "EPOLL_READ=OK"@,
        ),
        contains_text(socket_report("EPOLL_ACCEPT=TIMEOUT"@, None), "TIMEOUT"@),
        !contains_text(socket_report("EPOLL_ACCEPT=TIMEOUT"@, None), "EPOLL_READ=OK"@),
{
    reveal_strlit("EPOLL_READ=OK");
    reveal_strlit("EPOLL_READ=OK data=");
    reveal_strlit("EPOLL_ACCEPT=TIMEOUT");
    reveal_strlit("TIMEOUT");
    reveal_strlit("\n");
    let d = socket_report(accept, Some(ConnectionEnd::Got { nr, bytes }));
    let at = accept.len() as int + 1;
    assert(d.subrange(at, at + "EPOLL_READ=OK"@.len()) =~= "EPOLL_READ=OK"@);
    assert(occurs_at(d, "EPOLL_READ=OK"@, at));
    let t = "EPOLL_ACCEPT=TIMEOUT"@;
    assert(t.subrange(13, 20) =~= "TIMEOUT"@);
    assert(occurs_at(t, "TIMEOUT"@, 13));
    assert forall|k: int| !occurs_at(t, "EPOLL_READ=OK"@, k) by {
        if occurs_at(t, "EPOLL_READ=OK"@, k) {
            assert(t.subrange(k, k + 13)[6] == 'R');
            assert(t[k + 6] == 'R');
        }
    }
}

/// The observers of the socket tests.
#[verifier::allow_in_spec]
pub fn socket_agent(k: usize) -> Observer
    returns
        (if k == 0 {
            Observer::Tree(AgentName::Dpg1)
        } else if k == 1 {
            Observer::Tree(AgentName::Dpg1Dpg1)
        } else if k == 2 {
            Observer::Tree(AgentName::Dpg2)
        } else if k == 3 {
            Observer::Tree(AgentName::Dpg1Dng)
        } else if k == 4 {
            Observer::Tree(AgentName::Dpg1DngDpg)
        } else if k == 5 {
            Observer::DngDng
        } else if k == 6 {
            Observer::DngSpm
        } else if k == 7 {
            Observer::Tree(AgentName::Dpg1Spg)
        } else if k == 8 {
            Observer::Tree(AgentName::Dpg1Spm)
        } else if k == 9 {
            Observer::SpmDng
        } else {
            Observer::Tree(AgentName::Dpg1Snm)
        }),
{
    if k == 0 {
        Observer::Tree(AgentName::Dpg1)
    } else if k == 1 {
        Observer::Tree(AgentName::Dpg1Dpg1)
    } else if k == 2 {
        Observer::Tree(AgentName::Dpg2)
    } else if k == 3 {
        Observer::Tree(AgentName::Dpg1Dng)
    } else if k == 4 {
        Observer::Tree(AgentName::Dpg1DngDpg)
    } else if k == 5 {
        Observer::DngDng
    } else if k == 6 {
        Observer::DngSpm
    } else if k == 7 {
        Observer::Tree(AgentName::Dpg1Spg)
    } else if k == 8 {
        Observer::Tree(AgentName::Dpg1Spm)
    } else if k == 9 {
        Observer::SpmDng
    } else {
        Observer::Tree(AgentName::Dpg1Snm)
    }
}

/// The port of a socket test.
pub open spec fn socket_port_of(variant: SocketVariant, agent: Observer) -> u16 {
    match (variant, agent) {
        (SocketVariant::Direct, Observer::Tree(AgentName::Dpg1)) => 19990,
        (SocketVariant::Direct, Observer::Tree(AgentName::Dpg1Dpg1)) => 19991,
        (SocketVariant::Direct, Observer::Tree(AgentName::Dpg2)) => 19992,
        (SocketVariant::Direct, Observer::Tree(AgentName::Dpg1Dng)) => 19993,
        (SocketVariant::Direct, Observer::Tree(AgentName::Dpg1DngDpg)) => 19994,
        (SocketVariant::Direct, Observer::Tree(AgentName::Dpg1Spg)) => 19980,
        (SocketVariant::Direct, Observer::Tree(AgentName::Dpg1Spm)) => 19981,
        (SocketVariant::Direct, Observer::Tree(AgentName::Dpg1Snm)) => 19982,
        (SocketVariant::Direct, Observer::DngDng) => 19970,
        (SocketVariant::Direct, Observer::DngSpm) => 19971,
        (SocketVariant::Direct, Observer::SpmDng) => 19972,
        (SocketVariant::Tokio, Observer::Tree(AgentName::Dpg1)) => 19995,
        (SocketVariant::Tokio, Observer::Tree(AgentName::Dpg1Dpg1)) => 19996,
        (SocketVariant::Tokio, Observer::Tree(AgentName::Dpg2)) => 19997,
        (SocketVariant::Tokio, Observer::Tree(AgentName::Dpg1Dng)) => 19998,
        (SocketVariant::Tokio, Observer::Tree(AgentName::Dpg1DngDpg)) => 19999,
        (SocketVariant::Tokio, Observer::Tree(AgentName::Dpg1Spg)) => 19985,
        (SocketVariant::Tokio, Observer::Tree(AgentName::Dpg1Spm)) => 19986,
        (SocketVariant::Tokio, Observer::Tree(AgentName::Dpg1Snm)) => 19987,
        (SocketVariant::Tokio, Observer::DngDng) => 19975,
        (SocketVariant::Tokio, Observer::DngSpm) => 19976,
        (SocketVariant::Tokio, Observer::SpmDng) => 19977,
        _ => 19960,
    }
}

/// The port of a socket test.
pub fn socket_port(variant: SocketVariant, agent: Observer) -> (r: u16)
    ensures
        r == socket_port_of(variant, agent),
{
    match (variant, agent) {
        (SocketVariant::Direct, Observer::Tree(AgentName::Dpg1)) => 19990,
        (SocketVariant::Direct, Observer::Tree(AgentName::Dpg1Dpg1)) => 19991,
        (SocketVariant::Direct, Observer::Tree(AgentName::Dpg2)) => 19992,
        (SocketVariant::Direct, Observer::Tree(AgentName::Dpg1Dng)) => 19993,
        (SocketVariant::Direct, Observer::Tree(AgentName::Dpg1DngDpg)) => 19994,
        (SocketVariant::Direct, Observer::Tree(AgentName::Dpg1Spg)) => 19980,
        (SocketVariant::Direct, Observer::Tree(AgentName::Dpg1Spm)) => 19981,
        (SocketVariant::Direct, Observer::Tree(AgentName::Dpg1Snm)) => 19982,
        (SocketVariant::Direct, Observer::DngDng) => 19970,
        (SocketVariant::Direct, Observer::DngSpm) => 19971,
        (SocketVariant::Direct, Observer::SpmDng) => 19972,
        (SocketVariant::Tokio, Observer::Tree(AgentName::Dpg1)) => 19995,
        (SocketVariant::Tokio, Observer::Tree(AgentName::Dpg1Dpg1)) => 19996,
        (SocketVariant::Tokio, Observer::Tree(AgentName::Dpg2)) => 19997,
        (SocketVariant::Tokio, Observer::Tree(AgentName::Dpg1Dng)) => 19998,
        (SocketVariant::Tokio, Observer::Tree(AgentName::Dpg1DngDpg)) => 19999,
        (SocketVariant::Tokio, Observer::Tree(AgentName::Dpg1Spg)) => 19985,
        (SocketVariant::Tokio, Observer::Tree(AgentName::Dpg1Spm)) => 19986,
        (SocketVariant::Tokio, Observer::Tree(AgentName::Dpg1Snm)) => 19987,
        (SocketVariant::Tokio, Observer::DngDng) => 19975,
        (SocketVariant::Tokio, Observer::DngSpm) => 19976,
        (SocketVariant::Tokio, Observer::SpmDng) => 19977,
        _ => 19960,
    }
}

/// No two socket tests that may run side by side share a port.
pub proof fn law_socket_ports_distinct(v: SocketVariant, i: usize, w: SocketVariant, j: usize)
    requires
        i < 11 && j < 11,
        v != w || i != j,
    ensures
        socket_port_of(v, socket_agent(i)) != socket_port_of(w, socket_agent(j)),
        socket_port_of(v, socket_agent(i)) != 19960,
{
}

/// How many socket tests there are: two for each variant and observer.
pub const SOCKET_TESTS: usize = 44;

/// The variant at a position.
pub open spec fn variant_at(k: int) -> SocketVariant {
    if k == 0 {
        SocketVariant::Direct
    } else {
        SocketVariant::Tokio
    }
}

/// The variant at a position.
pub fn socket_variant(k: usize) -> (r: SocketVariant)
    ensures
        r == variant_at(k as int),
{
    if k == 0 {
        SocketVariant::Direct
    } else {
        SocketVariant::Tokio
    }
}

/// The socket test at a position.
pub open spec fn socket_row(t: int) -> ReadinessView {
    let v = variant_at(t / 22);
    let a = socket_agent(((t % 22) / 2) as usize);
    let g = Group { suite: "matrix", family: "epoll_socket", timeout_secs: Some(60) };
    let h = Handler::Named("platform_fixes.epoll_socket");
    if t % 2 == 0 {
        in_child_of(
            g,
            "EP."@ + v.text() + ".accept."@ + a.wire(),
            h,
            a,
            "EpollSocketAccept_"@ + v.text() + "_"@ + a.wire(),
        )
    } else {
        in_child_of(
            g,
            "EP."@ + v.text() + ".read."@ + a.wire(),
            h,
            a,
            "EpollSocketRead_"@ + v.text() + "_"@ + a.wire(),
        )
    }
}

fn socket_plan(t: usize) -> (r: ReadinessPlan)
    requires
        t < SOCKET_TESTS,
    ensures
        r@ == socket_row(t as int),
{
    let v = socket_variant(t / 22);
    let a = socket_agent((t % 22) / 2);
    let g = Group { suite: "matrix", family: "epoll_socket", timeout_secs: Some(60) };
    let h = Handler::Named("platform_fixes.epoll_socket");
    if t % 2 == 0 {
        let mut id = cat3("EP.", v.name(), ".accept.");
        id.append(a.name());
        let mut label = cat3("EpollSocketAccept_", v.name(), "_");
        label.append(a.name());
        plan_in_child_of(g, id, h, a, label)
    } else {
        let mut id = cat3("EP.", v.name(), ".read.");
        id.append(a.name());
        let mut label = cat3("EpollSocketRead_", v.name(), "_");
        label.append(a.name());
        plan_in_child_of(g, id, h, a, label)
    }
}

/// The socket tests, in order.
pub fn register_epoll_socket_tests() -> (r: Vec<ReadinessPlan>)
    ensures
        readiness_views(r@) == Seq::new(SOCKET_TESTS as nat, |t: int| socket_row(t)),
{
    let mut out: Vec<ReadinessPlan> = Vec::new();
    let mut t: usize = 0;
    while t < SOCKET_TESTS
        invariant
            t <= SOCKET_TESTS,
            out@.len() == t,
            forall|k: int| 0 <= k < t ==> (#[trigger] out@[k])@ == socket_row(k),
        decreases SOCKET_TESTS - t,
    {
        out.push(socket_plan(t));
        t = t + 1;
    }
    assert(readiness_views(out@) =~= Seq::new(SOCKET_TESTS as nat, |t: int| socket_row(t)));
    out
}

/// The bit that says that a polled descriptor can be read.
pub const POLLIN: i16 = 1;

/// What a poll of a pipe with data gave, in a word.
pub fn poll_detail(n: i32, revents: i16) -> (r: String)
    ensures
        r@ == if n > 0 && revents & POLLIN != 0 {
            "POLLIN"@
        } else {
            "TIMEOUT"@
        },
{
    if n > 0 && revents & POLLIN != 0 {
        "POLLIN".to_string()
    } else {
        "TIMEOUT".to_string()
    }
}

/// The verdict on a poll.
pub fn poll_outcome(agent: AgentName, result: Result<String, String>) -> (o: TestOutcome)
    ensures
        o@ == (OutcomeView {
            agent: agent.wire(),
            pass: result matches Ok(d) && d@ == "POLLIN"@,
            detail: result_text("PollReadyOut"@, result),
        }),
{
    let detail = result_debug("PollReadyOut", &result);
    let pass = match &result {
        Ok(d) => same(d.as_str(), "POLLIN"),
        Err(_) => false,
    };
    TestOutcome::new(agent.name(), pass, detail)
}

/// The agents of the poll tests.
#[verifier::allow_in_spec]
pub fn poll_agent(k: usize) -> AgentName
    returns
        (if k == 0 {
            AgentName::Dpg1
        } else if k == 1 {
            AgentName::Dpg1Dpg1
        } else {
            AgentName::Dpg2
        }),
{
    if k == 0 {
        AgentName::Dpg1
    } else if k == 1 {
        AgentName::Dpg1Dpg1
    } else {
        AgentName::Dpg2
    }
}

/// The poll test at a position.
pub open spec fn poll_row(t: int) -> PlanView {
    let a = poll_agent(t as usize);
    on_agents(
        Group { suite: "matrix", family: "poll_ready", timeout_secs: Some(60) },
        "POLL.pipe."@ + a.wire(),
        Handler::Named("platform_fixes.poll_ready"),
        seq![a],
    )
}

/// How many poll tests there are.
pub const POLL_TESTS: usize = 3;

/// The poll tests, in order.
pub fn register_poll_ready_tests() -> (r: Vec<TestPlan>)
    ensures
        plan_views(r@) == Seq::new(POLL_TESTS as nat, |t: int| poll_row(t)),
{
    let mut out: Vec<TestPlan> = Vec::new();
    let mut t: usize = 0;
    while t < POLL_TESTS
        invariant
            t <= POLL_TESTS,
            out@.len() == t,
            forall|k: int| 0 <= k < t ==> (#[trigger] out@[k])@ == poll_row(k),
        decreases POLL_TESTS - t,
    {
        let a = poll_agent(t);
        let g = Group { suite: "matrix", family: "poll_ready", timeout_secs: Some(60) };
        out.push(
            plan_on(
                g,
                cat("POLL.pipe.", a.name()),
                Handler::Named("platform_fixes.poll_ready"),
                a,
            ),
        );
        t = t + 1;
    }
    assert(plan_views(out@) =~= Seq::new(POLL_TESTS as nat, |t: int| poll_row(t)));
    out
}

/// The first two agents of the first line speak to the second line, and all others to the first.
pub proof fn law_peers(a: AgentName, o: Observer)
    ensures
        peer_of(a) == AgentName::Dpg2 <==> a is Dpg1 || a is Dpg1Dpg1,
        peer_of(a) == AgentName::Dpg1 <==> !(a is Dpg1 || a is Dpg1Dpg1),
        o matches Observer::Tree(b) ==> observer_peer(o) == peer_of(b),
        !(o is Tree) ==> observer_peer(o) == AgentName::Dpg1,
{
}

/// The line about the wait says that time ran out exactly if no look and no wait found a
/// connection; a wait that looks first tells apart what it found at once.
pub proof fn law_accept_lines(variant: SocketVariant, at_once: i32, woken: i32)
    ensures
        ({
            let line = accept_line_of(variant, at_once, woken);
            &&& variant is Direct && woken > 0 ==> line == "EPOLL_ACCEPT=READY"
            &&& variant is Direct && woken <= 0 ==> line == "EPOLL_ACCEPT=TIMEOUT"
            &&& variant is Tokio && at_once > 0 ==> line == "EPOLL_ACCEPT=IMMEDIATE"
            &&& variant is Tokio && at_once <= 0 && woken > 0 ==> line == "EPOLL_ACCEPT=WOKE"
            &&& variant is Tokio && at_once <= 0 && woken <= 0 ==> line == "EPOLL_ACCEPT=TIMEOUT"
        }),
{
}

/// A connection is reported as read exactly if it was accepted and data came, and the report
/// shows the data.
pub proof fn law_connection_lines(end: ConnectionEnd)
    ensures
        end is NotAccepted ==> connection_line(end) == "EPOLL_ACCEPT=FAIL"@,
        end is NotReady ==> connection_line(end) == "EPOLL_READ=TIMEOUT"@,
        end matches ConnectionEnd::Got { nr, bytes } ==> {
            &&& nr > 0 ==> connection_line(end) == "EPOLL_READ=OK data="@ + reply_text(bytes@)
            &&& nr <= 0 ==> connection_line(end) == "EPOLL_READ=NO_DATA nr="@ + int_text(nr as int)
        },
{
}

/// The report is the line about the wait alone where there was no connection, and else both
/// lines, one below the other.
pub proof fn law_socket_report(accept: Seq<char>, e: ConnectionEnd)
    ensures
        socket_report(accept, None) == accept,
        socket_report(accept, Some(e)) == accept + "\n"@ + connection_line(e),
{
}

/// The wait for a connection passes exactly if its report tells of one and of no time that ran
/// out; an error never passes.
pub proof fn law_accept_verdict(result: Result<String, String>)
    ensures
        result is Err ==> !accept_passes(result),
        result matches Ok(d) ==> (accept_passes(result) <==> contains_text(d@, "EPOLL_ACCEPT="@)
            && !contains_text(d@, "TIMEOUT"@)),
{
}

/// Each variant is tested on each of the eleven observers, for the connection and for its data.
pub proof fn law_sockets_cover(v: int, a: int, read: bool)
    requires
        0 <= v < 2,
        0 <= a < 11,
    ensures
        ({
            let t = 22 * v + 2 * a + if read {
                1int
            } else {
                0int
            };
            let row = socket_row(t);
            &&& 0 <= t < SOCKET_TESTS
            &&& row.observer == socket_agent(a as usize)
            &&& row.plan.id == "EP."@ + (if v == 0 {
                "direct"@
            } else {
                "tokio"@
            }) + (if read {
                ".read."@
            } else {
                ".accept."@
            }) + socket_agent(a as usize).wire()
            &&& row.plan.timeout_secs == Some(60u64)
        }),
{
    let t = 22 * v + 2 * a + if read {
        1int
    } else {
        0int
    };
    assert(t / 22 == v && t % 22 == t - 22 * v && (t % 22) / 2 == a);
    assert(t % 2 == if read {
        1int
    } else {
        0int
    });
}

/// Each of the seventeen counting probes is tested on each of the four observers, and has a peer
/// exactly if it is one over a connection to another agent.
pub proof fn law_probes_cover(a: int, j: int)
    requires
        0 <= a < 4,
        0 <= j < 17,
    ensures
        ({
            let t = 30 + 17 * a + j;
            let o = spin_agent(a as usize);
            let row = epoll_row(t);
            &&& 0 <= t < EPOLL_TESTS
            &&& row.observer == o
            &&& row.leaf is None
            &&& row.plan.agents.len() == (if o is Tree {
                1int
            } else {
                0int
            }) + if 4 <= j < 8 {
                1int
            } else {
                0int
            }
            &&& row.plan.timeout_secs is Some <==> 4 <= j < 8
            &&& j < 4 ==> row.plan.id == "EP.spin."@ + spin_case(j as usize).0@ + "."@ + o.wire()
            &&& 4 <= j < 8 ==> row.plan.id == "EP."@ + spin_peer_case((j - 4) as usize).0@ + "."@
                + o.wire()
            &&& 8 <= j ==> row.plan.id == "EP.span."@ + span_case((j - 8) as usize).0@ + "."@
                + o.wire()
        }),
{
    let t = 30 + 17 * a + j;
    assert((t - 30) / 17 == a && (t - 30) % 17 == j);
}

/// The first agent has nine scenarios and each of the other three the first seven of them; the
/// end of a process is tested for each binary type.
pub proof fn law_scenarios_cover(a: int, j: int)
    requires
        0 <= a < 4,
        0 <= j < 7 || (a == 0 && 0 <= j < 9),
    ensures
        ({
            let t = if a == 0 {
                j
            } else {
                9 + 7 * (a - 1) + j
            };
            let o = Observer::Tree(scenario_agent(a as usize));
            let row = epoll_row(t);
            &&& 0 <= t < 30
            &&& row.observer == o
            &&& row.plan.agents.len() == if j < 6 || j == 8 {
                2int
            } else {
                1int
            }
            &&& row.plan.agents[0] == scenario_agent(a as usize)
            &&& j < 5 ==> row.plan.id == "EPI.pidfd_exit."@ + binary_at(j).label_text() + "."@
                + o.wire()
            &&& j == 5 ==> row.plan.id == "EPI.multi_socket."@ + o.wire()
            &&& j == 6 ==> row.plan.id == "EPI.eventfd_wakeup."@ + o.wire()
            &&& j == 7 ==> row.plan.id == "EPI.timeout_zero."@ + o.wire()
            &&& j == 8 ==> row.plan.id == "EPI.edge_trigger."@ + o.wire()
        }),
{
    if a > 0 {
        let t = 9 + 7 * (a - 1) + j;
        assert((t - 9) / 7 == a - 1 && (t - 9) % 7 == j);
    }
}

/// The poll tests run on three agents, each on the agent that its name gives.
pub proof fn law_poll_rows(t: int)
    requires
        0 <= t < 3,
    ensures
        poll_row(t).agents.len() == 1,
        poll_row(t).id == "POLL.pipe."@ + poll_row(t).agents[0].wire(),
        poll_row(0).agents[0] == AgentName::Dpg1,
        poll_row(1).agents[0] == AgentName::Dpg1Dpg1,
        poll_row(2).agents[0] == AgentName::Dpg2,
        poll_row(t).timeout_secs == Some(60u64),
        poll_row(t).leaves.len() == 0,
{
}

/// The observers of the scenarios, of the counting probes and of the sockets.
pub proof fn law_readiness_observers()
    ensures
        scenario_agent(0) == AgentName::Dpg1,
        scenario_agent(1) == AgentName::Dpg1Dpg1,
        scenario_agent(2) == AgentName::Dpg2,
        scenario_agent(3) == AgentName::Dpg2Dpg,
        spin_agent(0) == Observer::Tree(AgentName::Dpg1),
        spin_agent(1) == Observer::DngSpm,
        spin_agent(2) == Observer::Tree(AgentName::VsCodeCli),
        spin_agent(3) == Observer::Tree(AgentName::VsCodeNode),
        socket_agent(0) == Observer::Tree(AgentName::Dpg1),
        socket_agent(1) == Observer::Tree(AgentName::Dpg1Dpg1),
        socket_agent(2) == Observer::Tree(AgentName::Dpg2),
        socket_agent(3) == Observer::Tree(AgentName::Dpg1Dng),
        socket_agent(4) == Observer::Tree(AgentName::Dpg1DngDpg),
        socket_agent(5) == Observer::DngDng,
        socket_agent(6) == Observer::DngSpm,
        socket_agent(7) == Observer::Tree(AgentName::Dpg1Spg),
        socket_agent(8) == Observer::Tree(AgentName::Dpg1Spm),
        socket_agent(9) == Observer::SpmDng,
        socket_agent(10) == Observer::Tree(AgentName::Dpg1Snm),
{
}

/// A probe of the span is called like its handler.
pub proof fn law_span_cases_name_handlers(k: usize)
    requires
        k < 9,
    ensures
        span_case(k).0@ == Seq::<char>::empty() + span_case(k).1@.skip(17),
        span_case(k).1@.take(17) == "epoll_pidfd.span_"@,
{
    reveal_strlit("epoll_pidfd.span_");
    if k == 0 {
        reveal_strlit("eventfd_out_et");
        reveal_strlit("epoll_pidfd.span_eventfd_out_et");
        assert("eventfd_out_et"@ =~= Seq::<char>::empty() + "epoll_pidfd.span_eventfd_out_et"@.skip(17));
        assert("epoll_pidfd.span_eventfd_out_et"@.take(17) =~= "epoll_pidfd.span_"@);
    }
    if k == 1 {
        reveal_strlit("eventfd_in_et");
        reveal_strlit("epoll_pidfd.span_eventfd_in_et");
        assert("eventfd_in_et"@ =~= Seq::<char>::empty() + "epoll_pidfd.span_eventfd_in_et"@.skip(17));
        assert("epoll_pidfd.span_eventfd_in_et"@.take(17) =~= "epoll_pidfd.span_"@);
    }
    if k == 2 {
        reveal_strlit("pipe_out_et");
        reveal_strlit("epoll_pidfd.span_pipe_out_et");
        assert("pipe_out_et"@ =~= Seq::<char>::empty() + "epoll_pidfd.span_pipe_out_et"@.skip(17));
        assert("epoll_pidfd.span_pipe_out_et"@.take(17) =~= "epoll_pidfd.span_"@);
    }
    if k == 3 {
        reveal_strlit("pipe_in_et");
        reveal_strlit("epoll_pidfd.span_pipe_in_et");
        assert("pipe_in_et"@ =~= Seq::<char>::empty() + "epoll_pidfd.span_pipe_in_et"@.skip(17));
        assert("epoll_pidfd.span_pipe_in_et"@.take(17) =~= "epoll_pidfd.span_"@);
    }
    if k == 4 {
        reveal_strlit("socketpair_out_et");
        reveal_strlit("epoll_pidfd.span_socketpair_out_et");
        assert("socketpair_out_et"@ =~= Seq::<char>::empty() + "epoll_pidfd.span_socketpair_out_et"@.skip(17));
        assert("epoll_pidfd.span_socketpair_out_et"@.take(17) =~= "epoll_pidfd.span_"@);
    }
    if k == 5 {
        reveal_strlit("socketpair_in_et");
        reveal_strlit("epoll_pidfd.span_socketpair_in_et");
        assert("socketpair_in_et"@ =~= Seq::<char>::empty() + "epoll_pidfd.span_socketpair_in_et"@.skip(17));
        assert("epoll_pidfd.span_socketpair_in_et"@.take(17) =~= "epoll_pidfd.span_"@);
    }
    if k == 6 {
        reveal_strlit("eventfd_in_oneshot");
        reveal_strlit("epoll_pidfd.span_eventfd_in_oneshot");
        assert("eventfd_in_oneshot"@ =~= Seq::<char>::empty() + "epoll_pidfd.span_eventfd_in_oneshot"@.skip(17));
        assert("epoll_pidfd.span_eventfd_in_oneshot"@.take(17) =~= "epoll_pidfd.span_"@);
    }
    if k == 7 {
        reveal_strlit("eventfd_in_refire");
        reveal_strlit("epoll_pidfd.span_eventfd_in_refire");
        assert("eventfd_in_refire"@ =~= Seq::<char>::empty() + "epoll_pidfd.span_eventfd_in_refire"@.skip(17));
        assert("epoll_pidfd.span_eventfd_in_refire"@.take(17) =~= "epoll_pidfd.span_"@);
    }
    if k == 8 {
        reveal_strlit("eventfd_out_lt");
        reveal_strlit("epoll_pidfd.span_eventfd_out_lt");
        assert("eventfd_out_lt"@ =~= Seq::<char>::empty() + "epoll_pidfd.span_eventfd_out_lt"@.skip(17));
        assert("epoll_pidfd.span_eventfd_out_lt"@.take(17) =~= "epoll_pidfd.span_"@);
    }
}

/// A counting probe is called like its handler.
pub proof fn law_spin_cases_name_handlers(k: usize)
    requires
        k < 3,
    ensures
        spin_case(k).0@ == Seq::<char>::empty() + spin_case(k).1@.skip(23),
        spin_case(k).1@.take(23) == "epoll_pidfd.epoll_spin_"@,
{
    reveal_strlit("epoll_pidfd.epoll_spin_");
    if k == 0 {
        reveal_strlit("eventfd_idle");
        reveal_strlit("epoll_pidfd.epoll_spin_eventfd_idle");
        assert("eventfd_idle"@ =~= Seq::<char>::empty() + "epoll_pidfd.epoll_spin_eventfd_idle"@.skip(23));
        assert("epoll_pidfd.epoll_spin_eventfd_idle"@.take(23) =~= "epoll_pidfd.epoll_spin_"@);
    }
    if k == 1 {
        reveal_strlit("timerfd");
        reveal_strlit("epoll_pidfd.epoll_spin_timerfd");
        assert("timerfd"@ =~= Seq::<char>::empty() + "epoll_pidfd.epoll_spin_timerfd"@.skip(23));
        assert("epoll_pidfd.epoll_spin_timerfd"@.take(23) =~= "epoll_pidfd.epoll_spin_"@);
    }
    if k == 2 {
        reveal_strlit("timerfd_inherited_fork");
        reveal_strlit("epoll_pidfd.epoll_spin_timerfd_inherited_fork");
        assert("timerfd_inherited_fork"@ =~= Seq::<char>::empty() + "epoll_pidfd.epoll_spin_timerfd_inherited_fork"@.skip(23));
        assert("epoll_pidfd.epoll_spin_timerfd_inherited_fork"@.take(23) =~= "epoll_pidfd.epoll_spin_"@);
    }
}

/// The port of a test that looks first is five above that of the plain one on the same observer;
/// an observer without socket tests has the spare port.
pub proof fn law_socket_ports(k: usize, o: Observer)
    requires
        k < 11,
    ensures
        socket_port_of(SocketVariant::Tokio, socket_agent(k)) == socket_port_of(
            SocketVariant::Direct,
            socket_agent(k),
        ) + 5,
        k < 5 ==> socket_port_of(SocketVariant::Direct, socket_agent(k)) == 19990 + k,
        5 <= k < 7 ==> socket_port_of(SocketVariant::Direct, socket_agent(k)) == 19965 + k,
        7 <= k < 9 ==> socket_port_of(SocketVariant::Direct, socket_agent(k)) == 19973 + k,
        k == 9 ==> socket_port_of(SocketVariant::Direct, socket_agent(k)) == 19972,
        k == 10 ==> socket_port_of(SocketVariant::Direct, socket_agent(k)) == 19982,
        (forall|j: usize| j < 11 ==> #[trigger] socket_agent(j) != o) ==> socket_port_of(
            SocketVariant::Direct,
            o,
        ) == 19960 && socket_port_of(SocketVariant::Tokio, o) == 19960,
{
    if forall|j: usize| j < 11 ==> #[trigger] socket_agent(j) != o {
        assert(socket_agent(0) != o && socket_agent(1) != o && socket_agent(2) != o && socket_agent(
            3,
        ) != o && socket_agent(4) != o && socket_agent(5) != o && socket_agent(6) != o
            && socket_agent(7) != o && socket_agent(8) != o && socket_agent(9) != o && socket_agent(
            10,
        ) != o);
    }
}

} // verus!
