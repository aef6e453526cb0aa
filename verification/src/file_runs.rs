//! The tests of files beside connections as they run: what each asks, of whom, and how its
//! answers are judged.

use vstd::prelude::*;
use crate::agents::AgentName;
use crate::asks::{Ask, AskView};
use crate::file_tcp::{
    axis_case, axis_names, axis_outcome, axis_text, file_tcp_row, interleave_case, listen_port,
    outcome, outcome_view, sendfile_text, server_failed, test_data, test_file, AXIS_BYTES, CONN_PORT,
    CROSS_PORT, CYCLE_COUNT, CYCLE_PORT, EXEC_PORT, FILE_TCP_TESTS, INTERLEAVE_PORT,
};
use crate::registry::{OutcomeView, TestOutcome};
use vstd::utf8::encode_utf8;

verus! {

/// The first tests each ask one agent once.
pub open spec fn asks_once(t: int) -> bool {
    t < 13 || 15 <= t < 19
}

/// What a test asks that asks once.
pub open spec fn file_ask_of(t: int) -> AskView {
    let port = listen_port(
        if t < 3 {
            AgentName::Dpg1
        } else {
            AgentName::Dpg2
        },
    );
    if t == 0 || t == 3 {
        AskView::File { port, path: test_file(), data: test_data() }
    } else if t == 1 || t == 4 {
        AskView::ListenRead {
            port,
            path: test_file(),
            prewrite: Some(test_data()),
            expected: Some(test_data()),
        }
    } else if t == 2 || t == 5 {
        AskView::ListenRead { port, path: "/etc/hostname", prewrite: None, expected: None }
    } else if t < 8 {
        AskView::Port { port: CONN_PORT }
    } else if t < 10 {
        AskView::File { port: CONN_PORT, path: "/tmp/ft_conn.txt", data: "during_conn" }
    } else if t < 13 {
        let c = interleave_case((t - 10) as usize);
        AskView::Send { port: INTERLEAVE_PORT, size: c.0, path: c.1@ }
    } else if t < 17 {
        AskView::Cycles { port: CYCLE_PORT, count: CYCLE_COUNT }
    } else {
        AskView::File { port: EXEC_PORT, path: "/tmp/ft_exec.txt", data: "exec_test_content" }
    }
}

/// What a test asks that asks once.
pub fn file_ask(t: usize) -> (r: Ask)
    requires
        t < FILE_TCP_TESTS,
        asks_once(t as int),
    ensures
        r@ == file_ask_of(t as int),
{
    let port: u16 = listen_port(
        if t < 3 {
            AgentName::Dpg1
        } else {
            AgentName::Dpg2
        },
    );
    if t == 0 || t == 3 {
        Ask::File { port, path: test_file(), data: test_data() }
    } else if t == 1 || t == 4 {
        Ask::ListenRead {
            port,
            path: test_file(),
            prewrite: Some(test_data()),
            expected: Some(test_data()),
        }
    } else if t == 2 || t == 5 {
        Ask::ListenRead { port, path: "/etc/hostname", prewrite: None, expected: None }
    } else if t < 8 {
        Ask::Port { port: CONN_PORT }
    } else if t < 10 {
        Ask::File { port: CONN_PORT, path: "/tmp/ft_conn.txt", data: "during_conn" }
    } else if t < 13 {
        let c = interleave_case(t - 10);
        Ask::Send { port: INTERLEAVE_PORT, size: c.0, path: c.1.to_string() }
    } else if t < 17 {
        Ask::Cycles { port: CYCLE_PORT, count: CYCLE_COUNT }
    } else {
        Ask::File { port: EXEC_PORT, path: "/tmp/ft_exec.txt", data: "exec_test_content" }
    }
}

/// The label of a test that asks once.
pub open spec fn file_label(t: int) -> Seq<char> {
    if t < 3 {
        AgentName::Dpg1.wire()
    } else if t < 6 {
        AgentName::Dpg2.wire()
    } else {
        "A"@
    }
}

/// The verdict on a test that asks once.
pub fn file_judge(t: usize, result: Result<String, String>) -> (o: TestOutcome)
    requires
        t < FILE_TCP_TESTS,
        asks_once(t as int),
    ensures
        o@ == outcome_view(result, file_label(t as int)),
{
    if t < 3 {
        outcome(result, AgentName::Dpg1.name())
    } else if t < 6 {
        outcome(result, AgentName::Dpg2.name())
    } else {
        outcome(result, "A")
    }
}

/// The tests in which one agent sends a file to another on a fixed port.
pub open spec fn sends_across(t: int) -> bool {
    13 <= t < 15
}

/// What is asked of the server of such a test.
pub fn across_server_ask() -> (r: Ask)
    ensures
        r@ == (AskView::Port { port: CROSS_PORT }),
{
    Ask::Port { port: CROSS_PORT }
}

/// What is asked of the client of such a test once its server runs.
pub fn across_client_ask(t: usize) -> (r: Ask)
    requires
        sends_across(t as int),
    ensures
        r@ == (AskView::Send {
            port: CROSS_PORT,
            size: interleave_case((t - 13) as usize).0,
            path: interleave_case((t - 13) as usize).1@,
        }),
{
    let c = interleave_case(t - 13);
    Ask::Send { port: CROSS_PORT, size: c.0, path: c.1.to_string() }
}

/// The verdict on such a test: on the server that did not start, or on the client's answer.
pub fn across_judge(server: Result<(), String>, client: Result<String, String>) -> (o: TestOutcome)
    ensures
        o@ == match server {
            Ok(()) => outcome_view(client, "A"@),
            Err(e) => OutcomeView {
                agent: "A"@,
                pass: false,
                detail: "listen"@ + " failed: "@ + e@,
            },
        },
{
    match server {
        Ok(()) => outcome(client, "A"),
        Err(e) => server_failed("listen", "A", e.as_str()),
    }
}

/// The tests in which the server has a file of its own and picks the port.
pub open spec fn serves_file(t: int) -> bool {
    19 <= t < 22
}

/// Label, file and data of such a test.
pub open spec fn served(t: int) -> (Seq<char>, Seq<char>, Seq<char>) {
    let c = axis_case((t - 19) as usize);
    axis_text(c.1.wire(), c.2.wire(), c.0@)
}

/// What is asked of the server of such a test.
pub fn serve_ask(t: usize) -> (r: Ask)
    requires
        serves_file(t as int),
    ensures
        r@ == (AskView::Serve { path: served(t as int).1, data: served(t as int).2 }),
{
    let c = axis_case(t - 19);
    let (_, path, data) = axis_names(c.1, c.2, c.0);
    Ask::Serve { path, data }
}

/// What is asked of the client of such a test, which sends to the server's port, and then
/// of the server again.
pub fn served_asks(t: usize, port: u16) -> (r: (Ask, Ask))
    requires
        serves_file(t as int),
    ensures
        r.0@ == (AskView::Send { port, size: AXIS_BYTES, path: served(t as int).1 }),
        r.1@ == (AskView::Delete { path: served(t as int).1 }),
{
    let c = axis_case(t - 19);
    let (_, path, _) = axis_names(c.1, c.2, c.0);
    (
        Ask::Send { port, size: AXIS_BYTES, path: path.as_str().to_string() },
        Ask::Delete { path },
    )
}

/// The verdict on such a test: on the server that did not start, or on the client's answer.
pub fn served_judge(t: usize, server: Result<(), String>, client: Result<String, String>) -> (o:
    TestOutcome)
    requires
        serves_file(t as int),
    ensures
        ({
            let (label, path, data) = served(t as int);
            let want = sendfile_text(AXIS_BYTES as nat, encode_utf8(data).len());
            o@ == match server {
                Err(e) => OutcomeView {
                    agent: label,
                    pass: false,
                    detail: "server"@ + " failed: "@ + e@,
                },
                Ok(()) => match client {
                    Ok(d) => if d@ == want {
                        OutcomeView { agent: label, pass: true, detail: d@ }
                    } else {
                        OutcomeView {
                            agent: label,
                            pass: false,
                            detail: "expected="@ + want + " got="@ + d@,
                        }
                    },
                    Err(e) => OutcomeView { agent: label, pass: false, detail: e@ },
                },
            }
        }),
{
    let c = axis_case(t - 19);
    let (label, _, data) = axis_names(c.1, c.2, c.0);
    match server {
        Ok(()) => axis_outcome(label.as_str(), data.as_str(), client),
        Err(e) => server_failed("server", label.as_str(), e.as_str()),
    }
}

/// The ways in which these tests run.
#[derive(Clone, Copy, Debug, PartialEq, Eq, Structural)]
pub enum FileWay {
    /// One agent is asked once.
    Once,
    /// A server on a fixed port, and a client.
    Across,
    /// A server with a file of its own, and a client.
    Served,
}

/// The way in which a test runs.
pub fn file_way(t: usize) -> (r: FileWay)
    requires
        t < FILE_TCP_TESTS,
    ensures
        r == FileWay::Once <==> asks_once(t as int),
        r == FileWay::Across <==> sends_across(t as int),
        r == FileWay::Served <==> serves_file(t as int),
{
    if t < 13 {
        FileWay::Once
    } else if t < 15 {
        FileWay::Across
    } else if t < 19 {
        FileWay::Once
    } else {
        FileWay::Served
    }
}

/// Every test of files beside connections runs in exactly one of the three ways, and one
/// that asks once has one agent in its plan where the others have two.
pub proof fn law_file_tests_split(t: int)
    requires
        0 <= t < FILE_TCP_TESTS,
    ensures
        asks_once(t) <==> !sends_across(t) && !serves_file(t),
        !(sends_across(t) && serves_file(t)),
        asks_once(t) <==> file_tcp_row(t).agents.len() == 1,
        !asks_once(t) <==> file_tcp_row(t).agents.len() == 2,
{
}

/// What a test reads back is what it wrote before, and a file that it did not write only has to
/// hold something; each listening test uses the port of its own agent.
pub proof fn law_files_read_back(t: int)
    requires
        0 <= t < 19,
        asks_once(t),
    ensures
        file_ask_of(t) matches AskView::ListenRead { port, prewrite, expected, .. } ==> prewrite
            == expected && port == (if t < 3 {
            18100int
        } else {
            18101int
        }),
        t < 6 ==> (file_ask_of(t) is File <==> t % 3 == 0) && (file_ask_of(t) is ListenRead <==> t
            % 3 != 0),
        (t == 1 || t == 4) ==> (file_ask_of(t) matches AskView::ListenRead { path, prewrite, .. }
            && file_ask_of(t - 1) matches AskView::File { path: q, data, .. } && path == q
            && prewrite == Some(data)),
        (t == 2 || t == 5) ==> (file_ask_of(t) matches AskView::ListenRead { path, prewrite, .. }
            && path == "/etc/hostname" && prewrite is None),
{
}

/// The tests on a connection use one port, those that send a file another, those that go round
/// five times another and those that run a program another.
pub proof fn law_file_ports(t: int)
    requires
        asks_once(t),
        6 <= t < 19,
    ensures
        6 <= t < 8 ==> file_ask_of(t) == (AskView::Port { port: 18110 }),
        8 <= t < 10 ==> (file_ask_of(t) matches AskView::File { port, .. } && port == 18110),
        10 <= t < 13 ==> (file_ask_of(t) matches AskView::Send { port, size, path } && port == 18120
            && size == interleave_case((t - 10) as usize).0 && path == interleave_case(
            (t - 10) as usize,
        ).1@),
        15 <= t < 17 ==> file_ask_of(t) == (AskView::Cycles { port: 18130, count: 5 }),
        17 <= t < 19 ==> (file_ask_of(t) matches AskView::File { port, .. } && port == 18140),
        CROSS_PORT == 18121,
        AXIS_BYTES == 128,
{
}

/// The label of a test that asks once is that of its agent where it listens, and the plain one
/// else.
pub proof fn law_file_labels(t: int)
    requires
        0 <= t < 22,
    ensures
        t < 3 ==> file_label(t) == AgentName::Dpg1.wire(),
        3 <= t < 6 ==> file_label(t) == AgentName::Dpg2.wire(),
        6 <= t ==> file_label(t) == "A"@,
        t < 6 ==> file_label(t) == file_tcp_row(t).agents[0].wire(),
{
}

/// A served file is named after the test, and the test after its server and its client, which are
/// those of its plan.
pub proof fn law_served_names(t: int)
    requires
        serves_file(t),
    ensures
        ({
            let c = axis_case((t - 19) as usize);
            &&& served(t).0 == file_tcp_row(t).agents[0].wire() + "<-"@ + file_tcp_row(
                t,
            ).agents[1].wire()
            &&& served(t).1 == "/root/litebox_ft_axis_"@ + c.0@ + ".txt"@
            &&& served(t).2 == "ft_axis_payload_"@ + c.0@
        }),
{
}

} // verus!
