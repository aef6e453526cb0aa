//! Tests that read and write files while connections are open: the data they move, how
//! each step is judged, and their names and ports.

use vstd::prelude::*;
use vstd::utf8::encode_utf8;
use crate::agents::AgentName;
use crate::common::{letter_bytes, letters};
use crate::errno::EINTR;
use crate::number::{dec, dec_text, opt_i32, opt_int_text};
use crate::registry::{
    on_agents, plan_on, plan_on_two, plan_views, Group, Handler, OutcomeView, PlanView, TestOutcome,
    TestPlan,
};
use crate::text::{
    cat, cat3, contains, contains_text, lossy, lossy_text, quote, quoted, same, starts_with,
    starts_with_text, trim, trim_text,
};

verus! {

/// The file that the listening tests write.
#[verifier::allow_in_spec]
pub fn test_file() -> &'static str
    returns
        ("/tmp/ft_test.txt"),
{
    "/tmp/ft_test.txt"
}

/// What they write into it.
#[verifier::allow_in_spec]
pub fn test_data() -> &'static str
    returns
        ("file_tcp_test_data_1234567890"),
{
    "file_tcp_test_data_1234567890"
}

/// The file that is sent over a connection.
#[verifier::allow_in_spec]
pub fn sendfile_source() -> &'static str
    returns
        ("/root/litebox_ft_sendfile_source.bin"),
{
    "/root/litebox_ft_sendfile_source.bin"
}

/// The data that is sent: the sixteen capital letters from `A` on, over and over.
pub fn pattern_bytes(size: usize) -> (r: Vec<u8>)
    ensures
        r@ == letters(size as nat),
{
    letter_bytes(size)
}

/// Data of any size is a beginning of all larger data.
pub proof fn law_pattern_prefix(a: nat, b: nat)
    requires
        a <= b,
    ensures
        letters(b).take(a as int) == letters(a),
{
    assert(letters(b).take(a as int) =~= letters(a));
}

/// A handler's detail is a success, its error a failure.
pub open spec fn outcome_view(result: Result<String, String>, agent: Seq<char>) -> OutcomeView {
    match result {
        Ok(d) => OutcomeView { agent, pass: true, detail: d@ },
        Err(e) => OutcomeView { agent, pass: false, detail: e@ },
    }
}

/// A handler's detail is a success, its error a failure.
pub fn outcome(result: Result<String, String>, agent: &str) -> (o: TestOutcome)
    ensures
        o@ == outcome_view(result, agent@),
{
    match result {
        Ok(d) => TestOutcome::new(agent, true, d),
        Err(e) => TestOutcome::new(agent, false, e),
    }
}

/// The verdict where the server of a test could not be started.
pub fn server_failed(word: &str, agent: &str, error: &str) -> (o: TestOutcome)
    ensures
        o@ == (OutcomeView { agent: agent@, pass: false, detail: word@ + " failed: "@ + error@ }),
{
    TestOutcome::new(agent, false, cat3(word, " failed: ", error))
}

/// How many bytes a text takes.
fn byte_len(s: &str) -> (r: u64)
    ensures
        r == encode_utf8(s@).len(),
{
    s.as_bytes().len() as u64
}

/// The detail of a test that writes while it listens.
pub fn listen_write_detail(port: u16, path: &str) -> (r: String)
    ensures
        r@ == "listening="@ + dec_text(port as nat) + " wrote="@ + path@,
{
    let n = dec(port as u64);
    let mut text = cat3("listening=", n.as_str(), " wrote=");
    text.append(path);
    text
}

/// What a file must hold.
#[derive(Clone, Debug)]
pub enum ReadExpectation {
    /// The text, and nothing else.
    Exact(String),
    /// Anything at all.
    NonEmpty,
}

/// The file holds what it must.
pub open spec fn holds(expected: ReadExpectation, data: Seq<char>) -> bool {
    match expected {
        ReadExpectation::Exact(e) => data == e@,
        ReadExpectation::NonEmpty => data.len() > 0,
    }
}

/// The result of a test that reads while it listens.
pub fn listen_read_result(expected: &ReadExpectation, data: &str, port: u16) -> (r: Result<
    String,
    String,
>)
    ensures
        match r {
            Ok(d) => holds(*expected, data@) && d@ == "listening="@ + dec_text(port as nat)
                + " read_len="@ + dec_text(encode_utf8(data@).len()),
            Err(x) => !holds(*expected, data@) && x@ == match *expected {
                ReadExpectation::Exact(e) => "expected "@ + quoted(e@) + ", got "@ + quoted(data@),
                ReadExpectation::NonEmpty => "read empty file"@,
            },
        },
{
    match expected {
        ReadExpectation::Exact(e) => if !same(data, e.as_str()) {
            let a = quote(e.as_str());
            let b = quote(data);
            let mut text = cat3("expected ", a.as_str(), ", got ");
            text.append(b.as_str());
            return Err(text);
        },
        ReadExpectation::NonEmpty => if data.unicode_len() == 0 {
            return Err("read empty file".to_string());
        },
    }
    let n = dec(port as u64);
    let size = dec(byte_len(data));
    let mut text = cat3("listening=", n.as_str(), " read_len=");
    text.append(size.as_str());
    Ok(text)
}

/// A detail with the number of connections that the server accepted.
pub open spec fn with_accepted(detail: Seq<char>, accepted: nat) -> Seq<char> {
    detail + "; accepted="@ + dec_text(accepted)
}

/// What became of the server's thread: how many connections it accepted, or why it failed.
pub enum ServerEnd {
    Accepted { n: u32 },
    Failed { error: String },
    Panicked,
}

/// The result of a test with a server in its own process: the client's detail, then the
/// server's count.
pub fn echo_run_result(client: Result<String, String>, server: ServerEnd) -> (r: Result<
    String,
    String,
>)
    ensures
        match client {
            Err(e) => r == Err::<String, String>(e),
            Ok(d) => match server {
                ServerEnd::Accepted { n } => r matches Ok(x) && x@ == with_accepted(d@, n as nat),
                ServerEnd::Failed { error } => r == Err::<String, String>(error),
                ServerEnd::Panicked => r matches Err(e) && e@ == "server thread panicked"@,
            },
        },
{
    match client {
        Err(e) => Err(e),
        Ok(d) => match server {
            ServerEnd::Accepted { n } => {
                let count = dec(n as u64);
                Ok(cat3(d.as_str(), "; accepted=", count.as_str()))
            },
            ServerEnd::Failed { error } => Err(error),
            ServerEnd::Panicked => Err("server thread panicked".to_string()),
        },
    }
}

/// Check an echo: it must be what was sent. The detail on success is given.
pub fn check_echo(sent: &str, echo: &str, detail: &str) -> (r: Result<String, String>)
    ensures
        match r {
            Ok(d) => echo@ == sent@ && d@ == detail@,
            Err(e) => echo@ != sent@ && e@ == "echo mismatch: "@ + quoted(echo@),
        },
{
    if same(echo, sent) {
        Ok(detail.to_string())
    } else {
        let shown = quote(echo);
        Err(cat("echo mismatch: ", shown.as_str()))
    }
}

/// The detail of the echo test, around what the run gave.
pub fn conn_echo_detail(run: &str) -> (r: String)
    ensures
        r@ == "accepted="@ + run@,
{
    cat("accepted=", run)
}

/// Check the file that is read after a connection.
pub fn check_hostname(data: &str) -> (r: Result<String, String>)
    ensures
        match r {
            Ok(d) => data@.len() > 0 && d@ == "read_len="@ + dec_text(encode_utf8(data@).len()),
            Err(e) => data@.len() == 0 && e@ == "hostname empty"@,
        },
{
    if data.unicode_len() == 0 {
        Err("hostname empty".to_string())
    } else {
        let n = dec(byte_len(data));
        Ok(cat("read_len=", n.as_str()))
    }
}

/// The detail of the test that reads after a connection, around what the run gave.
pub fn read_after_detail(run: &str) -> (r: String)
    ensures
        r@ == run@ + " file read after conn"@,
{
    cat(run, " file read after conn")
}

/// The detail of the test that writes during a connection.
pub fn conn_write_detail(path: &str) -> (r: String)
    ensures
        r@ == "wrote="@ + path@,
{
    cat("wrote=", path)
}

/// Check a file that was written and read back during a connection.
pub fn check_readback(data: &str, readback: &str) -> (r: Result<String, String>)
    ensures
        match r {
            Ok(d) => readback@ == data@ && d@ == "readback="@ + readback@,
            Err(e) => readback@ != data@ && e@ == "readback mismatch: "@ + quoted(readback@),
        },
{
    if same(readback, data) {
        Ok(cat("readback=", readback))
    } else {
        let shown = quote(readback);
        Err(cat("readback mismatch: ", shown.as_str()))
    }
}

/// What a cycle sends, writes, and the file it writes to.
pub fn cycle_texts(i: u32) -> (r: (String, String, String))
    ensures
        r.0@ == "cycle_"@ + dec_text(i as nat),
        r.1@ == "cycle_data_"@ + dec_text(i as nat),
        r.2@ == "/tmp/ft_multi_"@ + dec_text(i as nat) + ".txt"@,
{
    let n = dec(i as u64);
    (
        cat("cycle_", n.as_str()),
        cat("cycle_data_", n.as_str()),
        cat3("/tmp/ft_multi_", n.as_str(), ".txt"),
    )
}

/// The complaint about a cycle's echo, if there is one.
pub fn cycle_echo_complaint(i: u32, sent: &str, echo: &str) -> (r: Option<String>)
    ensures
        match r {
            None => echo@ == sent@,
            Some(c) => echo@ != sent@ && c@ == "cycle "@ + dec_text(i as nat) + " echo mismatch: "@
                + quoted(echo@),
        },
{
    if same(echo, sent) {
        None
    } else {
        let n = dec(i as u64);
        let shown = quote(echo);
        let mut text = cat3("cycle ", n.as_str(), " echo mismatch: ");
        text.append(shown.as_str());
        Some(text)
    }
}

/// The complaint about a cycle's file, if there is one.
pub fn cycle_file_complaint(i: u32, data: &str, readback: &str) -> (r: Option<String>)
    ensures
        match r {
            None => readback@ == data@,
            Some(c) => readback@ != data@ && c@ == "cycle "@ + dec_text(i as nat)
                + " readback mismatch"@,
        },
{
    if same(readback, data) {
        None
    } else {
        let n = dec(i as u64);
        Some(cat3("cycle ", n.as_str(), " readback mismatch"))
    }
}

/// The complaint about a cycle that sends a file, if there is one.
pub fn cycle_send_complaint(i: u32, detail: &str) -> (r: Option<String>)
    ensures
        match r {
            None => contains_text(detail@, "tcp_ok=256"@),
            Some(c) => !contains_text(detail@, "tcp_ok=256"@) && c@ == "cycle "@ + dec_text(
                i as nat,
            ) + " sendfile failed: "@ + detail@,
        },
{
    if contains(detail, "tcp_ok=256") {
        None
    } else {
        let n = dec(i as u64);
        let mut text = cat3("cycle ", n.as_str(), " sendfile failed: ");
        text.append(detail);
        Some(text)
    }
}

/// The detail of a run of cycles.
pub fn cycles_detail(count: u32, interleaved: bool) -> (r: String)
    ensures
        r@ == dec_text(count as nat) + if interleaved {
            " interleaved file+TCP cycles"@
        } else {
            " file+TCP cycles"@
        },
{
    let n = dec(count as u64);
    if interleaved {
        cat(n.as_str(), " interleaved file+TCP cycles")
    } else {
        cat(n.as_str(), " file+TCP cycles")
    }
}

/// The complaint about a program that prints the file, if there is one: it must end well
/// and, where its output is looked at, print what was written.
pub fn cat_complaint(code: Option<i32>, success: bool, stdout: &[u8], data: Option<&str>) -> (r:
    Option<String>)
    ensures
        match r {
            None => success && match data {
                Some(d) => trim_text(lossy_text(stdout@)) == d@,
                None => true,
            },
            Some(c) => if !success {
                c@ == "cat exit="@ + opt_int_text(code)
            } else {
                data matches Some(d) && trim_text(lossy_text(stdout@)) != d@ && c@
                    == "cat output mismatch: "@ + quoted(lossy_text(stdout@))
            },
        },
{
    if !success {
        let shown = opt_i32(code);
        return Some(cat("cat exit=", shown.as_str()));
    }
    match data {
        Some(d) => {
            let out = lossy(stdout);
            if same(trim(out.as_str()), d) {
                None
            } else {
                let shown = quote(out.as_str());
                Some(cat("cat output mismatch: ", shown.as_str()))
            }
        },
        None => None,
    }
}

/// Whether a file is marked before it is used: only those in the scratch directory are.
pub fn needs_marker(path: &str) -> (r: bool)
    ensures
        r == starts_with_text(path@, "/tmp/"@),
{
    starts_with(path, "/tmp/")
}

/// How the deletion of a file ended.
pub enum DeleteEnd {
    Deleted,
    NotFound,
    Failed { error: String },
}

/// The result of the handler that deletes a file, for which a missing file is no error.
pub fn delete_result(path: &str, end: DeleteEnd) -> (r: Result<String, String>)
    ensures
        match end {
            DeleteEnd::Deleted => r matches Ok(d) && d@ == "deleted="@ + path@,
            DeleteEnd::NotFound => r matches Ok(d) && d@ == "not_found="@ + path@,
            DeleteEnd::Failed { error } => r == Err::<String, String>(error),
        },
{
    match end {
        DeleteEnd::Deleted => Ok(cat("deleted=", path)),
        DeleteEnd::NotFound => Ok(cat("not_found=", path)),
        DeleteEnd::Failed { error } => Err(error),
    }
}

/// Whether sending goes on.
pub enum SendfileStep {
    /// So many bytes remain.
    Sent { remaining: usize },
    /// Interrupted: try again.
    Again,
    Fail { error: String },
}

/// One call that sends from a file, with `remaining` bytes to go, which returned `sent`.
pub fn sendfile_step(remaining: usize, sent: i64, errno: Option<i32>, error: &str) -> (r:
    SendfileStep)
    requires
        sent <= remaining,
    ensures
        if sent > 0 {
            r == (SendfileStep::Sent { remaining: (remaining - sent) as usize })
        } else if sent == 0 {
            r matches SendfileStep::Fail { error: e } && e@ == "sendfile EOF with "@ + dec_text(
                remaining as nat,
            ) + " bytes remaining"@
        } else if errno == Some(EINTR) {
            r is Again
        } else {
            r matches SendfileStep::Fail { error: e } && e@ == "sendfile: "@ + error@
        },
{
    if sent > 0 {
        SendfileStep::Sent { remaining: remaining - sent as usize }
    } else if sent == 0 {
        let n = dec(remaining as u64);
        SendfileStep::Fail { error: cat3("sendfile EOF with ", n.as_str(), " bytes remaining") }
    } else if errno == Some(EINTR) {
        SendfileStep::Again
    } else {
        SendfileStep::Fail { error: cat("sendfile: ", error) }
    }
}

/// The detail of a client that sent so many bytes and read a file of that length.
pub open spec fn sendfile_text(size: nat, file_len: nat) -> Seq<char> {
    "tcp_ok="@ + dec_text(size) + ",file_len="@ + dec_text(file_len)
}

fn is_pattern(bytes: &[u8], size: usize) -> (r: bool)
    ensures
        r == (bytes@ == letters(size as nat)),
{
    if bytes.len() != size {
        return false;
    }
    let mut i: usize = 0;
    while i < size
        invariant
            i <= size,
            bytes.len() == size,
            forall|k: int| 0 <= k < i ==> bytes@[k] == letters(size as nat)[k],
        decreases size - i,
    {
        if bytes[i] != 65 + (i % 16) as u8 {
            assert(bytes@[i as int] != letters(size as nat)[i as int]);
            return false;
        }
        i = i + 1;
    }
    assert(bytes@ =~= letters(size as nat));
    true
}

/// The result of a client that sent the pattern, over the echo and the file it read.
pub fn sendfile_result(size: u32, echo: &str, file: &str) -> (r: Result<String, String>)
    ensures
        match r {
            Ok(d) => encode_utf8(echo@) == letters(size as nat) && d@ == sendfile_text(
                size as nat,
                encode_utf8(file@).len(),
            ),
            Err(e) => encode_utf8(echo@) != letters(size as nat) && e@ == "echo mismatch: sent="@
                + dec_text(size as nat) + " recv="@ + dec_text(encode_utf8(echo@).len()),
        },
{
    let n = dec(size as u64);
    if is_pattern(echo.as_bytes(), size as usize) {
        let len = dec(byte_len(file));
        let mut text = cat3("tcp_ok=", n.as_str(), ",file_len=");
        text.append(len.as_str());
        Ok(text)
    } else {
        let got = dec(byte_len(echo));
        let mut text = cat3("echo mismatch: sent=", n.as_str(), " recv=");
        text.append(got.as_str());
        Err(text)
    }
}

/// The port of a server, in words.
pub fn server_detail(port: u16) -> (r: String)
    ensures
        r@ == "port="@ + dec_text(port as nat),
{
    let n = dec(port as u64);
    cat("port=", n.as_str())
}

/// How many bytes the client of a test across agents sends.
pub const AXIS_BYTES: u32 = 128;

/// Label, file and data of a test across agents.
pub open spec fn axis_text(server: Seq<char>, client: Seq<char>, axis: Seq<char>) -> (
    Seq<char>,
    Seq<char>,
    Seq<char>,
) {
    (
        server + "<-"@ + client,
        "/root/litebox_ft_axis_"@ + axis + ".txt"@,
        "ft_axis_payload_"@ + axis,
    )
}

/// Label, file and data of a test across agents.
pub fn axis_names(server: AgentName, client: AgentName, axis: &str) -> (r: (String, String, String))
    ensures
        (r.0@, r.1@, r.2@) == axis_text(server.wire(), client.wire(), axis@),
{
    (
        cat3(server.name(), "<-", client.name()),
        cat3("/root/litebox_ft_axis_", axis, ".txt"),
        cat("ft_axis_payload_", axis),
    )
}

/// The verdict on a test across agents: the client sent all bytes and saw the whole file.
pub fn axis_outcome(agent: &str, data: &str, result: Result<String, String>) -> (o: TestOutcome)
    ensures
        ({
            let want = sendfile_text(AXIS_BYTES as nat, encode_utf8(data@).len());
            o@ == match result {
                Ok(d) => if d@ == want {
                    OutcomeView { agent: agent@, pass: true, detail: d@ }
                } else {
                    OutcomeView {
                        agent: agent@,
                        pass: false,
                        detail: "expected="@ + want + " got="@ + d@,
                    }
                },
                Err(e) => OutcomeView { agent: agent@, pass: false, detail: e@ },
            }
        }),
{
    let n = dec(AXIS_BYTES as u64);
    let len = dec(byte_len(data));
    let mut want = cat3("tcp_ok=", n.as_str(), ",file_len=");
    want.append(len.as_str());
    match result {
        Ok(d) => if same(d.as_str(), want.as_str()) {
            TestOutcome::new(agent, true, d)
        } else {
            let mut text = cat3("expected=", want.as_str(), " got=");
            text.append(d.as_str());
            TestOutcome::new(agent, false, text)
        },
        Err(e) => TestOutcome::new(agent, false, e),
    }
}

/// The port of a listening test.
#[verifier::allow_in_spec]
pub fn listen_port(agent: AgentName) -> u16
    returns
        (if agent == AgentName::Dpg1 {
            18100u16
        } else {
            18101u16
        }),
{
    if agent == AgentName::Dpg1 {
        18100
    } else {
        18101
    }
}

/// The port of the tests on one connection.
pub const CONN_PORT: u16 = 18110;

/// The port of the tests that send a file to themselves.
pub const INTERLEAVE_PORT: u16 = 18120;

/// The port of the tests that send a file to another agent.
pub const CROSS_PORT: u16 = 18121;

/// The port of the tests that go round several times.
pub const CYCLE_PORT: u16 = 18130;

/// The port of the tests that run a program.
pub const EXEC_PORT: u16 = 18140;

/// How many cycles a test of cycles runs.
pub const CYCLE_COUNT: u32 = 5;

/// Id and handler of a listening test, without the agent.
#[verifier::allow_in_spec]
pub fn listen_case(k: usize) -> (&'static str, &'static str)
    returns
        (if k == 0 {
            ("FT.listen_write.", "file_tcp.listen_write")
        } else if k == 1 {
            ("FT.listen_read.", "file_tcp.listen_read")
        } else {
            ("FT.listen_read_etc.", "file_tcp.listen_read")
        }),
{
    if k == 0 {
        ("FT.listen_write.", "file_tcp.listen_write")
    } else if k == 1 {
        ("FT.listen_read.", "file_tcp.listen_read")
    } else {
        ("FT.listen_read_etc.", "file_tcp.listen_read")
    }
}

/// Id and handler of a test on one agent, before those across agents.
#[verifier::allow_in_spec]
pub fn single_case(k: usize) -> (&'static str, &'static str)
    returns
        (if k == 0 {
            ("FT.conn_echo", "file_tcp.conn_echo")
        } else if k == 1 {
            ("FT.conn_read_after", "file_tcp.conn_read_after")
        } else if k == 2 {
            ("FT.conn_write", "file_tcp.conn_write")
        } else if k == 3 {
            ("FT.conn_readback", "file_tcp.conn_readback")
        } else if k == 4 {
            ("FT.interleave_self_small", "file_tcp.sendfile_in_process")
        } else if k == 5 {
            ("FT.interleave_self_4k", "file_tcp.sendfile_in_process")
        } else {
            ("FT.interleave_self_32k", "file_tcp.sendfile_in_process")
        }),
{
    if k == 0 {
        ("FT.conn_echo", "file_tcp.conn_echo")
    } else if k == 1 {
        ("FT.conn_read_after", "file_tcp.conn_read_after")
    } else if k == 2 {
        ("FT.conn_write", "file_tcp.conn_write")
    } else if k == 3 {
        ("FT.conn_readback", "file_tcp.conn_readback")
    } else if k == 4 {
        ("FT.interleave_self_small", "file_tcp.sendfile_in_process")
    } else if k == 5 {
        ("FT.interleave_self_4k", "file_tcp.sendfile_in_process")
    } else {
        ("FT.interleave_self_32k", "file_tcp.sendfile_in_process")
    }
}

/// Id and handler of a test on one agent, after those.
#[verifier::allow_in_spec]
pub fn later_case(k: usize) -> (&'static str, &'static str)
    returns
        (if k == 0 {
            ("FT.multi_x5", "file_tcp.multi_x5")
        } else if k == 1 {
            ("FT.multi_interleave_x5", "file_tcp.multi_interleave_x5")
        } else if k == 2 {
            ("FT.exec_cat_during_tcp", "file_tcp.exec_cat_during_tcp")
        } else {
            ("FT.echo_after_exec", "file_tcp.echo_after_exec")
        }),
{
    if k == 0 {
        ("FT.multi_x5", "file_tcp.multi_x5")
    } else if k == 1 {
        ("FT.multi_interleave_x5", "file_tcp.multi_interleave_x5")
    } else if k == 2 {
        ("FT.exec_cat_during_tcp", "file_tcp.exec_cat_during_tcp")
    } else {
        ("FT.echo_after_exec", "file_tcp.echo_after_exec")
    }
}

/// Bytes and file of a test that sends and reads.
#[verifier::allow_in_spec]
pub fn interleave_case(k: usize) -> (u32, &'static str)
    returns
        (if k == 0 {
            (64u32, "/tmp/ft_interleave.txt")
        } else if k == 1 {
            (4096u32, "/etc/hostname")
        } else {
            (32768u32, "/tmp/ft_interleave.txt")
        }),
{
    if k == 0 {
        (64u32, "/tmp/ft_interleave.txt")
    } else if k == 1 {
        (4096u32, "/etc/hostname")
    } else {
        (32768u32, "/tmp/ft_interleave.txt")
    }
}

/// Name, server and client of a test across agents.
#[verifier::allow_in_spec]
pub fn axis_case(k: usize) -> (&'static str, AgentName, AgentName)
    returns
        (if k == 0 {
            ("parent_child", AgentName::Dpg1Dpg1, AgentName::Dpg1)
        } else if k == 1 {
            ("child_parent", AgentName::Dpg1, AgentName::Dpg1Dpg1)
        } else {
            ("depth2", AgentName::Dpg1Dng, AgentName::Dpg1DngDpg)
        }),
{
    if k == 0 {
        ("parent_child", AgentName::Dpg1Dpg1, AgentName::Dpg1)
    } else if k == 1 {
        ("child_parent", AgentName::Dpg1, AgentName::Dpg1Dpg1)
    } else {
        ("depth2", AgentName::Dpg1Dng, AgentName::Dpg1DngDpg)
    }
}

/// The group of these tests.
#[verifier::allow_in_spec]
pub fn ft_group() -> Group
    returns
        (Group { suite: "stress", family: "file_tcp", timeout_secs: Some(180u64) }),
{
    Group { suite: "stress", family: "file_tcp", timeout_secs: Some(180u64) }
}

/// How many tests there are.
pub const FILE_TCP_TESTS: usize = 22;

/// The test at a position.
pub open spec fn file_tcp_row(t: int) -> PlanView {
    if t < 6 {
        let a = if t < 3 {
            AgentName::Dpg1
        } else {
            AgentName::Dpg2
        };
        let c = listen_case((t % 3) as usize);
        on_agents(ft_group(), c.0@ + a.wire(), Handler::Named(c.1), seq![a])
    } else if t < 13 {
        let c = single_case((t - 6) as usize);
        on_agents(ft_group(), c.0@, Handler::Named(c.1), seq![AgentName::Dpg1])
    } else if t < 15 {
        on_agents(
            ft_group(),
            if t == 13 {
                "FT.interleave_cross_small"@
            } else {
                "FT.interleave_cross_4k"@
            },
            Handler::Named("file_tcp.sendfile_client"),
            seq![AgentName::Dpg2, AgentName::Dpg1],
        )
    } else if t < 19 {
        let c = later_case((t - 15) as usize);
        on_agents(ft_group(), c.0@, Handler::Named(c.1), seq![AgentName::Dpg1])
    } else {
        let c = axis_case((t - 19) as usize);
        on_agents(
            ft_group(),
            "FT.axis."@ + c.0@,
            Handler::Named("file_tcp.sendfile_client"),
            seq![c.1, c.2],
        )
    }
}

fn file_tcp_plan(t: usize) -> (r: TestPlan)
    requires
        t < FILE_TCP_TESTS,
    ensures
        r@ == file_tcp_row(t as int),
{
    if t < 6 {
        let a = if t < 3 {
            AgentName::Dpg1
        } else {
            AgentName::Dpg2
        };
        let c = listen_case(t % 3);
        plan_on(ft_group(), cat(c.0, a.name()), Handler::Named(c.1), a)
    } else if t < 13 {
        let c = single_case(t - 6);
        plan_on(ft_group(), c.0.to_string(), Handler::Named(c.1), AgentName::Dpg1)
    } else if t < 15 {
        let id = if t == 13 {
            "FT.interleave_cross_small".to_string()
        } else {
            "FT.interleave_cross_4k".to_string()
        };
        plan_on_two(
            ft_group(),
            id,
            Handler::Named("file_tcp.sendfile_client"),
            AgentName::Dpg2,
            AgentName::Dpg1,
        )
    } else if t < 19 {
        let c = later_case(t - 15);
        plan_on(ft_group(), c.0.to_string(), Handler::Named(c.1), AgentName::Dpg1)
    } else {
        let c = axis_case(t - 19);
        plan_on_two(
            ft_group(),
            cat("FT.axis.", c.0),
            Handler::Named("file_tcp.sendfile_client"),
            c.1,
            c.2,
        )
    }
}

/// The tests, in order.
pub fn register_file_tcp() -> (r: Vec<TestPlan>)
    ensures
        plan_views(r@) == Seq::new(FILE_TCP_TESTS as nat, |t: int| file_tcp_row(t)),
{
    let mut out: Vec<TestPlan> = Vec::new();
    let mut t: usize = 0;
    while t < FILE_TCP_TESTS
        invariant
            t <= FILE_TCP_TESTS,
            out@.len() == t,
            forall|k: int| 0 <= k < t ==> (#[trigger] out@[k])@ == file_tcp_row(k),
        decreases FILE_TCP_TESTS - t,
    {
        out.push(file_tcp_plan(t));
        t = t + 1;
    }
    assert(plan_views(out@) =~= Seq::new(FILE_TCP_TESTS as nat, |t: int| file_tcp_row(t)));
    out
}

/// A handler's detail passes and its error fails, whatever they say, and each is shown as it is.
pub proof fn law_detail_passes(result: Result<String, String>, agent: Seq<char>)
    ensures
        outcome_view(result, agent).pass <==> result is Ok,
        outcome_view(result, agent).agent == agent,
        result matches Ok(d) ==> outcome_view(result, agent).detail == d@,
        result matches Err(e) ==> outcome_view(result, agent).detail == e@,
{
}

/// A file holds a text only if it holds that and nothing else; anything will do only where nothing
/// in particular is asked for, and then not nothing.
pub proof fn law_file_holds(e: String, data: Seq<char>)
    ensures
        holds(ReadExpectation::Exact(e), data) <==> data == e@,
        holds(ReadExpectation::NonEmpty, data) <==> data.len() > 0,
{
}

/// The detail of a client names the bytes it sent and the length of the file it read, and that of
/// a run the connections that were accepted.
pub proof fn law_transfer_details(size: nat, file_len: nat, detail: Seq<char>, accepted: nat)
    ensures
        sendfile_text(size, file_len) == "tcp_ok="@ + dec_text(size) + ",file_len="@ + dec_text(
            file_len,
        ),
        with_accepted(detail, accepted) == detail + "; accepted="@ + dec_text(accepted),
{
}

/// A test across agents is named by its server and its client, in this order, and has a file and
/// data of its own.
pub proof fn law_axis_names(server: Seq<char>, client: Seq<char>, axis: Seq<char>, other: Seq<char>)
    ensures
        axis_text(server, client, axis).0 == server + "<-"@ + client,
        axis_text(server, client, axis).1 == axis_text(server, client, other).1 ==> axis == other,
        axis_text(server, client, axis).2 == axis_text(server, client, other).2 ==> axis == other,
{
    let h = "/root/litebox_ft_axis_"@;
    let g = "ft_axis_payload_"@;
    if h + axis + ".txt"@ == h + other + ".txt"@ {
        assert((h + axis + ".txt"@).len() == (h + other + ".txt"@).len());
        assert(axis =~= (h + axis + ".txt"@).subrange(h.len() as int, (h.len() + axis.len()) as int));
        assert(other =~= (h + other + ".txt"@).subrange(h.len() as int, (h.len() + other.len()) as int));
    }
    if g + axis == g + other {
        assert(axis =~= (g + axis).skip(g.len() as int));
        assert(other =~= (g + other).skip(g.len() as int));
    }
}

/// The tests across agents declare the server before the client, and every other test but the two
/// that send to a second agent declares one agent.
pub proof fn law_file_tcp_agents(t: int)
    requires
        0 <= t < FILE_TCP_TESTS,
    ensures
        file_tcp_row(t).timeout_secs == Some(180u64),
        file_tcp_row(t).leaves.len() == 0,
        t >= 19 ==> file_tcp_row(t).agents == seq![
            axis_case((t - 19) as usize).1,
            axis_case((t - 19) as usize).2,
        ],
        13 <= t < 15 ==> file_tcp_row(t).agents == seq![AgentName::Dpg2, AgentName::Dpg1],
        t < 13 || 15 <= t < 19 ==> file_tcp_row(t).agents.len() == 1,
        t < 3 || 6 <= t < 13 || 15 <= t < 19 ==> file_tcp_row(t).agents[0] == AgentName::Dpg1,
        3 <= t < 6 ==> file_tcp_row(t).agents[0] == AgentName::Dpg2,
{
}

/// A later file test is called like its handler.
pub proof fn law_later_cases_name_handlers(k: usize)
    requires
        k < 4,
    ensures
        later_case(k).0@ == "FT."@ + later_case(k).1@.skip(9),
        later_case(k).1@.take(9) == "file_tcp."@,
{
    reveal_strlit("file_tcp.");
    reveal_strlit("FT.");
    if k == 0 {
        reveal_strlit("FT.multi_x5");
        reveal_strlit("file_tcp.multi_x5");
        assert("FT.multi_x5"@ =~= "FT."@ + "file_tcp.multi_x5"@.skip(9));
        assert("file_tcp.multi_x5"@.take(9) =~= "file_tcp."@);
    }
    if k == 1 {
        reveal_strlit("FT.multi_interleave_x5");
        reveal_strlit("file_tcp.multi_interleave_x5");
        assert("FT.multi_interleave_x5"@ =~= "FT."@ + "file_tcp.multi_interleave_x5"@.skip(9));
        assert("file_tcp.multi_interleave_x5"@.take(9) =~= "file_tcp."@);
    }
    if k == 2 {
        reveal_strlit("FT.exec_cat_during_tcp");
        reveal_strlit("file_tcp.exec_cat_during_tcp");
        assert("FT.exec_cat_during_tcp"@ =~= "FT."@ + "file_tcp.exec_cat_during_tcp"@.skip(9));
        assert("file_tcp.exec_cat_during_tcp"@.take(9) =~= "file_tcp."@);
    }
    if k == 3 {
        reveal_strlit("FT.echo_after_exec");
        reveal_strlit("file_tcp.echo_after_exec");
        assert("FT.echo_after_exec"@ =~= "FT."@ + "file_tcp.echo_after_exec"@.skip(9));
        assert("file_tcp.echo_after_exec"@.take(9) =~= "file_tcp."@);
    }
}

/// A file test on a connection is called like its handler.
pub proof fn law_connection_cases_name_handlers(k: usize)
    requires
        k < 4,
    ensures
        single_case(k).0@ == "FT."@ + single_case(k).1@.skip(9),
        single_case(k).1@.take(9) == "file_tcp."@,
{
    reveal_strlit("file_tcp.");
    reveal_strlit("FT.");
    if k == 0 {
        reveal_strlit("FT.conn_echo");
        reveal_strlit("file_tcp.conn_echo");
        assert("FT.conn_echo"@ =~= "FT."@ + "file_tcp.conn_echo"@.skip(9));
        assert("file_tcp.conn_echo"@.take(9) =~= "file_tcp."@);
    }
    if k == 1 {
        reveal_strlit("FT.conn_read_after");
        reveal_strlit("file_tcp.conn_read_after");
        assert("FT.conn_read_after"@ =~= "FT."@ + "file_tcp.conn_read_after"@.skip(9));
        assert("file_tcp.conn_read_after"@.take(9) =~= "file_tcp."@);
    }
    if k == 2 {
        reveal_strlit("FT.conn_write");
        reveal_strlit("file_tcp.conn_write");
        assert("FT.conn_write"@ =~= "FT."@ + "file_tcp.conn_write"@.skip(9));
        assert("file_tcp.conn_write"@.take(9) =~= "file_tcp."@);
    }
    if k == 3 {
        reveal_strlit("FT.conn_readback");
        reveal_strlit("file_tcp.conn_readback");
        assert("FT.conn_readback"@ =~= "FT."@ + "file_tcp.conn_readback"@.skip(9));
        assert("file_tcp.conn_readback"@.take(9) =~= "file_tcp."@);
    }
}

/// The interleaved tests send growing amounts, the middle one beside a file of the system.
pub proof fn law_interleaved_amounts()
    ensures
        interleave_case(0).0 == 64 && interleave_case(0).1 == "/tmp/ft_interleave.txt",
        interleave_case(1).0 == 4096 && interleave_case(1).1 == "/etc/hostname",
        interleave_case(2).0 == 32768 && interleave_case(2).1 == "/tmp/ft_interleave.txt",
        listen_port(AgentName::Dpg1) != listen_port(AgentName::Dpg2),
{
}

/// A file is served between a parent and its child, both ways, and one level deeper.
pub proof fn law_axis_agents()
    ensures
        axis_case(0).1.parent_of() == Some(axis_case(0).2),
        axis_case(1).2.parent_of() == Some(axis_case(1).1),
        axis_case(2).2.parent_of() == Some(axis_case(2).1),
        axis_case(0).1.depth() == 1 && axis_case(1).1.depth() == 0 && axis_case(2).1.depth() == 1,
        axis_case(2).1 == AgentName::Dpg1Dng,
{
}

} // verus!
