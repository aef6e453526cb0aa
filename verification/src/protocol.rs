//! Commands and responses exchanged between the coordinator and its agents.

use vstd::prelude::*;
use crate::number::{dec, dec_i64, dec_text, int_text};
use crate::text::{lossy, lossy_text, quote, quoted};

verus! {

/// What an agent is asked to do.
#[allow(inconsistent_fields)]
#[derive(Debug)]
pub enum Command {
    /// Start child agents of the harness's own binary.
    Spawn { children: Vec<String> },
    /// Start child agents of the non-PIE binary.
    SpawnRemote { children: Vec<String> },
    /// Start one child agent of the labelled binary, handing down listeners.
    Fork { name: String, binary: String, inherit_listen_ports: Vec<u16> },
    /// Hand a command on to a child.
    Forward { target: String, inner: Box<Command> },
    /// Run a registered handler; `args` is its JSON argument.
    Run { handler: String, args: String, timeout_secs: Option<u64> },
    /// Wake a handler that waits for `tag`.
    Resume { tag: String },
    /// Run a program and collect what it prints.
    Exec {
        args: Vec<String>,
        timeout_secs: Option<u64>,
        stdin: Option<String>,
        background: bool,
        env: Vec<(String, String)>,
    },
    /// Run a program and wait until it prints a marker.
    ExecReady {
        args: Vec<String>,
        ready_marker: String,
        timeout_secs: Option<u64>,
        stdin: Option<String>,
        stream: String,
    },
    /// End the agent and its children.
    Exit,
    FsRead { path: String },
    FsWrite { path: String, data: String },
    FsDelete { path: String },
    NetConnect { addr: String, data: String },
    NetListen { port: u16 },
    NetUnlisten { port: u16 },
    EnvGet { var: String },
    CwdGet,
    UnixSocketTest { path: String },
}

/// What an agent answers.
#[derive(Clone, Debug)]
pub enum Response {
    /// Success, printed as `Ok`, with data where there is some.
    Done { data: Option<String> },
    NotFound,
    Error { error: String },
    Connected { echo: String },
    ConnectFailed { error: String },
    Listening { port: u16 },
    ExecResult { exit_code: i32, stdout: String, stderr: String },
    ExecTimeout { stderr: String },
    Background { pid: u32 },
    BackgroundReady { pid: u32 },
}

/// A response with its texts as sequences of characters.
pub enum ResponseView {
    Done { data: Option<Seq<char>> },
    NotFound,
    Error { error: Seq<char> },
    Connected { echo: Seq<char> },
    ConnectFailed { error: Seq<char> },
    Listening { port: u16 },
    ExecResult { exit_code: i32, stdout: Seq<char>, stderr: Seq<char> },
    ExecTimeout { stderr: Seq<char> },
    Background { pid: u32 },
    BackgroundReady { pid: u32 },
}

/// The text of an optional string.
pub open spec fn opt_text(o: Option<String>) -> Option<Seq<char>> {
    match o {
        Some(s) => Some(s@),
        None => None,
    }
}

impl View for Response {
    type V = ResponseView;

    open spec fn view(&self) -> ResponseView {
        match *self {
            Response::Done { data } => ResponseView::Done { data: opt_text(data) },
            Response::NotFound => ResponseView::NotFound,
            Response::Error { error } => ResponseView::Error { error: error@ },
            Response::Connected { echo } => ResponseView::Connected { echo: echo@ },
            Response::ConnectFailed { error } => ResponseView::ConnectFailed { error: error@ },
            Response::Listening { port } => ResponseView::Listening { port },
            Response::ExecResult { exit_code, stdout, stderr } => ResponseView::ExecResult {
                exit_code,
                stdout: stdout@,
                stderr: stderr@,
            },
            Response::ExecTimeout { stderr } => ResponseView::ExecTimeout { stderr: stderr@ },
            Response::Background { pid } => ResponseView::Background { pid },
            Response::BackgroundReady { pid } => ResponseView::BackgroundReady { pid },
        }
    }
}

impl ResponseView {
    /// What `{:?}` prints for the response.
    pub open spec fn debug(self) -> Seq<char> {
        match self {
            ResponseView::Done { data: Some(d) } => "Ok { data: Some("@ + quoted(d) + ") }"@,
            ResponseView::Done { data: None } => "Ok { data: None }"@,
            ResponseView::NotFound => "NotFound"@,
            ResponseView::Error { error } => "Error { error: "@ + quoted(error) + " }"@,
            ResponseView::Connected { echo } => "Connected { echo: "@ + quoted(echo) + " }"@,
            ResponseView::ConnectFailed { error } => "ConnectFailed { error: "@ + quoted(error)
                + " }"@,
            ResponseView::Listening { port } => "Listening { port: "@ + dec_text(port as nat)
                + " }"@,
            ResponseView::ExecResult { exit_code, stdout, stderr } => "ExecResult { exit_code: "@
                + int_text(exit_code as int) + ", stdout: "@ + quoted(stdout) + ", stderr: "@
                + quoted(stderr) + " }"@,
            ResponseView::ExecTimeout { stderr } => "ExecTimeout { stderr: "@ + quoted(stderr)
                + " }"@,
            ResponseView::Background { pid } => "Background { pid: "@ + dec_text(pid as nat)
                + " }"@,
            ResponseView::BackgroundReady { pid } => "BackgroundReady { pid: "@ + dec_text(
                pid as nat,
            ) + " }"@,
        }
    }
}

fn braced(head: &str, body: String) -> (r: String)
    ensures
        r@ == head@ + body@ + " }"@,
{
    let mut out = head.to_string();
    out.append(body.as_str());
    out.append(" }");
    out
}

impl Response {
    /// What `{:?}` prints for the response.
    pub fn debug_text(&self) -> (r: String)
        ensures
            r@ == self@.debug(),
    {
        match self {
            Response::Done { data } => match data {
                Some(d) => {
                    let mut out = "Ok { data: Some(".to_string();
                    let q = quote(d.as_str());
                    out.append(q.as_str());
                    out.append(") }");
                    out
                },
                None => "Ok { data: None }".to_string(),
            },
            Response::NotFound => "NotFound".to_string(),
            Response::Error { error } => braced("Error { error: ", quote(error.as_str())),
            Response::Connected { echo } => braced("Connected { echo: ", quote(echo.as_str())),
            Response::ConnectFailed { error } => braced(
                "ConnectFailed { error: ",
                quote(error.as_str()),
            ),
            Response::Listening { port } => braced("Listening { port: ", dec(*port as u64)),
            Response::ExecResult { exit_code, stdout, stderr } => {
                let mut out = "ExecResult { exit_code: ".to_string();
                let code = dec_i64(*exit_code as i64);
                out.append(code.as_str());
                out.append(", stdout: ");
                let so = quote(stdout.as_str());
                out.append(so.as_str());
                out.append(", stderr: ");
                let se = quote(stderr.as_str());
                out.append(se.as_str());
                out.append(" }");
                out
            },
            Response::ExecTimeout { stderr } => braced(
                "ExecTimeout { stderr: ",
                quote(stderr.as_str()),
            ),
            Response::Background { pid } => braced("Background { pid: ", dec(*pid as u64)),
            Response::BackgroundReady { pid } => braced("BackgroundReady { pid: ", dec(*pid as u64)),
        }
    }
}

/// An error response with the given text.
pub fn error_response(text: &str) -> (r: Response)
    ensures
        r@ == (ResponseView::Error { error: text@ }),
{
    Response::Error { error: text.to_string() }
}

/// A program's end: its exit code (`-1` where a signal ended it) and what it printed.
pub open spec fn exec_result_view(code: Option<i32>, out: Seq<u8>, err: Seq<u8>) -> ResponseView {
    ResponseView::ExecResult {
        exit_code: match code {
            Some(c) => c,
            None => -1i32,
        },
        stdout: lossy_text(out),
        stderr: lossy_text(err),
    }
}

/// The response for a program that ended.
pub fn exec_result(code: Option<i32>, out: &[u8], err: &[u8]) -> (r: Response)
    ensures
        r@ == exec_result_view(code, out@, err@),
{
    Response::ExecResult {
        exit_code: match code {
            Some(c) => c,
            None => -1,
        },
        stdout: lossy(out),
        stderr: lossy(err),
    }
}

/// The message for a program that outlived its budget.
pub open spec fn timed_out_text(secs: u64) -> Seq<char> {
    "process timed out after "@ + dec_text(secs as nat) + "s (likely deadlocked)"@
}

/// The response for a program that outlived its budget.
pub fn exec_timed_out(secs: u64) -> (r: Response)
    ensures
        r@ == (ResponseView::ExecTimeout { stderr: timed_out_text(secs) }),
{
    let mut out = "process timed out after ".to_string();
    let n = dec(secs);
    out.append(n.as_str());
    out.append("s (likely deadlocked)");
    Response::ExecTimeout { stderr: out }
}

/// A response prints under the name of its kind, with every one of its fields.
pub proof fn law_responses_print(r: ResponseView)
    ensures
        match r {
            ResponseView::Done { data } => {
                &&& data is None ==> r.debug() == "Ok { data: None }"@
                &&& data matches Some(d) ==> r.debug() == "Ok { data: Some("@ + quoted(d) + ") }"@
            },
            ResponseView::NotFound => r.debug() == "NotFound"@,
            ResponseView::Error { error } => r.debug() == "Error { error: "@ + quoted(error)
                + " }"@,
            ResponseView::Connected { echo } => r.debug() == "Connected { echo: "@ + quoted(echo)
                + " }"@,
            ResponseView::ConnectFailed { error } => r.debug() == "ConnectFailed { error: "@
                + quoted(error) + " }"@,
            ResponseView::Listening { port } => r.debug() == "Listening { port: "@ + dec_text(
                port as nat,
            ) + " }"@,
            ResponseView::ExecResult { exit_code, stdout, stderr } => r.debug()
                == "ExecResult { exit_code: "@ + int_text(exit_code as int) + ", stdout: "@
                + quoted(stdout) + ", stderr: "@ + quoted(stderr) + " }"@,
            ResponseView::ExecTimeout { stderr } => r.debug() == "ExecTimeout { stderr: "@
                + quoted(stderr) + " }"@,
            ResponseView::Background { pid } => r.debug() == "Background { pid: "@ + dec_text(
                pid as nat,
            ) + " }"@,
            ResponseView::BackgroundReady { pid } => r.debug() == "BackgroundReady { pid: "@
                + dec_text(pid as nat) + " }"@,
        },
{
}

/// A program that ended is answered with its code, or with minus one where a signal ended it, and
/// with its output and its error stream, each in its own place.
pub proof fn law_ended_program(code: Option<i32>, out: Seq<u8>, err: Seq<u8>)
    ensures
        exec_result_view(code, out, err) matches ResponseView::ExecResult {
            exit_code,
            stdout,
            stderr,
        } && stdout == lossy_text(out) && stderr == lossy_text(err) && (code matches Some(c)
            ==> exit_code == c) && (code is None ==> exit_code == -1),
{
}

/// A program that outlived its time is answered with that time.
pub proof fn law_timed_out(secs: u64)
    ensures
        timed_out_text(secs) == "process timed out after "@ + dec_text(secs as nat)
            + "s (likely deadlocked)"@,
{
}

} // verus!
