//! Test scripts: lists of stages, each of which sends commands to agents and
//! judges the answers.
//!
//! A run walks a script one answer at a time. `next_step` says what to send,
//! `Run::feed` takes the answer and gives the verdicts that it settles. Which
//! tests a script records does not depend on the answers: a test that cannot be
//! tried is recorded as skipped.

use vstd::prelude::*;
use crate::number::{dec, dec_text};
use crate::protocol::{Command, Response, ResponseView};
use crate::routing::{exec, exec_timeout};
use crate::text::{
    bool_text, bool_word, cat3, contains, contains_text, join, join_text, replace, replace_text,
    same, texts, trim, trim_text,
};

verus! {

/// The program and arguments of a test, with the harness's own binary left open.
#[derive(Clone, Copy, Debug, PartialEq, Eq)]
pub enum Shape {
    /// The harness's binary with one argument.
    Own1(&'static str),
    Own2(&'static str, &'static str),
    Own3(&'static str, &'static str, &'static str),
    Own4(&'static str, &'static str, &'static str, &'static str),
    /// A program without arguments.
    Program(&'static str),
    /// A script for the system's Node.js.
    Node(&'static str),
    /// A bash command line.
    Bash(&'static str),
    /// A bash command line in which `{self_exe}` stands for the harness's binary.
    BashOwn(&'static str),
    /// The harness's binary triggers a delayed fork and then runs itself.
    Trigger(&'static str),
    /// The harness's binary triggers a delayed fork and then runs a Node.js script.
    TriggerNode(&'static str),
    /// Two delayed forks, one inside the other.
    TriggerTwice,
}

/// The arguments, program first, for the harness binary `exe`.
pub open spec fn argv_of(shape: Shape, exe: Seq<char>) -> Seq<Seq<char>> {
    match shape {
        Shape::Own1(a) => seq![exe, a@],
        Shape::Own2(a, b) => seq![exe, a@, b@],
        Shape::Own3(a, b, c) => seq![exe, a@, b@, c@],
        Shape::Own4(a, b, c, d) => seq![exe, a@, b@, c@, d@],
        Shape::Program(p) => seq![p@],
        Shape::Node(s) => seq!["/usr/local/bin/node"@, "-e"@, s@],
        Shape::Bash(s) => seq!["bash"@, "-c"@, s@],
        Shape::BashOwn(t) => seq!["bash"@, "-c"@, replace_text(t@, "{self_exe}"@, exe)],
        Shape::Trigger(t) => seq![exe, t@, exe, "echo-test"@],
        Shape::TriggerNode(s) => seq![
            exe,
            "trigger-delayed-fork"@,
            "/usr/local/bin/node"@,
            "-e"@,
            s@,
        ],
        Shape::TriggerTwice => seq![
            exe,
            "trigger-delayed-fork"@,
            exe,
            "trigger-delayed-fork"@,
            exe,
            "echo-test"@,
        ],
    }
}

/// The arguments, program first, for the harness binary `exe`.
pub fn argv(shape: Shape, exe: &str) -> (r: Vec<String>)
    ensures
        texts(r@) == argv_of(shape, exe@),
{
    let own = exe.to_string();
    let r: Vec<String> = match shape {
        Shape::Own1(a) => vec![own, a.to_string()],
        Shape::Own2(a, b) => vec![own, a.to_string(), b.to_string()],
        Shape::Own3(a, b, c) => vec![own, a.to_string(), b.to_string(), c.to_string()],
        Shape::Own4(a, b, c, d) => vec![
            own,
            a.to_string(),
            b.to_string(),
            c.to_string(),
            d.to_string(),
        ],
        Shape::Program(p) => vec![p.to_string()],
        Shape::Node(s) => vec!["/usr/local/bin/node".to_string(), "-e".to_string(), s.to_string()],
        Shape::Bash(s) => vec!["bash".to_string(), "-c".to_string(), s.to_string()],
        Shape::BashOwn(t) => {
            proof {
                reveal_strlit("{self_exe}");
            }
            vec!["bash".to_string(), "-c".to_string(), replace(t, "{self_exe}", exe)]
        },
        Shape::Trigger(t) => vec![own, t.to_string(), exe.to_string(), "echo-test".to_string()],
        Shape::TriggerNode(s) => vec![
            own,
            "trigger-delayed-fork".to_string(),
            "/usr/local/bin/node".to_string(),
            "-e".to_string(),
            s.to_string(),
        ],
        Shape::TriggerTwice => vec![
            own,
            "trigger-delayed-fork".to_string(),
            exe.to_string(),
            "trigger-delayed-fork".to_string(),
            exe.to_string(),
            "echo-test".to_string(),
        ],
    };
    assert(texts(r@) =~= argv_of(shape, exe@));
    r
}

/// What a stage asks an agent to do.
#[derive(Clone, Copy, Debug, PartialEq, Eq)]
pub enum Call {
    /// Run a program, with the default time.
    Exec(Shape),
    /// Run a program, with the given seconds.
    ExecFor(Shape, u64),
    Read(&'static str),
    Write(&'static str, &'static str),
    Delete(&'static str),
    Connect(&'static str, &'static str),
    Listen(u16),
    Unlisten(u16),
    Env(&'static str),
    Cwd,
    UnixSocket(&'static str),
}

/// `cmd` is the command for `call`.
pub open spec fn calls(cmd: Command, call: Call, exe: Seq<char>) -> bool {
    match call {
        Call::Exec(shape) => cmd matches Command::Exec { args, timeout_secs, stdin, background, env }
            && texts(args@) == argv_of(shape, exe) && timeout_secs is None && stdin is None
            && !background && env@.len() == 0,
        Call::ExecFor(shape, secs) => cmd matches Command::Exec {
            args,
            timeout_secs,
            stdin,
            background,
            env,
        } && texts(args@) == argv_of(shape, exe) && timeout_secs == Some(secs) && stdin is None
            && !background && env@.len() == 0,
        Call::Read(p) => cmd matches Command::FsRead { path } && path@ == p@,
        Call::Write(p, d) => cmd matches Command::FsWrite { path, data } && path@ == p@ && data@
            == d@,
        Call::Delete(p) => cmd matches Command::FsDelete { path } && path@ == p@,
        Call::Connect(a, d) => cmd matches Command::NetConnect { addr, data } && addr@ == a@
            && data@ == d@,
        Call::Listen(p) => cmd == (Command::NetListen { port: p }),
        Call::Unlisten(p) => cmd == (Command::NetUnlisten { port: p }),
        Call::Env(v) => cmd matches Command::EnvGet { var } && var@ == v@,
        Call::Cwd => cmd == Command::CwdGet,
        Call::UnixSocket(p) => cmd matches Command::UnixSocketTest { path } && path@ == p@,
    }
}

/// The command for a call.
pub fn command(call: Call, exe: &str) -> (r: Command)
    ensures
        calls(r, call, exe@),
{
    match call {
        Call::Exec(shape) => exec(argv(shape, exe)),
        Call::ExecFor(shape, secs) => exec_timeout(argv(shape, exe), secs),
        Call::Read(p) => Command::FsRead { path: p.to_string() },
        Call::Write(p, d) => Command::FsWrite { path: p.to_string(), data: d.to_string() },
        Call::Delete(p) => Command::FsDelete { path: p.to_string() },
        Call::Connect(a, d) => Command::NetConnect { addr: a.to_string(), data: d.to_string() },
        Call::Listen(p) => Command::NetListen { port: p },
        Call::Unlisten(p) => Command::NetUnlisten { port: p },
        Call::Env(v) => Command::EnvGet { var: v.to_string() },
        Call::Cwd => Command::CwdGet,
        Call::UnixSocket(p) => Command::UnixSocketTest { path: p.to_string() },
    }
}

/// Which answers pass.
#[derive(Clone, Copy, Debug, PartialEq, Eq)]
pub enum Accept {
    /// Every answer.
    Any,
    /// A program ended and printed the text.
    Output(&'static str),
    /// A program ended with the code.
    Exit(i32),
    /// A program ended well and printed the text.
    Prints(&'static str),
    PrintsBoth(&'static str, &'static str),
    PrintsEither(&'static str, &'static str),
    /// A program ended well and printed more than white space.
    PrintsSomething,
    /// A program ended well and printed the text and nothing else.
    PrintsExactly(&'static str),
    /// A program ended well and printed the text, white space around it aside.
    PrintsTrimmed(&'static str),
    /// A program ended well and printed nothing.
    PrintsNothing,
    /// As `Prints`, or the program failed for want of `/dev/fd`.
    PrintsOrNoDevFd(&'static str),
    /// A program ended without printing the text, or outlived its time.
    RanWithout(&'static str),
    /// The file was not there.
    Missing,
    /// Data came back, and is the text.
    Data(&'static str),
    DataContains(&'static str),
    /// Data came back, and is a set variable's value.
    DataSet,
    /// Data came back.
    DataAny,
    /// The command was done.
    DoneAny,
    /// The agent listens.
    Listening,
    ListeningOn(u16),
    /// The peer echoed the text.
    Echo(&'static str),
}

/// Whether the answer is the end of a program with code zero, and what it printed.
pub open spec fn printed(r: ResponseView) -> Option<Seq<char>> {
    match r {
        ResponseView::ExecResult { exit_code, stdout, .. } => if exit_code == 0 {
            Some(stdout)
        } else {
            None
        },
        _ => None,
    }
}

/// The program failed with code one and complained about `/dev/fd`.
pub open spec fn no_dev_fd(r: ResponseView) -> bool {
    r matches ResponseView::ExecResult { exit_code, stderr, .. } && exit_code == 1 && contains_text(
        stderr,
        "/dev/fd"@,
    )
}

/// Whether the answer passes.
pub open spec fn accepts(a: Accept, r: ResponseView) -> bool {
    match a {
        Accept::Any => true,
        Accept::Output(t) => r matches ResponseView::ExecResult { stdout, .. } && contains_text(
            stdout,
            t@,
        ),
        Accept::Exit(c) => r matches ResponseView::ExecResult { exit_code, .. } && exit_code == c,
        Accept::Prints(t) => printed(r) matches Some(o) && contains_text(o, t@),
        Accept::PrintsBoth(t, u) => printed(r) matches Some(o) && contains_text(o, t@)
            && contains_text(o, u@),
        Accept::PrintsEither(t, u) => printed(r) matches Some(o) && (contains_text(o, t@)
            || contains_text(o, u@)),
        Accept::PrintsSomething => printed(r) matches Some(o) && trim_text(o).len() > 0,
        Accept::PrintsExactly(t) => printed(r) == Some(t@),
        Accept::PrintsTrimmed(t) => printed(r) matches Some(o) && trim_text(o) == t@,
        Accept::PrintsNothing => printed(r) matches Some(o) && o.len() == 0,
        Accept::PrintsOrNoDevFd(t) => (printed(r) matches Some(o) && contains_text(o, t@))
            || no_dev_fd(r),
        Accept::RanWithout(t) => match r {
            ResponseView::ExecResult { stdout, .. } => !contains_text(stdout, t@),
            ResponseView::ExecTimeout { .. } => true,
            _ => false,
        },
        Accept::Missing => r is NotFound,
        Accept::Data(t) => r == (ResponseView::Done { data: Some(t@) }),
        Accept::DataContains(t) => r matches ResponseView::Done { data: Some(d) }
            && contains_text(d, t@),
        Accept::DataSet => r matches ResponseView::Done { data: Some(d) } && d.len() > 0 && d
            != "NOT_SET"@,
        Accept::DataAny => r matches ResponseView::Done { data: Some(_) },
        Accept::DoneAny => r is Done,
        Accept::Listening => r is Listening,
        Accept::ListeningOn(p) => r == (ResponseView::Listening { port: p }),
        Accept::Echo(t) => r == (ResponseView::Connected { echo: t@ }),
    }
}

/// What a program that ended well printed.
fn printed_by(r: &Response) -> (o: Option<&str>)
    ensures
        match o {
            Some(s) => printed(r@) == Some(s@),
            None => printed(r@) is None,
        },
{
    match r {
        Response::ExecResult { exit_code, stdout, .. } => if *exit_code == 0 {
            Some(stdout.as_str())
        } else {
            None
        },
        _ => None,
    }
}

/// Whether a program failed for want of `/dev/fd`.
pub fn lacks_dev_fd(r: &Response) -> (b: bool)
    ensures
        b == no_dev_fd(r@),
{
    match r {
        Response::ExecResult { exit_code, stderr, .. } => *exit_code == 1 && contains(
            stderr.as_str(),
            "/dev/fd",
        ),
        _ => false,
    }
}

/// The data of an answer that has some.
fn data_of(r: &Response) -> (o: Option<&str>)
    ensures
        match o {
            Some(s) => r@ == (ResponseView::Done { data: Some(s@) }),
            None => !(r@ matches ResponseView::Done { data: Some(_) }),
        },
{
    match r {
        Response::Done { data } => match data {
            Some(d) => Some(d.as_str()),
            None => None,
        },
        _ => None,
    }
}

/// Whether the answer passes.
pub fn accept(a: Accept, r: &Response) -> (b: bool)
    ensures
        b == accepts(a, r@),
{
    match a {
        Accept::Any => true,
        Accept::Output(t) => match r {
            Response::ExecResult { stdout, .. } => contains(stdout.as_str(), t),
            _ => false,
        },
        Accept::Exit(c) => match r {
            Response::ExecResult { exit_code, .. } => *exit_code == c,
            _ => false,
        },
        Accept::Prints(t) => match printed_by(r) {
            Some(o) => contains(o, t),
            None => false,
        },
        Accept::PrintsBoth(t, u) => match printed_by(r) {
            Some(o) => contains(o, t) && contains(o, u),
            None => false,
        },
        Accept::PrintsEither(t, u) => match printed_by(r) {
            Some(o) => contains(o, t) || contains(o, u),
            None => false,
        },
        Accept::PrintsSomething => match printed_by(r) {
            Some(o) => !trim(o).is_empty(),
            None => false,
        },
        Accept::PrintsExactly(t) => match printed_by(r) {
            Some(o) => same(o, t),
            None => false,
        },
        Accept::PrintsTrimmed(t) => match printed_by(r) {
            Some(o) => same(trim(o), t),
            None => false,
        },
        Accept::PrintsNothing => match printed_by(r) {
            Some(o) => o.is_empty(),
            None => false,
        },
        Accept::PrintsOrNoDevFd(t) => {
            let ran = match printed_by(r) {
                Some(o) => contains(o, t),
                None => false,
            };
            ran || lacks_dev_fd(r)
        },
        Accept::RanWithout(t) => match r {
            Response::ExecResult { stdout, .. } => !contains(stdout.as_str(), t),
            Response::ExecTimeout { .. } => true,
            _ => false,
        },
        Accept::Missing => matches!(r, Response::NotFound),
        Accept::Data(t) => match data_of(r) {
            Some(d) => same(d, t),
            None => false,
        },
        Accept::DataContains(t) => match data_of(r) {
            Some(d) => contains(d, t),
            None => false,
        },
        Accept::DataSet => match data_of(r) {
            Some(d) => !d.is_empty() && !same(d, "NOT_SET"),
            None => false,
        },
        Accept::DataAny => match data_of(r) {
            Some(_) => true,
            None => false,
        },
        Accept::DoneAny => matches!(r, Response::Done { .. }),
        Accept::Listening => matches!(r, Response::Listening { .. }),
        Accept::ListeningOn(p) => match r {
            Response::Listening { port } => *port == p,
            _ => false,
        },
        Accept::Echo(t) => match r {
            Response::Connected { echo } => same(echo.as_str(), t),
            _ => false,
        },
    }
}

/// How the detail of a verdict is written.
#[derive(Clone, Copy, Debug, PartialEq, Eq)]
pub enum Detail {
    /// The answer.
    Plain,
    /// Whether time ran out, then the answer.
    Timeout,
    /// Whether `/dev/fd` was missing, whether time ran out, then the answer.
    DevFd,
    /// Whether the file was not there, then the answer.
    Isolated,
}

pub open spec fn detail_of(d: Detail, r: ResponseView) -> Seq<char> {
    match d {
        Detail::Plain => r.debug(),
        Detail::Timeout => "timeout="@ + bool_text(r is ExecTimeout) + " "@ + r.debug(),
        Detail::DevFd => "xfail_devfd="@ + bool_text(no_dev_fd(r)) + " timeout="@ + bool_text(
            r is ExecTimeout,
        ) + " "@ + r.debug(),
        Detail::Isolated => "tmp_isolated="@ + bool_text(r is NotFound) + ": "@ + r.debug(),
    }
}

/// The detail of a verdict.
pub fn detail(d: Detail, r: &Response) -> (s: String)
    ensures
        s@ == detail_of(d, r@),
{
    let body = r.debug_text();
    let late = matches!(r, Response::ExecTimeout { .. });
    match d {
        Detail::Plain => body,
        Detail::Timeout => {
            let mut out = cat3("timeout=", bool_word(late), " ");
            out.append(body.as_str());
            out
        },
        Detail::DevFd => {
            let mut out = cat3("xfail_devfd=", bool_word(lacks_dev_fd(r)), " timeout=");
            out.append(bool_word(late));
            out.append(" ");
            out.append(body.as_str());
            out
        },
        Detail::Isolated => {
            let gone = matches!(r, Response::NotFound);
            let mut out = cat3("tmp_isolated=", bool_word(gone), ": ");
            out.append(body.as_str());
            out
        },
    }
}

/// Answers that mean that a test cannot be tried here.
#[derive(Clone, Copy, Debug, PartialEq, Eq)]
pub enum Absent {
    /// The program was not found, or the agent answered with an error.
    NotFound,
    /// The program itself printed the mark.
    Mark(&'static str),
}

pub open spec fn is_absent(a: Absent, r: ResponseView) -> bool {
    match a {
        Absent::NotFound => (r matches ResponseView::ExecResult { exit_code, .. } && exit_code
            == 127) || r is Error,
        Absent::Mark(t) => r matches ResponseView::ExecResult { stdout, .. } && contains_text(
            stdout,
            t@,
        ),
    }
}

/// Whether the answer means that the test cannot be tried.
pub fn absent(a: Absent, r: &Response) -> (b: bool)
    ensures
        b == is_absent(a, r@),
{
    match a {
        Absent::NotFound => match r {
            Response::ExecResult { exit_code, .. } => *exit_code == 127,
            Response::Error { .. } => true,
            _ => false,
        },
        Absent::Mark(t) => match r {
            Response::ExecResult { stdout, .. } => contains(stdout.as_str(), t),
            _ => false,
        },
    }
}

/// One call to one agent.
#[derive(Clone, Copy, Debug, PartialEq, Eq)]
pub struct Probe {
    pub target: &'static str,
    pub call: Call,
}

/// How the answer to one call is recorded.
#[derive(Clone, Copy, Debug, PartialEq, Eq)]
pub struct Verdict {
    pub id: &'static str,
    pub agent: &'static str,
    pub accept: Accept,
    pub detail: Detail,
    /// Why a failure is expected here, where it is.
    pub excuse: Option<&'static str>,
    /// The detail where the test is skipped.
    pub skipped: &'static str,
}

/// One stage of a script.
#[derive(Clone, Copy, Debug, PartialEq, Eq)]
#[allow(inconsistent_fields)]
pub enum Stage {
    /// Send the call that many times and ignore the answers.
    Quiet { probe: Probe, times: u64 },
    /// Wait.
    Pause { millis: u64 },
    /// Send the call and record the verdict.
    Single { probe: Probe, verdict: Verdict },
    /// Send the call. Where the answer means that the test cannot be tried, record
    /// this verdict and those of the next `span` stages as skipped and pass over
    /// them; else record the verdict, if there is one, and go on.
    Guard { probe: Probe, absent: Absent, verdict: Option<Verdict>, span: usize },
    /// Send the call and record the verdict; where it failed, pass over the next `span` stages.
    Gate { probe: Probe, verdict: Verdict, span: usize },
    /// Send the call that many times, up to the first answer that fails, and record one verdict.
    Repeat {
        probe: Probe,
        accept: Accept,
        id: &'static str,
        agent: &'static str,
        times: u64,
        all_ok: &'static str,
        skipped: &'static str,
    },
    /// Send two calls in turn, that many rounds, and record one verdict over all answers.
    Series {
        id: &'static str,
        agent: &'static str,
        first: Probe,
        first_ok: Accept,
        second: Probe,
        second_ok: Accept,
        rounds: u64,
        skipped: &'static str,
    },
}

/// A verdict on a test.
#[derive(Clone, Debug)]
pub struct Record {
    pub id: &'static str,
    pub agent: &'static str,
    pub pass: bool,
    pub detail: String,
    pub excuse: Option<&'static str>,
}

pub struct RecordView {
    pub id: &'static str,
    pub agent: &'static str,
    pub pass: bool,
    pub detail: Seq<char>,
    pub excuse: Option<&'static str>,
}

impl View for Record {
    type V = RecordView;

    open spec fn view(&self) -> RecordView {
        RecordView {
            id: self.id,
            agent: self.agent,
            pass: self.pass,
            detail: self.detail@,
            excuse: self.excuse,
        }
    }
}

pub open spec fn record_views(list: Seq<Record>) -> Seq<RecordView> {
    list.map_values(|r: Record| r@)
}

/// The record of a verdict on an answer.
pub open spec fn judged(v: Verdict, r: ResponseView) -> RecordView {
    RecordView {
        id: v.id,
        agent: v.agent,
        pass: accepts(v.accept, r),
        detail: detail_of(v.detail, r),
        excuse: v.excuse,
    }
}

pub open spec fn note(id: &'static str, agent: &'static str, text: Seq<char>) -> RecordView {
    RecordView { id, agent, pass: true, detail: text, excuse: None }
}

/// The records of a stage that is skipped.
pub open spec fn skip_notes(s: Stage) -> Seq<RecordView> {
    match s {
        Stage::Quiet { .. } => Seq::empty(),
        Stage::Pause { .. } => Seq::empty(),
        Stage::Single { verdict: v, .. } => seq![note(v.id, v.agent, v.skipped@)],
        Stage::Guard { verdict: Some(v), .. } => seq![note(v.id, v.agent, v.skipped@)],
        Stage::Guard { verdict: None, .. } => Seq::empty(),
        Stage::Gate { verdict: v, .. } => seq![note(v.id, v.agent, v.skipped@)],
        Stage::Repeat { id, agent, skipped, .. } => seq![note(id, agent, skipped@)],
        Stage::Series { id, agent, skipped, .. } => seq![note(id, agent, skipped@)],
    }
}

/// The records of `n` stages from `at` that are skipped.
pub open spec fn skip_notes_from(stages: Seq<Stage>, at: int, n: nat) -> Seq<RecordView>
    decreases n,
{
    if n == 0 {
        Seq::empty()
    } else {
        skip_notes_from(stages, at, (n - 1) as nat) + skip_notes(stages[at + n - 1])
    }
}

/// Where a run stands.
pub struct RunView {
    /// The stage.
    pub at: int,
    /// How many answers the stage has had.
    pub round: int,
    /// The details of a series so far.
    pub parts: Seq<Seq<char>>,
    /// Whether all answers of a series so far passed.
    pub all_ok: bool,
}

pub open spec fn at_stage(at: int) -> RunView {
    RunView { at, round: 0, parts: Seq::empty(), all_ok: true }
}

pub open spec fn part_text(round: int, ok: bool, r: ResponseView) -> Seq<char> {
    "["@ + dec_text(round as nat) + "]="@ + bool_text(ok) + ": "@ + r.debug()
}

/// What an answer settles: where the run stands then, and what it records.
pub open spec fn step(stages: Seq<Stage>, st: RunView, r: ResponseView) -> (
    RunView,
    Seq<RecordView>,
) {
    let next = at_stage(st.at + 1);
    match stages[st.at] {
        Stage::Quiet { times, .. } => if st.round + 1 < times {
            (RunView { round: st.round + 1, ..st }, Seq::empty())
        } else {
            (next, Seq::empty())
        },
        Stage::Pause { .. } => (next, Seq::empty()),
        Stage::Single { verdict, .. } => (next, seq![judged(verdict, r)]),
        Stage::Guard { absent, verdict, span, .. } => if is_absent(absent, r) {
            (
                at_stage(st.at + 1 + span),
                skip_notes_from(stages, st.at, (span + 1) as nat),
            )
        } else {
            match verdict {
                Some(v) => (next, seq![judged(v, r)]),
                None => (next, Seq::empty()),
            }
        },
        Stage::Gate { verdict, span, .. } => if accepts(verdict.accept, r) {
            (next, seq![judged(verdict, r)])
        } else {
            (at_stage(st.at + 1 + span), seq![judged(verdict, r)])
        },
        Stage::Repeat { accept, id, agent, times, all_ok, .. } => if !accepts(accept, r) {
            (
                next,
                seq![
                    RecordView {
                        id,
                        agent,
                        pass: false,
                        detail: "failed at iteration "@ + dec_text(st.round as nat) + ": "@
                            + r.debug(),
                        excuse: None,
                    },
                ],
            )
        } else if st.round + 1 < times {
            (RunView { round: st.round + 1, ..st }, Seq::empty())
        } else {
            (next, seq![note(id, agent, all_ok@)])
        },
        Stage::Series { id, agent, first_ok, second_ok, rounds, .. } => {
            let ok = accepts(
                if st.round % 2 == 0 {
                    first_ok
                } else {
                    second_ok
                },
                r,
            );
            let parts = st.parts.push(part_text(st.round, ok, r));
            if st.round + 1 < 2 * rounds {
                (
                    RunView {
                        at: st.at,
                        round: st.round + 1,
                        parts,
                        all_ok: st.all_ok && ok,
                    },
                    Seq::empty(),
                )
            } else {
                (
                    next,
                    seq![
                        RecordView {
                            id,
                            agent,
                            pass: st.all_ok && ok,
                            detail: join_text(parts, "; "@),
                            excuse: None,
                        },
                    ],
                )
            }
        },
    }
}

/// How many answers a stage takes at most.
pub open spec fn weight(s: Stage) -> int {
    match s {
        Stage::Quiet { times, .. } => times as int,
        Stage::Repeat { times, .. } => times as int,
        Stage::Series { rounds, .. } => 2 * rounds,
        _ => 1,
    }
}

/// The tests that a stage records.
pub open spec fn labels(s: Stage) -> Seq<(&'static str, &'static str)> {
    skip_notes(s).map_values(|r: RecordView| (r.id, r.agent))
}

/// The stage at `k` fits into the script.
pub open spec fn stage_fits(stages: Seq<Stage>, k: int) -> bool {
    &&& 0 < weight(stages[k]) <= u64::MAX
    &&& match stages[k] {
        Stage::Guard { span, .. } => k + 1 + span <= stages.len(),
        Stage::Gate { span, .. } => k + 1 + span <= stages.len() && forall|j: int|
            k < j <= k + span ==> labels(#[trigger] stages[j]).len() == 0,
        _ => true,
    }
}

/// Every stage fits into the script.
pub open spec fn coherent(stages: Seq<Stage>) -> bool {
    forall|k: int| 0 <= k < stages.len() ==> #[trigger] stage_fits(stages, k)
}

/// A run stands inside the script.
pub open spec fn inside(stages: Seq<Stage>, st: RunView) -> bool {
    &&& 0 <= st.at < stages.len()
    &&& 0 <= st.round < weight(stages[st.at])
}

/// What to do next.
#[derive(Clone, Copy, Debug, PartialEq, Eq)]
pub enum Next {
    /// Send the call to the agent and feed the answer.
    Send { target: &'static str, call: Call },
    /// Wait, and say so.
    Pause { millis: u64 },
    /// The script is done.
    Finished,
}

/// The call at which a run stands.
pub open spec fn next_of(stages: Seq<Stage>, st: RunView) -> Next {
    if st.at >= stages.len() {
        Next::Finished
    } else {
        match stages[st.at] {
            Stage::Pause { millis } => Next::Pause { millis },
            Stage::Quiet { probe, .. } => Next::Send { target: probe.target, call: probe.call },
            Stage::Single { probe, .. } => Next::Send { target: probe.target, call: probe.call },
            Stage::Guard { probe, .. } => Next::Send { target: probe.target, call: probe.call },
            Stage::Gate { probe, .. } => Next::Send { target: probe.target, call: probe.call },
            Stage::Repeat { probe, .. } => Next::Send { target: probe.target, call: probe.call },
            Stage::Series { first, second, .. } => if st.round % 2 == 0 {
                Next::Send { target: first.target, call: first.call }
            } else {
                Next::Send { target: second.target, call: second.call }
            },
        }
    }
}

/// A run through a script.
pub struct Run {
    at: usize,
    round: u64,
    parts: Vec<String>,
    all_ok: bool,
}

impl View for Run {
    type V = RunView;

    closed spec fn view(&self) -> RunView {
        RunView {
            at: self.at as int,
            round: self.round as int,
            parts: texts(self.parts@),
            all_ok: self.all_ok,
        }
    }
}

fn judge(v: Verdict, r: &Response) -> (rec: Record)
    ensures
        rec@ == judged(v, r@),
{
    Record {
        id: v.id,
        agent: v.agent,
        pass: accept(v.accept, r),
        detail: detail(v.detail, r),
        excuse: v.excuse,
    }
}

fn note_record(id: &'static str, agent: &'static str, text: &'static str) -> (rec: Record)
    ensures
        rec@ == note(id, agent, text@),
{
    Record { id, agent, pass: true, detail: text.to_string(), excuse: None }
}

fn skip_record(s: Stage) -> (r: Option<Record>)
    ensures
        match r {
            Some(rec) => skip_notes(s) == seq![rec@],
            None => skip_notes(s) == Seq::<RecordView>::empty(),
        },
{
    match s {
        Stage::Quiet { .. } => None,
        Stage::Pause { .. } => None,
        Stage::Single { verdict: v, .. } => Some(note_record(v.id, v.agent, v.skipped)),
        Stage::Guard { verdict, .. } => match verdict {
            Some(v) => Some(note_record(v.id, v.agent, v.skipped)),
            None => None,
        },
        Stage::Gate { verdict: v, .. } => Some(note_record(v.id, v.agent, v.skipped)),
        Stage::Repeat { id, agent, skipped, .. } => Some(note_record(id, agent, skipped)),
        Stage::Series { id, agent, skipped, .. } => Some(note_record(id, agent, skipped)),
    }
}

fn skip_records(stages: &Vec<Stage>, at: usize, n: usize) -> (r: Vec<Record>)
    requires
        at + n <= stages.len(),
    ensures
        record_views(r@) == skip_notes_from(stages@, at as int, n as nat),
{
    let mut out: Vec<Record> = Vec::new();
    let mut i: usize = 0;
    assert(record_views(out@) =~= Seq::empty());
    while i < n
        invariant
            at + n <= stages.len(),
            i <= n,
            record_views(out@) == skip_notes_from(stages@, at as int, i as nat),
        decreases n - i,
    {
        let ghost before = out@;
        match skip_record(stages[at + i]) {
            Some(rec) => {
                out.push(rec);
                assert(record_views(out@) =~= record_views(before) + seq![rec@]);
            },
            None => {
                assert(record_views(before) + Seq::<RecordView>::empty() =~= record_views(before));
            },
        }
        i = i + 1;
    }
    out
}

fn only(rec: Record) -> (r: Vec<Record>)
    ensures
        record_views(r@) == seq![rec@],
{
    let r = vec![rec];
    assert(record_views(r@) =~= seq![rec@]);
    r
}

fn nothing() -> (r: Vec<Record>)
    ensures
        record_views(r@) == Seq::<RecordView>::empty(),
{
    let r: Vec<Record> = Vec::new();
    assert(record_views(r@) =~= Seq::<RecordView>::empty());
    r
}

impl Run {
    /// A run at the start of a script.
    pub fn new() -> (r: Self)
        ensures
            r@ == at_stage(0),
    {
        let r = Run { at: 0, round: 0, parts: Vec::new(), all_ok: true };
        assert(texts(r.parts@) =~= Seq::empty());
        r
    }

    /// What to do next.
    pub fn next_step(&self, stages: &Vec<Stage>) -> (r: Next)
        requires
            self@.at <= stages.len(),
        ensures
            r == next_of(stages@, self@),
    {
        if self.at >= stages.len() {
            return Next::Finished;
        }
        match stages[self.at] {
            Stage::Pause { millis } => Next::Pause { millis },
            Stage::Quiet { probe, .. } => Next::Send { target: probe.target, call: probe.call },
            Stage::Single { probe, .. } => Next::Send { target: probe.target, call: probe.call },
            Stage::Guard { probe, .. } => Next::Send { target: probe.target, call: probe.call },
            Stage::Gate { probe, .. } => Next::Send { target: probe.target, call: probe.call },
            Stage::Repeat { probe, .. } => Next::Send { target: probe.target, call: probe.call },
            Stage::Series { first, second, .. } => if self.round % 2 == 0 {
                Next::Send { target: first.target, call: first.call }
            } else {
                Next::Send { target: second.target, call: second.call }
            },
        }
    }

    fn jump(&mut self, at: usize)
        ensures
            final(self)@ == at_stage(at as int),
    {
        self.at = at;
        self.round = 0;
        self.parts = Vec::new();
        self.all_ok = true;
        assert(texts(self.parts@) =~= Seq::empty());
    }

    /// Go on after a pause.
    pub fn waited(&mut self, stages: &Vec<Stage>)
        requires
            inside(stages@, old(self)@),
            stages@[old(self)@.at] is Pause,
        ensures
            final(self)@ == at_stage(old(self)@.at + 1),
    {
        let count: usize = stages.len();
        assert(self.at < count);
        self.jump(self.at + 1);
    }

    /// Take the answer to the call at which the run stands. Gives the verdicts that
    /// the answer settles.
    pub fn feed(&mut self, stages: &Vec<Stage>, r: &Response) -> (out: Vec<Record>)
        requires
            coherent(stages@),
            inside(stages@, old(self)@),
        ensures
            final(self)@ == step(stages@, old(self)@, r@).0,
            record_views(out@) == step(stages@, old(self)@, r@).1,
    {
        let count: usize = stages.len();
        let at: usize = self.at;
        assert(at < count);
        assert(stage_fits(stages@, at as int));
        match stages[at] {
            Stage::Quiet { times, .. } => {
                if self.round + 1 < times {
                    self.round = self.round + 1;
                } else {
                    self.jump(at + 1);
                }
                nothing()
            },
            Stage::Pause { .. } => {
                self.jump(at + 1);
                nothing()
            },
            Stage::Single { verdict, .. } => {
                self.jump(at + 1);
                only(judge(verdict, r))
            },
            Stage::Guard { absent: a, verdict, span, .. } => if absent(a, r) {
                self.jump(at + 1 + span);
                skip_records(stages, at, span + 1)
            } else {
                self.jump(at + 1);
                match verdict {
                    Some(v) => only(judge(v, r)),
                    None => nothing(),
                }
            },
            Stage::Gate { verdict, span, .. } => {
                let rec = judge(verdict, r);
                if rec.pass {
                    self.jump(at + 1);
                } else {
                    self.jump(at + 1 + span);
                }
                only(rec)
            },
            Stage::Repeat { accept: a, id, agent, times, all_ok, .. } => if !accept(a, r) {
                let n = dec(self.round);
                let mut text = cat3("failed at iteration ", n.as_str(), ": ");
                let body = r.debug_text();
                text.append(body.as_str());
                self.jump(at + 1);
                only(Record { id, agent, pass: false, detail: text, excuse: None })
            } else if self.round + 1 < times {
                self.round = self.round + 1;
                nothing()
            } else {
                self.jump(at + 1);
                only(note_record(id, agent, all_ok))
            },
            Stage::Series { id, agent, first_ok, second_ok, rounds, .. } => {
                let ok = if self.round % 2 == 0 {
                    accept(first_ok, r)
                } else {
                    accept(second_ok, r)
                };
                let n = dec(self.round);
                let mut text = cat3("[", n.as_str(), "]=");
                text.append(bool_word(ok));
                text.append(": ");
                let body = r.debug_text();
                text.append(body.as_str());
                let ghost before = self.parts@;
                let last = self.round + 1 >= 2 * rounds;
                let all = self.all_ok && ok;
                self.parts.push(text);
                assert(texts(self.parts@) =~= texts(before).push(text@));
                if !last {
                    self.round = self.round + 1;
                    self.all_ok = all;
                    nothing()
                } else {
                    let whole = join(&self.parts, "; ");
                    self.jump(at + 1);
                    only(Record { id, agent, pass: all, detail: whole, excuse: None })
                }
            },
        }
    }
}

/// The tests recorded from `at` on, where nothing is skipped.
pub open spec fn labels_from(stages: Seq<Stage>, at: int) -> Seq<(&'static str, &'static str)>
    decreases stages.len() - at,
{
    if at < 0 || at >= stages.len() {
        Seq::empty()
    } else {
        labels(stages[at]) + labels_from(stages, at + 1)
    }
}

/// The tests of some records.
pub open spec fn tests_of(list: Seq<RecordView>) -> Seq<(&'static str, &'static str)> {
    list.map_values(|r: RecordView| (r.id, r.agent))
}

proof fn lemma_skip_labels(stages: Seq<Stage>, at: int, n: nat)
    requires
        0 <= at,
        at + n <= stages.len(),
    ensures
        tests_of(skip_notes_from(stages, at, n)) + labels_from(stages, at + n) == labels_from(
            stages,
            at,
        ),
    decreases n,
{
    if n == 0 {
        assert(tests_of(skip_notes_from(stages, at, n)) =~= Seq::empty());
        assert(Seq::<(&'static str, &'static str)>::empty() + labels_from(stages, at)
            =~= labels_from(stages, at));
    } else {
        let m = (n - 1) as nat;
        lemma_skip_labels(stages, at, m);
        let a = tests_of(skip_notes_from(stages, at, m));
        let b = labels(stages[at + m]);
        let c = labels_from(stages, at + n);
        assert(tests_of(skip_notes_from(stages, at, n)) =~= a + b);
        assert(labels_from(stages, at + m) == b + c);
        assert((a + b) + c =~= a + (b + c));
    }
}

proof fn lemma_empty_labels(stages: Seq<Stage>, at: int, n: nat)
    requires
        0 <= at,
        at + n <= stages.len(),
        forall|j: int| at <= j < at + n ==> labels(#[trigger] stages[j]).len() == 0,
    ensures
        labels_from(stages, at) == labels_from(stages, at + n),
    decreases n,
{
    if n > 0 {
        assert(labels(stages[at]).len() == 0);
        lemma_empty_labels(stages, at + 1, (n - 1) as nat);
        assert(labels(stages[at]) + labels_from(stages, at + 1) =~= labels_from(stages, at + 1));
    }
}

/// What an answer settles and what is still to come make up what was to come before:
/// no test is lost and none is recorded twice.
pub proof fn law_step_keeps_tests(stages: Seq<Stage>, st: RunView, r: ResponseView)
    requires
        coherent(stages),
        inside(stages, st),
    ensures
        ({
            let (next, out) = step(stages, st, r);
            &&& tests_of(out) + labels_from(stages, next.at) == labels_from(stages, st.at)
            &&& next.at == stages.len() || inside(stages, next)
        }),
{
    assert(stage_fits(stages, st.at));
    let (next, out) = step(stages, st, r);
    let s = stages[st.at];
    if next.at < stages.len() {
        assert(stage_fits(stages, next.at));
    }
    if next.at == st.at {
        assert(tests_of(out) + labels_from(stages, st.at) =~= labels_from(stages, st.at));
    } else {
        match s {
            Stage::Guard { absent, verdict, span, .. } => {
                if is_absent(absent, r) {
                    lemma_skip_labels(stages, st.at, (span + 1) as nat);
                } else {
                    assert(tests_of(out) =~= labels(s));
                }
            },
            Stage::Gate { verdict, span, .. } => {
                assert(tests_of(out) =~= labels(s));
                if !accepts(verdict.accept, r) {
                    lemma_empty_labels(stages, st.at + 1, span as nat);
                }
            },
            _ => {
                assert(tests_of(out) =~= labels(s));
            },
        }
    }
}

/// How many answers a run takes at most from `at` on.
pub open spec fn weight_from(stages: Seq<Stage>, at: int) -> int
    decreases stages.len() - at,
{
    if at < 0 || at >= stages.len() {
        0
    } else {
        weight(stages[at]) + weight_from(stages, at + 1)
    }
}

proof fn lemma_weight_skips(stages: Seq<Stage>, at: int, to: int)
    requires
        coherent(stages),
        0 <= at <= to <= stages.len(),
    ensures
        weight_from(stages, to) <= weight_from(stages, at),
    decreases to - at,
{
    if at < to {
        assert(stage_fits(stages, at));
        lemma_weight_skips(stages, at + 1, to);
    }
}

/// Every answer brings a run nearer to its end, so each script ends after a bounded
/// number of answers.
pub proof fn law_step_makes_progress(stages: Seq<Stage>, st: RunView, r: ResponseView)
    requires
        coherent(stages),
        inside(stages, st),
    ensures
        ({
            let next = step(stages, st, r).0;
            0 <= weight_from(stages, next.at) - next.round < weight_from(stages, st.at) - st.round
        }),
{
    assert(stage_fits(stages, st.at));
    law_step_keeps_tests(stages, st, r);
    let next = step(stages, st, r).0;
    if next.at != st.at {
        lemma_weight_skips(stages, st.at + 1, next.at);
    }
    lemma_weight_skips(stages, next.at, stages.len() as int);
    if next.at < stages.len() {
        lemma_weight_skips(stages, next.at + 1, stages.len() as int);
    }
}

/// What a run records over a list of answers, from where it stands.
pub open spec fn recorded(stages: Seq<Stage>, st: RunView, answers: Seq<ResponseView>) -> (
    RunView,
    Seq<RecordView>,
)
    decreases answers.len(),
{
    if answers.len() == 0 || st.at >= stages.len() {
        (st, Seq::empty())
    } else {
        let (next, out) = step(stages, st, answers[0]);
        let (end, rest) = recorded(stages, next, answers.skip(1));
        (end, out + rest)
    }
}

proof fn lemma_recorded(stages: Seq<Stage>, st: RunView, answers: Seq<ResponseView>)
    requires
        coherent(stages),
        st.at == stages.len() || inside(stages, st),
    ensures
        ({
            let (end, out) = recorded(stages, st, answers);
            tests_of(out) + labels_from(stages, end.at) == labels_from(stages, st.at)
        }),
    decreases answers.len(),
{
    let (end, out) = recorded(stages, st, answers);
    if answers.len() == 0 || st.at >= stages.len() {
        assert(tests_of(out) + labels_from(stages, st.at) =~= labels_from(stages, st.at));
    } else {
        let (next, now) = step(stages, st, answers[0]);
        law_step_keeps_tests(stages, st, answers[0]);
        lemma_recorded(stages, next, answers.skip(1));
        let rest = recorded(stages, next, answers.skip(1)).1;
        assert(tests_of(now + rest) =~= tests_of(now) + tests_of(rest));
        assert(tests_of(now) + tests_of(rest) + labels_from(stages, end.at) =~= tests_of(now) + (
        tests_of(rest) + labels_from(stages, end.at)));
    }
}

/// Whatever the agents answer, a run that reaches the end of its script has recorded
/// the same tests, in the same order.
pub proof fn law_tests_do_not_depend_on_answers(stages: Seq<Stage>, answers: Seq<ResponseView>)
    requires
        coherent(stages),
        stages.len() > 0,
        recorded(stages, at_stage(0), answers).0.at == stages.len(),
    ensures
        tests_of(recorded(stages, at_stage(0), answers).1) == labels_from(stages, 0),
{
    assert(stage_fits(stages, 0));
    lemma_recorded(stages, at_stage(0), answers);
    let out = recorded(stages, at_stage(0), answers).1;
    assert(tests_of(out) + labels_from(stages, stages.len() as int) =~= tests_of(out));
}

/// Scripts that fit stay so when one follows the other.
pub proof fn law_append_coherent(a: Seq<Stage>, b: Seq<Stage>)
    requires
        coherent(a),
        coherent(b),
    ensures
        coherent(a + b),
{
    let c = a + b;
    assert forall|k: int| 0 <= k < c.len() implies #[trigger] stage_fits(c, k) by {
        if k < a.len() {
            assert(stage_fits(a, k));
            assert(c[k] == a[k]);
            if let Stage::Gate { span, .. } = c[k] {
                assert forall|j: int| k < j <= k + span implies labels(#[trigger] c[j]).len()
                    == 0 by {
                    assert(c[j] == a[j]);
                }
            }
        } else {
            let m = k - a.len();
            assert(stage_fits(b, m));
            assert(c[k] == b[m]);
            if let Stage::Gate { span, .. } = c[k] {
                assert forall|j: int| k < j <= k + span implies labels(#[trigger] c[j]).len()
                    == 0 by {
                    assert(c[j] == b[j - a.len()]);
                }
            }
        }
    }
}

/// The line printed for a record.
pub open spec fn line_of(r: RecordView) -> Seq<char> {
    "  "@ + if r.pass {
        "pass"@
    } else {
        "fail"@
    } + ": "@ + r.id@ + " ["@ + r.agent@ + "] "@ + r.detail
}

/// The line printed for a record.
pub fn record_line(r: &Record) -> (s: String)
    ensures
        s@ == line_of(r@),
{
    let status = if r.pass {
        "pass"
    } else {
        "fail"
    };
    let mut out = cat3("  ", status, ": ");
    out.append(r.id);
    out.append(" [");
    out.append(r.agent);
    out.append("] ");
    out.append(r.detail.as_str());
    out
}

/// Whether answer number `k` of a series is one that its call may give: the first call gave
/// the even answers and the second call the odd ones.
pub open spec fn series_accepts(first_ok: Accept, second_ok: Accept, k: int, r: ResponseView) -> bool {
    (k % 2 == 0 ==> accepts(first_ok, r)) && (k % 2 == 1 ==> accepts(second_ok, r))
}

proof fn lemma_series(stages: Seq<Stage>, st: RunView, answers: Seq<ResponseView>)
    requires
        0 <= st.at < stages.len(),
        stages[st.at] matches Stage::Series { rounds, first_ok, second_ok, .. } && {
            &&& 0 <= st.round < 2 * rounds
            &&& answers.len() == 2 * rounds
            &&& st.parts == Seq::new(
                st.round as nat,
                |k: int|
                    part_text(k, series_accepts(first_ok, second_ok, k, answers[k]), answers[k]),
            )
            &&& st.all_ok <==> forall|k: int|
                0 <= k < st.round ==> series_accepts(first_ok, second_ok, k, #[trigger] answers[k])
        },
    ensures
        stages[st.at] matches Stage::Series { id, agent, first_ok, second_ok, .. } && ({
            let (end, out) = recorded(stages, st, answers.skip(st.round));
            &&& end == (RunView { at: st.at + 1, round: 0, parts: Seq::empty(), all_ok: true })
            &&& out.len() == 1
            &&& out[0].id == id
            &&& out[0].agent == agent
            &&& out[0].excuse is None
            &&& out[0].pass <==> forall|k: int|
                0 <= k < answers.len() ==> series_accepts(
                    first_ok,
                    second_ok,
                    k,
                    #[trigger] answers[k],
                )
            &&& out[0].detail == join_text(
                Seq::new(
                    answers.len(),
                    |k: int|
                        part_text(
                            k,
                            series_accepts(first_ok, second_ok, k, answers[k]),
                            answers[k],
                        ),
                ),
                "; "@,
            )
        }),
    decreases answers.len() - st.round,
{
    let left = answers.skip(st.round);
    let r = answers[st.round];
    assert(left[0] == r);
    assert(left.skip(1) =~= answers.skip(st.round + 1));
    let (next, out) = step(stages, st, r);
    if let Stage::Series { first_ok, second_ok, rounds, .. } = stages[st.at] {
        let ok = series_accepts(first_ok, second_ok, st.round, r);
        let parts = st.parts.push(part_text(st.round, ok, r));
        assert(parts =~= Seq::new(
            (st.round + 1) as nat,
            |k: int| part_text(k, series_accepts(first_ok, second_ok, k, answers[k]), answers[k]),
        ));
        let all = st.all_ok && ok;
        assert(all <==> forall|k: int|
            0 <= k < st.round + 1 ==> series_accepts(first_ok, second_ok, k, #[trigger] answers[k]));
        if st.round + 1 < 2 * rounds {
            lemma_series(stages, next, answers);
            assert(out + recorded(stages, next, left.skip(1)).1 =~= recorded(
                stages,
                next,
                left.skip(1),
            ).1);
        } else {
            assert(left.skip(1).len() == 0);
            assert(out + recorded(stages, next, left.skip(1)).1 =~= out);
        }
    }
}

/// A series is recorded once, after all its answers, and passes exactly if every one of them
/// was accepted: those of the first call by the first rule, those of the second call by the
/// second. One answer that fails, wherever it stands, fails the series. The detail shows every
/// answer, in order.
pub proof fn law_series_judges_every_answer(
    stages: Seq<Stage>,
    at: int,
    answers: Seq<ResponseView>,
)
    requires
        0 <= at < stages.len(),
        stages[at] matches Stage::Series { rounds, .. } && rounds > 0 && answers.len() == 2
            * rounds,
    ensures
        stages[at] matches Stage::Series { id, agent, first_ok, second_ok, .. } && ({
            let begin = RunView { at, round: 0, parts: Seq::empty(), all_ok: true };
            let (end, out) = recorded(stages, begin, answers);
            &&& end.at == at + 1
            &&& end.round == 0
            &&& out.len() == 1
            &&& out[0].id == id
            &&& out[0].agent == agent
            &&& out[0].excuse is None
            &&& out[0].pass <==> (forall|k: int|
                0 <= k < answers.len() && k % 2 == 0 ==> accepts(first_ok, #[trigger] answers[k]))
                && (forall|k: int|
                0 <= k < answers.len() && k % 2 == 1 ==> accepts(second_ok, #[trigger] answers[k]))
            &&& out[0].detail == join_text(
                Seq::new(
                    answers.len(),
                    |k: int|
                        "["@ + dec_text(k as nat) + "]="@ + bool_text(
                            if k % 2 == 0 {
                                accepts(first_ok, answers[k])
                            } else {
                                accepts(second_ok, answers[k])
                            },
                        ) + ": "@ + answers[k].debug(),
                ),
                "; "@,
            )
        }),
{
    let begin = RunView { at, round: 0, parts: Seq::empty(), all_ok: true };
    if let Stage::Series { first_ok, second_ok, .. } = stages[at] {
        assert(begin.parts =~= Seq::new(
            0,
            |k: int| part_text(k, series_accepts(first_ok, second_ok, k, answers[k]), answers[k]),
        ));
        assert(answers.skip(0) =~= answers);
        lemma_series(stages, begin, answers);
        let out = recorded(stages, begin, answers).1;
        assert(out[0].pass <==> forall|k: int|
            0 <= k < answers.len() ==> series_accepts(first_ok, second_ok, k, #[trigger] answers[k]));
        assert(out[0].pass ==> (forall|k: int|
            0 <= k < answers.len() && k % 2 == 0 ==> accepts(first_ok, #[trigger] answers[k])));
        assert(out[0].pass ==> (forall|k: int|
            0 <= k < answers.len() && k % 2 == 1 ==> accepts(second_ok, #[trigger] answers[k])));
        assert(Seq::new(
            answers.len(),
            |k: int| part_text(k, series_accepts(first_ok, second_ok, k, answers[k]), answers[k]),
        ) =~= Seq::new(
            answers.len(),
            |k: int|
                "["@ + dec_text(k as nat) + "]="@ + bool_text(
                    if k % 2 == 0 {
                        accepts(first_ok, answers[k])
                    } else {
                        accepts(second_ok, answers[k])
                    },
                ) + ": "@ + answers[k].debug(),
        ));
    }
}

/// The calls of a series take turns: the even ones go to the first agent and the odd ones to
/// the second, each with its own call.
pub proof fn law_series_takes_turns(stages: Seq<Stage>, st: RunView)
    requires
        0 <= st.at < stages.len(),
        stages[st.at] is Series,
    ensures
        stages[st.at] matches Stage::Series { first, second, .. } && next_of(stages, st) == (if st.round
            % 2 == 0 {
            Next::Send { target: first.target, call: first.call }
        } else {
            Next::Send { target: second.target, call: second.call }
        }),
{
}

proof fn lemma_repeat(stages: Seq<Stage>, st: RunView, answers: Seq<ResponseView>)
    requires
        0 <= st.at < stages.len(),
        stages[st.at] matches Stage::Repeat { times, accept, .. } && {
            &&& 0 <= st.round < answers.len() <= times
            &&& forall|k: int| 0 <= k < answers.len() - 1 ==> accepts(accept, #[trigger] answers[k])
            &&& answers.len() < times ==> !accepts(accept, answers.last())
        },
    ensures
        stages[st.at] matches Stage::Repeat { id, agent, accept, all_ok, .. } && ({
            let (end, out) = recorded(stages, st, answers.skip(st.round));
            let good = accepts(accept, answers.last());
            &&& end == (RunView { at: st.at + 1, round: 0, parts: Seq::empty(), all_ok: true })
            &&& out.len() == 1
            &&& out[0].id == id
            &&& out[0].agent == agent
            &&& out[0].excuse is None
            &&& out[0].pass <==> good
            &&& out[0].detail == if good {
                all_ok@
            } else {
                "failed at iteration "@ + dec_text((answers.len() - 1) as nat) + ": "@
                    + answers.last().debug()
            }
        }),
    decreases answers.len() - st.round,
{
    let left = answers.skip(st.round);
    let r = answers[st.round];
    assert(left[0] == r);
    assert(left.skip(1) =~= answers.skip(st.round + 1));
    let (next, out) = step(stages, st, r);
    if st.round + 1 < answers.len() {
        lemma_repeat(stages, next, answers);
        assert(out + recorded(stages, next, left.skip(1)).1 =~= recorded(
            stages,
            next,
            left.skip(1),
        ).1);
    } else {
        assert(left.skip(1).len() == 0);
        assert(out + recorded(stages, next, left.skip(1)).1 =~= out);
    }
}

/// A repeated call ends with the first answer that fails, or with the last repetition, and is
/// recorded once then. It passes exactly if as many answers as there are repetitions were all
/// accepted; else the detail names the repetition that failed and its answer.
pub proof fn law_repeat_stops_at_first_failure(
    stages: Seq<Stage>,
    at: int,
    answers: Seq<ResponseView>,
)
    requires
        0 <= at < stages.len(),
        stages[at] matches Stage::Repeat { times, accept, .. } && {
            &&& 0 < answers.len() <= times
            &&& forall|k: int| 0 <= k < answers.len() - 1 ==> accepts(accept, #[trigger] answers[k])
            &&& answers.len() < times ==> !accepts(accept, answers.last())
        },
    ensures
        stages[at] matches Stage::Repeat { id, agent, accept, times, all_ok, .. } && ({
            let begin = RunView { at, round: 0, parts: Seq::empty(), all_ok: true };
            let (end, out) = recorded(stages, begin, answers);
            let every = answers.len() == times && forall|k: int|
                0 <= k < answers.len() ==> accepts(accept, #[trigger] answers[k]);
            &&& end.at == at + 1
            &&& end.round == 0
            &&& out.len() == 1
            &&& out[0].id == id
            &&& out[0].agent == agent
            &&& out[0].excuse is None
            &&& out[0].pass <==> every
            &&& every ==> out[0].detail == all_ok@
            &&& !every ==> out[0].detail == "failed at iteration "@ + dec_text(
                (answers.len() - 1) as nat,
            ) + ": "@ + answers.last().debug()
        }),
{
    let begin = RunView { at, round: 0, parts: Seq::empty(), all_ok: true };
    assert(answers.skip(0) =~= answers);
    lemma_repeat(stages, begin, answers);
}

/// A quiet call is sent as often as it says, and none of its answers, whatever they are, is
/// recorded or changes the way.
pub proof fn law_quiet_records_nothing(stages: Seq<Stage>, st: RunView, answers: Seq<ResponseView>)
    requires
        0 <= st.at < stages.len(),
        stages[st.at] matches Stage::Quiet { times, .. } && 0 <= st.round && answers.len() > 0
            && st.round + answers.len() == times,
    ensures
        recorded(stages, st, answers).1.len() == 0,
        recorded(stages, st, answers).0.at == st.at + 1,
        recorded(stages, st, answers).0.round == 0,
    decreases answers.len(),
{
    let next = step(stages, st, answers[0]).0;
    if answers.len() > 1 {
        law_quiet_records_nothing(stages, next, answers.skip(1));
    } else {
        assert(recorded(stages, next, answers.skip(1)).0 == next);
        assert(recorded(stages, next, answers.skip(1)).1.len() == 0);
    }
}

/// One answer settles a single call: it is recorded under the test's own name, agent and
/// excuse, passes exactly if it is accepted, and the next stage follows.
pub proof fn law_single_answer_settles(stages: Seq<Stage>, st: RunView, r: ResponseView)
    requires
        0 <= st.at < stages.len(),
        stages[st.at] is Single,
    ensures
        stages[st.at] matches Stage::Single { verdict, .. } && ({
            let (next, out) = step(stages, st, r);
            &&& next.at == st.at + 1
            &&& next.round == 0
            &&& next.all_ok
            &&& out.len() == 1
            &&& out[0].id == verdict.id
            &&& out[0].agent == verdict.agent
            &&& out[0].excuse == verdict.excuse
            &&& out[0].pass <==> accepts(verdict.accept, r)
            &&& out[0].detail == detail_of(verdict.detail, r)
        }),
{
}

proof fn lemma_skips_pass(stages: Seq<Stage>, at: int, n: nat)
    ensures
        forall|k: int|
            0 <= k < skip_notes_from(stages, at, n).len() ==> {
                &&& (#[trigger] skip_notes_from(stages, at, n)[k]).pass
                &&& skip_notes_from(stages, at, n)[k].excuse is None
            },
    decreases n,
{
    if n > 0 {
        lemma_skips_pass(stages, at, (n - 1) as nat);
    }
}

/// Where a test cannot be tried, the stages that depend on it are passed over together with
/// it: each test among them is recorded once, as passed and without an excuse, whatever it
/// would have answered. Where it can be tried, one stage follows the other, and the guard's own
/// verdict, where it has one, is recorded by the answer.
pub proof fn law_guard_skips_its_span(stages: Seq<Stage>, st: RunView, r: ResponseView)
    requires
        coherent(stages),
        inside(stages, st),
        stages[st.at] is Guard,
    ensures
        stages[st.at] matches Stage::Guard { absent, verdict, span, .. } && ({
            let (next, out) = step(stages, st, r);
            &&& next.round == 0 && next.all_ok && next.parts.len() == 0
            &&& is_absent(absent, r) ==> {
                &&& next.at == st.at + 1 + span
                &&& forall|k: int|
                    0 <= k < out.len() ==> (#[trigger] out[k]).pass && out[k].excuse is None
                &&& tests_of(out) + labels_from(stages, st.at + 1 + span) == labels_from(
                    stages,
                    st.at,
                )
            }
            &&& !is_absent(absent, r) ==> {
                &&& next.at == st.at + 1
                &&& verdict is None ==> out.len() == 0
                &&& verdict matches Some(v) ==> {
                    &&& out.len() == 1
                    &&& out[0].id == v.id
                    &&& out[0].agent == v.agent
                    &&& out[0].excuse == v.excuse
                    &&& out[0].pass <==> accepts(v.accept, r)
                    &&& out[0].detail == detail_of(v.detail, r)
                }
            }
        }),
{
    assert(stage_fits(stages, st.at));
    if let Stage::Guard { span, .. } = stages[st.at] {
        lemma_skips_pass(stages, st.at, (span + 1) as nat);
        lemma_skip_labels(stages, st.at, (span + 1) as nat);
    }
}

/// A gate is recorded by its answer. It opens exactly if the answer passes; else the stages
/// of its span are passed over, and nothing is recorded of them.
pub proof fn law_gate_opens_on_pass(stages: Seq<Stage>, st: RunView, r: ResponseView)
    requires
        0 <= st.at < stages.len(),
        stages[st.at] is Gate,
    ensures
        stages[st.at] matches Stage::Gate { verdict, span, .. } && ({
            let (next, out) = step(stages, st, r);
            &&& out.len() == 1
            &&& out[0].id == verdict.id
            &&& out[0].agent == verdict.agent
            &&& out[0].excuse == verdict.excuse
            &&& out[0].pass <==> accepts(verdict.accept, r)
            &&& out[0].pass ==> next.at == st.at + 1
            &&& !out[0].pass ==> next.at == st.at + 1 + span
            &&& next.round == 0
            &&& next.all_ok
        }),
{
}

/// A skipped stage is recorded as passed, under the test's own name and agent, with the text
/// that the stage gives for that; a stage that records nothing is not recorded when skipped.
pub proof fn law_skipped_stage_passes(s: Stage)
    ensures
        forall|k: int|
            0 <= k < skip_notes(s).len() ==> (#[trigger] skip_notes(s)[k]).pass && skip_notes(s)[k].excuse is None,
        skip_notes(s).len() <= 1,
        skip_notes(s).len() == 0 <==> s is Quiet || s is Pause || (s matches Stage::Guard {
            verdict,
            ..
        } && verdict is None),
        match s {
            Stage::Single { verdict: v, .. } => skip_notes(s)[0].id == v.id && skip_notes(s)[0].agent
                == v.agent && skip_notes(s)[0].detail == v.skipped@,
            Stage::Guard { verdict: Some(v), .. } => skip_notes(s)[0].id == v.id
                && skip_notes(s)[0].agent == v.agent && skip_notes(s)[0].detail == v.skipped@,
            Stage::Gate { verdict: v, .. } => skip_notes(s)[0].id == v.id && skip_notes(s)[0].agent
                == v.agent && skip_notes(s)[0].detail == v.skipped@,
            Stage::Repeat { id, agent, skipped, .. } => skip_notes(s)[0].id == id
                && skip_notes(s)[0].agent == agent && skip_notes(s)[0].detail == skipped@,
            Stage::Series { id, agent, skipped, .. } => skip_notes(s)[0].id == id
                && skip_notes(s)[0].agent == agent && skip_notes(s)[0].detail == skipped@,
            _ => true,
        },
{
}

/// A rule on what a program printed accepts no answer but the end of a program, and none
/// with a code other than zero, except the rule for a missing `/dev/fd`, which also accepts
/// code one with that complaint.
pub proof fn law_prints_needs_success(a: Accept, r: ResponseView)
    requires
        a is Prints || a is PrintsBoth || a is PrintsEither || a is PrintsSomething
            || a is PrintsExactly || a is PrintsTrimmed || a is PrintsNothing || a
            is PrintsOrNoDevFd,
        accepts(a, r),
    ensures
        r matches ResponseView::ExecResult { exit_code, stdout, stderr, .. } && {
            &&& exit_code == 0 || (a is PrintsOrNoDevFd && exit_code == 1 && contains_text(
                stderr,
                "/dev/fd"@,
            ))
            &&& exit_code == 0 ==> match a {
                Accept::Prints(t) => contains_text(stdout, t@),
                Accept::PrintsBoth(t, u) => contains_text(stdout, t@) && contains_text(stdout, u@),
                Accept::PrintsEither(t, u) => contains_text(stdout, t@) || contains_text(
                    stdout,
                    u@,
                ),
                Accept::PrintsSomething => trim_text(stdout).len() > 0,
                Accept::PrintsExactly(t) => stdout == t@,
                Accept::PrintsTrimmed(t) => trim_text(stdout) == t@,
                Accept::PrintsNothing => stdout.len() == 0,
                Accept::PrintsOrNoDevFd(t) => contains_text(stdout, t@),
                _ => true,
            }
        },
{
}

/// A program that ended with zero and printed what a rule asks for is accepted, whatever it
/// wrote to its error stream.
pub proof fn law_success_is_accepted(r: ResponseView, t: &'static str, u: &'static str)
    requires
        r matches ResponseView::ExecResult { exit_code, .. } && exit_code == 0,
    ensures
        r matches ResponseView::ExecResult { stdout, .. } && {
            &&& contains_text(stdout, t@) ==> accepts(Accept::Prints(t), r) && accepts(
                Accept::Output(t),
                r,
            ) && accepts(Accept::PrintsEither(t, u), r) && accepts(
                Accept::PrintsEither(u, t),
                r,
            ) && accepts(Accept::PrintsOrNoDevFd(t), r)
            &&& contains_text(stdout, t@) && contains_text(stdout, u@) ==> accepts(
                Accept::PrintsBoth(t, u),
                r,
            )
            &&& accepts(Accept::PrintsSomething, r) <==> trim_text(stdout).len() > 0
            &&& accepts(Accept::PrintsExactly(t), r) <==> stdout == t@
            &&& accepts(Accept::PrintsTrimmed(t), r) <==> trim_text(stdout) == t@
            &&& accepts(Accept::PrintsNothing, r) <==> stdout.len() == 0
        },
{
}

/// The rules on the end of a program that do not look at its success: the printed text alone,
/// the code alone, and the absence of a text. Only the last accepts a program that outlived
/// its time, and none accepts an answer that is not about a program.
pub proof fn law_program_rules(r: ResponseView, t: &'static str, code: i32)
    ensures
        accepts(Accept::Any, r),
        accepts(Accept::Output(t), r) ==> r is ExecResult,
        accepts(Accept::Exit(code), r) ==> r is ExecResult,
        accepts(Accept::RanWithout(t), r) ==> r is ExecResult || r is ExecTimeout,
        r is ExecTimeout ==> accepts(Accept::RanWithout(t), r),
        r matches ResponseView::ExecResult { exit_code, stdout, .. } ==> {
            &&& accepts(Accept::Output(t), r) <==> contains_text(stdout, t@)
            &&& accepts(Accept::Exit(code), r) <==> exit_code == code
            &&& accepts(Accept::RanWithout(t), r) <==> !contains_text(stdout, t@)
        },
{
}

/// The rules on answers that are not about a program: each accepts one kind of answer, and
/// where it names a text or a port, only that.
pub proof fn law_answer_rules(r: ResponseView, t: &'static str, port: u16)
    ensures
        accepts(Accept::Missing, r) <==> r is NotFound,
        accepts(Accept::DoneAny, r) <==> r is Done,
        accepts(Accept::Listening, r) <==> r is Listening,
        accepts(Accept::ListeningOn(port), r) <==> (r matches ResponseView::Listening { port: p }
            && p == port),
        accepts(Accept::Echo(t), r) <==> (r matches ResponseView::Connected { echo } && echo == t@),
        accepts(Accept::Data(t), r) <==> (r matches ResponseView::Done { data } && data == Some(t@)),
        accepts(Accept::DataAny, r) <==> (r matches ResponseView::Done { data } && data is Some),
        accepts(Accept::DataContains(t), r) <==> (r matches ResponseView::Done { data } && (
        data matches Some(d) && contains_text(d, t@))),
        accepts(Accept::DataSet, r) <==> (r matches ResponseView::Done { data } && (
        data matches Some(d) && d.len() > 0 && d != "NOT_SET"@)),
{
}

/// A program that was not found, or an agent's error, makes a test untried; a program's own
/// mark does so whatever its code. No other answer does.
pub proof fn law_absent_answers(r: ResponseView, t: &'static str)
    ensures
        is_absent(Absent::NotFound, r) <==> r is Error || (r matches ResponseView::ExecResult {
            exit_code,
            ..
        } && exit_code == 127),
        is_absent(Absent::Mark(t), r) <==> (r matches ResponseView::ExecResult { stdout, .. }
            && contains_text(stdout, t@)),
{
}

/// Every detail ends with the answer as it prints, and says before it what the answer was.
pub proof fn law_detail_shows_answer(d: Detail, r: ResponseView)
    ensures
        detail_of(d, r).len() >= r.debug().len(),
        detail_of(d, r).skip(detail_of(d, r).len() - r.debug().len()) == r.debug(),
        d is Plain ==> detail_of(d, r) == r.debug(),
        d is Timeout ==> detail_of(d, r) == "timeout="@ + bool_text(r is ExecTimeout) + " "@
            + r.debug(),
        d is Isolated ==> detail_of(d, r) == "tmp_isolated="@ + bool_text(r is NotFound) + ": "@
            + r.debug(),
        d is DevFd ==> detail_of(d, r) == "xfail_devfd="@ + bool_text(
            r matches ResponseView::ExecResult { exit_code, stderr, .. } && exit_code == 1
                && contains_text(stderr, "/dev/fd"@),
        ) + " timeout="@ + bool_text(r is ExecTimeout) + " "@ + r.debug(),
{
    assert(detail_of(d, r).skip(detail_of(d, r).len() - r.debug().len()) =~= r.debug());
}

/// Every program is run with the harness's binary, the program or the interpreter first, and
/// every text of the shape is among the arguments, in its place.
pub proof fn law_argv_of(shape: Shape, exe: Seq<char>)
    ensures
        ({
            let v = argv_of(shape, exe);
            match shape {
                Shape::Own1(a) => v.len() == 2 && v[0] == exe && v[1] == a@,
                Shape::Own2(a, b) => v.len() == 3 && v[0] == exe && v[1] == a@ && v[2] == b@,
                Shape::Own3(a, b, c) => v.len() == 4 && v[0] == exe && v[1] == a@ && v[2] == b@
                    && v[3] == c@,
                Shape::Own4(a, b, c, d) => v.len() == 5 && v[0] == exe && v[1] == a@ && v[2] == b@
                    && v[3] == c@ && v[4] == d@,
                Shape::Program(p) => v.len() == 1 && v[0] == p@,
                Shape::Node(s) => v.len() == 3 && v[0] == "/usr/local/bin/node"@ && v[1] == "-e"@
                    && v[2] == s@,
                Shape::Bash(s) => v.len() == 3 && v[0] == "bash"@ && v[1] == "-c"@ && v[2] == s@,
                Shape::BashOwn(t) => v.len() == 3 && v[0] == "bash"@ && v[1] == "-c"@ && v[2]
                    == replace_text(t@, "{self_exe}"@, exe),
                Shape::Trigger(t) => v.len() == 4 && v[0] == exe && v[1] == t@ && v[2] == exe
                    && v[3] == "echo-test"@,
                Shape::TriggerNode(s) => v.len() == 5 && v[0] == exe && v[1]
                    == "trigger-delayed-fork"@ && v.skip(2) == argv_of(Shape::Node(s), exe),
                Shape::TriggerTwice => v.len() == 6 && v[0] == exe && v[1]
                    == "trigger-delayed-fork"@ && v.skip(2) == argv_of(
                    Shape::Trigger("trigger-delayed-fork"),
                    exe,
                ),
            }
        }),
{
    let v = argv_of(shape, exe);
    match shape {
        Shape::TriggerNode(s) => {
            assert(v.skip(2) =~= argv_of(Shape::Node(s), exe));
        },
        Shape::TriggerTwice => {
            assert(v.skip(2) =~= argv_of(Shape::Trigger("trigger-delayed-fork"), exe));
        },
        _ => {},
    }
}

/// A call of a stage becomes the one command that does it, with the call's own texts and
/// numbers. A program gets no input, no environment and no place in the background, and a time
/// exactly where the call sets one.
pub proof fn law_command_for_call(cmd: Command, call: Call, exe: Seq<char>)
    requires
        calls(cmd, call, exe),
    ensures
        match cmd {
            Command::Exec { args, timeout_secs, stdin, background, env } => {
                &&& stdin is None
                &&& !background
                &&& env@.len() == 0
                &&& call matches Call::Exec(shape) ==> texts(args@) == argv_of(shape, exe)
                    && timeout_secs is None
                &&& call matches Call::ExecFor(shape, secs) ==> texts(args@) == argv_of(shape, exe)
                    && timeout_secs == Some(secs)
                &&& call is Exec || call is ExecFor
            },
            Command::FsRead { path } => call matches Call::Read(p) && path@ == p@,
            Command::FsWrite { path, data } => call matches Call::Write(p, d) && path@ == p@
                && data@ == d@,
            Command::FsDelete { path } => call matches Call::Delete(p) && path@ == p@,
            Command::NetConnect { addr, data } => call matches Call::Connect(a, d) && addr@ == a@
                && data@ == d@,
            Command::NetListen { port } => call == Call::Listen(port),
            Command::NetUnlisten { port } => call == Call::Unlisten(port),
            Command::EnvGet { var } => call matches Call::Env(v) && var@ == v@,
            Command::CwdGet => call is Cwd,
            Command::UnixSocketTest { path } => call matches Call::UnixSocket(p) && path@ == p@,
            _ => false,
        },
{
}

/// The line of a record says by its first word whether the test passed, and shows the test,
/// its agent and the detail.
pub proof fn law_record_line(r: RecordView)
    ensures
        r.pass ==> line_of(r) == "  pass: "@ + r.id@ + " ["@ + r.agent@ + "] "@ + r.detail,
        !r.pass ==> line_of(r) == "  fail: "@ + r.id@ + " ["@ + r.agent@ + "] "@ + r.detail,
{
    reveal_strlit("  pass: ");
    reveal_strlit("  fail: ");
    reveal_strlit("  ");
    reveal_strlit("pass");
    reveal_strlit("fail");
    reveal_strlit(": ");
    assert("  "@ + "pass"@ + ": "@ =~= "  pass: "@);
    assert("  "@ + "fail"@ + ": "@ =~= "  fail: "@);
}

} // verus!
