//! Small programs that run another program and must outlive it, and the tests that run
//! them on every kind of agent.

use vstd::prelude::*;
use vstd::utf8::encode_utf8;
use crate::agents::AgentName;
use crate::fork_verdicts::ExecArgs;
use crate::number::{dec, dec_i64, dec_text, int_text};
use crate::protocol::{Response, ResponseView};
use crate::registry::{
    binary_at, binary_type, on_agents, plan_on, plan_views, Group, Handler, OutcomeView, PlanView,
    TestOutcome, TestPlan,
};
use crate::text::{
    cat, cat3, contains, contains_text, lossy, lossy_text, occurs_at, quote, quoted,
    starts_with_text, texts,
};
use crate::wait_status::{ended_well, succeeded};

verus! {

/// The program that a canary runs: the one that the environment names, if it names one.
pub fn target_binary<'a>(named: Option<&'a str>, fallback: &'a str) -> (r: &'a str)
    ensures
        r@ == match named {
            Some(p) => if p@.len() > 0 {
                p@
            } else {
                fallback@
            },
            None => fallback@,
        },
{
    match named {
        Some(p) => if p.unicode_len() > 0 {
            p
        } else {
            fallback
        },
        None => fallback,
    }
}

/// How the run of a canary's child ended.
#[allow(inconsistent_fields)]
pub enum ChildRun {
    NotSpawned { error: String },
    /// Its input could not be written.
    NotFed { error: String },
    /// Its end could not be awaited. The canary that feeds its child waits for it in a step of
    /// its own; for the others starting it and waiting for it are one.
    NotWaited { error: String },
    /// It ended: whether well, its status in words, and what it printed.
    Ended { success: bool, status: String, stdout: Vec<u8>, stderr: Vec<u8> },
}

/// What a canary looks for in its child's output.
#[derive(Clone, Copy, Debug, PartialEq, Eq, Structural)]
pub enum Looks {
    /// Nothing: the child must only end well.
    ForNothing,
    /// The echo text.
    ForEcho,
    /// The text on the error stream.
    ForError,
    /// What it was fed.
    ForPing,
    /// The last line of a large output.
    ForLarge,
}

/// The complaint about a child that did not end well.
pub open spec fn end_text(status: Seq<char>) -> Seq<char> {
    "child exit: "@ + status
}

/// What a canary finds wrong with its child's run, if anything.
pub open spec fn child_complaint(run: ChildRun, looks: Looks) -> Option<Seq<char>> {
    match run {
        ChildRun::NotSpawned { error } => Some("spawn: "@ + error@),
        ChildRun::NotFed { error } => Some("write stdin: "@ + error@),
        ChildRun::NotWaited { error } => Some(
            (if looks == Looks::ForPing {
                "wait: "@
            } else {
                "spawn: "@
            }) + error@,
        ),
        ChildRun::Ended { success, status, stdout, stderr } => {
            let out = lossy_text(stdout@);
            let err = lossy_text(stderr@);
            if !success {
                Some(end_text(status@))
            } else if looks == Looks::ForEcho && !contains_text(out, "ECHO_TEST_OK"@) {
                Some("child stdout missing ECHO_TEST_OK: "@ + quoted(out))
            } else if looks == Looks::ForError && !contains_text(err, "STDERR_ONLY_OK"@) {
                Some("child stderr missing STDERR_ONLY_OK: "@ + quoted(err))
            } else if looks == Looks::ForPing && !contains_text(out, "BS2_PING"@) {
                Some("child stdout missing BS2_PING: "@ + quoted(out))
            } else if looks == Looks::ForLarge && !contains_text(out, "LARGE_STDOUT_OK"@) {
                Some(
                    "child stdout missing LARGE_STDOUT_OK (got "@ + dec_text(encode_utf8(out).len())
                        + " bytes)"@,
                )
            } else {
                None
            }
        },
    }
}

fn without(text: &str, marker: &str, head: &str) -> (r: Option<String>)
    ensures
        match r {
            Some(c) => !contains_text(text@, marker@) && c@ == head@ + quoted(text@),
            None => contains_text(text@, marker@),
        },
{
    if contains(text, marker) {
        None
    } else {
        let body = quote(text);
        Some(cat(head, body.as_str()))
    }
}

/// What a canary finds wrong with its child's run, if anything.
pub fn complaint(run: ChildRun, looks: Looks) -> (r: Option<String>)
    ensures
        match r {
            Some(c) => child_complaint(run, looks) == Some(c@),
            None => child_complaint(run, looks) is None,
        },
{
    match run {
        ChildRun::NotSpawned { error } => Some(cat("spawn: ", error.as_str())),
        ChildRun::NotFed { error } => Some(cat("write stdin: ", error.as_str())),
        ChildRun::NotWaited { error } => match looks {
            Looks::ForPing => Some(cat("wait: ", error.as_str())),
            _ => Some(cat("spawn: ", error.as_str())),
        },
        ChildRun::Ended { success, status, stdout, stderr } => {
            if !success {
                return Some(cat("child exit: ", status.as_str()));
            }
            match looks {
                Looks::ForNothing => None,
                Looks::ForEcho => {
                    let out = lossy(stdout.as_slice());
                    without(out.as_str(), "ECHO_TEST_OK", "child stdout missing ECHO_TEST_OK: ")
                },
                Looks::ForError => {
                    let err = lossy(stderr.as_slice());
                    without(
                        err.as_str(),
                        "STDERR_ONLY_OK",
                        "child stderr missing STDERR_ONLY_OK: ",
                    )
                },
                Looks::ForPing => {
                    let out = lossy(stdout.as_slice());
                    without(out.as_str(), "BS2_PING", "child stdout missing BS2_PING: ")
                },
                Looks::ForLarge => {
                    let out = lossy(stdout.as_slice());
                    if contains(out.as_str(), "LARGE_STDOUT_OK") {
                        None
                    } else {
                        let size = dec(out.as_str().as_bytes().len() as u64);
                        Some(
                            cat3(
                                "child stdout missing LARGE_STDOUT_OK (got ",
                                size.as_str(),
                                " bytes)",
                            ),
                        )
                    }
                },
            }
        },
    }
}

/// The last line of a canary and its exit code.
pub open spec fn canary_end(name: Seq<char>, pid: nat, complaint: Option<Seq<char>>) -> (
    Seq<char>,
    i32,
) {
    match complaint {
        None => (name + "_OK pid="@ + dec_text(pid), 0),
        Some(c) => (name + "_FAIL:"@ + c, 1),
    }
}

/// The last line of a canary and its exit code.
pub fn canary_report(name: &str, pid: u32, complaint: Option<String>) -> (r: (String, i32))
    ensures
        (r.0@, r.1) == canary_end(
            name@,
            pid as nat,
            match complaint {
                Some(c) => Some(c@),
                None => None,
            },
        ),
{
    match complaint {
        None => {
            let n = dec(pid as u64);
            (cat3(name, "_OK pid=", n.as_str()), 0)
        },
        Some(c) => (cat3(name, "_FAIL:", c.as_str()), 1),
    }
}

/// A canary that reports success holds the text that its test looks for.
pub proof fn law_canary_success_shown(name: Seq<char>, pid: nat)
    ensures
        contains_text(canary_end(name, pid, None).0, name + "_OK"@),
{
    reveal_strlit("_OK");
    reveal_strlit("_OK pid=");
    let line = canary_end(name, pid, None).0;
    let want = name + "_OK"@;
    assert(line.subrange(0, want.len() as int) =~= want);
    assert(occurs_at(line, want, 0));
}

/// What the canary over plain system calls finds wrong with its child: how it ended, how
/// much it printed, and what.
pub open spec fn plain_complaint_of(status: i32, read: i64, output: Seq<u8>) -> Option<Seq<char>> {
    if !ended_well(status) {
        Some("child_status="@ + int_text(status as int))
    } else if read <= 0 {
        Some("no_child_stdout"@)
    } else if !contains_text(lossy_text(output), "ECHO_TEST_OK"@) {
        Some("bad_stdout:"@ + quoted(lossy_text(output)))
    } else {
        None
    }
}

/// What the canary over plain system calls finds wrong with its child, if anything.
pub fn plain_complaint(status: i32, read: i64, output: &[u8]) -> (r: Option<String>)
    ensures
        match r {
            Some(c) => plain_complaint_of(status, read, output@) == Some(c@),
            None => plain_complaint_of(status, read, output@) is None,
        },
{
    if !succeeded(status) {
        let n = dec_i64(status as i64);
        Some(cat("child_status=", n.as_str()))
    } else if read <= 0 {
        Some("no_child_stdout".to_string())
    } else {
        let out = lossy(output);
        without(out.as_str(), "ECHO_TEST_OK", "bad_stdout:")
    }
}

/// Whether the canary over plain system calls goes on waiting for its child.
#[allow(inconsistent_fields)]
pub enum PlainWait {
    /// Ask again later.
    Again,
    /// The child ended: what is wrong with it, if anything.
    Ended { found: Option<String> },
    /// Time ran out: kill the child and report this.
    GiveUp { found: String },
}

/// One look at the child: `waited` is what the wait returned, `late` whether the time is
/// over. A child that has ended is judged even then.
pub fn plain_wait_step(waited: i32, status: i32, late: bool, read: i64, output: &[u8]) -> (r:
    PlainWait)
    ensures
        match r {
            PlainWait::Again => waited <= 0 && !late,
            PlainWait::GiveUp { found } => waited <= 0 && late && found@ == "wait_timeout"@,
            PlainWait::Ended { found } => waited > 0 && match found {
                Some(c) => plain_complaint_of(status, read, output@) == Some(c@),
                None => plain_complaint_of(status, read, output@) is None,
            },
        },
{
    if waited > 0 {
        PlainWait::Ended { found: plain_complaint(status, read, output) }
    } else if late {
        PlainWait::GiveUp { found: "wait_timeout".to_string() }
    } else {
        PlainWait::Again
    }
}

/// What `{:?}` prints for a result that is a text either way.
pub open spec fn text_result(r: Result<String, String>) -> Seq<char> {
    match r {
        Ok(s) => "Ok("@ + quoted(s@) + ")"@,
        Err(e) => "Err("@ + quoted(e@) + ")"@,
    }
}

/// What `{:?}` prints for a result without a value.
pub open spec fn unit_result(r: Result<(), String>) -> Seq<char> {
    match r {
        Ok(()) => "Ok(())"@,
        Err(e) => "Err("@ + quoted(e@) + ")"@,
    }
}

fn show_text(r: &Result<String, String>) -> (s: String)
    ensures
        s@ == text_result(*r),
{
    match r {
        Ok(t) => {
            let body = quote(t.as_str());
            cat3("Ok(", body.as_str(), ")")
        },
        Err(e) => {
            let body = quote(e.as_str());
            cat3("Err(", body.as_str(), ")")
        },
    }
}

fn show_unit(r: &Result<(), String>) -> (s: String)
    ensures
        s@ == unit_result(*r),
{
    match r {
        Ok(()) => "Ok(())".to_string(),
        Err(e) => {
            let body = quote(e.as_str());
            cat3("Err(", body.as_str(), ")")
        },
    }
}

/// What the canary that works on after its child finds wrong with that work.
pub fn work_complaint(
    stat: Result<String, String>,
    write: Result<(), String>,
    read: Result<String, String>,
) -> (r: Option<String>)
    ensures
        ({
            let good = stat is Ok && write is Ok && (read matches Ok(s) && contains_text(
                s@,
                "M3_PARENT_ALIVE"@,
            ));
            match r {
                None => good,
                Some(c) => !good && c@ == "step2:stat="@ + text_result(stat) + ",write="@
                    + unit_result(write) + ",read="@ + text_result(read),
            }
        }),
{
    let alive = match &read {
        Ok(s) => contains(s.as_str(), "M3_PARENT_ALIVE"),
        Err(_) => false,
    };
    if stat.is_ok() && write.is_ok() && alive {
        return None;
    }
    let a = show_text(&stat);
    let b = show_unit(&write);
    let c = show_text(&read);
    let mut text = cat3("step2:stat=", a.as_str(), ",write=");
    text.append(b.as_str());
    text.append(",read=");
    text.append(c.as_str());
    Some(text)
}

/// How often the repeating canary runs its child where nothing else is said.
pub const REPEATS: u64 = 5;

/// What the repeating canary finds wrong with one of its runs.
pub open spec fn repeat_complaint_of(i: nat, run: ChildRun) -> Option<Seq<char>> {
    match run {
        ChildRun::Ended { success, status, stdout, .. } => if !success {
            Some("iter="@ + dec_text(i) + " "@ + end_text(status@))
        } else if !contains_text(lossy_text(stdout@), "ECHO_TEST_OK"@) {
            Some("iter="@ + dec_text(i) + " bad stdout: "@ + quoted(lossy_text(stdout@)))
        } else {
            None
        },
        ChildRun::NotSpawned { error } => Some("spawn iter="@ + dec_text(i) + ": "@ + error@),
        ChildRun::NotFed { error } => Some("spawn iter="@ + dec_text(i) + ": "@ + error@),
        ChildRun::NotWaited { error } => Some("spawn iter="@ + dec_text(i) + ": "@ + error@),
    }
}

/// What the repeating canary finds wrong with one of its runs.
pub fn repeat_complaint(i: u64, run: ChildRun) -> (r: Option<String>)
    ensures
        match r {
            Some(c) => repeat_complaint_of(i as nat, run) == Some(c@),
            None => repeat_complaint_of(i as nat, run) is None,
        },
{
    let n = dec(i);
    match run {
        ChildRun::Ended { success, status, stdout, stderr: _ } => {
            let head = cat3("iter=", n.as_str(), " ");
            if !success {
                let body = cat("child exit: ", status.as_str());
                return Some(cat(head.as_str(), body.as_str()));
            }
            let out = lossy(stdout.as_slice());
            let long = cat3("iter=", n.as_str(), " bad stdout: ");
            without(out.as_str(), "ECHO_TEST_OK", long.as_str())
        },
        ChildRun::NotSpawned { error } | ChildRun::NotFed { error } | ChildRun::NotWaited {
            error,
        } => {
            let mut text = cat3("spawn iter=", n.as_str(), ": ");
            text.append(error.as_str());
            Some(text)
        },
    }
}

/// The last line of the repeating canary and its exit code.
pub fn repeat_report(pid: u32, result: Result<u64, String>) -> (r: (String, i32))
    ensures
        match result {
            Ok(k) => r.1 == 0 && r.0@ == "M4_OK pid="@ + dec_text(pid as nat) + " iterations="@
                + dec_text(k as nat),
            Err(e) => r.1 == 1 && r.0@ == "M4_FAIL:"@ + e@,
        },
{
    match result {
        Ok(k) => {
            let p = dec(pid as u64);
            let n = dec(k);
            let mut text = cat3("M4_OK pid=", p.as_str(), " iterations=");
            text.append(n.as_str());
            (text, 0)
        },
        Err(e) => (cat("M4_FAIL:", e.as_str()), 1),
    }
}

/// How many kinds of canary there are.
pub const CANARIES: usize = 7;

/// Id, program, marker and seconds of a canary.
#[verifier::allow_in_spec]
pub fn canary(k: usize) -> (&'static str, &'static str, &'static str, u64)
    returns
        (if k == 0 {
            ("M1", "M1-tokio-spawn-nonpie", "M1_OK", 30u64)
        } else if k == 1 {
            ("M2", "M2-libc-spawn-nonpie", "M2_OK", 30u64)
        } else if k == 2 {
            ("M3", "M3-tokio-spawn-nonpie-then-work", "M3_OK", 30u64)
        } else if k == 3 {
            ("M4", "M4-tokio-spawn-nonpie-repeated", "M4_OK", 60u64)
        } else if k == 4 {
            ("BS1", "BS1-tokio-spawn-nonpie-stderr", "BS1_OK", 30u64)
        } else if k == 5 {
            ("BS2", "BS2-tokio-spawn-nonpie-stdin-echo", "BS2_OK", 30u64)
        } else {
            ("BS3", "BS3-tokio-spawn-nonpie-large-stdout", "BS3_OK", 30u64)
        }),
{
    if k == 0 {
        ("M1", "M1-tokio-spawn-nonpie", "M1_OK", 30u64)
    } else if k == 1 {
        ("M2", "M2-libc-spawn-nonpie", "M2_OK", 30u64)
    } else if k == 2 {
        ("M3", "M3-tokio-spawn-nonpie-then-work", "M3_OK", 30u64)
    } else if k == 3 {
        ("M4", "M4-tokio-spawn-nonpie-repeated", "M4_OK", 60u64)
    } else if k == 4 {
        ("BS1", "BS1-tokio-spawn-nonpie-stderr", "BS1_OK", 30u64)
    } else if k == 5 {
        ("BS2", "BS2-tokio-spawn-nonpie-stdin-echo", "BS2_OK", 30u64)
    } else {
        ("BS3", "BS3-tokio-spawn-nonpie-large-stdout", "BS3_OK", 30u64)
    }
}

/// The agents that launch canaries.
#[verifier::allow_in_spec]
pub fn canary_agent(k: usize) -> AgentName
    returns
        (if k == 0 {
            AgentName::Dpg1
        } else if k == 1 {
            AgentName::Dpg1Dpg1
        } else if k == 2 {
            AgentName::Dpg1Dpg1Dpg1
        } else if k == 3 {
            AgentName::Dpg1Dng
        } else {
            AgentName::Dpg1DngDpg
        }),
{
    if k == 0 {
        AgentName::Dpg1
    } else if k == 1 {
        AgentName::Dpg1Dpg1
    } else if k == 2 {
        AgentName::Dpg1Dpg1Dpg1
    } else if k == 3 {
        AgentName::Dpg1Dng
    } else {
        AgentName::Dpg1DngDpg
    }
}

/// What the launcher runs: itself as the canary, with the target in the environment.
pub fn canary_args(self_exe: &str, k: usize, target: &str) -> (r: ExecArgs)
    ensures
        texts(r.args@) == seq![self_exe@, canary(k).1@],
        r.timeout_secs == Some(canary(k).3),
        r.stdin is None,
        !r.background,
        r.env@.len() == 1,
        r.env@[0].0@ == "LITEBOX_M_TARGET_BINARY"@,
        r.env@[0].1@ == target@,
{
    let c = canary(k);
    let args = vec![self_exe.to_string(), c.1.to_string()];
    assert(texts(args@) =~= seq![self_exe@, canary(k).1@]);
    let env = vec![("LITEBOX_M_TARGET_BINARY".to_string(), target.to_string())];
    ExecArgs { args, timeout_secs: Some(c.3), stdin: None, background: false, env }
}

/// The verdict on a canary: it ended well and printed its marker.
pub fn canary_outcome(launcher: AgentName, k: usize, r: &Response) -> (o: TestOutcome)
    ensures
        o@ == (OutcomeView {
            agent: launcher.wire(),
            pass: r@ matches ResponseView::ExecResult { exit_code, stdout, .. } && exit_code == 0
                && contains_text(stdout, canary(k).2@),
            detail: r@.debug(),
        }),
{
    let pass = match r {
        Response::ExecResult { exit_code, stdout, stderr: _ } => *exit_code == 0 && contains(
            stdout.as_str(),
            canary(k).2,
        ),
        _ => false,
    };
    TestOutcome::new(launcher.name(), pass, r.debug_text())
}

/// How many canary tests there are: each kind on each launcher for each binary type.
pub const CANARY_TESTS: usize = 175;

/// The canary test at a position.
pub open spec fn canary_row(t: int) -> PlanView {
    let a = canary_agent((t / 35) as usize);
    let c = canary(((t % 35) / 5) as usize);
    on_agents(
        Group {
            suite: "fork",
            family: "minimal_canary",
            timeout_secs: Some((c.3 + 10) as u64),
        },
        c.0@ + "."@ + a.wire() + "."@ + binary_at(t % 5).label_text(),
        Handler::RunProgram,
        seq![a],
    )
}

fn canary_plan(t: usize) -> (r: TestPlan)
    requires
        t < CANARY_TESTS,
    ensures
        r@ == canary_row(t as int),
{
    let a = canary_agent(t / 35);
    let c = canary((t % 35) / 5);
    let g = Group { suite: "fork", family: "minimal_canary", timeout_secs: Some(c.3 + 10) };
    let mut id = cat3(c.0, ".", a.name());
    id.append(".");
    id.append(binary_type(t % 5).label());
    plan_on(g, id, Handler::RunProgram, a)
}

/// The canary tests, in order.
pub fn register_minimal_canary_tests() -> (r: Vec<TestPlan>)
    ensures
        plan_views(r@) == Seq::new(CANARY_TESTS as nat, |t: int| canary_row(t)),
{
    let mut out: Vec<TestPlan> = Vec::new();
    let mut t: usize = 0;
    while t < CANARY_TESTS
        invariant
            t <= CANARY_TESTS,
            out@.len() == t,
            forall|k: int| 0 <= k < t ==> (#[trigger] out@[k])@ == canary_row(k),
        decreases CANARY_TESTS - t,
    {
        out.push(canary_plan(t));
        t = t + 1;
    }
    assert(plan_views(out@) =~= Seq::new(CANARY_TESTS as nat, |t: int| canary_row(t)));
    out
}

/// A canary has nothing to complain of exactly if its child ended well and printed what the
/// canary looks for, on the stream where it looks: a text on the error stream does not stand in
/// for one on the output, nor the other way round.
pub proof fn law_canary_looks(run: ChildRun, looks: Looks)
    ensures
        child_complaint(run, looks) is None <==> (run matches ChildRun::Ended {
            success,
            stdout,
            stderr,
            ..
        } && success && (looks is ForEcho ==> contains_text(
            lossy_text(stdout@),
            "ECHO_TEST_OK"@,
        )) && (looks is ForError ==> contains_text(lossy_text(stderr@), "STDERR_ONLY_OK"@)) && (
        looks is ForPing ==> contains_text(lossy_text(stdout@), "BS2_PING"@)) && (
        looks is ForLarge ==> contains_text(lossy_text(stdout@), "LARGE_STDOUT_OK"@))),
        run matches ChildRun::NotSpawned { error } ==> child_complaint(run, looks) == Some(
            "spawn: "@ + error@,
        ),
        run matches ChildRun::NotFed { error } ==> child_complaint(run, looks) == Some(
            "write stdin: "@ + error@,
        ),
        run matches ChildRun::Ended { success, status, .. } ==> (!success ==> child_complaint(
            run,
            looks,
        ) == Some("child exit: "@ + status@)),
{
}

/// A canary ends with zero exactly if it has nothing to complain of; its last line says which,
/// and shows its number or the complaint.
pub proof fn law_canary_end(name: Seq<char>, pid: nat, complaint: Option<Seq<char>>)
    ensures
        canary_end(name, pid, complaint).1 == 0 <==> complaint is None,
        complaint is Some ==> canary_end(name, pid, complaint).1 == 1,
        complaint is None ==> canary_end(name, pid, complaint).0 == name + "_OK pid="@ + dec_text(
            pid,
        ),
        complaint matches Some(c) ==> canary_end(name, pid, complaint).0 == name + "_FAIL:"@ + c,
{
}

/// The canary over plain system calls has nothing to complain of exactly if its child ended with
/// code zero and printed something that holds the text.
pub proof fn law_plain_canary(status: i32, read: i64, output: Seq<u8>)
    ensures
        plain_complaint_of(status, read, output) is None <==> ended_well(status) && read > 0
            && contains_text(lossy_text(output), "ECHO_TEST_OK"@),
        !ended_well(status) ==> plain_complaint_of(status, read, output) == Some(
            "child_status="@ + int_text(status as int),
        ),
        ended_well(status) && read <= 0 ==> plain_complaint_of(status, read, output) == Some(
            "no_child_stdout"@,
        ),
{
}

/// A run of the repeating canary is good exactly if its child ended well and printed the text; a
/// complaint names the run.
pub proof fn law_repeated_run(i: nat, run: ChildRun)
    ensures
        repeat_complaint_of(i, run) is None <==> (run matches ChildRun::Ended {
            success,
            stdout,
            ..
        } && success && contains_text(lossy_text(stdout@), "ECHO_TEST_OK"@)),
        run matches ChildRun::NotSpawned { error } ==> repeat_complaint_of(i, run) == Some(
            "spawn iter="@ + dec_text(i) + ": "@ + error@,
        ),
        run matches ChildRun::Ended { success, status, .. } ==> (!success ==> repeat_complaint_of(
            i,
            run,
        ) == Some("iter="@ + dec_text(i) + " child exit: "@ + status@)),
{
    if let ChildRun::Ended { success, status, .. } = run {
        reveal_strlit(" ");
        reveal_strlit("child exit: ");
        reveal_strlit(" child exit: ");
        let head = "iter="@ + dec_text(i);
        assert(head + " "@ + ("child exit: "@ + status@) =~= head + " child exit: "@ + status@);
    }
}

/// Each canary is launched by each of the five agents for each binary type, and its test may take
/// ten seconds longer than the canary.
pub proof fn law_canaries_cover(a: int, c: int, b: int)
    requires
        0 <= a < 5,
        0 <= c < 7,
        0 <= b < 5,
    ensures
        ({
            let t = 35 * a + 5 * c + b;
            let p = canary_row(t);
            &&& 0 <= t < CANARY_TESTS
            &&& p.agents == seq![canary_agent(a as usize)]
            &&& p.id == canary(c as usize).0@ + "."@ + canary_agent(a as usize).wire() + "."@
                + binary_at(b).label_text()
            &&& p.timeout_secs == Some((canary(c as usize).3 + 10) as u64)
            &&& p.handler is RunProgram
        }),
{
    let t = 35 * a + 5 * c + b;
    assert(t / 35 == a && t % 35 == 5 * c + b && (t % 35) / 5 == c && t % 5 == b);
}

/// A result prints by which it is and what it holds.
pub proof fn law_result_texts(s: String, e: String)
    ensures
        text_result(Ok(s)) == "Ok("@ + quoted(s@) + ")"@,
        text_result(Err(e)) == "Err("@ + quoted(e@) + ")"@,
        unit_result(Ok(())) == "Ok(())"@,
        unit_result(Err(e)) == "Err("@ + quoted(e@) + ")"@,
{
}

/// The canaries run on agents of both kinds at growing depth.
pub proof fn law_canary_agents()
    ensures
        canary_agent(0) == AgentName::Dpg1,
        canary_agent(1) == AgentName::Dpg1Dpg1,
        canary_agent(2) == AgentName::Dpg1Dpg1Dpg1,
        canary_agent(3) == AgentName::Dpg1Dng,
        canary_agent(4) == AgentName::Dpg1DngDpg,
{
}

/// A canary's program begins with the canary's name, prints that name and that all was well, and
/// may take a minute where it starts others again and again, else half a minute.
pub proof fn law_canary_programs(k: usize)
    requires
        k < 7,
    ensures
        starts_with_text(canary(k).1@, canary(k).0@ + "-tokio-"@) || starts_with_text(
            canary(k).1@,
            canary(k).0@ + "-libc-"@,
        ),
        canary(k).2@ == canary(k).0@ + "_OK"@,
        canary(k).3 == if k == 3 {
            60u64
        } else {
            30u64
        },
{
    reveal_strlit("_OK");
    reveal_strlit("-tokio-");
    reveal_strlit("-libc-");
    if k == 0 {
        reveal_strlit("M1");
        reveal_strlit("M1-tokio-spawn-nonpie");
        reveal_strlit("M1_OK");
        assert("M1-tokio-spawn-nonpie"@.subrange(0, 9) =~= "M1"@ + "-tokio-"@);
        assert("M1_OK"@ =~= "M1"@ + "_OK"@);
    }
    if k == 1 {
        reveal_strlit("M2");
        reveal_strlit("M2-libc-spawn-nonpie");
        reveal_strlit("M2_OK");
        assert("M2-libc-spawn-nonpie"@.subrange(0, 8) =~= "M2"@ + "-libc-"@);
        assert("M2_OK"@ =~= "M2"@ + "_OK"@);
    }
    if k == 2 {
        reveal_strlit("M3");
        reveal_strlit("M3-tokio-spawn-nonpie-then-work");
        reveal_strlit("M3_OK");
        assert("M3-tokio-spawn-nonpie-then-work"@.subrange(0, 9) =~= "M3"@ + "-tokio-"@);
        assert("M3_OK"@ =~= "M3"@ + "_OK"@);
    }
    if k == 3 {
        reveal_strlit("M4");
        reveal_strlit("M4-tokio-spawn-nonpie-repeated");
        reveal_strlit("M4_OK");
        assert("M4-tokio-spawn-nonpie-repeated"@.subrange(0, 9) =~= "M4"@ + "-tokio-"@);
        assert("M4_OK"@ =~= "M4"@ + "_OK"@);
    }
    if k == 4 {
        reveal_strlit("BS1");
        reveal_strlit("BS1-tokio-spawn-nonpie-stderr");
        reveal_strlit("BS1_OK");
        assert("BS1-tokio-spawn-nonpie-stderr"@.subrange(0, 10) =~= "BS1"@ + "-tokio-"@);
        assert("BS1_OK"@ =~= "BS1"@ + "_OK"@);
    }
    if k == 5 {
        reveal_strlit("BS2");
        reveal_strlit("BS2-tokio-spawn-nonpie-stdin-echo");
        reveal_strlit("BS2_OK");
        assert("BS2-tokio-spawn-nonpie-stdin-echo"@.subrange(0, 10) =~= "BS2"@ + "-tokio-"@);
        assert("BS2_OK"@ =~= "BS2"@ + "_OK"@);
    }
    if k == 6 {
        reveal_strlit("BS3");
        reveal_strlit("BS3-tokio-spawn-nonpie-large-stdout");
        reveal_strlit("BS3_OK");
        assert("BS3-tokio-spawn-nonpie-large-stdout"@.subrange(0, 10) =~= "BS3"@ + "-tokio-"@);
        assert("BS3_OK"@ =~= "BS3"@ + "_OK"@);
    }
}

} // verus!
