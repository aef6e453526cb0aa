//! Decisions inside the probes that fork: stress runs, inherited resources, and the
//! programs that the harness runs as children of itself.

use vstd::prelude::*;
use crate::errno::EINTR;
use crate::fork_verdicts::Inherited;
use crate::number::{
    dec, dec_i64, dec_text, int_text, law_dec_all_digits, parse_i32, parse_i32_text,
};
use crate::protocol::{error_response, Response, ResponseView};
use crate::registry::{
    binary_at, binary_type, on_agents, plan_alone, plan_views, Group, Handler, OutcomeView, PlanView,
    TestOutcome, TestPlan,
};
use crate::text::{
    bool_text, bool_word, cat, cat3, contains_text, lossy, lossy_text, occurs_at, quote, quoted,
    same, starts_with, starts_with_text, trim, trim_text,
};
use crate::wait_status::{child_end, end_complaint, ended_well, succeeded};

verus! {

/// What a stress run's program prints.
pub const STRESS_WORD: &'static str = "ECHO_TEST_OK";

/// Whether round `i` of a stress run uses the non-PIE binary: always in mode
/// `nonpie`, every other round in mode `mixed`, never otherwise.
pub open spec fn stress_nonpie(mode: Seq<char>, i: int) -> bool {
    mode == "nonpie"@ || (mode == "mixed"@ && i % 2 == 1)
}

/// Whether round `i` of a stress run uses the non-PIE binary.
pub fn stress_uses_nonpie(mode: &str, i: u64) -> (r: bool)
    ensures
        r == stress_nonpie(mode@, i as int),
{
    same(mode, "nonpie") || (same(mode, "mixed") && i % 2 == 1)
}

/// What came of one round of a stress run.
#[allow(inconsistent_fields)]
pub enum StressEvent {
    /// The program ran; `status` is its exit status in words.
    Ran { stdout: Vec<u8>, status: String },
    /// The program did not start.
    SpawnFailed { error: String },
}

/// The round printed what it should.
pub open spec fn stress_ok(ev: StressEvent) -> bool {
    ev matches StressEvent::Ran { stdout, .. } && trim_text(lossy_text(stdout@)) == STRESS_WORD@
}

/// The line for a round.
pub open spec fn stress_line(i: int, ev: StressEvent) -> Seq<char> {
    match ev {
        StressEvent::Ran { stdout, status } => if stress_ok(ev) {
            "i="@ + dec_text(i as nat) + " ok="@ + trim_text(lossy_text(stdout@)) + "\n"@
        } else {
            "i="@ + dec_text(i as nat) + " FAIL: expected="@ + quoted(STRESS_WORD@) + " got="@
                + quoted(trim_text(lossy_text(stdout@))) + " exit="@ + status@ + "\n"@
        },
        StressEvent::SpawnFailed { error } => "i="@ + dec_text(i as nat)
            + " FAIL: spawn error: "@ + error@ + "\n"@,
    }
}

/// The first line of a stress run's report.
pub open spec fn stress_head(mode: Seq<char>, count: nat, tokio: bool) -> Seq<char> {
    "STRESS_START mode="@ + mode + " count="@ + dec_text(count) + " tokio="@ + bool_text(tokio)
        + "\n"@
}

/// The lines of the rounds, in order.
pub open spec fn stress_lines(events: Seq<StressEvent>) -> Seq<char>
    decreases events.len(),
{
    if events.len() == 0 {
        Seq::empty()
    } else {
        stress_lines(events.drop_last()) + stress_line(events.len() - 1, events.last())
    }
}

/// How many rounds failed.
pub open spec fn stress_failures(events: Seq<StressEvent>) -> nat
    decreases events.len(),
{
    if events.len() == 0 {
        0
    } else {
        stress_failures(events.drop_last()) + if stress_ok(events.last()) {
            0nat
        } else {
            1nat
        }
    }
}

/// All that follows the first line: the rounds, and how many failed.
pub open spec fn stress_tail(events: Seq<StressEvent>) -> Seq<char> {
    stress_lines(events) + "STRESS_END failures="@ + dec_text(stress_failures(events))
}

/// No more rounds fail than there are, and none fails exactly if each printed what it
/// should.
pub proof fn law_stress_failures(events: Seq<StressEvent>)
    ensures
        stress_failures(events) <= events.len(),
        stress_failures(events) == 0 <==> forall|k: int|
            0 <= k < events.len() ==> stress_ok(#[trigger] events[k]),
    decreases events.len(),
{
    if events.len() > 0 {
        let before = events.drop_last();
        law_stress_failures(before);
        if stress_failures(events) == 0 {
            assert forall|k: int| 0 <= k < events.len() implies stress_ok(#[trigger] events[k]) by {
                if k < before.len() {
                    assert(stress_ok(before[k]));
                }
            }
        } else if forall|k: int| 0 <= k < events.len() ==> stress_ok(#[trigger] events[k]) {
            assert forall|k: int| 0 <= k < before.len() implies stress_ok(#[trigger] before[k]) by {
                assert(before[k] == events[k]);
            }
            assert(stress_ok(events[events.len() - 1]));
        }
    }
}

/// The report of a stress run.
pub struct StressLog {
    detail: String,
    failures: u64,
    rounds: u64,
    head: Ghost<Seq<char>>,
    events: Ghost<Seq<StressEvent>>,
}

impl StressLog {
    /// The first line.
    pub closed spec fn first_line(self) -> Seq<char> {
        self.head@
    }

    /// The rounds so far.
    pub closed spec fn done(self) -> Seq<StressEvent> {
        self.events@
    }

    /// The text and the counts are those of the rounds.
    pub closed spec fn wf(self) -> bool {
        &&& self.detail@ == self.head@ + stress_lines(self.events@)
        &&& self.failures == stress_failures(self.events@)
        &&& self.rounds == self.events@.len()
    }

    /// The report of a run that begins.
    pub fn start(mode: &str, count: u64, tokio: bool) -> (r: Self)
        ensures
            r.wf(),
            r.done() == Seq::<StressEvent>::empty(),
            r.first_line() == stress_head(mode@, count as nat, tokio),
    {
        let mut detail = cat3("STRESS_START mode=", mode, " count=");
        let n = dec(count);
        detail.append(n.as_str());
        detail.append(" tokio=");
        detail.append(bool_word(tokio));
        detail.append("\n");
        let ghost head = stress_head(mode@, count as nat, tokio);
        assert(detail@ =~= head + stress_lines(Seq::empty()));
        StressLog {
            detail,
            failures: 0,
            rounds: 0,
            head: Ghost(head),
            events: Ghost(Seq::empty()),
        }
    }

    /// Note a round.
    pub fn feed(&mut self, ev: StressEvent)
        requires
            old(self).wf(),
            old(self).done().len() < u64::MAX,
        ensures
            final(self).wf(),
            final(self).first_line() == old(self).first_line(),
            final(self).done() == old(self).done().push(ev),
    {
        let ghost all = self.events@.push(ev);
        proof {
            law_stress_failures(self.events@);
            assert(all.drop_last() =~= self.events@);
        }
        let i = dec(self.rounds);
        let mut line = cat("i=", i.as_str());
        match ev {
            StressEvent::Ran { stdout, status } => {
                let all = lossy(stdout.as_slice());
                let out = trim(all.as_str());
                if same(out, STRESS_WORD) {
                    line.append(" ok=");
                    line.append(out);
                    line.append("\n");
                } else {
                    line.append(" FAIL: expected=");
                    let want = quote(STRESS_WORD);
                    line.append(want.as_str());
                    line.append(" got=");
                    let got = quote(out);
                    line.append(got.as_str());
                    line.append(" exit=");
                    line.append(status.as_str());
                    line.append("\n");
                    self.failures = self.failures + 1;
                }
            },
            StressEvent::SpawnFailed { error } => {
                line.append(" FAIL: spawn error: ");
                line.append(error.as_str());
                line.append("\n");
                self.failures = self.failures + 1;
            },
        }
        self.detail.append(line.as_str());
        self.rounds = self.rounds + 1;
        self.events = Ghost(all);
        assert(self.detail@ =~= self.head@ + stress_lines(all));
    }

    /// The whole report.
    pub fn finish(self) -> (r: String)
        requires
            self.wf(),
        ensures
            r@ == self.first_line() + stress_tail(self.done()),
    {
        let mut detail = self.detail;
        detail.append("STRESS_END failures=");
        let n = dec(self.failures);
        detail.append(n.as_str());
        assert(detail@ =~= self.head@ + stress_tail(self.events@));
        detail
    }
}

/// Each round's line stands in the report behind those of the rounds before it.
pub proof fn law_stress_rounds_in_order(events: Seq<StressEvent>, k: int)
    requires
        0 <= k < events.len(),
    ensures
        ({
            let upto = stress_lines(events.take(k)) + stress_line(k, events[k]);
            &&& upto.len() <= stress_lines(events).len()
            &&& stress_lines(events).take(upto.len() as int) == upto
        }),
    decreases events.len(),
{
    let before = events.drop_last();
    let upto = stress_lines(events.take(k)) + stress_line(k, events[k]);
    if k == before.len() {
        assert(events.take(k) =~= before);
        assert(stress_lines(events).take(upto.len() as int) =~= upto);
    } else {
        law_stress_rounds_in_order(before, k);
        assert(before.take(k) =~= events.take(k));
        assert(stress_lines(events).take(upto.len() as int) =~= stress_lines(before).take(
            upto.len() as int,
        ));
    }
}

/// How programs are started shows in the first line alone, which ends where the line does:
/// for equal rounds the rest of the report is the same.
pub proof fn law_stress_start_in_first_line(
    mode: Seq<char>,
    count: nat,
    a: bool,
    b: bool,
    events: Seq<StressEvent>,
)
    requires
        !mode.contains('\n'),
    ensures
        ({
            let (x, y) = (stress_head(mode, count, a), stress_head(mode, count, b));
            &&& x.len() > 0 && y.len() > 0
            &&& x.last() == '\n' && y.last() == '\n'
            &&& !x.drop_last().contains('\n') && !y.drop_last().contains('\n')
            &&& (x + stress_tail(events)).skip(x.len() as int) == (y + stress_tail(events)).skip(
                y.len() as int,
            )
        }),
{
    lemma_head_is_a_line(mode, count, a);
    lemma_head_is_a_line(mode, count, b);
    let (x, y) = (stress_head(mode, count, a), stress_head(mode, count, b));
    assert((x + stress_tail(events)).skip(x.len() as int) =~= stress_tail(events));
    assert((y + stress_tail(events)).skip(y.len() as int) =~= stress_tail(events));
}

proof fn lemma_head_is_a_line(mode: Seq<char>, count: nat, tokio: bool)
    requires
        !mode.contains('\n'),
    ensures
        ({
            let x = stress_head(mode, count, tokio);
            x.len() > 0 && x.last() == '\n' && !x.drop_last().contains('\n')
        }),
{
    reveal_strlit("STRESS_START mode=");
    reveal_strlit(" count=");
    reveal_strlit(" tokio=");
    reveal_strlit("true");
    reveal_strlit("false");
    reveal_strlit("\n");
    let x = stress_head(mode, count, tokio);
    let body = x.drop_last();
    let (at, n) = (18 + mode.len() as int, dec_text(count).len() as int);
    assert forall|k: int| 0 <= k < body.len() implies body[k] != '\n' by {
        if 18 <= k < at {
            assert(body[k] == mode[k - 18]);
        } else if at + 7 <= k < at + 7 + n {
            assert(body[k] == dec_text(count)[k - at - 7]);
            law_dec_all_digits(count, k - at - 7);
        }
    }
}

/// The report of a run in which no round failed holds both words that its verdict seeks.
pub proof fn law_clean_stress_run_passes(
    mode: Seq<char>,
    count: nat,
    tokio: bool,
    events: Seq<StressEvent>,
)
    requires
        stress_failures(events) == 0,
    ensures
        ({
            let all = stress_head(mode, count, tokio) + stress_tail(events);
            contains_text(all, "STRESS_START"@) && contains_text(all, "STRESS_END failures=0"@)
        }),
{
    reveal_strlit("STRESS_START mode=");
    reveal_strlit("STRESS_START");
    reveal_strlit("STRESS_END failures=0");
    reveal_strlit("STRESS_END failures=");
    let head = stress_head(mode, count, tokio);
    let all = head + stress_tail(events);
    assert(all.subrange(0, 12) =~= "STRESS_START"@);
    assert(occurs_at(all, "STRESS_START"@, 0));
    let word = "STRESS_END failures=0"@;
    let at = (head + stress_lines(events)).len() as int;
    assert(all.subrange(at, at + word.len()) =~= word);
    assert(occurs_at(all, word, at));
}

/// A report of a step that failed with an error number.
pub fn step_failed(what: &str, errno: i32) -> (r: String)
    ensures
        r@ == what@ + ":"@ + int_text(errno as int),
{
    let n = dec_i64(errno as i64);
    cat3(what, ":", n.as_str())
}

/// What a probe of an inherited resource answers where it is given no program to run.
pub open spec fn usage_text(kind: Inherited) -> Seq<char> {
    match kind {
        Inherited::BufferedScm => "BSF_USAGE: buffered-scm-fork <child_exe>"@,
        Inherited::Socketpair => "SXF_USAGE: socketpair-fork-cross <child_exe>"@,
        Inherited::Pidfd => "PIF_USAGE: pidfd-inherit-fork <child_exe>"@,
    }
}

/// The answer of a probe of an inherited resource that is given no program to run.
pub fn usage(kind: Inherited, program: &str) -> (r: Option<String>)
    ensures
        match r {
            Some(u) => program@.len() == 0 && u@ == usage_text(kind),
            None => program@.len() > 0,
        },
{
    if program.unicode_len() == 0 {
        let text = match kind {
            Inherited::BufferedScm => "BSF_USAGE: buffered-scm-fork <child_exe>",
            Inherited::Socketpair => "SXF_USAGE: socketpair-fork-cross <child_exe>",
            Inherited::Pidfd => "PIF_USAGE: pidfd-inherit-fork <child_exe>",
        };
        Some(text.to_string())
    } else {
        None
    }
}

/// How long a program of the fork tests may run where nothing else is asked.
pub const PROGRAM_SECS: u64 = 10;

/// How many seconds a program of the fork tests may run, or the reply where the list
/// names none.
pub fn program_limit(argv: &Vec<String>, asked: Option<u64>) -> (r: Result<u64, Response>)
    ensures
        match r {
            Ok(secs) => argv@.len() > 0 && secs == match asked {
                Some(s) => s,
                None => PROGRAM_SECS,
            },
            Err(reply) => argv@.len() == 0 && reply@ == (ResponseView::Error {
                error: "exec: empty argv"@,
            }),
        },
{
    if argv.len() == 0 {
        return Err(error_response("exec: empty argv"));
    }
    match asked {
        Some(s) => Ok(s),
        None => Ok(PROGRAM_SECS),
    }
}

/// What the fork that was put off reports of its program.
pub fn nested_result(ev: ProgramEvent) -> (r: Result<String, String>)
    ensures
        match ev {
            ProgramEvent::SpawnFailed { error } => r matches Err(e) && e@
                == "nested fork+exec failed: "@ + error@,
            ProgramEvent::Ran { success, status, stdout, stderr } => if success {
                r matches Ok(d) && d@ == lossy_text(stdout@)
            } else {
                r matches Err(e) && e@ == "nested fork+exec exit="@ + status@ + " stderr="@
                    + lossy_text(stderr@)
            },
        },
{
    match ev {
        ProgramEvent::SpawnFailed { error } => {
            Err(cat("nested fork+exec failed: ", error.as_str()))
        },
        ProgramEvent::Ran { success, status, stdout, stderr } => if success {
            Ok(lossy(stdout.as_slice()))
        } else {
            let shown = lossy(stderr.as_slice());
            let mut text = cat3("nested fork+exec exit=", status.as_str(), " stderr=");
            text.append(shown.as_str());
            Err(text)
        },
    }
}

/// The report of a probe whose child ended with the code.
pub open spec fn child_report(ok: Seq<char>, fail: Seq<char>, code: int) -> Seq<char> {
    if code == 0 {
        ok
    } else {
        fail + int_text(code)
    }
}

/// The report on a descriptor buffered in a socket.
pub fn buffered_scm_report(code: i32) -> (r: String)
    ensures
        r@ == child_report("BSF_OK"@, "BSF_FAIL:exit="@, code as int),
{
    if code == 0 {
        "BSF_OK".to_string()
    } else {
        let n = dec_i64(code as i64);
        cat("BSF_FAIL:exit=", n.as_str())
    }
}

/// The report on an inherited process descriptor.
pub fn pidfd_inherit_report(code: i32) -> (r: String)
    ensures
        r@ == child_report("PIF_OK"@, "PIF_FAIL:exit="@, code as int),
{
    if code == 0 {
        "PIF_OK".to_string()
    } else {
        let n = dec_i64(code as i64);
        cat("PIF_FAIL:exit=", n.as_str())
    }
}

/// The text of bytes that are UTF-8, and a question mark for others.
pub open spec fn reply_text(bytes: Seq<u8>) -> Seq<char> {
    if vstd::utf8::valid_utf8(bytes) {
        vstd::utf8::decode_utf8(bytes)
    } else {
        "?"@
    }
}

/// `core::str::from_utf8`: the text that the bytes encode, or nothing where they are
/// not UTF-8.
#[verifier::external_body]
fn utf8(bytes: &[u8]) -> (r: Option<String>)
    ensures
        r is Some <==> vstd::utf8::valid_utf8(bytes@),
        r matches Some(s) ==> s@ == vstd::utf8::decode_utf8(bytes@),
{
    match core::str::from_utf8(bytes) {
        Ok(s) => Some(s.to_string()),
        Err(_) => None,
    }
}

/// The text of a reply.
pub fn reply_of(bytes: &[u8]) -> (r: String)
    ensures
        r@ == reply_text(bytes@),
{
    match utf8(bytes) {
        Some(s) => s,
        None => "?".to_string(),
    }
}

/// The complaint where the ping could not be written whole, if there is one.
pub fn ping_complaint(written: i64, errno: i32) -> (r: Option<String>)
    ensures
        match r {
            None => written == 8,
            Some(s) => written != 8 && s@ == "SXF_WRITE_FAIL:n="@ + int_text(written as int)
                + " errno="@ + int_text(errno as int),
        },
{
    if written == 8 {
        None
    } else {
        let n = dec_i64(written);
        let e = dec_i64(errno as i64);
        let mut out = cat3("SXF_WRITE_FAIL:n=", n.as_str(), " errno=");
        out.append(e.as_str());
        Some(out)
    }
}

/// The report on a socket pair: `got` bytes were read, `reply` is what they were.
pub open spec fn pong_report_text(got: int, errno: int, reply: Seq<u8>, code: int) -> Seq<char> {
    if got <= 0 {
        "SXF_READ_FAIL:n="@ + int_text(got) + ",errno="@ + int_text(errno) + ",exit="@ + int_text(
            code,
        )
    } else if reply_text(reply) == "SXF_PONG"@ && code == 0 {
        "SXF_OK"@
    } else {
        "SXF_FAIL:reply="@ + reply_text(reply) + ",exit="@ + int_text(code)
    }
}

/// The report on a socket pair.
pub fn pong_report(got: i64, errno: i32, reply: &[u8], code: i32) -> (r: String)
    ensures
        r@ == pong_report_text(got as int, errno as int, reply@, code as int),
{
    let c = dec_i64(code as i64);
    if got <= 0 {
        let n = dec_i64(got);
        let e = dec_i64(errno as i64);
        let mut out = cat3("SXF_READ_FAIL:n=", n.as_str(), ",errno=");
        out.append(e.as_str());
        out.append(",exit=");
        out.append(c.as_str());
        return out;
    }
    let text = reply_of(reply);
    if same(text.as_str(), "SXF_PONG") && code == 0 {
        "SXF_OK".to_string()
    } else {
        let mut out = cat3("SXF_FAIL:reply=", text.as_str(), ",exit=");
        out.append(c.as_str());
        out
    }
}

/// The descriptor that a child program was given at a position; `-1` where there is none.
pub open spec fn fd_at(args: Seq<String>, at: int) -> int {
    if at < args.len() {
        match parse_i32_text(args[at]@) {
            Ok(v) => v,
            Err(_) => -1,
        }
    } else {
        -1
    }
}

/// The descriptor that a child program was given at a position.
pub fn fd_arg(args: &Vec<String>, at: usize) -> (r: i32)
    ensures
        r == fd_at(args@, at as int),
{
    if at < args.len() {
        match parse_i32(args[at].as_str()) {
            Ok(v) => v,
            Err(_) => -1,
        }
    } else {
        -1
    }
}

/// The number that the child writes through the buffered descriptor.
pub const SCM_SENTINEL: u64 = 0x4243_5f4f_4b21;

/// The exit code of the child that takes a buffered descriptor: the first step that
/// failed, of the argument, the receive, the descriptor in it, the write through the
/// descriptor and the read back.
pub fn scm_child_code(fd: i32, received: i64, passed: i32, written: i64, read: i64, value: u64) -> (r:
    i32)
    ensures
        r == if fd < 0 {
            1i32
        } else if received < 0 {
            2
        } else if passed < 0 {
            3
        } else if written != 8 {
            4
        } else if read != 8 || value != SCM_SENTINEL {
            5
        } else {
            0
        },
{
    if fd < 0 {
        1
    } else if received < 0 {
        2
    } else if passed < 0 {
        3
    } else if written != 8 {
        4
    } else if read != 8 || value != SCM_SENTINEL {
        5
    } else {
        0
    }
}

/// The exit code of the child at the other end of a socket pair, over the argument,
/// the read, what was read, and the write back.
pub fn socketpair_child_code(fd: i32, got: i64, message: &[u8], written: i64) -> (r: i32)
    ensures
        r == if fd < 0 {
            1i32
        } else if got <= 0 {
            2
        } else if reply_text(message@) != "SXF_PING"@ {
            3
        } else if written == 8 {
            0
        } else {
            4
        },
{
    if fd < 0 {
        1
    } else if got <= 0 {
        2
    } else {
        let text = reply_of(message);
        if !same(text.as_str(), "SXF_PING") {
            3
        } else if written == 8 {
            0
        } else {
            4
        }
    }
}

/// The exit code of the child that waits on an inherited process descriptor.
pub fn pidfd_child_code(pidfd: i32, pid: i32, polled: i32, readable: bool) -> (r: i32)
    ensures
        r == if pidfd < 0 || pid < 0 {
            1i32
        } else if polled <= 0 {
            2
        } else if !readable {
            3
        } else {
            0
        },
{
    if pidfd < 0 || pid < 0 {
        1
    } else if polled <= 0 {
        2
    } else if !readable {
        3
    } else {
        0
    }
}

/// The program and argument that `fork-exec-pie` runs, with defaults where none are given.
pub open spec fn relaunch_of(args: Seq<String>) -> (Seq<char>, Seq<char>) {
    (
        if args.len() > 2 {
            args[2]@
        } else {
            "/opt/litebox/litebox_test_harness"@
        },
        if args.len() > 3 {
            args[3]@
        } else {
            "echo-test"@
        },
    )
}

/// The program and argument that `fork-exec-pie` runs.
pub fn relaunch<'a>(args: &'a Vec<String>) -> (r: (&'a str, &'a str))
    ensures
        (r.0@, r.1@) == relaunch_of(args@),
{
    let program = if args.len() > 2 {
        args[2].as_str()
    } else {
        "/opt/litebox/litebox_test_harness"
    };
    let sub = if args.len() > 3 {
        args[3].as_str()
    } else {
        "echo-test"
    };
    (program, sub)
}

/// Whether `fork-exec-pie` goes on waiting for its child.
pub enum RelaunchStep {
    /// Ask again later.
    Again,
    /// The child ended: print the line and exit with the code.
    Ended { line: String, code: i32 },
    /// Time ran out: kill the child, print the line and exit with code one.
    GiveUp { line: String },
}

/// One look at the child: `waited` is what the wait returned.
pub fn relaunch_step(waited: i32, status: i32, late: bool) -> (r: RelaunchStep)
    ensures
        match r {
            RelaunchStep::Again => waited <= 0 && !late,
            RelaunchStep::GiveUp { line } => waited <= 0 && late && line@
                == "FORK_EXEC_PIE_FAIL:timeout"@,
            RelaunchStep::Ended { line, code } => waited > 0 && if ended_well(status) {
                line@ == "FORK_EXEC_PIE_OK"@ && code == 0
            } else {
                line@ == "FORK_EXEC_PIE_FAIL:exit="@ + int_text(status as int) && code == 1
            },
        },
{
    if waited > 0 {
        if succeeded(status) {
            RelaunchStep::Ended { line: "FORK_EXEC_PIE_OK".to_string(), code: 0 }
        } else {
            let n = dec_i64(status as i64);
            RelaunchStep::Ended { line: cat("FORK_EXEC_PIE_FAIL:exit=", n.as_str()), code: 1 }
        }
    } else if late {
        RelaunchStep::GiveUp { line: "FORK_EXEC_PIE_FAIL:timeout".to_string() }
    } else {
        RelaunchStep::Again
    }
}

/// The pipe inheritance test for a binary type.
pub open spec fn pipe_row(k: int) -> PlanView {
    on_agents(
        Group { suite: "vscode", family: "fork", timeout_secs: Some(30) },
        "FORK.pipe_fd_inheritance."@ + binary_at(k).label_text(),
        Handler::Direct,
        Seq::empty(),
    )
}

/// The pipe inheritance tests, one for each binary type.
pub fn register_fork_pipe_inheritance_tests() -> (r: Vec<TestPlan>)
    ensures
        plan_views(r@) == Seq::new(5, |k: int| pipe_row(k)),
{
    let g = Group { suite: "vscode", family: "fork", timeout_secs: Some(30) };
    let mut out: Vec<TestPlan> = Vec::new();
    let mut k: usize = 0;
    while k < 5
        invariant
            g == (Group { suite: "vscode", family: "fork", timeout_secs: Some(30u64) }),
            k <= 5,
            out@.len() == k,
            forall|j: int| 0 <= j < k ==> (#[trigger] out@[j])@ == pipe_row(j),
        decreases 5 - k,
    {
        let id = cat("FORK.pipe_fd_inheritance.", binary_type(k).label());
        out.push(plan_alone(g, id, Handler::Direct));
        k = k + 1;
    }
    assert(plan_views(out@) =~= Seq::new(5, |k: int| pipe_row(k)));
    out
}

/// What a program that reports on its first line came to.
#[allow(inconsistent_fields)]
pub enum ProgramEvent {
    /// It ran: whether it ended well, its status in words, and what it printed.
    Ran { success: bool, status: String, stdout: Vec<u8>, stderr: Vec<u8> },
    /// It did not start.
    SpawnFailed { error: String },
}

/// The verdict on such a program: it ended well and its output begins with `PASS`.
/// `word` stands before the status.
pub open spec fn program_outcome_view(
    label: Seq<char>,
    program: Seq<char>,
    word: Seq<char>,
    ev: ProgramEvent,
) -> OutcomeView {
    match ev {
        ProgramEvent::Ran { success, status, stdout, stderr } => OutcomeView {
            agent: label,
            pass: success && starts_with_text(lossy_text(stdout@), "PASS"@),
            detail: program + word + status@ + " stdout="@ + quoted(lossy_text(stdout@))
                + " stderr="@ + quoted(lossy_text(stderr@)),
        },
        ProgramEvent::SpawnFailed { error } => OutcomeView {
            agent: label,
            pass: false,
            detail: "spawn "@ + program + ": "@ + error@,
        },
    }
}

/// The verdict on a program that reports on its first line.
pub fn program_outcome(label: &str, program: &str, word: &str, ev: ProgramEvent) -> (o: TestOutcome)
    ensures
        o@ == program_outcome_view(label@, program@, word@, ev),
{
    match ev {
        ProgramEvent::Ran { success, status, stdout, stderr } => {
            let out = lossy(stdout.as_slice());
            let err = lossy(stderr.as_slice());
            let pass = success && starts_with(out.as_str(), "PASS");
            let mut detail = cat3(program, word, status.as_str());
            detail.append(" stdout=");
            let qo = quote(out.as_str());
            detail.append(qo.as_str());
            detail.append(" stderr=");
            let qe = quote(err.as_str());
            detail.append(qe.as_str());
            TestOutcome::new(label, pass, detail)
        },
        ProgramEvent::SpawnFailed { error } => {
            let mut detail = cat3("spawn ", program, ": ");
            detail.append(error.as_str());
            TestOutcome::new(label, false, detail)
        },
    }
}

/// Whether a wait for a child goes on.
pub enum WaitStep {
    Again,
    /// The child ended; its status word decides.
    Ended { result: Result<(), String> },
    Failed { error: String },
}

/// One wait for child `pid` that returned `rc`. An interrupted wait is repeated.
pub fn wait_step(pid: i32, rc: i32, status: i32, errno: Option<i32>, error: &str) -> (r: WaitStep)
    ensures
        match r {
            WaitStep::Ended { result } => rc == pid && match result {
                Ok(()) => ended_well(status),
                Err(e) => !ended_well(status) && e@ == end_complaint(status),
            },
            WaitStep::Failed { error: e } => rc != pid && rc < 0 && errno != Some(EINTR) && e@
                == "waitpid("@ + int_text(pid as int) + "): "@ + error@,
            WaitStep::Again => rc != pid && (rc >= 0 || errno == Some(EINTR)),
        },
{
    if rc == pid {
        WaitStep::Ended { result: child_end(status) }
    } else if rc < 0 && errno != Some(EINTR) {
        let n = dec_i64(pid as i64);
        let mut text = cat3("waitpid(", n.as_str(), "): ");
        text.append(error);
        WaitStep::Failed { error: text }
    } else {
        WaitStep::Again
    }
}

/// What the pipe inheritance program prints, and its exit code.
pub fn pipe_report(pid: i32, result: Result<(), String>) -> (r: (String, i32))
    ensures
        match result {
            Ok(()) => r.1 == 0 && r.0@ == "PASS child "@ + int_text(pid as int)
                + " epoll_ctl ADD accepted inherited pipe read fd"@,
            Err(e) => r.1 == 1 && r.0@ == "FAIL "@ + e@,
        },
{
    match result {
        Ok(()) => {
            let n = dec_i64(pid as i64);
            (
                cat3(
                    "PASS child ",
                    n.as_str(),
                    " epoll_ctl ADD accepted inherited pipe read fd",
                ),
                0,
            )
        },
        Err(e) => (cat("FAIL ", e.as_str()), 1),
    }
}

/// What the child of the pipe inheritance program prints, and its exit code.
pub fn pipe_child_report(result: Result<(), String>) -> (r: (String, i32))
    ensures
        match result {
            Ok(()) => r.1 == 0 && r.0@ == "PASS child epoll_ctl ADD ok\n"@,
            Err(e) => r.1 == 1 && r.0@ == "FAIL child epoll_ctl ADD failed: "@ + e@ + "\n"@,
        },
{
    match result {
        Ok(()) => ("PASS child epoll_ctl ADD ok\n".to_string(), 0),
        Err(e) => (cat3("FAIL child epoll_ctl ADD failed: ", e.as_str(), "\n"), 1),
    }
}

/// Whether writing goes on.
#[derive(Clone, Copy, Debug, PartialEq, Eq, Structural)]
pub enum WriteStep {
    /// Interrupted: try again.
    Again,
    /// So many bytes are written.
    Advance { bytes: usize },
    /// It cannot go on.
    Fail,
}

/// One write of the `left` bytes that are left, which returned `rc`.
pub fn write_step(left: usize, rc: i64, errno: Option<i32>) -> (r: WriteStep)
    requires
        rc <= left,
    ensures
        r == if rc < 0 {
            if errno == Some(EINTR) {
                WriteStep::Again
            } else {
                WriteStep::Fail
            }
        } else if rc == 0 {
            WriteStep::Fail
        } else {
            WriteStep::Advance { bytes: rc as usize }
        },
        r matches WriteStep::Advance { bytes } ==> 0 < bytes <= left,
{
    if rc < 0 {
        if errno == Some(EINTR) {
            WriteStep::Again
        } else {
            WriteStep::Fail
        }
    } else if rc == 0 {
        WriteStep::Fail
    } else {
        WriteStep::Advance { bytes: rc as usize }
    }
}

/// The mode decides which binary a round uses: one mode uses the non-PIE binary in every round,
/// one in every other round beginning with the second, and any other mode in none.
pub proof fn law_stress_modes(mode: Seq<char>, i: int)
    requires
        0 <= i,
    ensures
        stress_nonpie("nonpie"@, i),
        !stress_nonpie("mixed"@, 0),
        stress_nonpie("mixed"@, i + 1) == !stress_nonpie("mixed"@, i),
        mode != "nonpie"@ && mode != "mixed"@ ==> !stress_nonpie(mode, i),
{
    reveal_strlit("nonpie");
    reveal_strlit("mixed");
    assert("nonpie"@.len() != "mixed"@.len());
}

/// A round is good exactly if its program started and printed the one word, white space around
/// it aside; its exit status does not matter, and more output than the word does.
pub proof fn law_good_round(ev: StressEvent)
    ensures
        ev is SpawnFailed ==> !stress_ok(ev),
        ev matches StressEvent::Ran { stdout, .. } ==> (stress_ok(ev) <==> trim_text(
            lossy_text(stdout@),
        ) == "ECHO_TEST_OK"@),
{
}

/// The failures are counted: one for each round that is not good.
pub proof fn law_failures_are_counted(events: Seq<StressEvent>)
    ensures
        stress_failures(events) == events.filter(|e: StressEvent| !stress_ok(e)).len(),
    decreases events.len(),
{
    reveal(Seq::filter);
    if events.len() > 0 {
        law_failures_are_counted(events.drop_last());
    }
}

/// The line of a round begins with its number and says whether it was good; that of a bad round
/// shows what the program printed and how it ended, or why it did not start.
pub proof fn law_round_line(i: int, ev: StressEvent)
    ensures
        stress_ok(ev) ==> stress_line(i, ev) == "i="@ + dec_text(i as nat) + " ok="@
            + "ECHO_TEST_OK"@ + "\n"@,
        ev matches StressEvent::SpawnFailed { error } ==> stress_line(i, ev) == "i="@ + dec_text(
            i as nat,
        ) + " FAIL: spawn error: "@ + error@ + "\n"@,
        ev matches StressEvent::Ran { stdout, status } ==> (!stress_ok(ev) ==> stress_line(i, ev)
            == "i="@ + dec_text(i as nat) + " FAIL: expected="@ + quoted("ECHO_TEST_OK"@)
            + " got="@ + quoted(trim_text(lossy_text(stdout@))) + " exit="@ + status@ + "\n"@),
{
}

/// A report begins with the mode, how many rounds were asked for and how programs were started,
/// and ends with how many rounds failed.
pub proof fn law_stress_report(mode: Seq<char>, count: nat, tokio: bool, events: Seq<StressEvent>)
    ensures
        stress_head(mode, count, tokio) == "STRESS_START mode="@ + mode + " count="@ + dec_text(
            count,
        ) + " tokio="@ + bool_text(tokio) + "\n"@,
        stress_tail(events) == stress_lines(events) + "STRESS_END failures="@ + dec_text(
            stress_failures(events),
        ),
        stress_lines(Seq::empty()).len() == 0,
{
}

/// A child that ended with zero, and no other, is reported as good.
pub proof fn law_child_report(ok: Seq<char>, fail: Seq<char>, code: int)
    ensures
        code == 0 ==> child_report(ok, fail, code) == ok,
        code != 0 ==> child_report(ok, fail, code) == fail + int_text(code),
{
}

/// A socket pair is reported as good exactly if bytes came back, they spell the answer, and the
/// child ended with zero.
pub proof fn law_pong_report(got: int, errno: int, reply: Seq<u8>, code: int)
    ensures
        pong_report_text(got, errno, reply, code) == "SXF_OK"@ <==> got > 0 && reply_text(reply)
            == "SXF_PONG"@ && code == 0,
        got <= 0 ==> pong_report_text(got, errno, reply, code) == "SXF_READ_FAIL:n="@ + int_text(
            got,
        ) + ",errno="@ + int_text(errno) + ",exit="@ + int_text(code),
        got > 0 && !(reply_text(reply) == "SXF_PONG"@ && code == 0) ==> pong_report_text(
            got,
            errno,
            reply,
            code,
        ) == "SXF_FAIL:reply="@ + reply_text(reply) + ",exit="@ + int_text(code),
{
    let t = pong_report_text(got, errno, reply, code);
    reveal_strlit("SXF_OK");
    reveal_strlit("SXF_READ_FAIL:n=");
    reveal_strlit("SXF_FAIL:reply=");
    assert("SXF_OK"@[4] == 'O');
    if got <= 0 {
        assert(t[4] == 'R');
    } else if !(reply_text(reply) == "SXF_PONG"@ && code == 0) {
        assert(t[4] == 'F');
    }
}

/// Bytes that are UTF-8 are read as their text, and others never as a text that a check looks
/// for.
pub proof fn law_reply_text(bytes: Seq<u8>)
    ensures
        vstd::utf8::valid_utf8(bytes) ==> reply_text(bytes) == vstd::utf8::decode_utf8(bytes),
        !vstd::utf8::valid_utf8(bytes) ==> reply_text(bytes) == "?"@,
{
}

/// A descriptor is the number at its place, and minus one where there is none or it is no number.
pub proof fn law_fd_argument(args: Seq<String>, at: int)
    requires
        0 <= at,
    ensures
        at >= args.len() ==> fd_at(args, at) == -1,
        at < args.len() ==> (parse_i32_text(args[at]@) matches Ok(v) ==> fd_at(args, at) == v),
        at < args.len() && parse_i32_text(args[at]@) is Err ==> fd_at(args, at) == -1,
{
}

/// The program to launch is the second argument and its own argument the third, each with a
/// default of its own where it is missing.
pub proof fn law_relaunch(args: Seq<String>)
    ensures
        args.len() > 2 ==> relaunch_of(args).0 == args[2]@,
        args.len() <= 2 ==> relaunch_of(args).0 == "/opt/litebox/litebox_test_harness"@,
        args.len() > 3 ==> relaunch_of(args).1 == args[3]@,
        args.len() <= 3 ==> relaunch_of(args).1 == "echo-test"@,
{
}

/// A program that reports on its first line passes exactly if it ran, ended well, and its output
/// begins with the word for that; its detail shows both streams, each in its place.
pub proof fn law_program_verdict(
    label: Seq<char>,
    program: Seq<char>,
    word: Seq<char>,
    ev: ProgramEvent,
)
    ensures
        ({
            let o = program_outcome_view(label, program, word, ev);
            &&& o.agent == label
            &&& o.pass <==> (ev matches ProgramEvent::Ran { success, stdout, .. } && success
                && starts_with_text(lossy_text(stdout@), "PASS"@))
            &&& ev matches ProgramEvent::Ran { status, stdout, stderr, .. } ==> o.detail == program
                + word + status@ + " stdout="@ + quoted(lossy_text(stdout@)) + " stderr="@ + quoted(
                lossy_text(stderr@),
            )
            &&& ev matches ProgramEvent::SpawnFailed { error } ==> o.detail == "spawn "@ + program
                + ": "@ + error@
        }),
{
}

/// The report of a probe of an inherited resource holds the word that its verdict seeks exactly
/// if the child ended with zero.
pub proof fn law_inherited_report_passes(code: int)
    ensures
        contains_text(child_report("BSF_OK"@, "BSF_FAIL:exit="@, code), "BSF_OK"@) <==> code == 0,
        contains_text(child_report("PIF_OK"@, "PIF_FAIL:exit="@, code), "PIF_OK"@) <==> code == 0,
{
    reveal_strlit("BSF_OK");
    reveal_strlit("PIF_OK");
    reveal_strlit("BSF_FAIL:exit=");
    reveal_strlit("PIF_FAIL:exit=");
    assert("BSF_OK"@.subrange(0, 6) =~= "BSF_OK"@);
    assert("PIF_OK"@.subrange(0, 6) =~= "PIF_OK"@);
    assert(occurs_at("BSF_OK"@, "BSF_OK"@, 0));
    assert(occurs_at("PIF_OK"@, "PIF_OK"@, 0));
    if code != 0 {
        lemma_no_k("BSF_FAIL:exit="@, "BSF_OK"@, code);
        lemma_no_k("PIF_FAIL:exit="@, "PIF_OK"@, code);
    }
}

proof fn lemma_no_k(head: Seq<char>, word: Seq<char>, code: int)
    requires
        word.len() == 6,
        word[5] == 'K',
        forall|k: int| 0 <= k < head.len() ==> head[k] != 'K',
    ensures
        !contains_text(head + int_text(code), word),
{
    let t = head + int_text(code);
    reveal_strlit("-");
    assert forall|k: int| 0 <= k < t.len() implies t[k] != 'K' by {
        if k >= head.len() {
            let j = k - head.len();
            if code < 0 {
                if j > 0 {
                    law_dec_all_digits((-code) as nat, j - 1);
                }
            } else {
                law_dec_all_digits(code as nat, j);
            }
        }
    }
    assert forall|at: int| !occurs_at(t, word, at) by {
        if occurs_at(t, word, at) {
            assert(t.subrange(at, at + 6)[5] == word[5]);
            assert(t[at + 5] == 'K');
        }
    }
}

/// A probe that is given no program says which it is and what it wants.
pub proof fn law_usage(kind: Inherited)
    ensures
        kind is BufferedScm ==> usage_text(kind) == "BSF_USAGE: buffered-scm-fork <child_exe>"@,
        kind is Socketpair ==> usage_text(kind) == "SXF_USAGE: socketpair-fork-cross <child_exe>"@,
        kind is Pidfd ==> usage_text(kind) == "PIF_USAGE: pidfd-inherit-fork <child_exe>"@,
{
}

/// The pipe test of each binary type is carried out by the coordinator itself.
pub proof fn law_pipe_rows(k: int)
    requires
        0 <= k < 5,
    ensures
        pipe_row(k).id == "FORK.pipe_fd_inheritance."@ + binary_at(k).label_text(),
        pipe_row(k).handler is Direct,
        pipe_row(k).agents.len() == 0 && pipe_row(k).leaves.len() == 0,
        pipe_row(k).timeout_secs == Some(30u64),
{
}

/// The lines of a stress run stand in the order of its rounds, one for each, with its number.
pub proof fn law_stress_lines(events: Seq<StressEvent>, ev: StressEvent)
    ensures
        stress_lines(Seq::empty()).len() == 0,
        stress_lines(events.push(ev)) == stress_lines(events) + stress_line(
            events.len() as int,
            ev,
        ),
{
    assert(events.push(ev).drop_last() =~= events);
}

} // verus!
