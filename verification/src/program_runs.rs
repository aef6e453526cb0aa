//! The tests that run programs side by side, canaries and children of a parent with open
//! descriptors, as they run: what each asks, and how its answer is judged.

use vstd::prelude::*;
use crate::agents::AgentName;
use crate::asks::{Ask, AskView, Paths};
use crate::canary::{canary, canary_agent, canary_args, canary_outcome, CANARY_TESTS};
use crate::common::{bash_result_text, BashOut};
use crate::concurrent::{
    cf_agent, files_marker, files_outcome, files_row, install_outcome, install_passes,
    install_step, openers, parallel_command, parallel_outcome, parallel_text, pipeline,
    pipeline_case, pipeline_outcome, shell_prints, writer_accepts, writer_args, writer_failed,
    writer_outcome, writer_path, writer_path_text, writer_script_text, FILES_TESTS, INSTALL_TESTS,
    PARALLEL_TESTS, PIPELINE_TESTS, SHELL_MILLIS, WRITER_TESTS,
};
use crate::df_parent::{parent_fd_kind, TRIGGER_TESTS};
use crate::fork_probes::{program_outcome, program_outcome_view, ProgramEvent};
use crate::fork_verdicts::{leaf_outcome_view, ExecArgs};
use crate::number::dec_text;
use crate::protocol::{Response, ResponseView};
use crate::registry::{binary_at, binary_type, BinaryType, Handler, OutcomeView, TestOutcome};
use crate::text::{contains_text, count_text, texts};

verus! {

fn pipeline_of(t: usize) -> (r: (AgentName, usize))
    requires
        t < PIPELINE_TESTS,
    ensures
        (r.0, r.1 as int) == pipeline_case(t as int),
{
    if t < 18 {
        (cf_agent(t / 6), t % 6)
    } else if t == 18 {
        (AgentName::Dpg1Dng, 3)
    } else {
        (AgentName::Dpg1Dng, 5)
    }
}

/// What a pipeline test asks.
pub fn pipeline_ask(t: usize) -> (r: Ask)
    requires
        t < PIPELINE_TESTS,
    ensures
        r@ == (AskView::Bash {
            cmd: pipeline(pipeline_case(t as int).1 as usize).1@,
            timeout_ms: Some(SHELL_MILLIS),
        }),
{
    let (_, k) = pipeline_of(t);
    Ask::Bash { cmd: pipeline(k).1.to_string(), timeout_ms: Some(SHELL_MILLIS) }
}

/// The verdict on a pipeline test.
pub fn pipeline_judge(t: usize, result: Result<BashOut, String>) -> (o: TestOutcome)
    requires
        t < PIPELINE_TESTS,
    ensures
        ({
            let (a, k) = pipeline_case(t as int);
            o@ == (OutcomeView {
                agent: a.wire(),
                pass: shell_prints(result, pipeline(k as usize).2@),
                detail: bash_result_text(result),
            })
        }),
{
    let (a, k) = pipeline_of(t);
    pipeline_outcome(a, k, result)
}

/// What a test of programs side by side asks.
pub fn parallel_ask(t: usize, p: &Paths) -> (r: Ask)
    requires
        t < PARALLEL_TESTS,
        p@.wf(),
    ensures
        r@ == (AskView::Bash {
            cmd: parallel_text(p@.target(binary_at((t as int / 3) % 5)), (2 + t / 15) as nat),
            timeout_ms: Some(SHELL_MILLIS),
        }),
{
    Ask::Bash {
        cmd: parallel_command(p.target(binary_type((t / 3) % 5)), 2 + t / 15),
        timeout_ms: Some(SHELL_MILLIS),
    }
}

/// The verdict on a test of programs side by side.
pub fn parallel_judge(t: usize, result: Result<BashOut, String>) -> (o: TestOutcome)
    requires
        t < PARALLEL_TESTS,
    ensures
        o@ == (OutcomeView {
            agent: cf_agent((t % 3) as usize).wire(),
            pass: result matches Ok(out) && out.exit_code == 0 && count_text(
                out.stdout@,
                "ECHO_TEST_OK"@,
            ) == 2 + t / 15,
            detail: match result {
                Ok(out) => "got "@ + dec_text(count_text(out.stdout@, "ECHO_TEST_OK"@)) + "/"@
                    + dec_text((2 + t / 15) as nat) + " ECHO_TEST_OK"@,
                Err(_) => bash_result_text(result),
            },
        }),
{
    parallel_outcome(cf_agent(t % 3), 2 + t / 15, result)
}

/// What an install step test asks.
pub fn install_ask(t: usize) -> (r: Ask)
    requires
        t < INSTALL_TESTS,
    ensures
        r@ == (AskView::Bash {
            cmd: install_step((t % 4) as usize).1@,
            timeout_ms: Some(SHELL_MILLIS),
        }),
{
    Ask::Bash { cmd: install_step(t % 4).1.to_string(), timeout_ms: Some(SHELL_MILLIS) }
}

/// The verdict on an install step test.
pub fn install_judge(t: usize, result: Result<BashOut, String>) -> (o: TestOutcome)
    requires
        t < INSTALL_TESTS,
    ensures
        o@ == (OutcomeView {
            agent: cf_agent((t / 4) as usize).wire(),
            pass: install_passes(result, install_step((t % 4) as usize).2@),
            detail: bash_result_text(result),
        }),
{
    install_outcome(cf_agent(t / 4), t % 4, result)
}

/// The tests whose children open many files.
pub open spec fn opens_many(t: int) -> bool {
    t >= 45
}

/// How many children open files in a test.
pub open spec fn openers_of(t: int) -> u64 {
    openers(
        opens_many(t),
        ((t - if opens_many(t) {
            45int
        } else {
            0
        }) / 15) as usize,
    )
}

/// What a test of children that open files asks.
pub fn files_ask(t: usize) -> (r: Ask)
    requires
        t < FILES_TESTS,
    ensures
        r@ == (AskView::Openers { n: openers_of(t as int) as u32 }),
{
    let many = t >= 45;
    let u: usize = if many {
        t - 45
    } else {
        t
    };
    Ask::Openers { n: openers(many, u / 15) as u32 }
}

/// The verdict on a test of children that open files.
pub fn files_judge(t: usize, result: Result<String, String>) -> (o: TestOutcome)
    requires
        t < FILES_TESTS,
    ensures
        o@ == leaf_outcome_view(
            cf_agent((t % 3) as usize).wire(),
            "ConcurrentFsOut"@,
            result,
            files_marker(opens_many(t as int))@,
            files_marker(opens_many(t as int))@,
        ),
{
    files_outcome(cf_agent(t % 3), t >= 45, result)
}

/// A test of children that open files has the handler for one file or for many as it opens
/// one or many.
pub proof fn law_openers_fit(t: int)
    requires
        0 <= t < FILES_TESTS,
    ensures
        files_row(t).handler == if opens_many(t) {
            Handler::Named("concurrent_fork.concurrent_fs_multi")
        } else {
            Handler::Named("concurrent_fork.concurrent_fs")
        },
        2 <= openers_of(t) <= 6,
{
}

/// What a test that writes a file asks first, and the file that it asks for then.
pub fn writer_ask(t: usize, p: &Paths) -> (r: (ExecArgs, String))
    requires
        t < WRITER_TESTS,
    ensures
        ({
            let k = (t / 3) as usize;
            let a = cf_agent((t % 3) as usize).wire();
            &&& r.1@ == writer_path_text(k, a)
            &&& texts(r.0.args@) == seq![
                "bash"@,
                "-c"@,
                writer_script_text(k, r.1@, p@.own, a),
            ]
            &&& r.0.timeout_secs == Some(10u64)
            &&& r.0.stdin is None
            &&& !r.0.background
            &&& r.0.env@.len() == 0
        }),
{
    let agent = cf_agent(t % 3);
    let path = writer_path(t / 3, agent);
    let args = writer_args(t / 3, path.as_str(), p.own.as_str(), agent);
    (args, path)
}

/// The verdict on a test that writes a file: on the writer that failed, or on what was read
/// back.
pub fn writer_judge(t: usize, written: &Response, read: &Response) -> (o: TestOutcome)
    requires
        t < WRITER_TESTS,
    ensures
        ({
            let a = cf_agent((t % 3) as usize).wire();
            o@ == if written@ matches ResponseView::ExecResult { exit_code, .. } && exit_code == 0 {
                OutcomeView {
                    agent: a,
                    pass: read@ matches ResponseView::Done { data: Some(d) } && writer_accepts(
                        (t / 3) as usize,
                        d,
                    ),
                    detail: read@.debug(),
                }
            } else {
                OutcomeView { agent: a, pass: false, detail: "writer failed: "@ + written@.debug() }
            }
        }),
{
    match writer_failed(cf_agent(t % 3), written) {
        Some(o) => o,
        None => writer_outcome(cf_agent(t % 3), t / 3, read),
    }
}

/// What a canary test asks: the running program as the canary, with the program of the
/// binary type as its target.
pub fn canary_ask(t: usize, p: &Paths) -> (r: ExecArgs)
    requires
        t < CANARY_TESTS,
        p@.wf(),
    ensures
        ({
            let c = canary(((t % 35) / 5) as usize);
            &&& texts(r.args@) == seq![p@.own, c.1@]
            &&& r.timeout_secs == Some(c.3)
            &&& r.stdin is None
            &&& !r.background
            &&& r.env@.len() == 1
            &&& r.env@[0].0@ == "LITEBOX_M_TARGET_BINARY"@
            &&& r.env@[0].1@ == p@.target(binary_at(t as int % 5))
        }),
{
    canary_args(p.own.as_str(), (t % 35) / 5, p.target(binary_type(t % 5)))
}

/// The verdict on a canary test.
pub fn canary_judge(t: usize, r: &Response) -> (o: TestOutcome)
    requires
        t < CANARY_TESTS,
    ensures
        o@ == (OutcomeView {
            agent: canary_agent((t / 35) as usize).wire(),
            pass: r@ matches ResponseView::ExecResult { exit_code, stdout, .. } && exit_code == 0
                && contains_text(stdout, canary(((t % 35) / 5) as usize).2@),
            detail: r@.debug(),
        }),
{
    canary_outcome(canary_agent(t / 35), (t % 35) / 5, r)
}

/// What a test asks of a parent with open descriptors.
pub fn trigger_ask(t: usize, p: &Paths) -> (r: Ask)
    requires
        t < TRIGGER_TESTS,
        p@.wf(),
    ensures
        r@ == (AskView::Parent {
            fd_class: parent_fd_kind((t / 9) as usize).text()@,
            child_cmd: p@.target(binary_at(t as int % 3)),
            child_args: seq!["echo-test"@],
        }),
{
    let child_args = vec!["echo-test".to_string()];
    assert(texts(child_args@) =~= seq!["echo-test"@]);
    Ask::Parent {
        fd_class: parent_fd_kind(t / 9).wire(),
        child_cmd: p.target(binary_type(t % 3)).to_string(),
        child_args,
    }
}

/// The argument with which the pipe inheritance program is run.
pub const PIPE_WORD: &'static str = "fork-pipe-fd-inheritance";

/// The verdict on the pipe inheritance program of a binary type.
pub fn pipe_judge(bt: BinaryType, p: &Paths, ev: ProgramEvent) -> (o: TestOutcome)
    requires
        p@.wf(),
    ensures
        o@ == program_outcome_view(bt.label_text(), p@.target(bt), " status="@, ev),
{
    program_outcome(bt.label(), p.target(bt), " status=", ev)
}

/// The verdict on the program that drops a runtime.
pub fn runtime_drop_judge(p: &Paths, ev: ProgramEvent) -> (o: TestOutcome)
    requires
        p@.wf(),
    ensures
        o@ == program_outcome_view(
            BinaryType::StaticPieMusl.label_text(),
            p@.target(BinaryType::StaticPieMusl),
            " exit="@,
            ev,
        ),
{
    program_outcome(
        BinaryType::StaticPieMusl.label(),
        p.target(BinaryType::StaticPieMusl),
        " exit=",
        ev,
    )
}

/// As many children open files as the name of the test says: two, three or four open one file,
/// and three, four or six open many.
pub proof fn law_openers_as_named(many: bool, n: int, b: int, a: int)
    requires
        0 <= n < 3,
        0 <= b < 5,
        0 <= a < 3,
    ensures
        ({
            let t = (if many {
                45int
            } else {
                0int
            }) + 15 * n + 3 * b + a;
            &&& opens_many(t) == many
            &&& openers_of(t) == openers(many, n as usize)
            &&& openers_of(t) == if many {
                if n == 0 {
                    3int
                } else if n == 1 {
                    4int
                } else {
                    6int
                }
            } else {
                2 + n
            }
            &&& t % 3 == a
        }),
{
    let u = 15 * n + 3 * b + a;
    assert(u / 15 == n && u % 3 == a && (45 + u) % 3 == a);
}

} // verus!
