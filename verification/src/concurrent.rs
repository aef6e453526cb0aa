//! Tests of programs that fork and read files side by side: pipelines, parallel programs,
//! and children that open the same files.

use vstd::prelude::*;
use crate::agents::AgentName;
use crate::common::{bash_result_debug, bash_result_text, BashOut};
use crate::fork_verdicts::{leaf_outcome, leaf_outcome_view, ExecArgs};
use crate::number::{dec, dec_text};
use crate::protocol::{Response, ResponseView};
use crate::registry::{
    binary_at, binary_type, fork_binary_label, on_agents, on_leaf, plan_on, plan_on_leaf,
    plan_views, Group, Handler, OutcomeView, PlanView, TestOutcome, TestPlan,
};
use crate::text::{
    cat, cat3, contains, contains_text, count, count_text, join, join_text,
    law_replace_from_the_left, law_replace_leaves_the_rest, occurs_at, replace, replace_text, same,
    starts_with_text, texts, trim, trim_text,
};
use crate::wait_status::{ended_well, succeeded};

verus! {

/// The agents of these tests.
#[verifier::allow_in_spec]
pub fn cf_agent(k: usize) -> AgentName
    returns
        (if k == 0 {
            AgentName::Dpg1
        } else if k == 1 {
            AgentName::Dpg1Dpg1
        } else {
            AgentName::Dpg2
        }),
{
    if k == 0 {
        AgentName::Dpg1
    } else if k == 1 {
        AgentName::Dpg1Dpg1
    } else {
        AgentName::Dpg2
    }
}

/// How many files each child of the larger test opens.
pub const SHARED_LIBRARIES: usize = 8;

/// A file that each child opens; the smaller test uses the first only.
#[verifier::allow_in_spec]
pub fn shared_library(k: usize) -> &'static str
    returns
        (if k == 0 {
            "/lib/x86_64-linux-gnu/libc.so.6"
        } else if k == 1 {
            "/lib/x86_64-linux-gnu/libm.so.6"
        } else if k == 2 {
            "/lib/x86_64-linux-gnu/libdl.so.2"
        } else if k == 3 {
            "/lib/x86_64-linux-gnu/libpthread.so.0"
        } else if k == 4 {
            "/lib/x86_64-linux-gnu/librt.so.1"
        } else if k == 5 {
            "/lib/x86_64-linux-gnu/libresolv.so.2"
        } else if k == 6 {
            "/lib/x86_64-linux-gnu/libnss_files.so.2"
        } else {
            "/lib/x86_64-linux-gnu/libnss_dns.so.2"
        }),
{
    if k == 0 {
        "/lib/x86_64-linux-gnu/libc.so.6"
    } else if k == 1 {
        "/lib/x86_64-linux-gnu/libm.so.6"
    } else if k == 2 {
        "/lib/x86_64-linux-gnu/libdl.so.2"
    } else if k == 3 {
        "/lib/x86_64-linux-gnu/libpthread.so.0"
    } else if k == 4 {
        "/lib/x86_64-linux-gnu/librt.so.1"
    } else if k == 5 {
        "/lib/x86_64-linux-gnu/libresolv.so.2"
    } else if k == 6 {
        "/lib/x86_64-linux-gnu/libnss_files.so.2"
    } else {
        "/lib/x86_64-linux-gnu/libnss_dns.so.2"
    }
}

/// What one look at a child says.
#[derive(Clone, Copy, Debug, PartialEq, Eq, Structural)]
pub enum ChildLook {
    /// Look again later.
    Again,
    /// It ended well.
    Good,
    /// It ended badly.
    Bad,
    /// Time ran out: kill it.
    Kill,
}

/// One look at a child: what the wait returned, its status, and whether the time is up.
pub fn child_look(ret: i32, status: i32, late: bool) -> (r: ChildLook)
    ensures
        r == if ret > 0 {
            if ended_well(status) {
                ChildLook::Good
            } else {
                ChildLook::Bad
            }
        } else if late {
            ChildLook::Kill
        } else {
            ChildLook::Again
        },
{
    if ret > 0 {
        if succeeded(status) {
            ChildLook::Good
        } else {
            ChildLook::Bad
        }
    } else if late {
        ChildLook::Kill
    } else {
        ChildLook::Again
    }
}

/// Whether all children ended well, over the last look at each. Without children there is
/// nothing to complain about.
pub fn all_good(looks: &Vec<ChildLook>) -> (r: bool)
    ensures
        r == forall|k: int| 0 <= k < looks@.len() ==> #[trigger] looks@[k] == ChildLook::Good,
{
    let mut i: usize = 0;
    while i < looks.len()
        invariant
            i <= looks.len(),
            forall|k: int| 0 <= k < i ==> #[trigger] looks@[k] == ChildLook::Good,
        decreases looks.len() - i,
    {
        if looks[i] != ChildLook::Good {
            return false;
        }
        i = i + 1;
    }
    true
}

/// The exit code of a child, over whether it could open every file.
pub fn opener_code(ok: bool) -> (r: i32)
    ensures
        r == if ok {
            0i32
        } else {
            1i32
        },
{
    if ok {
        0
    } else {
        1
    }
}

/// The report of the test in which children open one file, or many.
pub fn files_report(many: bool, n: u32, all_ok: bool) -> (r: String)
    ensures
        r@ == if many {
            if all_ok {
                "CONCURRENT_FS_MULTI_OK:"@ + dec_text(n as nat)
            } else {
                "CONCURRENT_FS_MULTI_FAIL:"@ + dec_text(n as nat) + " (open write-lock deadlock)"@
            }
        } else {
            if all_ok {
                "CONCURRENT_FS_OK:"@ + dec_text(n as nat)
            } else {
                "CONCURRENT_FS_FAIL:"@ + dec_text(n as nat)
                    + " (concurrent open+close deadlocked)"@
            }
        },
{
    let count = dec(n as u64);
    if many {
        if all_ok {
            cat("CONCURRENT_FS_MULTI_OK:", count.as_str())
        } else {
            cat3("CONCURRENT_FS_MULTI_FAIL:", count.as_str(), " (open write-lock deadlock)")
        }
    } else {
        if all_ok {
            cat("CONCURRENT_FS_OK:", count.as_str())
        } else {
            cat3("CONCURRENT_FS_FAIL:", count.as_str(), " (concurrent open+close deadlocked)")
        }
    }
}

/// The verdict on such a report.
pub fn files_outcome(agent: AgentName, many: bool, result: Result<String, String>) -> (o:
    TestOutcome)
    ensures
        o@ == leaf_outcome_view(
            agent.wire(),
            "ConcurrentFsOut"@,
            result,
            files_marker(many)@,
            files_marker(many)@,
        ),
{
    leaf_outcome(
        agent.name(),
        "ConcurrentFsOut",
        result,
        files_marker(many),
        files_marker(many),
    )
}

/// The text that a report of success holds.
#[verifier::allow_in_spec]
pub fn files_marker(many: bool) -> &'static str
    returns
        (if many {
            "CONCURRENT_FS_MULTI_OK"
        } else {
            "CONCURRENT_FS_OK"
        }),
{
    if many {
        "CONCURRENT_FS_MULTI_OK"
    } else {
        "CONCURRENT_FS_OK"
    }
}

/// How long a shell command of these tests may take.
pub const SHELL_MILLIS: u64 = 15_000;

/// How many pipelines there are.
pub const PIPELINES: usize = 6;

/// Name, command and expected text of a pipeline.
#[verifier::allow_in_spec]
pub fn pipeline(k: usize) -> (&'static str, &'static str, &'static str)
    returns
        (if k == 0 {
            (
                "pipe2_cat",
                "echo pipe2_ok | cat",
                "pipe2_ok",
            )
        } else if k == 1 {
            (
                "pipe3_cat",
                "echo pipe3_ok | cat | cat",
                "pipe3_ok",
            )
        } else if k == 2 {
            (
                "pipe3_grep",
                "echo pipe3_grep_ok | grep pipe3 | cat",
                "pipe3_grep_ok",
            )
        } else if k == 3 {
            (
                "pipe4_vscode",
                "echo 'pipe4_vscode_ok: test' | cat | grep pipe4 | sed 's/test/pass/'",
                "pipe4_vscode_ok: pass",
            )
        } else if k == 4 {
            (
                "pipe4_mixed",
                "echo -e 'x\\npipe4_mixed_ok\\ny' | sort | grep mixed | tr '[:lower:]' '[:upper:]'",
                "PIPE4_MIXED_OK",
            )
        } else {
            (
                "sequential_control",
                "echo seq_a > /tmp/cf_test && cat /tmp/cf_test && rm /tmp/cf_test",
                "seq_a",
            )
        }),
{
    if k == 0 {
        (
                "pipe2_cat",
                "echo pipe2_ok | cat",
                "pipe2_ok",
            )
    } else if k == 1 {
        (
                "pipe3_cat",
                "echo pipe3_ok | cat | cat",
                "pipe3_ok",
            )
    } else if k == 2 {
        (
                "pipe3_grep",
                "echo pipe3_grep_ok | grep pipe3 | cat",
                "pipe3_grep_ok",
            )
    } else if k == 3 {
        (
                "pipe4_vscode",
                "echo 'pipe4_vscode_ok: test' | cat | grep pipe4 | sed 's/test/pass/'",
                "pipe4_vscode_ok: pass",
            )
    } else if k == 4 {
        (
                "pipe4_mixed",
                "echo -e 'x\\npipe4_mixed_ok\\ny' | sort | grep mixed | tr '[:lower:]' '[:upper:]'",
                "PIPE4_MIXED_OK",
            )
    } else {
        (
                "sequential_control",
                "echo seq_a > /tmp/cf_test && cat /tmp/cf_test && rm /tmp/cf_test",
                "seq_a",
            )
    }
}

/// A shell command ended well and its output, without white space around it, holds the text.
pub open spec fn shell_prints(r: Result<BashOut, String>, text: Seq<char>) -> bool {
    r matches Ok(out) && out.exit_code == 0 && contains_text(trim_text(out.stdout@), text)
}

/// The verdict on a pipeline.
pub fn pipeline_outcome(agent: AgentName, k: usize, result: Result<BashOut, String>) -> (o:
    TestOutcome)
    ensures
        o@ == (OutcomeView {
            agent: agent.wire(),
            pass: shell_prints(result, pipeline(k).2@),
            detail: bash_result_text(result),
        }),
{
    let detail = bash_result_debug(&result);
    let pass = match &result {
        Ok(out) => out.exit_code == 0 && contains(trim(out.stdout.as_str()), pipeline(k).2),
        Err(_) => false,
    };
    TestOutcome::new(agent.name(), pass, detail)
}

/// How many pipeline tests there are: each pipeline on each agent, and two of them on an
/// agent of another binary type.
pub const PIPELINE_TESTS: usize = 20;

/// Agent and pipeline of the test at a position.
pub open spec fn pipeline_case(t: int) -> (AgentName, int) {
    if t < 18 {
        (cf_agent((t / 6) as usize), t % 6)
    } else if t == 18 {
        (AgentName::Dpg1Dng, 3)
    } else {
        (AgentName::Dpg1Dng, 5)
    }
}

/// The pipeline test at a position.
pub open spec fn pipeline_row(t: int) -> PlanView {
    let (a, k) = pipeline_case(t);
    on_agents(
        Group { suite: "xworker", family: "concurrent_fork_pipeline", timeout_secs: Some(90) },
        "CF."@ + pipeline(k as usize).0@ + "."@ + a.wire(),
        Handler::Named("common.bash"),
        seq![a],
    )
}

fn pipeline_plan(t: usize) -> (r: TestPlan)
    requires
        t < PIPELINE_TESTS,
    ensures
        r@ == pipeline_row(t as int),
{
    let (a, k): (AgentName, usize) = if t < 18 {
        (cf_agent(t / 6), t % 6)
    } else if t == 18 {
        (AgentName::Dpg1Dng, 3)
    } else {
        (AgentName::Dpg1Dng, 5)
    };
    let g = Group { suite: "xworker", family: "concurrent_fork_pipeline", timeout_secs: Some(90) };
    let mut id = cat3("CF.", pipeline(k).0, ".");
    id.append(a.name());
    plan_on(g, id, Handler::Named("common.bash"), a)
}

/// The pipeline tests, in order.
pub fn register_concurrent_fork_pipeline() -> (r: Vec<TestPlan>)
    ensures
        plan_views(r@) == Seq::new(PIPELINE_TESTS as nat, |t: int| pipeline_row(t)),
{
    let mut out: Vec<TestPlan> = Vec::new();
    let mut t: usize = 0;
    while t < PIPELINE_TESTS
        invariant
            t <= PIPELINE_TESTS,
            out@.len() == t,
            forall|k: int| 0 <= k < t ==> (#[trigger] out@[k])@ == pipeline_row(k),
        decreases PIPELINE_TESTS - t,
    {
        out.push(pipeline_plan(t));
        t = t + 1;
    }
    assert(plan_views(out@) =~= Seq::new(PIPELINE_TESTS as nat, |t: int| pipeline_row(t)));
    out
}

/// The shell command that runs a program so many times side by side and waits for all.
pub open spec fn parallel_text(target: Seq<char>, n: nat) -> Seq<char> {
    join_text(Seq::new(n, |i: int| target + " echo-test &"@), " "@) + " wait"@
}

/// The shell command that runs a program so many times side by side and waits for all.
pub fn parallel_command(target: &str, n: usize) -> (r: String)
    ensures
        r@ == parallel_text(target@, n as nat),
{
    let mut pieces: Vec<String> = Vec::new();
    let mut i: usize = 0;
    while i < n
        invariant
            i <= n,
            pieces@.len() == i,
            forall|k: int| 0 <= k < i ==> (#[trigger] pieces@[k])@ == target@ + " echo-test &"@,
        decreases n - i,
    {
        pieces.push(cat(target, " echo-test &"));
        i = i + 1;
    }
    assert(texts(pieces@) =~= Seq::new(n as nat, |i: int| target@ + " echo-test &"@));
    let body = join(&pieces, " ");
    cat(body.as_str(), " wait")
}

/// The verdict on programs side by side: each printed its text.
pub fn parallel_outcome(agent: AgentName, n: usize, result: Result<BashOut, String>) -> (o:
    TestOutcome)
    ensures
        o@ == (OutcomeView {
            agent: agent.wire(),
            pass: result matches Ok(out) && out.exit_code == 0 && count_text(
                out.stdout@,
                "ECHO_TEST_OK"@,
            ) == n,
            detail: match result {
                Ok(out) => "got "@ + dec_text(count_text(out.stdout@, "ECHO_TEST_OK"@)) + "/"@
                    + dec_text(n as nat) + " ECHO_TEST_OK"@,
                Err(_) => bash_result_text(result),
            },
        }),
{
    proof {
        reveal_strlit("ECHO_TEST_OK");
    }
    match &result {
        Ok(out) => {
            let seen: usize = count(out.stdout.as_str(), "ECHO_TEST_OK");
            let a = dec(seen as u64);
            let b = dec(n as u64);
            let mut detail = cat3("got ", a.as_str(), "/");
            detail.append(b.as_str());
            detail.append(" ECHO_TEST_OK");
            TestOutcome::new(agent.name(), out.exit_code == 0 && seen == n, detail)
        },
        Err(_) => TestOutcome::new(agent.name(), false, bash_result_debug(&result)),
    }
}

/// How many tests there are of programs side by side: two, three and four, for each binary
/// type, on each agent.
pub const PARALLEL_TESTS: usize = 45;

/// The test of programs side by side at a position.
pub open spec fn parallel_row(t: int) -> PlanView {
    let a = cf_agent((t % 3) as usize);
    on_agents(
        Group { suite: "xworker", family: "concurrent_exec", timeout_secs: Some(90) },
        "CF.concurrent_exec_"@ + dec_text((2 + t / 15) as nat) + "."@ + binary_at(
            (t / 3) % 5,
        ).label_text() + "."@ + a.wire(),
        Handler::Named("common.bash"),
        seq![a],
    )
}

fn parallel_plan(t: usize) -> (r: TestPlan)
    requires
        t < PARALLEL_TESTS,
    ensures
        r@ == parallel_row(t as int),
{
    let a = cf_agent(t % 3);
    let g = Group { suite: "xworker", family: "concurrent_exec", timeout_secs: Some(90) };
    let n = dec((2 + t / 15) as u64);
    let mut id = cat3("CF.concurrent_exec_", n.as_str(), ".");
    id.append(binary_type((t / 3) % 5).label());
    id.append(".");
    id.append(a.name());
    plan_on(g, id, Handler::Named("common.bash"), a)
}

/// The tests of programs side by side, in order.
pub fn register_concurrent_exec() -> (r: Vec<TestPlan>)
    ensures
        plan_views(r@) == Seq::new(PARALLEL_TESTS as nat, |t: int| parallel_row(t)),
{
    let mut out: Vec<TestPlan> = Vec::new();
    let mut t: usize = 0;
    while t < PARALLEL_TESTS
        invariant
            t <= PARALLEL_TESTS,
            out@.len() == t,
            forall|k: int| 0 <= k < t ==> (#[trigger] out@[k])@ == parallel_row(k),
        decreases PARALLEL_TESTS - t,
    {
        out.push(parallel_plan(t));
        t = t + 1;
    }
    assert(plan_views(out@) =~= Seq::new(PARALLEL_TESTS as nat, |t: int| parallel_row(t)));
    out
}

/// Name, command and expected text of an install step; without a text any output will do.
#[verifier::allow_in_spec]
pub fn install_step(k: usize) -> (&'static str, &'static str, &'static str)
    returns
        (if k == 0 {
            (
                "proc_cat_grep",
                "cat /proc/loadavg | grep -o '[0-9]'",
                "",
            )
        } else if k == 1 {
            (
                "proc_pipeline_3",
                "cat /proc/cpuinfo | grep -i 'model name' | head -1",
                "",
            )
        } else if k == 2 {
            (
                "proc_pipeline_4",
                "cat /proc/meminfo | grep MemTotal | sed 's/MemTotal://' | sed 's/ //g'",
                "kB",
            )
        } else {
            (
                "uname_pipeline",
                "uname -a | grep -o 'Linux' | head -1",
                "Linux",
            )
        }),
{
    if k == 0 {
        (
                "proc_cat_grep",
                "cat /proc/loadavg | grep -o '[0-9]'",
                "",
            )
    } else if k == 1 {
        (
                "proc_pipeline_3",
                "cat /proc/cpuinfo | grep -i 'model name' | head -1",
                "",
            )
    } else if k == 2 {
        (
                "proc_pipeline_4",
                "cat /proc/meminfo | grep MemTotal | sed 's/MemTotal://' | sed 's/ //g'",
                "kB",
            )
    } else {
        (
                "uname_pipeline",
                "uname -a | grep -o 'Linux' | head -1",
                "Linux",
            )
    }
}

/// The step ended well and printed what is expected of it.
pub open spec fn install_passes(r: Result<BashOut, String>, expected: Seq<char>) -> bool {
    r matches Ok(out) && out.exit_code == 0 && if expected.len() == 0 {
        trim_text(out.stdout@).len() > 0
    } else {
        contains_text(out.stdout@, expected)
    }
}

/// The verdict on an install step.
pub fn install_outcome(agent: AgentName, k: usize, result: Result<BashOut, String>) -> (o:
    TestOutcome)
    ensures
        o@ == (OutcomeView {
            agent: agent.wire(),
            pass: install_passes(result, install_step(k).2@),
            detail: bash_result_text(result),
        }),
{
    let detail = bash_result_debug(&result);
    let expected = install_step(k).2;
    let pass = match &result {
        Ok(out) => out.exit_code == 0 && if expected.unicode_len() == 0 {
            trim(out.stdout.as_str()).unicode_len() > 0
        } else {
            contains(out.stdout.as_str(), expected)
        },
        Err(_) => false,
    };
    TestOutcome::new(agent.name(), pass, detail)
}

/// How many install step tests there are.
pub const INSTALL_TESTS: usize = 12;

/// The install step test at a position.
pub open spec fn install_row(t: int) -> PlanView {
    let a = cf_agent((t / 4) as usize);
    on_agents(
        Group { suite: "xworker", family: "vscode_install_pipeline", timeout_secs: Some(90) },
        "CF.vscode."@ + install_step((t % 4) as usize).0@ + "."@ + a.wire(),
        Handler::Named("common.bash"),
        seq![a],
    )
}

fn install_plan(t: usize) -> (r: TestPlan)
    requires
        t < INSTALL_TESTS,
    ensures
        r@ == install_row(t as int),
{
    let a = cf_agent(t / 4);
    let g = Group { suite: "xworker", family: "vscode_install_pipeline", timeout_secs: Some(90) };
    let mut id = cat3("CF.vscode.", install_step(t % 4).0, ".");
    id.append(a.name());
    plan_on(g, id, Handler::Named("common.bash"), a)
}

/// The install step tests, in order.
pub fn register_vscode_install_pipeline() -> (r: Vec<TestPlan>)
    ensures
        plan_views(r@) == Seq::new(INSTALL_TESTS as nat, |t: int| install_row(t)),
{
    let mut out: Vec<TestPlan> = Vec::new();
    let mut t: usize = 0;
    while t < INSTALL_TESTS
        invariant
            t <= INSTALL_TESTS,
            out@.len() == t,
            forall|k: int| 0 <= k < t ==> (#[trigger] out@[k])@ == install_row(k),
        decreases INSTALL_TESTS - t,
    {
        out.push(install_plan(t));
        t = t + 1;
    }
    assert(plan_views(out@) =~= Seq::new(INSTALL_TESTS as nat, |t: int| install_row(t)));
    out
}

/// How many children open files in a test: two, three or four open one file; three, four
/// or six open many.
#[verifier::allow_in_spec]
pub fn openers(many: bool, k: usize) -> u64
    returns
        (if k == 0 {
            if many {
                3u64
            } else {
                2u64
            }
        } else if k == 1 {
            if many {
                4u64
            } else {
                3u64
            }
        } else {
            if many {
                6u64
            } else {
                4u64
            }
        }),
{
    if k == 0 {
        if many {
            3
        } else {
            2
        }
    } else if k == 1 {
        if many {
            4
        } else {
            3
        }
    } else {
        if many {
            6
        } else {
            4
        }
    }
}

/// How many tests there are of children that open files.
pub const FILES_TESTS: usize = 90;

/// The test of children that open files at a position: first one file, then many.
pub open spec fn files_row(t: int) -> PlanView {
    let many = t >= 45;
    let u = if many {
        t - 45
    } else {
        t
    };
    let n = dec_text(openers(many, (u / 15) as usize) as nat);
    let bt = binary_at((u / 3) % 5);
    let a = cf_agent((u % 3) as usize);
    let g = Group { suite: "xworker", family: "concurrent_fs_rwlock", timeout_secs: Some(90) };
    if many {
        on_leaf(
            g,
            "CF.rwlock_multi_"@ + n + "."@ + bt.label_text() + "."@ + a.wire(),
            Handler::Named("concurrent_fork.concurrent_fs_multi"),
            a,
            "ConcurrentFsMultiLeaf"@ + n + bt.short_text() + a.wire(),
            bt.fork_text(),
        )
    } else {
        on_leaf(
            g,
            "CF.rwlock_"@ + n + "."@ + bt.label_text() + "."@ + a.wire(),
            Handler::Named("concurrent_fork.concurrent_fs"),
            a,
            "ConcurrentFsLeaf"@ + n + bt.short_text() + a.wire(),
            bt.fork_text(),
        )
    }
}

fn files_plan(t: usize) -> (r: TestPlan)
    requires
        t < FILES_TESTS,
    ensures
        r@ == files_row(t as int),
{
    let many = t >= 45;
    let u: usize = if many {
        t - 45
    } else {
        t
    };
    let n = dec(openers(many, u / 15));
    let bt = binary_type((u / 3) % 5);
    let a = cf_agent(u % 3);
    let g = Group { suite: "xworker", family: "concurrent_fs_rwlock", timeout_secs: Some(90) };
    if many {
        let mut id = cat3("CF.rwlock_multi_", n.as_str(), ".");
        id.append(bt.label());
        id.append(".");
        id.append(a.name());
        let mut label = cat3("ConcurrentFsMultiLeaf", n.as_str(), bt.short_label());
        label.append(a.name());
        plan_on_leaf(
            g,
            id,
            Handler::Named("concurrent_fork.concurrent_fs_multi"),
            a,
            label.as_str(),
            fork_binary_label(bt),
        )
    } else {
        let mut id = cat3("CF.rwlock_", n.as_str(), ".");
        id.append(bt.label());
        id.append(".");
        id.append(a.name());
        let mut label = cat3("ConcurrentFsLeaf", n.as_str(), bt.short_label());
        label.append(a.name());
        plan_on_leaf(
            g,
            id,
            Handler::Named("concurrent_fork.concurrent_fs"),
            a,
            label.as_str(),
            fork_binary_label(bt),
        )
    }
}

/// The tests of children that open files, in order.
pub fn register_concurrent_fs_rwlock() -> (r: Vec<TestPlan>)
    ensures
        plan_views(r@) == Seq::new(FILES_TESTS as nat, |t: int| files_row(t)),
{
    let mut out: Vec<TestPlan> = Vec::new();
    let mut t: usize = 0;
    while t < FILES_TESTS
        invariant
            t <= FILES_TESTS,
            out@.len() == t,
            forall|k: int| 0 <= k < t ==> (#[trigger] out@[k])@ == files_row(k),
        decreases FILES_TESTS - t,
    {
        out.push(files_plan(t));
        t = t + 1;
    }
    assert(plan_views(out@) =~= Seq::new(FILES_TESTS as nat, |t: int| files_row(t)));
    out
}

/// Name and script of a test that writes a file.
#[verifier::allow_in_spec]
pub fn writer(k: usize) -> (&'static str, &'static str)
    returns
        (if k == 0 {
            ("echo", "echo $(echo hello) > {path}")
        } else if k == 1 {
            ("fork_exec", "{exe} echo-test > {path} 2>&1")
        } else if k == 2 {
            ("pipe_capture", "echo $(echo data | cat) > {path}")
        } else {
            ("file_write", "echo agent-wrote-{agent} > {path}")
        }),
{
    if k == 0 {
        ("echo", "echo $(echo hello) > {path}")
    } else if k == 1 {
        ("fork_exec", "{exe} echo-test > {path} 2>&1")
    } else if k == 2 {
        ("pipe_capture", "echo $(echo data | cat) > {path}")
    } else {
        ("file_write", "echo agent-wrote-{agent} > {path}")
    }
}

/// Where a test writes its file.
pub open spec fn writer_path_text(k: usize, agent: Seq<char>) -> Seq<char> {
    "/shared/cc-"@ + writer(k).0@ + "-"@ + agent + ".txt"@
}

/// Where a test writes its file.
pub fn writer_path(k: usize, agent: AgentName) -> (r: String)
    ensures
        r@ == writer_path_text(k, agent.wire()),
{
    let mut text = cat3("/shared/cc-", writer(k).0, "-");
    text.append(agent.name());
    text.append(".txt");
    text
}

/// The script of a test, with the path, the program and the agent filled in, in this order.
pub open spec fn writer_script_text(k: usize, path: Seq<char>, exe: Seq<char>, agent: Seq<char>) -> Seq<
    char,
> {
    replace_text(
        replace_text(replace_text(writer(k).1@, "{path}"@, path), "{exe}"@, exe),
        "{agent}"@,
        agent,
    )
}

/// What the agent runs to write the file.
pub fn writer_args(k: usize, path: &str, exe: &str, agent: AgentName) -> (r: ExecArgs)
    ensures
        texts(r.args@) == seq![
            "bash"@,
            "-c"@,
            writer_script_text(k, path@, exe@, agent.wire()),
        ],
        r.timeout_secs == Some(10u64),
        r.stdin is None,
        !r.background,
        r.env@.len() == 0,
{
    proof {
        reveal_strlit("{path}");
        reveal_strlit("{exe}");
        reveal_strlit("{agent}");
    }
    let a = replace(writer(k).1, "{path}", path);
    let b = replace(a.as_str(), "{exe}", exe);
    let c = replace(b.as_str(), "{agent}", agent.name());
    let args = vec!["bash".to_string(), "-c".to_string(), c];
    assert(texts(args@) =~= seq![
        "bash"@,
        "-c"@,
        writer_script_text(k, path@, exe@, agent.wire()),
    ]);
    ExecArgs { args, timeout_secs: Some(10), stdin: None, background: false, env: Vec::new() }
}

/// The file holds what the test wrote.
pub open spec fn writer_accepts(k: usize, data: Seq<char>) -> bool {
    if k == 0 {
        trim_text(data) == "hello"@
    } else if k == 1 {
        contains_text(data, "ECHO_TEST_OK"@)
    } else if k == 2 {
        trim_text(data) == "data"@
    } else {
        contains_text(data, "agent-wrote-"@)
    }
}

/// The verdict where the file could not be written; nothing where it was.
pub fn writer_failed(agent: AgentName, r: &Response) -> (o: Option<TestOutcome>)
    ensures
        match o {
            None => r@ matches ResponseView::ExecResult { exit_code, .. } && exit_code == 0,
            Some(x) => !(r@ matches ResponseView::ExecResult { exit_code, .. } && exit_code == 0)
                && x@ == (OutcomeView {
                agent: agent.wire(),
                pass: false,
                detail: "writer failed: "@ + r@.debug(),
            }),
        },
{
    let written = match r {
        Response::ExecResult { exit_code, stdout: _, stderr: _ } => *exit_code == 0,
        _ => false,
    };
    if written {
        None
    } else {
        let shown = r.debug_text();
        Some(TestOutcome::new(agent.name(), false, cat("writer failed: ", shown.as_str())))
    }
}

/// The verdict on what was read back from the file.
pub fn writer_outcome(agent: AgentName, k: usize, r: &Response) -> (o: TestOutcome)
    ensures
        o@ == (OutcomeView {
            agent: agent.wire(),
            pass: r@ matches ResponseView::Done { data: Some(d) } && writer_accepts(k, d),
            detail: r@.debug(),
        }),
{
    let pass = match r {
        Response::Done { data: Some(d) } => if k == 0 {
            same(trim(d.as_str()), "hello")
        } else if k == 1 {
            contains(d.as_str(), "ECHO_TEST_OK")
        } else if k == 2 {
            same(trim(d.as_str()), "data")
        } else {
            contains(d.as_str(), "agent-wrote-")
        },
        _ => false,
    };
    TestOutcome::new(agent.name(), pass, r.debug_text())
}

/// How many tests write a file.
pub const WRITER_TESTS: usize = 12;

/// The test that writes a file at a position.
pub open spec fn writer_row(t: int) -> PlanView {
    let a = cf_agent((t % 3) as usize);
    on_agents(
        Group { suite: "fork", family: "concurrent_fork", timeout_secs: Some(60) },
        "CC."@ + writer((t / 3) as usize).0@ + "."@ + a.wire(),
        Handler::RunProgram,
        seq![a],
    )
}

fn writer_plan(t: usize) -> (r: TestPlan)
    requires
        t < WRITER_TESTS,
    ensures
        r@ == writer_row(t as int),
{
    let a = cf_agent(t % 3);
    let g = Group { suite: "fork", family: "concurrent_fork", timeout_secs: Some(60) };
    let mut id = cat3("CC.", writer(t / 3).0, ".");
    id.append(a.name());
    plan_on(g, id, Handler::RunProgram, a)
}

/// The tests that write a file, in order.
pub fn register_concurrent_fork_tests() -> (r: Vec<TestPlan>)
    ensures
        plan_views(r@) == Seq::new(WRITER_TESTS as nat, |t: int| writer_row(t)),
{
    let mut out: Vec<TestPlan> = Vec::new();
    let mut t: usize = 0;
    while t < WRITER_TESTS
        invariant
            t <= WRITER_TESTS,
            out@.len() == t,
            forall|k: int| 0 <= k < t ==> (#[trigger] out@[k])@ == writer_row(k),
        decreases WRITER_TESTS - t,
    {
        out.push(writer_plan(t));
        t = t + 1;
    }
    assert(plan_views(out@) =~= Seq::new(WRITER_TESTS as nat, |t: int| writer_row(t)));
    out
}

/// A pipeline passes exactly if its command ended with code zero and its text stands in the
/// output; a command that did not run never passes.
pub proof fn law_pipeline_verdict(r: Result<BashOut, String>, text: Seq<char>)
    ensures
        r is Err ==> !shell_prints(r, text),
        r matches Ok(out) ==> (shell_prints(r, text) <==> out.exit_code == 0 && contains_text(
            trim_text(out.stdout@),
            text,
        )),
{
}

/// An install step passes exactly if its command ended with code zero and printed its text or,
/// where it has none, anything but white space.
pub proof fn law_install_verdict(r: Result<BashOut, String>, expected: Seq<char>)
    ensures
        r is Err ==> !install_passes(r, expected),
        r matches Ok(out) ==> {
            &&& out.exit_code != 0 ==> !install_passes(r, expected)
            &&& out.exit_code == 0 && expected.len() == 0 ==> (install_passes(r, expected)
                <==> trim_text(out.stdout@).len() > 0)
            &&& out.exit_code == 0 && expected.len() > 0 ==> (install_passes(r, expected)
                <==> contains_text(out.stdout@, expected))
        },
{
}

/// A command for programs side by side starts one more for each more that is asked for, each in
/// the background, and waits at its end.
pub proof fn law_parallel_command(target: Seq<char>, n: nat)
    requires
        n > 0,
    ensures
        parallel_text(target, 1) == target + " echo-test &"@ + " wait"@,
        parallel_text(target, n + 1) == parallel_text(target, n).take(
            parallel_text(target, n).len() - 5,
        ) + " "@ + target + " echo-test &"@ + " wait"@,
{
    reveal_strlit(" wait");
    let piece = target + " echo-test &"@;
    let a = Seq::new(n, |i: int| piece);
    let b = Seq::new(n + 1, |i: int| piece);
    assert(b.drop_last() =~= a);
    let one = Seq::new(1, |i: int| piece);
    assert(join_text(one, " "@) == piece);
    assert(parallel_text(target, n) == join_text(a, " "@) + " wait"@);
    assert(parallel_text(target, n).take(parallel_text(target, n).len() - 5) =~= join_text(a, " "@));
    assert(join_text(b, " "@) == join_text(a, " "@) + " "@ + piece);
    let head = join_text(a, " "@) + " "@;
    assert(head + piece =~= head + target + " echo-test &"@);
}

/// What a test must find in the file that it wrote: the whole word, white space around it aside,
/// for the two that write a word; a text in it for the others.
pub proof fn law_written_files(data: Seq<char>)
    ensures
        writer_accepts(0, data) <==> trim_text(data) == "hello"@,
        writer_accepts(1, data) <==> contains_text(data, "ECHO_TEST_OK"@),
        writer_accepts(2, data) <==> trim_text(data) == "data"@,
        writer_accepts(3, data) <==> contains_text(data, "agent-wrote-"@),
{
}

/// Each test that writes a file writes one of its own: the path tells the tests apart, and the
/// agents.
pub proof fn law_writer_paths(k: usize, a: Seq<char>, b: Seq<char>)
    ensures
        writer_path_text(k, a) == "/shared/cc-"@ + writer(k).0@ + "-"@ + a + ".txt"@,
        writer_path_text(k, a) == writer_path_text(k, b) ==> a == b,
{
    let head = "/shared/cc-"@ + writer(k).0@ + "-"@;
    let (x, y) = (writer_path_text(k, a), writer_path_text(k, b));
    assert(x == head + a + ".txt"@);
    assert(y == head + b + ".txt"@);
    if x == y {
        assert(a.len() == b.len());
        assert(a =~= x.subrange(head.len() as int, (head.len() + a.len()) as int));
        assert(b =~= y.subrange(head.len() as int, (head.len() + b.len()) as int));
    }
}

/// Each pipeline is tested on each of the three agents, and the last two tests are on an agent of
/// another binary type.
pub proof fn law_pipelines_on_every_agent(a: int, k: int)
    requires
        0 <= a < 3,
        0 <= k < 6,
    ensures
        pipeline_case(6 * a + k) == (cf_agent(a as usize), k),
        pipeline_case(18) == (AgentName::Dpg1Dng, 3int),
        pipeline_case(19) == (AgentName::Dpg1Dng, 5int),
        pipeline_row(6 * a + k).agents == seq![cf_agent(a as usize)],
        pipeline_row(6 * a + k).timeout_secs == Some(90u64),
        pipeline_row(6 * a + k).id == "CF."@ + pipeline(k as usize).0@ + "."@ + cf_agent(
            a as usize,
        ).wire(),
{
    assert((6 * a + k) / 6 == a && (6 * a + k) % 6 == k);
}

/// Two, three and four programs side by side are tested for each binary type on each agent.
pub proof fn law_parallel_covers(n: int, b: int, a: int)
    requires
        0 <= n < 3,
        0 <= b < 5,
        0 <= a < 3,
    ensures
        ({
            let t = 15 * n + 3 * b + a;
            &&& 0 <= t < PARALLEL_TESTS
            &&& parallel_row(t).id == "CF.concurrent_exec_"@ + dec_text((2 + n) as nat) + "."@
                + binary_at(b).label_text() + "."@ + cf_agent(a as usize).wire()
            &&& parallel_row(t).agents == seq![cf_agent(a as usize)]
            &&& parallel_row(t).timeout_secs == Some(90u64)
        }),
{
    let t = 15 * n + 3 * b + a;
    assert(t / 15 == n && t / 3 == 5 * n + b && (t / 3) % 5 == b && t % 3 == a);
}

/// Each install step is tested on each of the three agents.
pub proof fn law_install_covers(a: int, k: int)
    requires
        0 <= a < 3,
        0 <= k < 4,
    ensures
        ({
            let t = 4 * a + k;
            &&& 0 <= t < INSTALL_TESTS
            &&& install_row(t).id == "CF.vscode."@ + install_step(k as usize).0@ + "."@ + cf_agent(
                a as usize,
            ).wire()
            &&& install_row(t).agents == seq![cf_agent(a as usize)]
        }),
{
    assert((4 * a + k) / 4 == a && (4 * a + k) % 4 == k);
}

/// Opening one file and opening many are tested with three numbers of children, for each binary
/// type on each agent; each test has a leaf of its own binary type under its agent.
pub proof fn law_files_cover(many: bool, n: int, b: int, a: int)
    requires
        0 <= n < 3,
        0 <= b < 5,
        0 <= a < 3,
    ensures
        ({
            let t = (if many {
                45int
            } else {
                0int
            }) + 15 * n + 3 * b + a;
            let p = files_row(t);
            &&& 0 <= t < FILES_TESTS
            &&& p.id == (if many {
                "CF.rwlock_multi_"@
            } else {
                "CF.rwlock_"@
            }) + dec_text(openers(many, n as usize) as nat) + "."@ + binary_at(b).label_text()
                + "."@ + cf_agent(a as usize).wire()
            &&& p.handler == Handler::Named(
                if many {
                    "concurrent_fork.concurrent_fs_multi"
                } else {
                    "concurrent_fork.concurrent_fs"
                },
            )
            &&& p.leaves.len() == 1
            &&& p.leaves[0].parent == cf_agent(a as usize)
            &&& p.leaves[0].kind == (crate::registry::KindView::Fork {
                binary: binary_at(b).fork_text(),
                ports: Seq::empty(),
            })
        }),
{
    let u = 15 * n + 3 * b + a;
    assert(u / 15 == n && u / 3 == 5 * n + b && (u / 3) % 5 == b && u % 3 == a);
}

/// Each way to write a file is tested on each of the three agents.
pub proof fn law_writers_cover(k: int, a: int)
    requires
        0 <= k < 4,
        0 <= a < 3,
    ensures
        ({
            let t = 3 * k + a;
            &&& 0 <= t < WRITER_TESTS
            &&& writer_row(t).id == "CC."@ + writer(k as usize).0@ + "."@ + cf_agent(
                a as usize,
            ).wire()
            &&& writer_row(t).agents == seq![cf_agent(a as usize)]
        }),
{
    assert((3 * k + a) / 3 == k && (3 * k + a) % 3 == a);
}

/// The first place of a pattern takes the text that is put there, and what stands before is kept.
proof fn lemma_replace_at(a: Seq<char>, pat: Seq<char>, b: Seq<char>, with: Seq<char>)
    requires
        pat.len() > 1,
        forall|i: int|
            0 <= i < a.len() ==> #[trigger] a[i] != pat[0] || (i + 1 < a.len() && a[i + 1] != pat[1]),
    ensures
        replace_text(a + pat + b, pat, with) == a + with + replace_text(b, pat, with),
    decreases a.len(),
{
    let all = a + pat + b;
    if a.len() == 0 {
        assert(all =~= pat + b);
        law_replace_from_the_left(' ', b, pat, with);
        assert(a + with + replace_text(b, pat, with) =~= with + replace_text(b, pat, with));
    } else {
        let rest = a.skip(1) + pat + b;
        assert(all =~= seq![a[0]] + rest);
        if starts_with_text(all, pat) {
            let head = all.subrange(0, pat.len() as int);
            assert(head[0] == all[0] && head[1] == all[1]);
            assert(all[0] == a[0]);
            if a.len() > 1 {
                assert(all[1] == a[1]);
            }
        }
        law_replace_from_the_left(a[0], rest, pat, with);
        assert forall|i: int| 0 <= i < a.skip(1).len() implies #[trigger] a.skip(1)[i] != pat[0] || (i
            + 1 < a.skip(1).len() && a.skip(1)[i + 1] != pat[1]) by {
            assert(a.skip(1)[i] == a[i + 1]);
        }
        lemma_replace_at(a.skip(1), pat, b, with);
        assert(a + with + replace_text(b, pat, with) =~= seq![a[0]] + (a.skip(1) + with
            + replace_text(b, pat, with)));
    }
}

/// A text without a brace holds no place to fill.
proof fn lemma_nothing_to_fill(s: Seq<char>, pat: Seq<char>, with: Seq<char>)
    requires
        pat.len() > 0,
        pat[0] == '{',
        forall|i: int| 0 <= i < s.len() ==> s[i] != '{',
    ensures
        replace_text(s, pat, with) == s,
{
    if contains_text(s, pat) {
        let at = choose|at: int| occurs_at(s, pat, at);
        assert(s.subrange(at, at + pat.len())[0] == s[at]);
    }
    law_replace_leaves_the_rest(s, pat, with);
}

/// The script of a test writes to the path that it is given, and runs the program or names the
/// agent that it is given.
pub proof fn law_writer_scripts(path: Seq<char>, exe: Seq<char>, agent: Seq<char>)
    requires
        forall|i: int| 0 <= i < path.len() ==> path[i] != '{',
        forall|i: int| 0 <= i < exe.len() ==> exe[i] != '{',
        forall|i: int| 0 <= i < agent.len() ==> agent[i] != '{',
    ensures
        writer_script_text(0, path, exe, agent) == "echo $(echo hello) > "@ + path,
        writer_script_text(1, path, exe, agent) == exe + " echo-test > "@ + path + " 2>&1"@,
        writer_script_text(2, path, exe, agent) == "echo $(echo data | cat) > "@ + path,
        writer_script_text(3, path, exe, agent) == "echo agent-wrote-"@ + agent + " > "@ + path,
{
    reveal_strlit("{path}");
    reveal_strlit("{exe}");
    reveal_strlit("{agent}");
    let none = Seq::<char>::empty();
    assert forall|pat: Seq<char>, with: Seq<char>| #[trigger] replace_text(none, pat, with)
        == none by {
        law_replace_leaves_the_rest(none, pat, with);
        if contains_text(none, pat) {
            assert(replace_text(none, pat, with) =~= none);
        }
    }
    assert(writer_script_text(0, path, exe, agent) == "echo $(echo hello) > "@ + path) by {
        reveal_strlit("echo $(echo hello) > {path}");
        reveal_strlit("echo $(echo hello) > ");
        let a = "echo $(echo hello) > "@;
        assert("echo $(echo hello) > {path}"@ =~= a + "{path}"@ + none);
        lemma_replace_at(a, "{path}"@, none, path);
        let s = a + path;
        assert(a + path + none =~= s);
        lemma_nothing_to_fill(s, "{exe}"@, exe);
        lemma_nothing_to_fill(s, "{agent}"@, agent);
    }
    assert(writer_script_text(2, path, exe, agent) == "echo $(echo data | cat) > "@ + path) by {
        reveal_strlit("echo $(echo data | cat) > {path}");
        reveal_strlit("echo $(echo data | cat) > ");
        let a = "echo $(echo data | cat) > "@;
        assert("echo $(echo data | cat) > {path}"@ =~= a + "{path}"@ + none);
        lemma_replace_at(a, "{path}"@, none, path);
        let s = a + path;
        assert(a + path + none =~= s);
        lemma_nothing_to_fill(s, "{exe}"@, exe);
        lemma_nothing_to_fill(s, "{agent}"@, agent);
    }
    assert(writer_script_text(1, path, exe, agent) == exe + " echo-test > "@ + path + " 2>&1"@) by {
        reveal_strlit("{exe} echo-test > {path} 2>&1");
        reveal_strlit(" echo-test > ");
        reveal_strlit(" 2>&1");
        let a = "{exe}"@ + " echo-test > "@;
        let b = " 2>&1"@;
        assert("{exe} echo-test > {path} 2>&1"@ =~= a + "{path}"@ + b);
        lemma_replace_at(a, "{path}"@, b, path);
        lemma_nothing_to_fill(b, "{path}"@, path);
        let rest = " echo-test > "@ + path + b;
        assert(a + path + b =~= none + "{exe}"@ + rest);
        lemma_replace_at(none, "{exe}"@, rest, exe);
        lemma_nothing_to_fill(rest, "{exe}"@, exe);
        let s = exe + " echo-test > "@ + path + b;
        assert(none + exe + rest =~= s);
        lemma_nothing_to_fill(s, "{agent}"@, agent);
    }
    assert(writer_script_text(3, path, exe, agent) == "echo agent-wrote-"@ + agent + " > "@ + path)
        by {
        reveal_strlit("echo agent-wrote-{agent} > {path}");
        reveal_strlit("echo agent-wrote-");
        reveal_strlit(" > ");
        let w = "echo agent-wrote-"@;
        let a = w + "{agent}"@ + " > "@;
        assert("echo agent-wrote-{agent} > {path}"@ =~= a + "{path}"@ + none);
        lemma_replace_at(a, "{path}"@, none, path);
        let t = a + path;
        assert(a + path + none =~= t);
        let rest = " > "@ + path;
        assert(t =~= w + "{agent}"@ + rest);
        assert forall|i: int| 0 <= i < t.len() implies #[trigger] t[i] != '{' || (i + 1 < t.len()
            && t[i + 1] != 'e') by {
            if i == w.len() {
                assert(t[i + 1] == 'a');
            }
        }
        if contains_text(t, "{exe}"@) {
            let at = choose|at: int| occurs_at(t, "{exe}"@, at);
            let piece = t.subrange(at, at + 5);
            assert(piece[0] == t[at] && piece[1] == t[at + 1]);
        }
        law_replace_leaves_the_rest(t, "{exe}"@, exe);
        lemma_replace_at(w, "{agent}"@, rest, agent);
        lemma_nothing_to_fill(rest, "{agent}"@, agent);
        assert(w + agent + rest =~= w + agent + " > "@ + path);
    }
}

/// The agents of the tests of concurrent children.
pub proof fn law_concurrent_agents()
    ensures
        cf_agent(0) == AgentName::Dpg1,
        cf_agent(1) == AgentName::Dpg1Dpg1,
        cf_agent(2) == AgentName::Dpg2,
{
}

/// A pipeline test runs a shell on its one agent and bears its name.
pub proof fn law_pipeline_rows(t: int)
    ensures
        pipeline_row(t).handler == Handler::Named("common.bash"),
        pipeline_row(t).agents.len() == 1,
        pipeline_row(t).leaves.len() == 0,
        pipeline_row(t).timeout_secs == Some(90u64),
        pipeline_row(t).agents[0] == pipeline_case(t).0,
{
}

} // verus!
