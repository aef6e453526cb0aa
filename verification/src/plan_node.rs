//! The scripts for Node.js and for mixes of binary types. They run last: a starting Node.js
//! can disturb the pipe that an agent answers on.

use vstd::prelude::*;
use crate::number::{base_text, dec_text};
use crate::script::{coherent, law_append_coherent, stage_fits, Absent, Accept, Call, Detail, Shape, Stage};
use crate::stages::{bare_guard, guard, quiet, repeat, series, single, skippable};
use crate::text::{contains_text, occurs_at, starts_with_text};

verus! {

/// Node.js run directly and from script files.
#[verifier::opaque]
pub open spec fn node_direct_stages() -> Seq<Stage> {
    seq![
        single("A", Call::Exec(Shape::Node("console.log('node_ok')")), "X26.node_direct", Accept::Prints("node_ok"), Detail::Plain),
        single("AA", Call::Exec(Shape::Node("console.log('node_deep_ok')")), "X27.node_deep", Accept::Prints("node_deep_ok"), Detail::Plain),
        single("A", Call::Exec(Shape::Bash("echo '#!/usr/bin/bash' > /tmp/x28.sh && echo 'echo script_echo_ok' >> /tmp/x28.sh && chmod +x /tmp/x28.sh && /tmp/x28.sh; EXIT=$?; rm -f /tmp/x28.sh; exit $EXIT")), "X28.script_file_echo", Accept::Prints("script_echo_ok"), Detail::Plain),
        single("A", Call::Exec(Shape::Bash("echo '#!/usr/bin/bash' > /tmp/x28b.sh && echo '/usr/local/bin/node -e \"console.log(\\\"script_node_ok\\\")\"' >> /tmp/x28b.sh && chmod +x /tmp/x28b.sh && /tmp/x28b.sh; EXIT=$?; rm -f /tmp/x28b.sh; exit $EXIT")), "X28b.script_file_node", Accept::Prints("script_node_ok"), Detail::Plain),
        single("A", Call::Exec(Shape::Bash("echo '#!/usr/bin/env bash' > /tmp/x28c.sh && echo '/usr/local/bin/node -e \"console.log(\\\"script_env_ok\\\")\"' >> /tmp/x28c.sh && chmod +x /tmp/x28c.sh && /tmp/x28c.sh; EXIT=$?; rm -f /tmp/x28c.sh; exit $EXIT")), "X28c.script_file_env", Accept::Prints("script_env_ok"), Detail::Plain),
        single("A", Call::Exec(Shape::Node("process.stdout.write('stdout_write_ok\\n')")), "X29.node_stdout_write", Accept::Prints("stdout_write_ok"), Detail::Plain),
        single("A", Call::Exec(Shape::Bash("echo '#!/usr/bin/bash' > /tmp/x30.sh && echo 'echo cat_input | cat' >> /tmp/x30.sh && chmod +x /tmp/x30.sh && /tmp/x30.sh; EXIT=$?; rm -f /tmp/x30.sh; exit $EXIT")), "X30.script_file_cat", Accept::Prints("cat_input"), Detail::Plain),
        single("A", Call::Exec(Shape::Bash("bash -c '/usr/local/bin/node -e \"console.log(\\\"nested_ok\\\")\"'")), "X31.nested_bash_node", Accept::Prints("nested_ok"), Detail::Plain),
        single("A", Call::Exec(Shape::BashOwn("echo '#!/usr/bin/bash' > /tmp/x32.sh && echo '{self_exe} echo-test' >> /tmp/x32.sh && chmod +x /tmp/x32.sh && /tmp/x32.sh; EXIT=$?; rm -f /tmp/x32.sh; exit $EXIT")), "X32.script_file_self_exe", Accept::Prints("ECHO_TEST_OK"), Detail::Plain),
        single("A", Call::Exec(Shape::Bash("echo '#!/usr/bin/bash' > /tmp/x33.sh && echo 'exec /usr/local/bin/node -e \"console.log(\\\"exec_ok\\\")\"' >> /tmp/x33.sh && chmod +x /tmp/x33.sh && /tmp/x33.sh; EXIT=$?; rm -f /tmp/x33.sh; exit $EXIT")), "X33.script_file_exec_node", Accept::Prints("exec_ok"), Detail::Plain),
    ]
}

fn node_direct() -> (r: Vec<Stage>)
    ensures
        r@ == node_direct_stages(),
        coherent(r@),
{
    let r: Vec<Stage> = vec![
        single("A", Call::Exec(Shape::Node("console.log('node_ok')")), "X26.node_direct", Accept::Prints("node_ok"), Detail::Plain),
        single("AA", Call::Exec(Shape::Node("console.log('node_deep_ok')")), "X27.node_deep", Accept::Prints("node_deep_ok"), Detail::Plain),
        single("A", Call::Exec(Shape::Bash("echo '#!/usr/bin/bash' > /tmp/x28.sh && echo 'echo script_echo_ok' >> /tmp/x28.sh && chmod +x /tmp/x28.sh && /tmp/x28.sh; EXIT=$?; rm -f /tmp/x28.sh; exit $EXIT")), "X28.script_file_echo", Accept::Prints("script_echo_ok"), Detail::Plain),
        single("A", Call::Exec(Shape::Bash("echo '#!/usr/bin/bash' > /tmp/x28b.sh && echo '/usr/local/bin/node -e \"console.log(\\\"script_node_ok\\\")\"' >> /tmp/x28b.sh && chmod +x /tmp/x28b.sh && /tmp/x28b.sh; EXIT=$?; rm -f /tmp/x28b.sh; exit $EXIT")), "X28b.script_file_node", Accept::Prints("script_node_ok"), Detail::Plain),
        single("A", Call::Exec(Shape::Bash("echo '#!/usr/bin/env bash' > /tmp/x28c.sh && echo '/usr/local/bin/node -e \"console.log(\\\"script_env_ok\\\")\"' >> /tmp/x28c.sh && chmod +x /tmp/x28c.sh && /tmp/x28c.sh; EXIT=$?; rm -f /tmp/x28c.sh; exit $EXIT")), "X28c.script_file_env", Accept::Prints("script_env_ok"), Detail::Plain),
        single("A", Call::Exec(Shape::Node("process.stdout.write('stdout_write_ok\\n')")), "X29.node_stdout_write", Accept::Prints("stdout_write_ok"), Detail::Plain),
        single("A", Call::Exec(Shape::Bash("echo '#!/usr/bin/bash' > /tmp/x30.sh && echo 'echo cat_input | cat' >> /tmp/x30.sh && chmod +x /tmp/x30.sh && /tmp/x30.sh; EXIT=$?; rm -f /tmp/x30.sh; exit $EXIT")), "X30.script_file_cat", Accept::Prints("cat_input"), Detail::Plain),
        single("A", Call::Exec(Shape::Bash("bash -c '/usr/local/bin/node -e \"console.log(\\\"nested_ok\\\")\"'")), "X31.nested_bash_node", Accept::Prints("nested_ok"), Detail::Plain),
        single("A", Call::Exec(Shape::BashOwn("echo '#!/usr/bin/bash' > /tmp/x32.sh && echo '{self_exe} echo-test' >> /tmp/x32.sh && chmod +x /tmp/x32.sh && /tmp/x32.sh; EXIT=$?; rm -f /tmp/x32.sh; exit $EXIT")), "X32.script_file_self_exe", Accept::Prints("ECHO_TEST_OK"), Detail::Plain),
        single("A", Call::Exec(Shape::Bash("echo '#!/usr/bin/bash' > /tmp/x33.sh && echo 'exec /usr/local/bin/node -e \"console.log(\\\"exec_ok\\\")\"' >> /tmp/x33.sh && chmod +x /tmp/x33.sh && /tmp/x33.sh; EXIT=$?; rm -f /tmp/x33.sh; exit $EXIT")), "X33.script_file_exec_node", Accept::Prints("exec_ok"), Detail::Plain),
    ];
    proof {
        reveal(node_direct_stages);
        assert(r@ =~= node_direct_stages());
        assert forall|k: int| 0 <= k < r@.len() implies #[trigger] stage_fits(r@, k) by {}
    }
    r
}

/// Delayed forks inside one another, and inside script files.
#[verifier::opaque]
pub open spec fn node_delayed_stages() -> Seq<Stage> {
    seq![
        single("A", Call::Exec(Shape::Trigger("trigger-delayed-fork")), "X34.nested_delayed_fork", Accept::Prints("ECHO_TEST_OK"), Detail::Plain),
        single("AA", Call::Exec(Shape::Trigger("trigger-delayed-fork")), "X34b.nested_delayed_fork_deep", Accept::Prints("ECHO_TEST_OK"), Detail::Plain),
        single("A", Call::Exec(Shape::TriggerNode("console.log('df_node_ok')")), "X35.delayed_fork_then_node", Accept::Prints("df_node_ok"), Detail::Plain),
        single("A", Call::Exec(Shape::TriggerTwice), "X36.triple_delayed_fork", Accept::Prints("ECHO_TEST_OK"), Detail::Plain),
        single("A", Call::Exec(Shape::BashOwn("echo '#!/usr/bin/bash' > /tmp/x37.sh && echo '{self_exe} trigger-delayed-fork {self_exe} echo-test' >> /tmp/x37.sh && chmod +x /tmp/x37.sh && /tmp/x37.sh; EXIT=$?; rm -f /tmp/x37.sh; exit $EXIT")), "X37.script_fork_delayed_fork", Accept::Prints("ECHO_TEST_OK"), Detail::Plain),
        single("A", Call::Exec(Shape::Trigger("trigger-delayed-fork-thread")), "X38.thread_delayed_fork", Accept::Prints("ECHO_TEST_OK"), Detail::Plain),
        single("A", Call::Exec(Shape::BashOwn("echo '#!/usr/bin/bash' > /tmp/x39.sh && echo '{self_exe} trigger-delayed-fork-thread {self_exe} echo-test' >> /tmp/x39.sh && chmod +x /tmp/x39.sh && /tmp/x39.sh; EXIT=$?; rm -f /tmp/x39.sh; exit $EXIT")), "X39.script_fork_thread_delayed", Accept::Prints("ECHO_TEST_OK"), Detail::Plain),
        single("A", Call::Exec(Shape::Node("try { const r = require('os').networkInterfaces(); console.log('NETIF_OK:' + Object.keys(r).length); } catch(e) { console.log('NETIF_ERR:' + e.code); }")), "X48.node_networkInterfaces", Accept::PrintsEither("NETIF_OK:", "NETIF_ERR:"), Detail::Plain),
    ]
}

fn node_delayed() -> (r: Vec<Stage>)
    ensures
        r@ == node_delayed_stages(),
        coherent(r@),
{
    let r: Vec<Stage> = vec![
        single("A", Call::Exec(Shape::Trigger("trigger-delayed-fork")), "X34.nested_delayed_fork", Accept::Prints("ECHO_TEST_OK"), Detail::Plain),
        single("AA", Call::Exec(Shape::Trigger("trigger-delayed-fork")), "X34b.nested_delayed_fork_deep", Accept::Prints("ECHO_TEST_OK"), Detail::Plain),
        single("A", Call::Exec(Shape::TriggerNode("console.log('df_node_ok')")), "X35.delayed_fork_then_node", Accept::Prints("df_node_ok"), Detail::Plain),
        single("A", Call::Exec(Shape::TriggerTwice), "X36.triple_delayed_fork", Accept::Prints("ECHO_TEST_OK"), Detail::Plain),
        single("A", Call::Exec(Shape::BashOwn("echo '#!/usr/bin/bash' > /tmp/x37.sh && echo '{self_exe} trigger-delayed-fork {self_exe} echo-test' >> /tmp/x37.sh && chmod +x /tmp/x37.sh && /tmp/x37.sh; EXIT=$?; rm -f /tmp/x37.sh; exit $EXIT")), "X37.script_fork_delayed_fork", Accept::Prints("ECHO_TEST_OK"), Detail::Plain),
        single("A", Call::Exec(Shape::Trigger("trigger-delayed-fork-thread")), "X38.thread_delayed_fork", Accept::Prints("ECHO_TEST_OK"), Detail::Plain),
        single("A", Call::Exec(Shape::BashOwn("echo '#!/usr/bin/bash' > /tmp/x39.sh && echo '{self_exe} trigger-delayed-fork-thread {self_exe} echo-test' >> /tmp/x39.sh && chmod +x /tmp/x39.sh && /tmp/x39.sh; EXIT=$?; rm -f /tmp/x39.sh; exit $EXIT")), "X39.script_fork_thread_delayed", Accept::Prints("ECHO_TEST_OK"), Detail::Plain),
        single("A", Call::Exec(Shape::Node("try { const r = require('os').networkInterfaces(); console.log('NETIF_OK:' + Object.keys(r).length); } catch(e) { console.log('NETIF_ERR:' + e.code); }")), "X48.node_networkInterfaces", Accept::PrintsEither("NETIF_OK:", "NETIF_ERR:"), Detail::Plain),
    ];
    proof {
        reveal(node_delayed_stages);
        assert(r@ =~= node_delayed_stages());
        assert forall|k: int| 0 <= k < r@.len() implies #[trigger] stage_fits(r@, k) by {}
    }
    r
}

/// Programs run one after the other see only their own output.
#[verifier::opaque]
pub open spec fn node_isolation_stages() -> Seq<Stage> {
    seq![
        single("A", Call::Exec(Shape::Own1("echo-test")), "X49a.pie_sequential_1", Accept::PrintsExactly("ECHO_TEST_OK"), Detail::Plain),
        single("A", Call::Exec(Shape::Own2("exit-with", "0")), "X49b.pie_sequential_2", Accept::PrintsNothing, Detail::Plain),
        guard("A", Call::Exec(Shape::Program("/nonpie-echo")), Absent::NotFound, "X50a.nonpie_then_pie_1", Accept::Prints("NONPIE_OK"), "skipped (nonpie-echo not in rootfs)", 1),
        skippable("A", Call::Exec(Shape::Own1("echo-test")), "X50b.nonpie_then_pie_2", Accept::PrintsExactly("ECHO_TEST_OK"), "skipped (nonpie-echo not in rootfs)"),
        guard("B", Call::Exec(Shape::Program("/nonpie-echo")), Absent::NotFound, "X51.nonpie_fresh_agent", Accept::Prints("NONPIE_OK"), "skipped (nonpie-echo not in rootfs)", 3),
        skippable("B", Call::Exec(Shape::Own1("echo-test")), "X52a.B_nonpie_then_pie", Accept::PrintsExactly("ECHO_TEST_OK"), "skipped"),
        skippable("B", Call::Exec(Shape::Own2("exit-with", "0")), "X52b.B_pie_after_nonpie", Accept::PrintsNothing, "skipped"),
        skippable("B", Call::Exec(Shape::Own1("echo-test")), "X52c.B_third_exec", Accept::PrintsExactly("ECHO_TEST_OK"), "skipped"),
    ]
}

fn node_isolation() -> (r: Vec<Stage>)
    ensures
        r@ == node_isolation_stages(),
        coherent(r@),
{
    let r: Vec<Stage> = vec![
        single("A", Call::Exec(Shape::Own1("echo-test")), "X49a.pie_sequential_1", Accept::PrintsExactly("ECHO_TEST_OK"), Detail::Plain),
        single("A", Call::Exec(Shape::Own2("exit-with", "0")), "X49b.pie_sequential_2", Accept::PrintsNothing, Detail::Plain),
        guard("A", Call::Exec(Shape::Program("/nonpie-echo")), Absent::NotFound, "X50a.nonpie_then_pie_1", Accept::Prints("NONPIE_OK"), "skipped (nonpie-echo not in rootfs)", 1),
        skippable("A", Call::Exec(Shape::Own1("echo-test")), "X50b.nonpie_then_pie_2", Accept::PrintsExactly("ECHO_TEST_OK"), "skipped (nonpie-echo not in rootfs)"),
        guard("B", Call::Exec(Shape::Program("/nonpie-echo")), Absent::NotFound, "X51.nonpie_fresh_agent", Accept::Prints("NONPIE_OK"), "skipped (nonpie-echo not in rootfs)", 3),
        skippable("B", Call::Exec(Shape::Own1("echo-test")), "X52a.B_nonpie_then_pie", Accept::PrintsExactly("ECHO_TEST_OK"), "skipped"),
        skippable("B", Call::Exec(Shape::Own2("exit-with", "0")), "X52b.B_pie_after_nonpie", Accept::PrintsNothing, "skipped"),
        skippable("B", Call::Exec(Shape::Own1("echo-test")), "X52c.B_third_exec", Accept::PrintsExactly("ECHO_TEST_OK"), "skipped"),
    ];
    proof {
        reveal(node_isolation_stages);
        assert(r@ =~= node_isolation_stages());
        assert forall|k: int| 0 <= k < r@.len() implies #[trigger] stage_fits(r@, k) by {}
    }
    r
}

/// Many programs in a row, of both binary types.
#[verifier::opaque]
pub open spec fn node_stress_stages() -> Seq<Stage> {
    seq![
        repeat("AB", Call::Exec(Shape::Own1("echo-test")), Accept::PrintsExactly("ECHO_TEST_OK"), "X53.stress_pie", 30, "30 sequential PIE execs all passed", ""),
        guard("AB", Call::Exec(Shape::Program("/nonpie-echo")), Absent::NotFound, "X54.nonpie_after_stress", Accept::Prints("NONPIE_OK"), "skipped", 0),
        single("AAB", Call::Exec(Shape::Own1("echo-test")), "X55a.one_pie_first", Accept::PrintsExactly("ECHO_TEST_OK"), Detail::Plain),
        guard("AAB", Call::Exec(Shape::Program("/nonpie-echo")), Absent::NotFound, "X55b.nonpie_second", Accept::Prints("NONPIE_OK"), "skipped", 0),
        guard("B", Call::Exec(Shape::Program("/nonpie-echo")), Absent::NotFound, "X56.second_nonpie_on_B", Accept::Prints("NONPIE_OK"), "skipped", 4),
        quiet("B", Call::Exec(Shape::Bash("echo churn >/dev/null")), 20),
        skippable("B", Call::Exec(Shape::Program("/nonpie-echo")), "X57.pipe_churn_then_nonpie", Accept::Prints("NONPIE_OK"), "skipped"),
        series("X58.alternating_pie_nonpie", "B", Call::Exec(Shape::Own1("echo-test")), Accept::PrintsExactly("ECHO_TEST_OK"), Call::Exec(Shape::Program("/nonpie-echo")), Accept::Prints("NONPIE_OK"), 2, "skipped"),
        repeat("B", Call::Exec(Shape::Program("/nonpie-echo")), Accept::Prints("NONPIE_OK"), "X59.sequential_nonpie", 5, "5 sequential non-PIE execs all passed", "skipped"),
    ]
}

fn node_stress() -> (r: Vec<Stage>)
    ensures
        r@ == node_stress_stages(),
        coherent(r@),
{
    let r: Vec<Stage> = vec![
        repeat("AB", Call::Exec(Shape::Own1("echo-test")), Accept::PrintsExactly("ECHO_TEST_OK"), "X53.stress_pie", 30, "30 sequential PIE execs all passed", ""),
        guard("AB", Call::Exec(Shape::Program("/nonpie-echo")), Absent::NotFound, "X54.nonpie_after_stress", Accept::Prints("NONPIE_OK"), "skipped", 0),
        single("AAB", Call::Exec(Shape::Own1("echo-test")), "X55a.one_pie_first", Accept::PrintsExactly("ECHO_TEST_OK"), Detail::Plain),
        guard("AAB", Call::Exec(Shape::Program("/nonpie-echo")), Absent::NotFound, "X55b.nonpie_second", Accept::Prints("NONPIE_OK"), "skipped", 0),
        guard("B", Call::Exec(Shape::Program("/nonpie-echo")), Absent::NotFound, "X56.second_nonpie_on_B", Accept::Prints("NONPIE_OK"), "skipped", 4),
        quiet("B", Call::Exec(Shape::Bash("echo churn >/dev/null")), 20),
        skippable("B", Call::Exec(Shape::Program("/nonpie-echo")), "X57.pipe_churn_then_nonpie", Accept::Prints("NONPIE_OK"), "skipped"),
        series("X58.alternating_pie_nonpie", "B", Call::Exec(Shape::Own1("echo-test")), Accept::PrintsExactly("ECHO_TEST_OK"), Call::Exec(Shape::Program("/nonpie-echo")), Accept::Prints("NONPIE_OK"), 2, "skipped"),
        repeat("B", Call::Exec(Shape::Program("/nonpie-echo")), Accept::Prints("NONPIE_OK"), "X59.sequential_nonpie", 5, "5 sequential non-PIE execs all passed", "skipped"),
    ];
    proof {
        reveal(node_stress_stages);
        assert(r@ =~= node_stress_stages());
        assert forall|k: int| 0 <= k < r@.len() implies #[trigger] stage_fits(r@, k) by {}
    }
    r
}

/// Many programs in a row, run by the harness's own stress command.
#[verifier::opaque]
pub open spec fn node_self_stress_stages() -> Seq<Stage> {
    seq![
        single("A", Call::Exec(Shape::Own3("stress-exec", "20", "pie")), "X60.stress_exec_pie", Accept::PrintsBoth("STRESS_START", "STRESS_END failures=0"), Detail::Plain),
        single("A", Call::Exec(Shape::Own3("stress-exec", "10", "nonpie")), "X61.stress_exec_nonpie", Accept::PrintsBoth("STRESS_START", "STRESS_END failures=0"), Detail::Plain),
        single("A", Call::Exec(Shape::Own3("stress-exec", "10", "mixed")), "X62.stress_exec_mixed", Accept::PrintsBoth("STRESS_START", "STRESS_END failures=0"), Detail::Plain),
        single("A", Call::Exec(Shape::Own4("stress-exec", "10", "mixed", "tokio")), "X63.stress_exec_tokio_mixed", Accept::PrintsBoth("STRESS_START", "STRESS_END failures=0"), Detail::Plain),
    ]
}

fn node_self_stress() -> (r: Vec<Stage>)
    ensures
        r@ == node_self_stress_stages(),
        coherent(r@),
{
    let r: Vec<Stage> = vec![
        single("A", Call::Exec(Shape::Own3("stress-exec", "20", "pie")), "X60.stress_exec_pie", Accept::PrintsBoth("STRESS_START", "STRESS_END failures=0"), Detail::Plain),
        single("A", Call::Exec(Shape::Own3("stress-exec", "10", "nonpie")), "X61.stress_exec_nonpie", Accept::PrintsBoth("STRESS_START", "STRESS_END failures=0"), Detail::Plain),
        single("A", Call::Exec(Shape::Own3("stress-exec", "10", "mixed")), "X62.stress_exec_mixed", Accept::PrintsBoth("STRESS_START", "STRESS_END failures=0"), Detail::Plain),
        single("A", Call::Exec(Shape::Own4("stress-exec", "10", "mixed", "tokio")), "X63.stress_exec_tokio_mixed", Accept::PrintsBoth("STRESS_START", "STRESS_END failures=0"), Detail::Plain),
    ];
    proof {
        reveal(node_self_stress_stages);
        assert(r@ =~= node_self_stress_stages());
        assert forall|k: int| 0 <= k < r@.len() implies #[trigger] stage_fits(r@, k) by {}
    }
    r
}

/// The non-PIE program, direct and through bash, and what follows it.
#[verifier::opaque]
pub open spec fn node_nonpie_stages() -> Seq<Stage> {
    seq![
        guard("A", Call::Exec(Shape::Program("/nonpie-echo")), Absent::NotFound, "X40.nonpie_direct", Accept::Prints("NONPIE_OK"), "skipped (nonpie-echo not in rootfs)", 0),
        guard("A", Call::Exec(Shape::Bash("if [ -x /nonpie-echo ]; then echo '#!/usr/bin/bash' > /tmp/x41.sh && echo '/nonpie-echo' >> /tmp/x41.sh && chmod +x /tmp/x41.sh && /tmp/x41.sh; EXIT=$?; rm -f /tmp/x41.sh; exit $EXIT; else echo SKIP; fi")), Absent::Mark("SKIP"), "X41.nonpie_script", Accept::Prints("NONPIE_OK"), "skipped (nonpie-echo not in rootfs)", 0),
        guard("A", Call::Exec(Shape::Bash("if [ -x /nonpie-echo ]; then /nonpie-echo; else echo SKIP; fi")), Absent::Mark("SKIP"), "X42.nonpie_inline", Accept::Prints("NONPIE_OK"), "skipped (nonpie-echo not in rootfs)", 0),
        bare_guard("A", Call::Exec(Shape::Program("/nonpie-echo")), Absent::NotFound, 1),
        skippable("A", Call::Exec(Shape::Own1("echo-test")), "X43.init_contamination", Accept::PrintsExactly("ECHO_TEST_OK"), "skipped (nonpie-echo not in rootfs)"),
        guard("A", Call::Exec(Shape::Bash("if [ -x /nonpie-echo ]; then /nonpie-echo >/dev/null 2>&1; echo CHILD_CLEAN; else echo SKIP; fi")), Absent::Mark("SKIP"), "X44.child_contamination", Accept::PrintsTrimmed("CHILD_CLEAN"), "skipped (nonpie-echo not in rootfs)", 0),
        guard("A", Call::Exec(Shape::BashOwn("if [ -x /nonpie-echo ]; then FIRST=$(/nonpie-echo); SECOND=$({self_exe} echo-test); echo \"first=$FIRST\"; echo \"second=$SECOND\"; else echo SKIP; fi")), Absent::Mark("SKIP"), "X45.child_sequential", Accept::PrintsBoth("first=NONPIE_OK", "second=ECHO_TEST_OK"), "skipped (nonpie-echo not in rootfs)", 0),
        guard("A", Call::Exec(Shape::Bash("if [ -x /nonpie-echo ]; then bash -c '/nonpie-echo'; else echo SKIP; fi")), Absent::Mark("SKIP"), "X46.grandchild_nonpie", Accept::Prints("NONPIE_OK"), "skipped (nonpie-echo not in rootfs)", 0),
        guard("A", Call::Exec(Shape::BashOwn("if [ -x /nonpie-echo ]; then bash -c '/nonpie-echo >/dev/null; {self_exe} echo-test'; else echo SKIP; fi")), Absent::Mark("SKIP"), "X47.grandchild_contamination", Accept::PrintsTrimmed("ECHO_TEST_OK"), "skipped (nonpie-echo not in rootfs)", 0),
    ]
}

fn node_nonpie() -> (r: Vec<Stage>)
    ensures
        r@ == node_nonpie_stages(),
        coherent(r@),
{
    let r: Vec<Stage> = vec![
        guard("A", Call::Exec(Shape::Program("/nonpie-echo")), Absent::NotFound, "X40.nonpie_direct", Accept::Prints("NONPIE_OK"), "skipped (nonpie-echo not in rootfs)", 0),
        guard("A", Call::Exec(Shape::Bash("if [ -x /nonpie-echo ]; then echo '#!/usr/bin/bash' > /tmp/x41.sh && echo '/nonpie-echo' >> /tmp/x41.sh && chmod +x /tmp/x41.sh && /tmp/x41.sh; EXIT=$?; rm -f /tmp/x41.sh; exit $EXIT; else echo SKIP; fi")), Absent::Mark("SKIP"), "X41.nonpie_script", Accept::Prints("NONPIE_OK"), "skipped (nonpie-echo not in rootfs)", 0),
        guard("A", Call::Exec(Shape::Bash("if [ -x /nonpie-echo ]; then /nonpie-echo; else echo SKIP; fi")), Absent::Mark("SKIP"), "X42.nonpie_inline", Accept::Prints("NONPIE_OK"), "skipped (nonpie-echo not in rootfs)", 0),
        bare_guard("A", Call::Exec(Shape::Program("/nonpie-echo")), Absent::NotFound, 1),
        skippable("A", Call::Exec(Shape::Own1("echo-test")), "X43.init_contamination", Accept::PrintsExactly("ECHO_TEST_OK"), "skipped (nonpie-echo not in rootfs)"),
        guard("A", Call::Exec(Shape::Bash("if [ -x /nonpie-echo ]; then /nonpie-echo >/dev/null 2>&1; echo CHILD_CLEAN; else echo SKIP; fi")), Absent::Mark("SKIP"), "X44.child_contamination", Accept::PrintsTrimmed("CHILD_CLEAN"), "skipped (nonpie-echo not in rootfs)", 0),
        guard("A", Call::Exec(Shape::BashOwn("if [ -x /nonpie-echo ]; then FIRST=$(/nonpie-echo); SECOND=$({self_exe} echo-test); echo \"first=$FIRST\"; echo \"second=$SECOND\"; else echo SKIP; fi")), Absent::Mark("SKIP"), "X45.child_sequential", Accept::PrintsBoth("first=NONPIE_OK", "second=ECHO_TEST_OK"), "skipped (nonpie-echo not in rootfs)", 0),
        guard("A", Call::Exec(Shape::Bash("if [ -x /nonpie-echo ]; then bash -c '/nonpie-echo'; else echo SKIP; fi")), Absent::Mark("SKIP"), "X46.grandchild_nonpie", Accept::Prints("NONPIE_OK"), "skipped (nonpie-echo not in rootfs)", 0),
        guard("A", Call::Exec(Shape::BashOwn("if [ -x /nonpie-echo ]; then bash -c '/nonpie-echo >/dev/null; {self_exe} echo-test'; else echo SKIP; fi")), Absent::Mark("SKIP"), "X47.grandchild_contamination", Accept::PrintsTrimmed("ECHO_TEST_OK"), "skipped (nonpie-echo not in rootfs)", 0),
    ];
    proof {
        reveal(node_nonpie_stages);
        assert(r@ =~= node_nonpie_stages());
        assert forall|k: int| 0 <= k < r@.len() implies #[trigger] stage_fits(r@, k) by {}
    }
    r
}

/// The script of the Node.js and non-PIE tests.
pub open spec fn node_exec_stages_all() -> Seq<Stage> {
    node_direct_stages() + node_delayed_stages() + node_isolation_stages() + node_stress_stages() + node_self_stress_stages() + node_nonpie_stages()
}

/// The script of the Node.js and non-PIE tests.
pub fn node_exec_tests() -> (r: Vec<Stage>)
    ensures
        r@ == node_exec_stages_all(),
        coherent(r@),
{
    let mut r = node_direct();
    let mut more = node_delayed();
    proof {
        law_append_coherent(r@, more@);
    }
    r.append(&mut more);
    let mut more = node_isolation();
    proof {
        law_append_coherent(r@, more@);
    }
    r.append(&mut more);
    let mut more = node_stress();
    proof {
        law_append_coherent(r@, more@);
    }
    r.append(&mut more);
    let mut more = node_self_stress();
    proof {
        law_append_coherent(r@, more@);
    }
    r.append(&mut more);
    let mut more = node_nonpie();
    proof {
        law_append_coherent(r@, more@);
    }
    r.append(&mut more);
    r
}

/// What a program must print follows from what is run: the harness's own echo prints its mark and
/// nothing else, a program that only ends prints nothing, a stress run reports no failure, the
/// non-PIE program prints its own mark, and a script prints a text that it names.
pub open spec fn fits_node_program(call: Call, accept: Accept) -> bool {
    call matches Call::Exec(shape) && match shape {
        Shape::Own1(c) => c == "echo-test" && accept == Accept::PrintsExactly("ECHO_TEST_OK"),
        Shape::Own2(c, code) => c == "exit-with" && code == "0" && accept is PrintsNothing,
        Shape::Own3(c, ..) => c == "stress-exec" && accept == Accept::PrintsBoth(
            "STRESS_START",
            "STRESS_END failures=0",
        ),
        Shape::Own4(c, ..) => c == "stress-exec" && accept == Accept::PrintsBoth(
            "STRESS_START",
            "STRESS_END failures=0",
        ),
        Shape::Program(p) => p == "/nonpie-echo" && accept == Accept::Prints("NONPIE_OK"),
        Shape::Node(c) => match accept {
            Accept::Prints(t) => contains_text(c@, t@),
            Accept::PrintsEither(t, u) => contains_text(c@, t@) && contains_text(c@, u@),
            _ => false,
        },
        Shape::TriggerNode(c) => accept matches Accept::Prints(t) && contains_text(c@, t@),
        Shape::Trigger(c) => accept == Accept::Prints("ECHO_TEST_OK"),
        Shape::TriggerTwice => accept == Accept::Prints("ECHO_TEST_OK"),
        Shape::Bash(c) => match accept {
            Accept::Prints(t) => contains_text(c@, t@) || (t == "NONPIE_OK" && contains_text(
                c@,
                "/nonpie-echo"@,
            )),
            Accept::PrintsTrimmed(t) => contains_text(c@, t@),
            _ => false,
        },
        Shape::BashOwn(c) => contains_text(c@, "{self_exe} echo-test"@) && (accept
            == Accept::Prints("ECHO_TEST_OK") || accept == Accept::PrintsTrimmed("ECHO_TEST_OK")
            || accept == Accept::PrintsBoth("first=NONPIE_OK", "second=ECHO_TEST_OK")),
    }
}

/// The stage sends something to the agent, and asks nothing of whether it can.
pub open spec fn plainly_sends_to(stage: Stage, target: &'static str) -> bool {
    match stage {
        Stage::Quiet { probe, .. } => probe.target == target,
        Stage::Single { probe, .. } => probe.target == target,
        Stage::Repeat { probe, .. } => probe.target == target,
        Stage::Series { first, second, .. } => first.target == target && second.target == target,
        _ => false,
    }
}

/// The stages that a guard at `k` passes over speak to the agent that it asked.
pub open spec fn span_is_of(s: Seq<Stage>, k: int, span: int, target: &'static str) -> bool {
    forall|j: int| k < j <= k + span ==> plainly_sends_to(#[trigger] s[j], target)
}

/// A program that can be missing is told by the failure to start it, and a command line by the
/// mark that it prints itself.
pub open spec fn fits_absence(call: Call, absent: Absent) -> bool {
    match absent {
        Absent::NotFound => call == Call::Exec(Shape::Program("/nonpie-echo")),
        Absent::Mark(m) => m == "SKIP" && match call {
            Call::Exec(Shape::Bash(c)) => contains_text(c@, "else echo SKIP; fi"@),
            Call::Exec(Shape::BashOwn(c)) => contains_text(c@, "else echo SKIP; fi"@),
            _ => false,
        },
    }
}

/// What the stage at `k` sends, and which answer it lets pass, fit together.
pub open spec fn fits_node_script(s: Seq<Stage>, k: int) -> bool {
    match s[k] {
        Stage::Single { probe, verdict } => verdict.agent == probe.target && verdict.excuse is None
            && fits_node_program(probe.call, verdict.accept),
        Stage::Guard { probe, absent, verdict, span } => fits_absence(probe.call, absent)
            && span_is_of(s, k, span as int, probe.target) && match verdict {
            Some(v) => v.agent == probe.target && v.excuse is None && fits_node_program(
                probe.call,
                v.accept,
            ),
            None => span > 0,
        },
        Stage::Repeat { probe, accept, agent, times, all_ok, .. } => agent == probe.target
            && fits_node_program(probe.call, accept) && starts_with_text(
            all_ok@,
            dec_text(times as nat) + " sequential "@,
        ),
        Stage::Series { agent, first, first_ok, second, second_ok, .. } => agent == first.target
            && agent == second.target && first.call != second.call && fits_node_program(
            first.call,
            first_ok,
        ) && fits_node_program(second.call, second_ok),
        Stage::Quiet { probe, times } => probe.call == Call::Exec(
            Shape::Bash("echo churn >/dev/null"),
        ) && times == 20,
        _ => false,
    }
}

proof fn lemma_node_direct_fits(k: int)
    requires
        0 <= k < node_direct_stages().len(),
    ensures
        fits_node_script(node_direct_stages(), k),
{
    reveal(node_direct_stages);
    let s = node_direct_stages();
    if k == 0 {
        assert(contains_text("console.log('node_ok')"@, "node_ok"@)) by {
            reveal_strlit("console.log('node_ok')");
            reveal_strlit("node_ok");
            assert("console.log('node_ok')"@.subrange(13, 20) =~= "node_ok"@);
            assert(occurs_at("console.log('node_ok')"@, "node_ok"@, 13));
        }
    }
    if k == 1 {
        assert(contains_text("console.log('node_deep_ok')"@, "node_deep_ok"@)) by {
            reveal_strlit("console.log('node_deep_ok')");
            reveal_strlit("node_deep_ok");
            assert("console.log('node_deep_ok')"@.subrange(13, 25) =~= "node_deep_ok"@);
            assert(occurs_at("console.log('node_deep_ok')"@, "node_deep_ok"@, 13));
        }
    }
    if k == 2 {
        assert(contains_text("echo '#!/usr/bin/bash' > /tmp/x28.sh && echo 'echo script_echo_ok' >> /tmp/x28.sh && chmod +x /tmp/x28.sh && /tmp/x28.sh; EXIT=$?; rm -f /tmp/x28.sh; exit $EXIT"@, "script_echo_ok"@)) by {
            reveal_strlit("echo '#!/usr/bin/bash' > /tmp/x28.sh && echo 'echo script_echo_ok' >> /tmp/x28.sh && chmod +x /tmp/x28.sh && /tmp/x28.sh; EXIT=$?; rm -f /tmp/x28.sh; exit $EXIT");
            reveal_strlit("script_echo_ok");
            assert("echo '#!/usr/bin/bash' > /tmp/x28.sh && echo 'echo script_echo_ok' >> /tmp/x28.sh && chmod +x /tmp/x28.sh && /tmp/x28.sh; EXIT=$?; rm -f /tmp/x28.sh; exit $EXIT"@.subrange(51, 65) =~= "script_echo_ok"@);
            assert(occurs_at("echo '#!/usr/bin/bash' > /tmp/x28.sh && echo 'echo script_echo_ok' >> /tmp/x28.sh && chmod +x /tmp/x28.sh && /tmp/x28.sh; EXIT=$?; rm -f /tmp/x28.sh; exit $EXIT"@, "script_echo_ok"@, 51));
        }
    }
    if k == 3 {
        assert(contains_text("echo '#!/usr/bin/bash' > /tmp/x28b.sh && echo '/usr/local/bin/node -e \"console.log(\\\"script_node_ok\\\")\"' >> /tmp/x28b.sh && chmod +x /tmp/x28b.sh && /tmp/x28b.sh; EXIT=$?; rm -f /tmp/x28b.sh; exit $EXIT"@, "script_node_ok"@)) by {
            reveal_strlit("echo '#!/usr/bin/bash' > /tmp/x28b.sh && echo '/usr/local/bin/node -e \"console.log(\\\"script_node_ok\\\")\"' >> /tmp/x28b.sh && chmod +x /tmp/x28b.sh && /tmp/x28b.sh; EXIT=$?; rm -f /tmp/x28b.sh; exit $EXIT");
            reveal_strlit("script_node_ok");
            assert("echo '#!/usr/bin/bash' > /tmp/x28b.sh && echo '/usr/local/bin/node -e \"console.log(\\\"script_node_ok\\\")\"' >> /tmp/x28b.sh && chmod +x /tmp/x28b.sh && /tmp/x28b.sh; EXIT=$?; rm -f /tmp/x28b.sh; exit $EXIT"@.subrange(85, 99) =~= "script_node_ok"@);
            assert(occurs_at("echo '#!/usr/bin/bash' > /tmp/x28b.sh && echo '/usr/local/bin/node -e \"console.log(\\\"script_node_ok\\\")\"' >> /tmp/x28b.sh && chmod +x /tmp/x28b.sh && /tmp/x28b.sh; EXIT=$?; rm -f /tmp/x28b.sh; exit $EXIT"@, "script_node_ok"@, 85));
        }
    }
    if k == 4 {
        assert(contains_text("echo '#!/usr/bin/env bash' > /tmp/x28c.sh && echo '/usr/local/bin/node -e \"console.log(\\\"script_env_ok\\\")\"' >> /tmp/x28c.sh && chmod +x /tmp/x28c.sh && /tmp/x28c.sh; EXIT=$?; rm -f /tmp/x28c.sh; exit $EXIT"@, "script_env_ok"@)) by {
            reveal_strlit("echo '#!/usr/bin/env bash' > /tmp/x28c.sh && echo '/usr/local/bin/node -e \"console.log(\\\"script_env_ok\\\")\"' >> /tmp/x28c.sh && chmod +x /tmp/x28c.sh && /tmp/x28c.sh; EXIT=$?; rm -f /tmp/x28c.sh; exit $EXIT");
            reveal_strlit("script_env_ok");
            assert("echo '#!/usr/bin/env bash' > /tmp/x28c.sh && echo '/usr/local/bin/node -e \"console.log(\\\"script_env_ok\\\")\"' >> /tmp/x28c.sh && chmod +x /tmp/x28c.sh && /tmp/x28c.sh; EXIT=$?; rm -f /tmp/x28c.sh; exit $EXIT"@.subrange(89, 102) =~= "script_env_ok"@);
            assert(occurs_at("echo '#!/usr/bin/env bash' > /tmp/x28c.sh && echo '/usr/local/bin/node -e \"console.log(\\\"script_env_ok\\\")\"' >> /tmp/x28c.sh && chmod +x /tmp/x28c.sh && /tmp/x28c.sh; EXIT=$?; rm -f /tmp/x28c.sh; exit $EXIT"@, "script_env_ok"@, 89));
        }
    }
    if k == 5 {
        assert(contains_text("process.stdout.write('stdout_write_ok\\n')"@, "stdout_write_ok"@)) by {
            reveal_strlit("process.stdout.write('stdout_write_ok\\n')");
            reveal_strlit("stdout_write_ok");
            assert("process.stdout.write('stdout_write_ok\\n')"@.subrange(22, 37) =~= "stdout_write_ok"@);
            assert(occurs_at("process.stdout.write('stdout_write_ok\\n')"@, "stdout_write_ok"@, 22));
        }
    }
    if k == 6 {
        assert(contains_text("echo '#!/usr/bin/bash' > /tmp/x30.sh && echo 'echo cat_input | cat' >> /tmp/x30.sh && chmod +x /tmp/x30.sh && /tmp/x30.sh; EXIT=$?; rm -f /tmp/x30.sh; exit $EXIT"@, "cat_input"@)) by {
            reveal_strlit("echo '#!/usr/bin/bash' > /tmp/x30.sh && echo 'echo cat_input | cat' >> /tmp/x30.sh && chmod +x /tmp/x30.sh && /tmp/x30.sh; EXIT=$?; rm -f /tmp/x30.sh; exit $EXIT");
            reveal_strlit("cat_input");
            assert("echo '#!/usr/bin/bash' > /tmp/x30.sh && echo 'echo cat_input | cat' >> /tmp/x30.sh && chmod +x /tmp/x30.sh && /tmp/x30.sh; EXIT=$?; rm -f /tmp/x30.sh; exit $EXIT"@.subrange(51, 60) =~= "cat_input"@);
            assert(occurs_at("echo '#!/usr/bin/bash' > /tmp/x30.sh && echo 'echo cat_input | cat' >> /tmp/x30.sh && chmod +x /tmp/x30.sh && /tmp/x30.sh; EXIT=$?; rm -f /tmp/x30.sh; exit $EXIT"@, "cat_input"@, 51));
        }
    }
    if k == 7 {
        assert(contains_text("bash -c '/usr/local/bin/node -e \"console.log(\\\"nested_ok\\\")\"'"@, "nested_ok"@)) by {
            reveal_strlit("bash -c '/usr/local/bin/node -e \"console.log(\\\"nested_ok\\\")\"'");
            reveal_strlit("nested_ok");
            assert("bash -c '/usr/local/bin/node -e \"console.log(\\\"nested_ok\\\")\"'"@.subrange(47, 56) =~= "nested_ok"@);
            assert(occurs_at("bash -c '/usr/local/bin/node -e \"console.log(\\\"nested_ok\\\")\"'"@, "nested_ok"@, 47));
        }
    }
    if k == 8 {
        assert(contains_text("echo '#!/usr/bin/bash' > /tmp/x32.sh && echo '{self_exe} echo-test' >> /tmp/x32.sh && chmod +x /tmp/x32.sh && /tmp/x32.sh; EXIT=$?; rm -f /tmp/x32.sh; exit $EXIT"@, "{self_exe} echo-test"@)) by {
            reveal_strlit("echo '#!/usr/bin/bash' > /tmp/x32.sh && echo '{self_exe} echo-test' >> /tmp/x32.sh && chmod +x /tmp/x32.sh && /tmp/x32.sh; EXIT=$?; rm -f /tmp/x32.sh; exit $EXIT");
            reveal_strlit("{self_exe} echo-test");
            assert("echo '#!/usr/bin/bash' > /tmp/x32.sh && echo '{self_exe} echo-test' >> /tmp/x32.sh && chmod +x /tmp/x32.sh && /tmp/x32.sh; EXIT=$?; rm -f /tmp/x32.sh; exit $EXIT"@.subrange(46, 66) =~= "{self_exe} echo-test"@);
            assert(occurs_at("echo '#!/usr/bin/bash' > /tmp/x32.sh && echo '{self_exe} echo-test' >> /tmp/x32.sh && chmod +x /tmp/x32.sh && /tmp/x32.sh; EXIT=$?; rm -f /tmp/x32.sh; exit $EXIT"@, "{self_exe} echo-test"@, 46));
        }
    }
    if k == 9 {
        assert(contains_text("echo '#!/usr/bin/bash' > /tmp/x33.sh && echo 'exec /usr/local/bin/node -e \"console.log(\\\"exec_ok\\\")\"' >> /tmp/x33.sh && chmod +x /tmp/x33.sh && /tmp/x33.sh; EXIT=$?; rm -f /tmp/x33.sh; exit $EXIT"@, "exec_ok"@)) by {
            reveal_strlit("echo '#!/usr/bin/bash' > /tmp/x33.sh && echo 'exec /usr/local/bin/node -e \"console.log(\\\"exec_ok\\\")\"' >> /tmp/x33.sh && chmod +x /tmp/x33.sh && /tmp/x33.sh; EXIT=$?; rm -f /tmp/x33.sh; exit $EXIT");
            reveal_strlit("exec_ok");
            assert("echo '#!/usr/bin/bash' > /tmp/x33.sh && echo 'exec /usr/local/bin/node -e \"console.log(\\\"exec_ok\\\")\"' >> /tmp/x33.sh && chmod +x /tmp/x33.sh && /tmp/x33.sh; EXIT=$?; rm -f /tmp/x33.sh; exit $EXIT"@.subrange(89, 96) =~= "exec_ok"@);
            assert(occurs_at("echo '#!/usr/bin/bash' > /tmp/x33.sh && echo 'exec /usr/local/bin/node -e \"console.log(\\\"exec_ok\\\")\"' >> /tmp/x33.sh && chmod +x /tmp/x33.sh && /tmp/x33.sh; EXIT=$?; rm -f /tmp/x33.sh; exit $EXIT"@, "exec_ok"@, 89));
        }
    }
}

proof fn lemma_node_delayed_fits(k: int)
    requires
        0 <= k < node_delayed_stages().len(),
    ensures
        fits_node_script(node_delayed_stages(), k),
{
    reveal(node_delayed_stages);
    let s = node_delayed_stages();
    if k == 2 {
        assert(contains_text("console.log('df_node_ok')"@, "df_node_ok"@)) by {
            reveal_strlit("console.log('df_node_ok')");
            reveal_strlit("df_node_ok");
            assert("console.log('df_node_ok')"@.subrange(13, 23) =~= "df_node_ok"@);
            assert(occurs_at("console.log('df_node_ok')"@, "df_node_ok"@, 13));
        }
    }
    if k == 4 {
        assert(contains_text("echo '#!/usr/bin/bash' > /tmp/x37.sh && echo '{self_exe} trigger-delayed-fork {self_exe} echo-test' >> /tmp/x37.sh && chmod +x /tmp/x37.sh && /tmp/x37.sh; EXIT=$?; rm -f /tmp/x37.sh; exit $EXIT"@, "{self_exe} echo-test"@)) by {
            reveal_strlit("echo '#!/usr/bin/bash' > /tmp/x37.sh && echo '{self_exe} trigger-delayed-fork {self_exe} echo-test' >> /tmp/x37.sh && chmod +x /tmp/x37.sh && /tmp/x37.sh; EXIT=$?; rm -f /tmp/x37.sh; exit $EXIT");
            reveal_strlit("{self_exe} echo-test");
            assert("echo '#!/usr/bin/bash' > /tmp/x37.sh && echo '{self_exe} trigger-delayed-fork {self_exe} echo-test' >> /tmp/x37.sh && chmod +x /tmp/x37.sh && /tmp/x37.sh; EXIT=$?; rm -f /tmp/x37.sh; exit $EXIT"@.subrange(78, 98) =~= "{self_exe} echo-test"@);
            assert(occurs_at("echo '#!/usr/bin/bash' > /tmp/x37.sh && echo '{self_exe} trigger-delayed-fork {self_exe} echo-test' >> /tmp/x37.sh && chmod +x /tmp/x37.sh && /tmp/x37.sh; EXIT=$?; rm -f /tmp/x37.sh; exit $EXIT"@, "{self_exe} echo-test"@, 78));
        }
    }
    if k == 6 {
        assert(contains_text("echo '#!/usr/bin/bash' > /tmp/x39.sh && echo '{self_exe} trigger-delayed-fork-thread {self_exe} echo-test' >> /tmp/x39.sh && chmod +x /tmp/x39.sh && /tmp/x39.sh; EXIT=$?; rm -f /tmp/x39.sh; exit $EXIT"@, "{self_exe} echo-test"@)) by {
            reveal_strlit("echo '#!/usr/bin/bash' > /tmp/x39.sh && echo '{self_exe} trigger-delayed-fork-thread {self_exe} echo-test' >> /tmp/x39.sh && chmod +x /tmp/x39.sh && /tmp/x39.sh; EXIT=$?; rm -f /tmp/x39.sh; exit $EXIT");
            reveal_strlit("{self_exe} echo-test");
            assert("echo '#!/usr/bin/bash' > /tmp/x39.sh && echo '{self_exe} trigger-delayed-fork-thread {self_exe} echo-test' >> /tmp/x39.sh && chmod +x /tmp/x39.sh && /tmp/x39.sh; EXIT=$?; rm -f /tmp/x39.sh; exit $EXIT"@.subrange(85, 105) =~= "{self_exe} echo-test"@);
            assert(occurs_at("echo '#!/usr/bin/bash' > /tmp/x39.sh && echo '{self_exe} trigger-delayed-fork-thread {self_exe} echo-test' >> /tmp/x39.sh && chmod +x /tmp/x39.sh && /tmp/x39.sh; EXIT=$?; rm -f /tmp/x39.sh; exit $EXIT"@, "{self_exe} echo-test"@, 85));
        }
    }
    if k == 7 {
        assert(contains_text("try { const r = require('os').networkInterfaces(); console.log('NETIF_OK:' + Object.keys(r).length); } catch(e) { console.log('NETIF_ERR:' + e.code); }"@, "NETIF_OK:"@)) by {
            reveal_strlit("try { const r = require('os').networkInterfaces(); console.log('NETIF_OK:' + Object.keys(r).length); } catch(e) { console.log('NETIF_ERR:' + e.code); }");
            reveal_strlit("NETIF_OK:");
            assert("try { const r = require('os').networkInterfaces(); console.log('NETIF_OK:' + Object.keys(r).length); } catch(e) { console.log('NETIF_ERR:' + e.code); }"@.subrange(64, 73) =~= "NETIF_OK:"@);
            assert(occurs_at("try { const r = require('os').networkInterfaces(); console.log('NETIF_OK:' + Object.keys(r).length); } catch(e) { console.log('NETIF_ERR:' + e.code); }"@, "NETIF_OK:"@, 64));
        }
        assert(contains_text("try { const r = require('os').networkInterfaces(); console.log('NETIF_OK:' + Object.keys(r).length); } catch(e) { console.log('NETIF_ERR:' + e.code); }"@, "NETIF_ERR:"@)) by {
            reveal_strlit("try { const r = require('os').networkInterfaces(); console.log('NETIF_OK:' + Object.keys(r).length); } catch(e) { console.log('NETIF_ERR:' + e.code); }");
            reveal_strlit("NETIF_ERR:");
            assert("try { const r = require('os').networkInterfaces(); console.log('NETIF_OK:' + Object.keys(r).length); } catch(e) { console.log('NETIF_ERR:' + e.code); }"@.subrange(127, 137) =~= "NETIF_ERR:"@);
            assert(occurs_at("try { const r = require('os').networkInterfaces(); console.log('NETIF_OK:' + Object.keys(r).length); } catch(e) { console.log('NETIF_ERR:' + e.code); }"@, "NETIF_ERR:"@, 127));
        }
    }
}

proof fn lemma_node_isolation_fits(k: int)
    requires
        0 <= k < node_isolation_stages().len(),
    ensures
        fits_node_script(node_isolation_stages(), k),
{
    reveal(node_isolation_stages);
    let s = node_isolation_stages();
}

proof fn lemma_node_stress_fits(k: int)
    requires
        0 <= k < node_stress_stages().len(),
    ensures
        fits_node_script(node_stress_stages(), k),
{
    reveal(node_stress_stages);
    let s = node_stress_stages();
    if k == 0 {
        reveal_strlit("30 sequential PIE execs all passed");
        reveal_strlit(" sequential ");
        reveal_with_fuel(base_text, 3);
        assert(dec_text(30) =~= seq!['3', '0']);
        assert("30 sequential PIE execs all passed"@.subrange(0, 14) =~= dec_text(30) + " sequential "@);
    }
    if k == 7 {
        assert(Shape::Own1("echo-test") != Shape::Program("/nonpie-echo"));
    }
    if k == 8 {
        reveal_strlit("5 sequential non-PIE execs all passed");
        reveal_strlit(" sequential ");
        reveal_with_fuel(base_text, 3);
        assert(dec_text(5) =~= seq!['5']);
        assert("5 sequential non-PIE execs all passed"@.subrange(0, 13) =~= dec_text(5) + " sequential "@);
    }
}

proof fn lemma_node_self_stress_fits(k: int)
    requires
        0 <= k < node_self_stress_stages().len(),
    ensures
        fits_node_script(node_self_stress_stages(), k),
{
    reveal(node_self_stress_stages);
    let s = node_self_stress_stages();
}

proof fn lemma_node_nonpie_fits(k: int)
    requires
        0 <= k < node_nonpie_stages().len(),
    ensures
        fits_node_script(node_nonpie_stages(), k),
{
    reveal(node_nonpie_stages);
    let s = node_nonpie_stages();
    if k == 1 {
        assert(contains_text("if [ -x /nonpie-echo ]; then echo '#!/usr/bin/bash' > /tmp/x41.sh && echo '/nonpie-echo' >> /tmp/x41.sh && chmod +x /tmp/x41.sh && /tmp/x41.sh; EXIT=$?; rm -f /tmp/x41.sh; exit $EXIT; else echo SKIP; fi"@, "/nonpie-echo"@)) by {
            reveal_strlit("if [ -x /nonpie-echo ]; then echo '#!/usr/bin/bash' > /tmp/x41.sh && echo '/nonpie-echo' >> /tmp/x41.sh && chmod +x /tmp/x41.sh && /tmp/x41.sh; EXIT=$?; rm -f /tmp/x41.sh; exit $EXIT; else echo SKIP; fi");
            reveal_strlit("/nonpie-echo");
            assert("if [ -x /nonpie-echo ]; then echo '#!/usr/bin/bash' > /tmp/x41.sh && echo '/nonpie-echo' >> /tmp/x41.sh && chmod +x /tmp/x41.sh && /tmp/x41.sh; EXIT=$?; rm -f /tmp/x41.sh; exit $EXIT; else echo SKIP; fi"@.subrange(8, 20) =~= "/nonpie-echo"@);
            assert(occurs_at("if [ -x /nonpie-echo ]; then echo '#!/usr/bin/bash' > /tmp/x41.sh && echo '/nonpie-echo' >> /tmp/x41.sh && chmod +x /tmp/x41.sh && /tmp/x41.sh; EXIT=$?; rm -f /tmp/x41.sh; exit $EXIT; else echo SKIP; fi"@, "/nonpie-echo"@, 8));
        }
        assert(contains_text("if [ -x /nonpie-echo ]; then echo '#!/usr/bin/bash' > /tmp/x41.sh && echo '/nonpie-echo' >> /tmp/x41.sh && chmod +x /tmp/x41.sh && /tmp/x41.sh; EXIT=$?; rm -f /tmp/x41.sh; exit $EXIT; else echo SKIP; fi"@, "else echo SKIP; fi"@)) by {
            reveal_strlit("if [ -x /nonpie-echo ]; then echo '#!/usr/bin/bash' > /tmp/x41.sh && echo '/nonpie-echo' >> /tmp/x41.sh && chmod +x /tmp/x41.sh && /tmp/x41.sh; EXIT=$?; rm -f /tmp/x41.sh; exit $EXIT; else echo SKIP; fi");
            reveal_strlit("else echo SKIP; fi");
            assert("if [ -x /nonpie-echo ]; then echo '#!/usr/bin/bash' > /tmp/x41.sh && echo '/nonpie-echo' >> /tmp/x41.sh && chmod +x /tmp/x41.sh && /tmp/x41.sh; EXIT=$?; rm -f /tmp/x41.sh; exit $EXIT; else echo SKIP; fi"@.subrange(184, 202) =~= "else echo SKIP; fi"@);
            assert(occurs_at("if [ -x /nonpie-echo ]; then echo '#!/usr/bin/bash' > /tmp/x41.sh && echo '/nonpie-echo' >> /tmp/x41.sh && chmod +x /tmp/x41.sh && /tmp/x41.sh; EXIT=$?; rm -f /tmp/x41.sh; exit $EXIT; else echo SKIP; fi"@, "else echo SKIP; fi"@, 184));
        }
    }
    if k == 2 {
        assert(contains_text("if [ -x /nonpie-echo ]; then /nonpie-echo; else echo SKIP; fi"@, "/nonpie-echo"@)) by {
            reveal_strlit("if [ -x /nonpie-echo ]; then /nonpie-echo; else echo SKIP; fi");
            reveal_strlit("/nonpie-echo");
            assert("if [ -x /nonpie-echo ]; then /nonpie-echo; else echo SKIP; fi"@.subrange(8, 20) =~= "/nonpie-echo"@);
            assert(occurs_at("if [ -x /nonpie-echo ]; then /nonpie-echo; else echo SKIP; fi"@, "/nonpie-echo"@, 8));
        }
        assert(contains_text("if [ -x /nonpie-echo ]; then /nonpie-echo; else echo SKIP; fi"@, "else echo SKIP; fi"@)) by {
            reveal_strlit("if [ -x /nonpie-echo ]; then /nonpie-echo; else echo SKIP; fi");
            reveal_strlit("else echo SKIP; fi");
            assert("if [ -x /nonpie-echo ]; then /nonpie-echo; else echo SKIP; fi"@.subrange(43, 61) =~= "else echo SKIP; fi"@);
            assert(occurs_at("if [ -x /nonpie-echo ]; then /nonpie-echo; else echo SKIP; fi"@, "else echo SKIP; fi"@, 43));
        }
    }
    if k == 5 {
        assert(contains_text("if [ -x /nonpie-echo ]; then /nonpie-echo >/dev/null 2>&1; echo CHILD_CLEAN; else echo SKIP; fi"@, "CHILD_CLEAN"@)) by {
            reveal_strlit("if [ -x /nonpie-echo ]; then /nonpie-echo >/dev/null 2>&1; echo CHILD_CLEAN; else echo SKIP; fi");
            reveal_strlit("CHILD_CLEAN");
            assert("if [ -x /nonpie-echo ]; then /nonpie-echo >/dev/null 2>&1; echo CHILD_CLEAN; else echo SKIP; fi"@.subrange(64, 75) =~= "CHILD_CLEAN"@);
            assert(occurs_at("if [ -x /nonpie-echo ]; then /nonpie-echo >/dev/null 2>&1; echo CHILD_CLEAN; else echo SKIP; fi"@, "CHILD_CLEAN"@, 64));
        }
        assert(contains_text("if [ -x /nonpie-echo ]; then /nonpie-echo >/dev/null 2>&1; echo CHILD_CLEAN; else echo SKIP; fi"@, "else echo SKIP; fi"@)) by {
            reveal_strlit("if [ -x /nonpie-echo ]; then /nonpie-echo >/dev/null 2>&1; echo CHILD_CLEAN; else echo SKIP; fi");
            reveal_strlit("else echo SKIP; fi");
            assert("if [ -x /nonpie-echo ]; then /nonpie-echo >/dev/null 2>&1; echo CHILD_CLEAN; else echo SKIP; fi"@.subrange(77, 95) =~= "else echo SKIP; fi"@);
            assert(occurs_at("if [ -x /nonpie-echo ]; then /nonpie-echo >/dev/null 2>&1; echo CHILD_CLEAN; else echo SKIP; fi"@, "else echo SKIP; fi"@, 77));
        }
    }
    if k == 6 {
        assert(contains_text("if [ -x /nonpie-echo ]; then FIRST=$(/nonpie-echo); SECOND=$({self_exe} echo-test); echo \"first=$FIRST\"; echo \"second=$SECOND\"; else echo SKIP; fi"@, "{self_exe} echo-test"@)) by {
            reveal_strlit("if [ -x /nonpie-echo ]; then FIRST=$(/nonpie-echo); SECOND=$({self_exe} echo-test); echo \"first=$FIRST\"; echo \"second=$SECOND\"; else echo SKIP; fi");
            reveal_strlit("{self_exe} echo-test");
            assert("if [ -x /nonpie-echo ]; then FIRST=$(/nonpie-echo); SECOND=$({self_exe} echo-test); echo \"first=$FIRST\"; echo \"second=$SECOND\"; else echo SKIP; fi"@.subrange(61, 81) =~= "{self_exe} echo-test"@);
            assert(occurs_at("if [ -x /nonpie-echo ]; then FIRST=$(/nonpie-echo); SECOND=$({self_exe} echo-test); echo \"first=$FIRST\"; echo \"second=$SECOND\"; else echo SKIP; fi"@, "{self_exe} echo-test"@, 61));
        }
        assert(contains_text("if [ -x /nonpie-echo ]; then FIRST=$(/nonpie-echo); SECOND=$({self_exe} echo-test); echo \"first=$FIRST\"; echo \"second=$SECOND\"; else echo SKIP; fi"@, "else echo SKIP; fi"@)) by {
            reveal_strlit("if [ -x /nonpie-echo ]; then FIRST=$(/nonpie-echo); SECOND=$({self_exe} echo-test); echo \"first=$FIRST\"; echo \"second=$SECOND\"; else echo SKIP; fi");
            reveal_strlit("else echo SKIP; fi");
            assert("if [ -x /nonpie-echo ]; then FIRST=$(/nonpie-echo); SECOND=$({self_exe} echo-test); echo \"first=$FIRST\"; echo \"second=$SECOND\"; else echo SKIP; fi"@.subrange(128, 146) =~= "else echo SKIP; fi"@);
            assert(occurs_at("if [ -x /nonpie-echo ]; then FIRST=$(/nonpie-echo); SECOND=$({self_exe} echo-test); echo \"first=$FIRST\"; echo \"second=$SECOND\"; else echo SKIP; fi"@, "else echo SKIP; fi"@, 128));
        }
    }
    if k == 7 {
        assert(contains_text("if [ -x /nonpie-echo ]; then bash -c '/nonpie-echo'; else echo SKIP; fi"@, "/nonpie-echo"@)) by {
            reveal_strlit("if [ -x /nonpie-echo ]; then bash -c '/nonpie-echo'; else echo SKIP; fi");
            reveal_strlit("/nonpie-echo");
            assert("if [ -x /nonpie-echo ]; then bash -c '/nonpie-echo'; else echo SKIP; fi"@.subrange(8, 20) =~= "/nonpie-echo"@);
            assert(occurs_at("if [ -x /nonpie-echo ]; then bash -c '/nonpie-echo'; else echo SKIP; fi"@, "/nonpie-echo"@, 8));
        }
        assert(contains_text("if [ -x /nonpie-echo ]; then bash -c '/nonpie-echo'; else echo SKIP; fi"@, "else echo SKIP; fi"@)) by {
            reveal_strlit("if [ -x /nonpie-echo ]; then bash -c '/nonpie-echo'; else echo SKIP; fi");
            reveal_strlit("else echo SKIP; fi");
            assert("if [ -x /nonpie-echo ]; then bash -c '/nonpie-echo'; else echo SKIP; fi"@.subrange(53, 71) =~= "else echo SKIP; fi"@);
            assert(occurs_at("if [ -x /nonpie-echo ]; then bash -c '/nonpie-echo'; else echo SKIP; fi"@, "else echo SKIP; fi"@, 53));
        }
    }
    if k == 8 {
        assert(contains_text("if [ -x /nonpie-echo ]; then bash -c '/nonpie-echo >/dev/null; {self_exe} echo-test'; else echo SKIP; fi"@, "{self_exe} echo-test"@)) by {
            reveal_strlit("if [ -x /nonpie-echo ]; then bash -c '/nonpie-echo >/dev/null; {self_exe} echo-test'; else echo SKIP; fi");
            reveal_strlit("{self_exe} echo-test");
            assert("if [ -x /nonpie-echo ]; then bash -c '/nonpie-echo >/dev/null; {self_exe} echo-test'; else echo SKIP; fi"@.subrange(63, 83) =~= "{self_exe} echo-test"@);
            assert(occurs_at("if [ -x /nonpie-echo ]; then bash -c '/nonpie-echo >/dev/null; {self_exe} echo-test'; else echo SKIP; fi"@, "{self_exe} echo-test"@, 63));
        }
        assert(contains_text("if [ -x /nonpie-echo ]; then bash -c '/nonpie-echo >/dev/null; {self_exe} echo-test'; else echo SKIP; fi"@, "else echo SKIP; fi"@)) by {
            reveal_strlit("if [ -x /nonpie-echo ]; then bash -c '/nonpie-echo >/dev/null; {self_exe} echo-test'; else echo SKIP; fi");
            reveal_strlit("else echo SKIP; fi");
            assert("if [ -x /nonpie-echo ]; then bash -c '/nonpie-echo >/dev/null; {self_exe} echo-test'; else echo SKIP; fi"@.subrange(86, 104) =~= "else echo SKIP; fi"@);
            assert(occurs_at("if [ -x /nonpie-echo ]; then bash -c '/nonpie-echo >/dev/null; {self_exe} echo-test'; else echo SKIP; fi"@, "else echo SKIP; fi"@, 86));
        }
    }
}

proof fn lemma_coherent_node_direct()
    ensures
        coherent(node_direct_stages()),
{
    reveal(node_direct_stages);
    let r = node_direct_stages();
    assert forall|k: int| 0 <= k < r.len() implies #[trigger] stage_fits(r, k) by {}
}

proof fn lemma_coherent_node_delayed()
    ensures
        coherent(node_delayed_stages()),
{
    reveal(node_delayed_stages);
    let r = node_delayed_stages();
    assert forall|k: int| 0 <= k < r.len() implies #[trigger] stage_fits(r, k) by {}
}

proof fn lemma_coherent_node_isolation()
    ensures
        coherent(node_isolation_stages()),
{
    reveal(node_isolation_stages);
    let r = node_isolation_stages();
    assert forall|k: int| 0 <= k < r.len() implies #[trigger] stage_fits(r, k) by {}
}

proof fn lemma_coherent_node_stress()
    ensures
        coherent(node_stress_stages()),
{
    reveal(node_stress_stages);
    let r = node_stress_stages();
    assert forall|k: int| 0 <= k < r.len() implies #[trigger] stage_fits(r, k) by {}
}

proof fn lemma_coherent_node_self_stress()
    ensures
        coherent(node_self_stress_stages()),
{
    reveal(node_self_stress_stages);
    let r = node_self_stress_stages();
    assert forall|k: int| 0 <= k < r.len() implies #[trigger] stage_fits(r, k) by {}
}

proof fn lemma_coherent_node_nonpie()
    ensures
        coherent(node_nonpie_stages()),
{
    reveal(node_nonpie_stages);
    let r = node_nonpie_stages();
    assert forall|k: int| 0 <= k < r.len() implies #[trigger] stage_fits(r, k) by {}
}

/// A stage that fits where its part stands alone fits where the part stands in a script.
proof fn lemma_fits_in_place(s: Seq<Stage>, p: Seq<Stage>, from: int, k: int)
    requires
        0 <= from,
        from + p.len() <= s.len(),
        s.subrange(from, from + p.len()) == p,
        0 <= k < p.len(),
        stage_fits(p, k),
        fits_node_script(p, k),
    ensures
        fits_node_script(s, from + k),
{
    let q = s.subrange(from, from + p.len());
    assert(q[k] == s[from + k]);
    if let Stage::Guard { probe, span, .. } = p[k] {
        assert forall|j: int| from + k < j <= from + k + span implies plainly_sends_to(
            #[trigger] s[j],
            probe.target,
        ) by {
            assert(q[j - from] == s[j]);
        }
    }
}

/// Every stage of the script judges a program by what it runs and records the agent that it asked.
/// A guard asks whether the program is there in the way that its call can tell, and what it passes
/// over is meant for the same agent.
pub proof fn law_node_tests_fit(k: int)
    requires
        0 <= k < node_exec_stages_all().len(),
    ensures
        node_exec_stages_all().len() == 48,
        fits_node_script(node_exec_stages_all(), k),
{
    let s = node_exec_stages_all();
    assert(s.len() == 48) by {
        reveal(node_direct_stages);
        reveal(node_delayed_stages);
        reveal(node_isolation_stages);
        reveal(node_stress_stages);
        reveal(node_self_stress_stages);
        reveal(node_nonpie_stages);
    }
    if k < 10 {
        let p = node_direct_stages();
        assert(p.len() == 10 && s.subrange(0, 10) =~= p) by {
            reveal(node_direct_stages);
            reveal(node_delayed_stages);
            reveal(node_isolation_stages);
            reveal(node_stress_stages);
            reveal(node_self_stress_stages);
            reveal(node_nonpie_stages);
        }
        lemma_node_direct_fits(k - 0);
        lemma_coherent_node_direct();
        lemma_fits_in_place(s, p, 0, k - 0);
    } else if k < 18 {
        let p = node_delayed_stages();
        assert(p.len() == 8 && s.subrange(10, 18) =~= p) by {
            reveal(node_direct_stages);
            reveal(node_delayed_stages);
            reveal(node_isolation_stages);
            reveal(node_stress_stages);
            reveal(node_self_stress_stages);
            reveal(node_nonpie_stages);
        }
        lemma_node_delayed_fits(k - 10);
        lemma_coherent_node_delayed();
        lemma_fits_in_place(s, p, 10, k - 10);
    } else if k < 26 {
        let p = node_isolation_stages();
        assert(p.len() == 8 && s.subrange(18, 26) =~= p) by {
            reveal(node_direct_stages);
            reveal(node_delayed_stages);
            reveal(node_isolation_stages);
            reveal(node_stress_stages);
            reveal(node_self_stress_stages);
            reveal(node_nonpie_stages);
        }
        lemma_node_isolation_fits(k - 18);
        lemma_coherent_node_isolation();
        lemma_fits_in_place(s, p, 18, k - 18);
    } else if k < 35 {
        let p = node_stress_stages();
        assert(p.len() == 9 && s.subrange(26, 35) =~= p) by {
            reveal(node_direct_stages);
            reveal(node_delayed_stages);
            reveal(node_isolation_stages);
            reveal(node_stress_stages);
            reveal(node_self_stress_stages);
            reveal(node_nonpie_stages);
        }
        lemma_node_stress_fits(k - 26);
        lemma_coherent_node_stress();
        lemma_fits_in_place(s, p, 26, k - 26);
    } else if k < 39 {
        let p = node_self_stress_stages();
        assert(p.len() == 4 && s.subrange(35, 39) =~= p) by {
            reveal(node_direct_stages);
            reveal(node_delayed_stages);
            reveal(node_isolation_stages);
            reveal(node_stress_stages);
            reveal(node_self_stress_stages);
            reveal(node_nonpie_stages);
        }
        lemma_node_self_stress_fits(k - 35);
        lemma_coherent_node_self_stress();
        lemma_fits_in_place(s, p, 35, k - 35);
    } else {
        let p = node_nonpie_stages();
        assert(p.len() == 9 && s.subrange(39, 48) =~= p) by {
            reveal(node_direct_stages);
            reveal(node_delayed_stages);
            reveal(node_isolation_stages);
            reveal(node_stress_stages);
            reveal(node_self_stress_stages);
            reveal(node_nonpie_stages);
        }
        lemma_node_nonpie_fits(k - 39);
        lemma_coherent_node_nonpie();
        lemma_fits_in_place(s, p, 39, k - 39);
    }
}

} // verus!
