//! The fork matrix as it runs: what each test asks, and how its answer is judged.

use vstd::prelude::*;
use crate::agents::AgentName;
use crate::asks::{two_words, Ask, AskView, Paths, PathsView};
use crate::fork_plans::{
    bash_agent, contamination_case, contamination_row, delayed_handler_of, depth_agent, df_agent,
    df_binary, df_binary_at, exec_method, fork_matrix_row, launcher_agent, launcher_secs,
    netif_agent, nonpie_case, shell_pattern, stress_mode, DfBinary, DfTrigger, BASH_TESTS,
    FORK_MATRIX_TESTS, WORKER_TESTS,
};
use crate::fork_verdicts::{
    bash_command, bash_outcome, bash_pass, contamination_command, contamination_outcome,
    contamination_outcome_view, contamination_text, delayed_inner, delayed_outcome, exec_args,
    inherited_outcome, init_level_first, init_level_second, kill_setup_failed, leaf_outcome, leaf_outcome_view, method_command,
    method_outcome, netif_outcome, lists_interfaces, node_argv, node_outcome, node_word,
    nonpie_command, nonpie_outcome, nonpie_outcome_view, per_binary, plain, prints, printed_outcome, resolved,
    shell_outcome, shell_outcome_view, stress_outcome, worker_argv, worker_outcome, ExecArgs,
    Inherited,
};
use crate::protocol::{Response, ResponseView};
use crate::registry::{binary_at, binary_type, Handler, OutcomeView, TestOutcome};
use crate::script::{accepts, is_absent, printed, Absent, Accept};
use crate::text::{contains_text, occurs_at, replace_text, texts, trim_text};

verus! {

/// How many programs a stress run starts.
pub const STRESS_COUNT: u64 = 10;

/// Where Node.js is.
pub const NODE: &'static str = "/usr/local/bin/node";

/// The script that writes to the output stream itself.
pub const WRITE_SCRIPT: &'static str = "process.stdout.write('stdout_write_ok\\n')";

/// The script that counts the network interfaces.
pub const NETIF_SCRIPT: &'static str = "try { const r = require('os').networkInterfaces(); console.log('NETIF_OK:' + Object.keys(r).length); } catch(e) { console.log('NETIF_ERR:' + e.code); }";

/// How long counting the network interfaces may take, in seconds.
pub const NETIF_SECS: u64 = 30;

/// The words that run a script with Node.js.
pub open spec fn node_words(script: Seq<char>) -> Seq<Seq<char>> {
    seq![NODE@, "-e"@, script]
}

fn node_script(script: &str) -> (r: Vec<String>)
    ensures
        texts(r@) == node_words(script@),
{
    let r = vec![NODE.to_string(), "-e".to_string(), script.to_string()];
    assert(texts(r@) =~= node_words(script@));
    r
}

/// A program of the harness that prints a known text.
pub open spec fn echo_words(program: Seq<char>) -> Seq<Seq<char>> {
    seq![program, "echo-test"@]
}

/// The program that a delayed fork starts.
pub open spec fn delayed_ask_of(b: DfBinary, p: PathsView) -> AskView {
    match b {
        DfBinary::Harness(bt) => AskView::Delayed { cmd: p.target(bt), args: seq!["echo-test"@] },
        DfBinary::Node => AskView::Delayed {
            cmd: NODE@,
            args: seq!["-e"@, "console.log('df_node_ok')"@],
        },
    }
}

fn delayed_ask(b: DfBinary, p: &Paths) -> (r: Ask)
    requires
        p@.wf(),
    ensures
        r@ == delayed_ask_of(b, p@),
{
    let (cmd, args) = match b {
        DfBinary::Harness(bt) => delayed_inner(b, p.target(bt)),
        DfBinary::Node => delayed_inner(b, ""),
    };
    Ask::Delayed { cmd, args }
}

/// What the test at a position of the fork matrix asks first.
pub open spec fn fork_ask_of(t: int, p: PathsView) -> AskView {
    if t < 54 {
        AskView::Shell { cmd: shell_pattern((t % 18) as usize).cmd@, timeout_secs: None }
    } else if t < 57 {
        AskView::Program {
            argv: node_words("console.log('"@ + node_word(depth_agent((t - 54) as usize)) + "')"@),
            timeout_secs: None,
        }
    } else if t < 58 {
        AskView::Program { argv: node_words(WRITE_SCRIPT@), timeout_secs: None }
    } else if t < 64 {
        AskView::Shell {
            cmd: replace_text(
                exec_method((t - 58) as usize).cmd_template@,
                "{self_exe}"@,
                p.own,
            ),
            timeout_secs: None,
        }
    } else if t < 68 {
        AskView::Program { argv: node_words(NETIF_SCRIPT@), timeout_secs: Some(NETIF_SECS) }
    } else if t < 116 {
        delayed_ask_of(df_binary_at(((t - 68) / 4) % 6), p)
    } else if t < 131 {
        AskView::Child { child_target: p.target(binary_at((t - 116) % 5)) }
    } else if t < 136 {
        delayed_ask_of(DfBinary::Harness(binary_at(t - 131)), p)
    } else if t < 166 {
        AskView::Stress {
            count: STRESS_COUNT,
            mode: stress_mode(((t - 136) / 10) as usize),
            use_tokio: ((t - 136) / 5) % 2 == 1,
        }
    } else if t < 181 {
        let target = p.target(binary_at((t - 166) % 5));
        match nonpie_case(((t - 166) / 5) as usize).bash_cmd {
            Some(cmd) => AskView::Shell { cmd: resolved(cmd@, target), timeout_secs: None },
            None => AskView::Program { argv: echo_words(target), timeout_secs: None },
        }
    } else if t < 186 {
        AskView::Program { argv: echo_words(p.nonpie), timeout_secs: None }
    } else {
        let (c, b) = contamination_row((t - 186) as usize);
        AskView::Shell {
            cmd: contamination_text(
                contamination_case(c),
                match b {
                    Some(k) => p.target(binary_at(k as int)),
                    None => p.own,
                },
                p.nonpie,
            ),
            timeout_secs: None,
        }
    }
}

/// What the test at a position of the fork matrix asks first.
#[verifier::rlimit(40)]
pub fn fork_ask(t: usize, p: &Paths) -> (r: Ask)
    requires
        t < FORK_MATRIX_TESTS,
        p@.wf(),
    ensures
        r@ == fork_ask_of(t as int, p@),
{
    if t < 54 {
        Ask::Shell { cmd: shell_pattern(t % 18).cmd.to_string(), timeout_secs: None }
    } else if t < 57 {
        Ask::Program { argv: node_argv(depth_agent(t - 54)), timeout_secs: None }
    } else if t < 58 {
        Ask::Program { argv: node_script(WRITE_SCRIPT), timeout_secs: None }
    } else if t < 64 {
        Ask::Shell {
            cmd: method_command(exec_method(t - 58), p.own.as_str()),
            timeout_secs: None,
        }
    } else if t < 68 {
        Ask::Program { argv: node_script(NETIF_SCRIPT), timeout_secs: Some(NETIF_SECS) }
    } else if t < 116 {
        delayed_ask(df_binary(((t - 68) / 4) % 6), p)
    } else if t < 131 {
        Ask::Child { child_target: p.target(binary_type((t - 116) % 5)).to_string() }
    } else if t < 136 {
        delayed_ask(DfBinary::Harness(binary_type(t - 131)), p)
    } else if t < 166 {
        Ask::Stress {
            count: STRESS_COUNT,
            mode: stress_mode((t - 136) / 10),
            use_tokio: ((t - 136) / 5) % 2 == 1,
        }
    } else if t < 181 {
        let target = p.target(binary_type((t - 166) % 5));
        match nonpie_command(nonpie_case((t - 166) / 5), target) {
            Some(cmd) => Ask::Shell { cmd, timeout_secs: None },
            None => Ask::Program { argv: two_words(target, "echo-test"), timeout_secs: None },
        }
    } else if t < 186 {
        Ask::Program { argv: two_words(p.nonpie.as_str(), "echo-test"), timeout_secs: None }
    } else {
        let (c, b) = contamination_row(t - 186);
        let target = match b {
            Some(k) => p.target(binary_type(k)),
            None => p.own.as_str(),
        };
        Ask::Shell {
            cmd: contamination_command(contamination_case(c), target, p.nonpie.as_str()),
            timeout_secs: None,
        }
    }
}

/// The tests of the fork matrix that run on a leaf of their own and report a detail; the
/// others are answered by a reply.
pub open spec fn on_fork_leaf(t: int) -> bool {
    68 <= t < 166
}

/// The tests of the fork matrix that ask twice.
pub open spec fn asks_twice(t: int) -> bool {
    181 <= t < 186
}

/// Whether a test of the fork matrix asks twice.
pub fn fork_asks_twice(t: usize) -> (r: bool)
    ensures
        r == asks_twice(t as int),
{
    181 <= t && t < 186
}

/// What follows the first reply of a test that asks twice.
pub enum SecondAsk {
    /// The test is over.
    Over { outcome: TestOutcome },
    /// It asks for this too.
    Also { ask: Ask },
}

/// What follows the first reply of a test that asks twice: where the non-PIE binary is
/// missing the test fails, else the binary under test runs too.
pub fn fork_second(t: usize, p: &Paths, r: &Response) -> (s: SecondAsk)
    requires
        asks_twice(t as int),
        p@.wf(),
    ensures
        match s {
            SecondAsk::Over { outcome } => is_absent(Absent::NotFound, r@) && outcome@ == (
            OutcomeView { agent: "A"@, pass: false, detail: "FAIL: nonpie binary not found"@ }),
            SecondAsk::Also { ask } => !is_absent(Absent::NotFound, r@) && ask@ == (
            AskView::Program {
                argv: echo_words(p@.target(binary_at(t - 181))),
                timeout_secs: None,
            }),
        },
{
    match init_level_first(r) {
        Some(outcome) => SecondAsk::Over { outcome },
        None => SecondAsk::Also {
            ask: Ask::Program {
                argv: two_words(p.target(binary_type(t - 181)), "echo-test"),
                timeout_secs: None,
            },
        },
    }
}

/// The verdict on the last reply of a test of the fork matrix.
pub open spec fn fork_reply_verdict(t: int, r: ResponseView) -> OutcomeView {
    if t < 54 {
        shell_outcome_view(
            depth_agent((t / 18) as usize),
            shell_pattern((t % 18) as usize),
            r,
        )
    } else if t < 57 {
        let a = depth_agent((t - 54) as usize);
        plain(a.wire(), prints(r, node_word(a)), r)
    } else if t < 58 {
        plain("A"@, prints(r, "stdout_write_ok"@), r)
    } else if t < 64 {
        plain(
            AgentName::Dpg1.wire(),
            accepts(Accept::PrintsTrimmed(exec_method((t - 58) as usize).expected), r),
            r,
        )
    } else if t < 68 {
        plain(
            netif_agent((t - 64) as usize).wire(),
            printed(r) matches Some(out) && lists_interfaces(out),
            r,
        )
    } else if t < 181 {
        nonpie_outcome_view(r)
    } else if t < 186 {
        plain("A"@, accepts(Accept::PrintsTrimmed("ECHO_TEST_OK"), r), r)
    } else {
        contamination_outcome_view(contamination_case(contamination_row((t - 186) as usize).0), r)
    }
}

/// The verdict on the last reply of a test of the fork matrix.
#[verifier::rlimit(40)]
pub fn fork_reply_outcome(t: usize, r: &Response) -> (o: TestOutcome)
    requires
        t < FORK_MATRIX_TESTS,
        !on_fork_leaf(t as int),
    ensures
        o@ == fork_reply_verdict(t as int, r@),
{
    if t < 54 {
        shell_outcome(depth_agent(t / 18), shell_pattern(t % 18), r)
    } else if t < 57 {
        node_outcome(depth_agent(t - 54), r)
    } else if t < 58 {
        printed_outcome("A", "stdout_write_ok", r)
    } else if t < 64 {
        method_outcome(AgentName::Dpg1, exec_method(t - 58), r)
    } else if t < 68 {
        netif_outcome(netif_agent(t - 64), r)
    } else if t < 181 {
        nonpie_outcome(r)
    } else if t < 186 {
        init_level_second(r)
    } else {
        contamination_outcome(contamination_case(contamination_row(t - 186).0), r)
    }
}

/// The resource that a test's child inherits.
pub open spec fn inherited_at(t: int) -> Inherited {
    if t < 121 {
        Inherited::BufferedScm
    } else if t < 126 {
        Inherited::Socketpair
    } else {
        Inherited::Pidfd
    }
}

/// The verdict on what a leaf of the fork matrix reports.
pub open spec fn fork_leaf_verdict(t: int, result: Result<String, String>) -> OutcomeView {
    if t < 116 {
        let word = df_binary_at(((t - 68) / 4) % 6).expected_text();
        leaf_outcome_view(
            df_agent(((t - 68) % 2) as usize).wire(),
            "TriggerDelayedForkOut"@,
            result,
            word,
            word,
        )
    } else if t < 131 {
        let kind = inherited_at(t);
        leaf_outcome_view("A"@, kind.out_name(), result, kind.ok_text(), kind.ok_text())
    } else if t < 136 {
        leaf_outcome_view(
            "A"@,
            "TriggerDelayedForkOut"@,
            result,
            "ECHO_TEST_OK"@,
            "ECHO_TEST_OK"@,
        )
    } else {
        leaf_outcome_view(
            "A"@,
            "StressExecOut"@,
            result,
            "STRESS_START"@,
            "STRESS_END failures=0"@,
        )
    }
}

/// The verdict on what a leaf of the fork matrix reports.
pub fn fork_leaf_outcome(t: usize, result: Result<String, String>) -> (o: TestOutcome)
    requires
        on_fork_leaf(t as int),
    ensures
        o@ == fork_leaf_verdict(t as int, result),
{
    if t < 116 {
        delayed_outcome(df_agent((t - 68) % 2), df_binary(((t - 68) / 4) % 6), result)
    } else if t < 121 {
        inherited_outcome(Inherited::BufferedScm, result)
    } else if t < 126 {
        inherited_outcome(Inherited::Socketpair, result)
    } else if t < 131 {
        inherited_outcome(Inherited::Pidfd, result)
    } else if t < 136 {
        leaf_outcome(
            "A",
            "TriggerDelayedForkOut",
            result,
            "ECHO_TEST_OK",
            "ECHO_TEST_OK",
        )
    } else {
        stress_outcome(result)
    }
}

/// The arguments are those that the handler takes.
pub open spec fn fork_handler_takes(h: Handler, a: AskView) -> bool {
    match a {
        AskView::Shell { cmd, timeout_secs } => h == Handler::Named("fork_matrix.bash"),
        AskView::Program { argv, timeout_secs } => h == Handler::Named("fork_matrix.exec_bin"),
        AskView::Delayed { cmd, args } => h == delayed_handler_of(DfTrigger::Mmap) || h
            == delayed_handler_of(DfTrigger::Thread),
        AskView::Child { child_target } => h == Handler::Named("fork_matrix.buffered_scm_fork")
            || h == Handler::Named("fork_matrix.socketpair_fork_cross") || h == Handler::Named(
            "fork_matrix.pidfd_inherit_fork",
        ),
        AskView::Stress { count, mode, use_tokio } => h == Handler::Named(
            "fork_matrix.stress_exec",
        ),
        _ => false,
    }
}

/// Each test of the fork matrix asks its plan's handler for what that handler does, and
/// has a leaf in its plan exactly where its answer is a leaf's.
pub proof fn law_fork_asks_fit(t: int, p: PathsView)
    requires
        0 <= t < FORK_MATRIX_TESTS,
        p.wf(),
    ensures
        fork_handler_takes(fork_matrix_row(t).handler, fork_ask_of(t, p)),
        on_fork_leaf(t) <==> fork_matrix_row(t).leaves.len() == 1,
        !on_fork_leaf(t) <==> fork_matrix_row(t).agents.len() == 1,
{
}

/// The first `n` characters do not hold an opening brace.
spec fn braceless(s: Seq<char>, n: nat) -> bool
    decreases n,
{
    n == 0 || (s[n - 1] != '{' && braceless(s, (n - 1) as nat))
}

proof fn lemma_braceless_at(s: Seq<char>, n: nat, i: int)
    requires
        braceless(s, n),
        0 <= i < n,
    ensures
        s[i] != '{',
    decreases n,
{
    if i < n - 1 {
        lemma_braceless_at(s, (n - 1) as nat, i);
    }
}

proof fn lemma_names_no_program(s: Seq<char>)
    requires
        braceless(s, s.len()),
    ensures
        !per_binary(s),
{
    reveal_strlit("{self_exe}");
    if per_binary(s) {
        let at = choose|at: int| occurs_at(s, "{self_exe}"@, at);
        assert(s.subrange(at, at + 10)[0] == '{');
        lemma_braceless_at(s, s.len(), at);
    }
}

/// A contamination test is run for a binary type exactly where its command line names the
/// program under test.
pub proof fn law_contamination_axis(j: usize)
    requires
        j < 12,
    ensures
        contamination_row(j).1 is Some <==> per_binary(
            contamination_case(contamination_row(j).0).bash_template@,
        ),
{
    let c = contamination_row(j).0;
    if c == 0 {
        let s = "if [ -x /nonpie-bin ]; then /nonpie-cmd >/dev/null 2>&1; echo CHILD_CLEAN; else echo SKIP; fi"@;
        reveal_strlit("if [ -x /nonpie-bin ]; then /nonpie-cmd >/dev/null 2>&1; echo CHILD_CLEAN; else echo SKIP; fi");
        reveal_with_fuel(braceless, 41);
        assert(braceless(s, 40));
        assert(braceless(s, 80));
        lemma_names_no_program(s);
    } else if c == 1 {
        reveal_strlit("if [ -x /nonpie-bin ]; then FIRST=$(/nonpie-cmd); SECOND=$({self_exe} echo-test); echo \"first=$FIRST\"; echo \"second=$SECOND\"; else echo SKIP; fi");
        reveal_strlit("{self_exe}");
        assert("if [ -x /nonpie-bin ]; then FIRST=$(/nonpie-cmd); SECOND=$({self_exe} echo-test); echo \"first=$FIRST\"; echo \"second=$SECOND\"; else echo SKIP; fi"@.subrange(59, 69) =~= "{self_exe}"@);
        assert(occurs_at("if [ -x /nonpie-bin ]; then FIRST=$(/nonpie-cmd); SECOND=$({self_exe} echo-test); echo \"first=$FIRST\"; echo \"second=$SECOND\"; else echo SKIP; fi"@, "{self_exe}"@, 59));
    } else if c == 2 {
        let s = "if [ -x /nonpie-bin ]; then bash -c '/nonpie-cmd'; else echo SKIP; fi"@;
        reveal_strlit("if [ -x /nonpie-bin ]; then bash -c '/nonpie-cmd'; else echo SKIP; fi");
        reveal_with_fuel(braceless, 41);
        assert(braceless(s, 40));
        lemma_names_no_program(s);
    } else {
        reveal_strlit("if [ -x /nonpie-bin ]; then bash -c '/nonpie-cmd >/dev/null; {self_exe} echo-test'; else echo SKIP; fi");
        reveal_strlit("{self_exe}");
        assert("if [ -x /nonpie-bin ]; then bash -c '/nonpie-cmd >/dev/null; {self_exe} echo-test'; else echo SKIP; fi"@.subrange(61, 71) =~= "{self_exe}"@);
        assert(occurs_at("if [ -x /nonpie-bin ]; then bash -c '/nonpie-cmd >/dev/null; {self_exe} echo-test'; else echo SKIP; fi"@, "{self_exe}"@, 61));
    }
}

/// No way to start a program names the program under test, so each is tested once.
pub proof fn law_methods_tested_once(k: usize)
    ensures
        !per_binary(exec_method(k).cmd_template@),
{
    if k == 0 {
        let s = "echo '#!/usr/bin/bash' > /tmp/xm.sh && echo 'echo script_echo_ok' >> /tmp/xm.sh && chmod +x /tmp/xm.sh && /tmp/xm.sh; EXIT=$?; rm -f /tmp/xm.sh; exit $EXIT"@;
        reveal_strlit("echo '#!/usr/bin/bash' > /tmp/xm.sh && echo 'echo script_echo_ok' >> /tmp/xm.sh && chmod +x /tmp/xm.sh && /tmp/xm.sh; EXIT=$?; rm -f /tmp/xm.sh; exit $EXIT");
        reveal_with_fuel(braceless, 41);
        assert(braceless(s, 40));
        assert(braceless(s, 80));
        assert(braceless(s, 120));
        lemma_names_no_program(s);
    } else if k == 1 {
        let s = "echo '#!/usr/bin/bash' > /tmp/xm.sh && echo '/usr/local/bin/node -e \"console.log(\\\"script_node_ok\\\")\"' >> /tmp/xm.sh && chmod +x /tmp/xm.sh && /tmp/xm.sh; EXIT=$?; rm -f /tmp/xm.sh; exit $EXIT"@;
        reveal_strlit("echo '#!/usr/bin/bash' > /tmp/xm.sh && echo '/usr/local/bin/node -e \"console.log(\\\"script_node_ok\\\")\"' >> /tmp/xm.sh && chmod +x /tmp/xm.sh && /tmp/xm.sh; EXIT=$?; rm -f /tmp/xm.sh; exit $EXIT");
        reveal_with_fuel(braceless, 41);
        assert(braceless(s, 40));
        assert(braceless(s, 80));
        assert(braceless(s, 120));
        assert(braceless(s, 160));
        lemma_names_no_program(s);
    } else if k == 2 {
        let s = "echo '#!/usr/bin/env bash' > /tmp/xm.sh && echo 'echo script_env_ok' >> /tmp/xm.sh && chmod +x /tmp/xm.sh && /tmp/xm.sh; EXIT=$?; rm -f /tmp/xm.sh; exit $EXIT"@;
        reveal_strlit("echo '#!/usr/bin/env bash' > /tmp/xm.sh && echo 'echo script_env_ok' >> /tmp/xm.sh && chmod +x /tmp/xm.sh && /tmp/xm.sh; EXIT=$?; rm -f /tmp/xm.sh; exit $EXIT");
        reveal_with_fuel(braceless, 41);
        assert(braceless(s, 40));
        assert(braceless(s, 80));
        assert(braceless(s, 120));
        lemma_names_no_program(s);
    } else if k == 3 {
        let s = "echo '#!/usr/bin/bash' > /tmp/xm.sh && echo 'echo cat_input | cat' >> /tmp/xm.sh && chmod +x /tmp/xm.sh && /tmp/xm.sh; EXIT=$?; rm -f /tmp/xm.sh; exit $EXIT"@;
        reveal_strlit("echo '#!/usr/bin/bash' > /tmp/xm.sh && echo 'echo cat_input | cat' >> /tmp/xm.sh && chmod +x /tmp/xm.sh && /tmp/xm.sh; EXIT=$?; rm -f /tmp/xm.sh; exit $EXIT");
        reveal_with_fuel(braceless, 41);
        assert(braceless(s, 40));
        assert(braceless(s, 80));
        assert(braceless(s, 120));
        lemma_names_no_program(s);
    } else if k == 4 {
        let s = "bash -c '/usr/local/bin/node -e \"console.log(\\\"nested_ok\\\")\"'"@;
        reveal_strlit("bash -c '/usr/local/bin/node -e \"console.log(\\\"nested_ok\\\")\"'");
        reveal_with_fuel(braceless, 41);
        assert(braceless(s, 40));
        lemma_names_no_program(s);
    } else {
        let s = "echo '#!/usr/bin/bash' > /tmp/xm.sh && echo 'exec /usr/local/bin/node -e \"console.log(\\\"exec_ok\\\")\"' >> /tmp/xm.sh && chmod +x /tmp/xm.sh && /tmp/xm.sh; EXIT=$?; rm -f /tmp/xm.sh; exit $EXIT"@;
        reveal_strlit("echo '#!/usr/bin/bash' > /tmp/xm.sh && echo 'exec /usr/local/bin/node -e \"console.log(\\\"exec_ok\\\")\"' >> /tmp/xm.sh && chmod +x /tmp/xm.sh && /tmp/xm.sh; EXIT=$?; rm -f /tmp/xm.sh; exit $EXIT");
        reveal_with_fuel(braceless, 41);
        assert(braceless(s, 40));
        assert(braceless(s, 80));
        assert(braceless(s, 120));
        assert(braceless(s, 160));
        lemma_names_no_program(s);
    }
}

/// The subtree kill test in which the child two levels down is killed with its root.
pub const DEEP_KILL: usize = 1;

/// The subtree kill test in which the child leaves before its root is killed.
pub const LATE_KILL: usize = 2;

/// What follows the start of the child in a subtree kill test.
pub enum KillStep {
    /// The test is over.
    Over { outcome: TestOutcome },
    /// Ask the child to leave, and kill its root then.
    ExitThenKill,
    /// Kill its root.
    Kill,
}

/// What follows the start of the child in a subtree kill test; `r` is the answer to it, and
/// `started` is whether it says that the child runs.
pub fn kill_step(t: usize, started: bool, r: &Response) -> (s: KillStep)
    ensures
        match s {
            KillStep::Over { outcome } => !started && outcome@ == (OutcomeView {
                agent: "E"@,
                pass: false,
                detail: (if t == DEEP_KILL {
                    "setup: spawn_ephemeral(NPx via EE) failed: "@
                } else {
                    "setup: spawn_ephemeral(NPx) failed: "@
                }) + r@.debug(),
            }),
            KillStep::ExitThenKill => started && t == LATE_KILL,
            KillStep::Kill => started && t != LATE_KILL,
        },
{
    if !started {
        KillStep::Over { outcome: kill_setup_failed(t == DEEP_KILL, r) }
    } else if t == LATE_KILL {
        KillStep::ExitThenKill
    } else {
        KillStep::Kill
    }
}

/// What a bash test asks: the command line, through bash.
pub fn bash_ask(t: usize) -> (r: ExecArgs)
    requires
        t < BASH_TESTS,
    ensures
        texts(r.args@) == seq!["bash"@, "-c"@, bash_command((t % 3) as usize)@],
        r.timeout_secs is None,
        r.stdin is None,
        !r.background,
        r.env@.len() == 0,
{
    let words = vec!["bash".to_string(), "-c".to_string(), bash_command(t % 3).to_string()];
    assert(texts(words@) =~= seq!["bash"@, "-c"@, bash_command((t % 3) as usize)@]);
    exec_args(words)
}

/// The verdict on a bash test.
pub fn bash_judge(t: usize, r: &Response) -> (o: TestOutcome)
    requires
        t < BASH_TESTS,
    ensures
        o@ == plain(bash_agent((t / 3) as usize).wire(), bash_pass((t % 3) as usize, r@), r@),
{
    bash_outcome(bash_agent(t / 3), t % 3, r)
}

/// What a worker test asks: the launcher, which is the running program or the non-PIE one,
/// starts the program of the binary type.
pub fn worker_ask(t: usize, p: &Paths) -> (r: ExecArgs)
    requires
        t < WORKER_TESTS,
        p@.wf(),
    ensures
        texts(r.args@) == seq![
            if t % 2 == 0 {
                p@.own
            } else {
                p@.nonpie
            },
            "fork-exec-pie"@,
            p@.target(binary_at(t as int / 2)),
            "echo-test"@,
        ],
        r.timeout_secs == Some(launcher_secs((t % 2) as usize)),
        r.stdin is None,
        !r.background,
        r.env@.len() == 0,
{
    let launcher = if t % 2 == 0 {
        p.own.as_str()
    } else {
        p.nonpie.as_str()
    };
    let mut r = exec_args(worker_argv(launcher, p.target(binary_type(t / 2))));
    r.timeout_secs = Some(launcher_secs(t % 2));
    r
}

/// The verdict on a worker test.
pub fn worker_judge(t: usize, r: &Response) -> (o: TestOutcome)
    requires
        t < WORKER_TESTS,
    ensures
        o@ == plain(
            launcher_agent((t % 2) as usize).wire(),
            prints(r@, "FORK_EXEC_PIE_OK"@),
            r@,
        ),
{
    worker_outcome(launcher_agent(t % 2), r)
}

/// No test of the fork matrix that is answered by a reply passes unless a program ended by
/// itself with code zero.
pub proof fn law_fork_replies_need_good_end(t: int, r: ResponseView)
    requires
        0 <= t < FORK_MATRIX_TESTS,
        !on_fork_leaf(t),
        fork_reply_verdict(t, r).pass,
    ensures
        r matches ResponseView::ExecResult { exit_code, .. } && exit_code == 0,
{
}

/// What each test of the fork matrix that is answered by a reply seeks in the output of a program
/// that ended with code zero.
pub proof fn law_fork_replies_seek(t: int, r: ResponseView)
    requires
        0 <= t < FORK_MATRIX_TESTS,
        !on_fork_leaf(t),
        r matches ResponseView::ExecResult { exit_code, .. } && exit_code == 0,
    ensures
        r matches ResponseView::ExecResult { stdout, .. } && {
            let pass = fork_reply_verdict(t, r).pass;
            &&& t < 54 ==> {
                let want = shell_pattern((t % 18) as usize).expected@;
                pass <==> if want.len() == 0 {
                    trim_text(stdout).len() > 0
                } else {
                    contains_text(stdout, want)
                }
            }
            &&& 54 <= t < 57 ==> (pass <==> contains_text(
                stdout,
                "node_"@ + depth_agent((t - 54) as usize).wire() + "_ok"@,
            ))
            &&& t == 57 ==> (pass <==> contains_text(stdout, "stdout_write_ok"@))
            &&& 58 <= t < 64 ==> (pass <==> trim_text(stdout) == exec_method(
                (t - 58) as usize,
            ).expected@)
            &&& 64 <= t < 68 ==> (pass <==> lists_interfaces(stdout))
            &&& 166 <= t < 181 ==> (pass <==> contains_text(stdout, "ECHO_TEST_OK"@)
                && !contains_text(stdout, "SKIP"@))
            &&& 181 <= t < 186 ==> (pass <==> trim_text(stdout) == "ECHO_TEST_OK"@)
            &&& 186 <= t ==> (pass <==> contains_text(
                stdout,
                contamination_case(contamination_row((t - 186) as usize).0).expected@,
            ) && !contains_text(stdout, "SKIP"@))
        },
{
}

/// A test of the fork matrix with a leaf of its own passes exactly if the leaf reported a detail
/// that holds what the test seeks: the text of the delayed program, the word of the inherited
/// resource, or both ends of a stress run without a failure.
pub proof fn law_fork_leaves_seek(t: int, result: Result<String, String>)
    requires
        on_fork_leaf(t),
    ensures
        result is Err ==> !fork_leaf_verdict(t, result).pass,
        result matches Ok(d) ==> {
            let pass = fork_leaf_verdict(t, result).pass;
            &&& t < 116 ==> (pass <==> contains_text(
                d@,
                df_binary_at(((t - 68) / 4) % 6).expected_text(),
            ))
            &&& 116 <= t < 121 ==> (pass <==> contains_text(d@, "BSF_OK"@))
            &&& 121 <= t < 126 ==> (pass <==> contains_text(d@, "SXF_OK"@))
            &&& 126 <= t < 131 ==> (pass <==> contains_text(d@, "PIF_OK"@))
            &&& 131 <= t < 136 ==> (pass <==> contains_text(d@, "ECHO_TEST_OK"@))
            &&& 136 <= t ==> (pass <==> contains_text(d@, "STRESS_START"@) && contains_text(
                d@,
                "STRESS_END failures=0"@,
            ))
        },
{
}

/// Whatever program a test of the fork matrix has run is the one of its binary type, or the
/// running one, with the word that its verdict seeks; a stress run starts ten programs.
pub proof fn law_fork_asks_run_the_target(t: int, p: PathsView)
    requires
        0 <= t < FORK_MATRIX_TESTS,
        p.wf(),
    ensures
        116 <= t < 131 ==> fork_ask_of(t, p) == (AskView::Child {
            child_target: p.target(binary_at((t - 116) % 5)),
        }),
        131 <= t < 136 ==> (fork_ask_of(t, p) matches AskView::Delayed { cmd, args } && cmd
            == p.target(binary_at(t - 131)) && args == seq!["echo-test"@]),
        136 <= t < 166 ==> (fork_ask_of(t, p) matches AskView::Stress { count, .. } && count == 10),
        181 <= t < 186 ==> (fork_ask_of(t, p) matches AskView::Program { argv, .. } && argv == seq![
            p.nonpie,
            "echo-test"@,
        ]),
        fork_ask_of(t, p) matches AskView::Delayed { cmd, args } ==> args.len() > 0 && (cmd
            == "/usr/local/bin/node"@ || args == seq!["echo-test"@]),
        fork_ask_of(t, p) matches AskView::Program { argv, timeout_secs } ==> argv.len() >= 2 && (
        timeout_secs is Some <==> 64 <= t < 68),
        fork_ask_of(t, p) matches AskView::Shell { timeout_secs, .. } ==> timeout_secs is None,
{
}

/// Two stress runs of the fork matrix differ in the mode or in how programs are started: the
/// first half of each mode starts them without the runtime, and the second half with it.
pub proof fn law_stress_axis(t: int, p: PathsView)
    requires
        136 <= t < 166,
        p.wf(),
    ensures
        fork_ask_of(t, p) matches AskView::Stress { mode, use_tokio, .. } && mode == stress_mode(
            ((t - 136) / 10) as usize,
        ) && (use_tokio <==> (t - 136) % 10 >= 5),
{
}

/// The tests that run a program after another binary ask twice, and no other does; what they run
/// is the harness's echo.
pub proof fn law_second_questions(t: int, program: Seq<char>, script: Seq<char>)
    requires
        0 <= t < FORK_MATRIX_TESTS,
    ensures
        asks_twice(t) <==> 181 <= t && t - 181 < 5,
        echo_words(program).len() == 2 && echo_words(program)[0] == program && echo_words(
            program,
        )[1] == "echo-test"@,
        node_words(script).len() == 3 && node_words(script)[0] == "/usr/local/bin/node"@
            && node_words(script)[1] == "-e"@ && node_words(script)[2] == script,
{
}

/// A delayed fork starts the program of its binary type, with the argument that makes it echo, or
/// Node.js with a script that prints what is expected of it.
pub proof fn law_delayed_asks(b: DfBinary, p: PathsView)
    ensures
        delayed_ask_of(b, p) matches AskView::Delayed { cmd, args } && (b matches DfBinary::Harness(
            bt,
        ) ==> cmd == p.target(bt) && args.len() == 1 && args[0] == "echo-test"@) && (b is Node
            ==> cmd == "/usr/local/bin/node"@ && args.len() == 2 && args[0] == "-e"@
            && contains_text(args[1], b.expected_text())),
{
    reveal_strlit("console.log('df_node_ok')");
    reveal_strlit("df_node_ok");
    assert("console.log('df_node_ok')"@.subrange(13, 23) =~= "df_node_ok"@);
    assert(occurs_at("console.log('df_node_ok')"@, "df_node_ok"@, 13));
}

} // verus!
