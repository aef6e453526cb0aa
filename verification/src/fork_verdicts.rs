//! Commands and verdicts of the fork matrix.

use vstd::prelude::*;
use crate::agents::AgentName;
use crate::fork_plans::{
    ContaminationCase, DfBinary, ExecMethodCase, NonPieCase, ShellPattern, SK_WAIT_BUDGET_SECS,
};
use crate::number::{dec, dec_text, parse_unsigned, parse_unsigned_text};
use crate::protocol::{Response, ResponseView};
use crate::registry::{OutcomeView, TestOutcome};
use crate::script::{accept, accepts, absent, is_absent, printed, Absent, Accept};
use crate::text::{
    bool_text, bool_word, cat, cat3, contains, contains_text, law_replace_from_the_left,
    law_replace_leaves_the_rest, occurs_at, quote, quoted, replace, replace_text,
    split, split_text, starts_with, starts_with_text, texts, trim, trim_end, trim_end_text,
    trim_text,
};

verus! {

/// Arguments of the handler that runs one program.
#[derive(Clone, Debug)]
pub struct ExecArgs {
    pub args: Vec<String>,
    pub timeout_secs: Option<u64>,
    pub stdin: Option<String>,
    pub background: bool,
    pub env: Vec<(String, String)>,
}

/// Arguments with just the program and its arguments, and defaults for the rest.
pub fn exec_args(args: Vec<String>) -> (r: ExecArgs)
    ensures
        r.args == args,
        r.timeout_secs is None,
        r.stdin is None,
        !r.background,
        r.env@.len() == 0,
{
    ExecArgs { args, timeout_secs: None, stdin: None, background: false, env: Vec::new() }
}

/// An outcome whose detail is the answer.
pub open spec fn plain(agent: Seq<char>, pass: bool, r: ResponseView) -> OutcomeView {
    OutcomeView { agent, pass, detail: r.debug() }
}

fn plain_outcome(agent: &str, pass: bool, r: &Response) -> (o: TestOutcome)
    ensures
        o@ == plain(agent@, pass, r@),
{
    TestOutcome::new(agent, pass, r.debug_text())
}

/// A program ended well and printed the text.
pub open spec fn prints(r: ResponseView, text: Seq<char>) -> bool {
    printed(r) matches Some(o) && contains_text(o, text)
}

/// What a program that ended well printed.
fn output<'a>(r: &'a Response) -> (o: Option<&'a str>)
    ensures
        match o {
            Some(s) => printed(r@) == Some(s@),
            None => printed(r@) is None,
        },
{
    match r {
        Response::ExecResult { exit_code, stdout, .. } => if *exit_code == 0 {
            Some(stdout.as_str())
        } else {
            None
        },
        _ => None,
    }
}

fn did_print(r: &Response, text: &str) -> (b: bool)
    ensures
        b == prints(r@, text@),
{
    match output(r) {
        Some(o) => contains(o, text),
        None => false,
    }
}

/// The verdict on a shell pattern: it printed its text, or anything where it has none.
pub open spec fn shell_outcome_view(agent: AgentName, p: ShellPattern, r: ResponseView) -> OutcomeView {
    OutcomeView {
        agent: agent.wire(),
        pass: if p.expected@.len() == 0 {
            accepts(Accept::PrintsSomething, r)
        } else {
            prints(r, p.expected@)
        },
        detail: "timeout="@ + bool_text(
            r matches ResponseView::ExecTimeout { stderr } && stderr.len() > 0,
        ) + " "@ + r.debug(),
    }
}

/// The verdict on a shell pattern.
pub fn shell_outcome(agent: AgentName, p: ShellPattern, r: &Response) -> (o: TestOutcome)
    ensures
        o@ == shell_outcome_view(agent, p, r@),
{
    let pass = if p.expected.is_empty() {
        accept(Accept::PrintsSomething, r)
    } else {
        did_print(r, p.expected)
    };
    let late = match r {
        Response::ExecTimeout { stderr } => !stderr.as_str().is_empty(),
        _ => false,
    };
    let mut detail = cat3("timeout=", bool_word(late), " ");
    let body = r.debug_text();
    detail.append(body.as_str());
    TestOutcome::new(agent.name(), pass, detail)
}

/// The verdict on a program that must print a text.
pub fn printed_outcome(agent: &str, word: &str, r: &Response) -> (o: TestOutcome)
    ensures
        o@ == plain(agent@, prints(r@, word@), r@),
{
    plain_outcome(agent, did_print(r, word), r)
}

/// What the Node.js test of an agent prints.
pub open spec fn node_word(agent: AgentName) -> Seq<char> {
    "node_"@ + agent.wire() + "_ok"@
}

/// The program and arguments of the Node.js test of an agent.
pub fn node_argv(agent: AgentName) -> (r: Vec<String>)
    ensures
        texts(r@) == seq![
            "/usr/local/bin/node"@,
            "-e"@,
            "console.log('"@ + node_word(agent) + "')"@,
        ],
{
    let word = cat3("node_", agent.name(), "_ok");
    let r = vec![
        "/usr/local/bin/node".to_string(),
        "-e".to_string(),
        cat3("console.log('", word.as_str(), "')"),
    ];
    assert(texts(r@) =~= seq![
        "/usr/local/bin/node"@,
        "-e"@,
        "console.log('"@ + node_word(agent) + "')"@,
    ]);
    r
}

/// The verdict on the Node.js test of an agent.
pub fn node_outcome(agent: AgentName, r: &Response) -> (o: TestOutcome)
    ensures
        o@ == plain(agent.wire(), prints(r@, node_word(agent)), r@),
{
    let word = cat3("node_", agent.name(), "_ok");
    plain_outcome(agent.name(), did_print(r, word.as_str()), r)
}

/// Whether a template speaks of the program under test, so that it runs once for each binary type.
pub open spec fn per_binary(template: Seq<char>) -> bool {
    contains_text(template, "{self_exe}"@)
}

/// Whether a template speaks of the program under test.
pub fn needs_binary(template: &str) -> (r: bool)
    ensures
        r == per_binary(template@),
{
    contains(template, "{self_exe}")
}

/// The command line of a way to start a program.
pub fn method_command(m: ExecMethodCase, target: &str) -> (r: String)
    ensures
        r@ == replace_text(m.cmd_template@, "{self_exe}"@, target@),
{
    proof {
        reveal_strlit("{self_exe}");
    }
    replace(m.cmd_template, "{self_exe}", target)
}

/// The verdict on a way to start a program: it printed its text and nothing else.
pub fn method_outcome(agent: AgentName, m: ExecMethodCase, r: &Response) -> (o: TestOutcome)
    ensures
        o@ == plain(agent.wire(), accepts(Accept::PrintsTrimmed(m.expected), r@), r@),
{
    plain_outcome(agent.name(), accept(Accept::PrintsTrimmed(m.expected), r), r)
}

/// What follows `prefix` on the first of the lines that begins with it.
pub open spec fn after_prefix(lines: Seq<Seq<char>>, prefix: Seq<char>) -> Option<Seq<char>>
    decreases lines.len(),
{
    if lines.len() == 0 {
        None
    } else if starts_with_text(lines[0], prefix) {
        Some(lines[0].skip(prefix.len() as int))
    } else {
        after_prefix(lines.skip(1), prefix)
    }
}

/// The output reports at least one network interface.
pub open spec fn lists_interfaces(out: Seq<char>) -> bool {
    match after_prefix(split_text(out, '\n'), "NETIF_OK:"@) {
        None => false,
        Some(rest) => match parse_unsigned_text(trim_text(rest), u32::MAX as nat) {
            Ok(n) => n > 0,
            Err(_) => false,
        },
    }
}

/// Whether the output reports at least one network interface.
pub fn has_interfaces(out: &str) -> (r: bool)
    ensures
        r == lists_interfaces(out@),
{
    let lines = split(out, '\n');
    let ghost all = texts(lines@);
    let mut i: usize = 0;
    assert(all.skip(0) =~= all);
    while i < lines.len()
        invariant
            all == texts(lines@),
            all == split_text(out@, '\n'),
            i <= lines.len(),
            after_prefix(all, "NETIF_OK:"@) == after_prefix(all.skip(i as int), "NETIF_OK:"@),
        decreases lines.len() - i,
    {
        let line = lines[i].as_str();
        assert(all.skip(i as int)[0] == line@);
        if starts_with(line, "NETIF_OK:") {
            proof {
                reveal_strlit("NETIF_OK:");
            }
            assert(line@.subrange(9, line@.len() as int) =~= line@.skip(9));
            let rest = line.substring_char(9, line.unicode_len());
            return match parse_unsigned(trim(rest), 0xffff_ffff) {
                Ok(n) => n > 0,
                Err(_) => false,
            };
        }
        assert(all.skip(i as int).skip(1) =~= all.skip(i + 1));
        i = i + 1;
    }
    false
}

/// The verdict on listing network interfaces.
pub fn netif_outcome(agent: AgentName, r: &Response) -> (o: TestOutcome)
    ensures
        o@ == plain(
            agent.wire(),
            printed(r@) matches Some(out) && lists_interfaces(out),
            r@,
        ),
{
    let pass = match output(r) {
        Some(out) => has_interfaces(out),
        None => false,
    };
    plain_outcome(agent.name(), pass, r)
}

/// The program that a delayed fork test runs, and its arguments: `path` is the
/// harness's binary of the type under test.
pub fn delayed_inner(binary: DfBinary, path: &str) -> (r: (String, Vec<String>))
    ensures
        match binary {
            DfBinary::Harness(_) => r.0@ == path@ && texts(r.1@) == seq!["echo-test"@],
            DfBinary::Node => r.0@ == "/usr/local/bin/node"@ && texts(r.1@) == seq![
                "-e"@,
                "console.log('df_node_ok')"@,
            ],
        },
{
    match binary {
        DfBinary::Harness(_) => {
            let args = vec!["echo-test".to_string()];
            assert(texts(args@) =~= seq!["echo-test"@]);
            (path.to_string(), args)
        },
        DfBinary::Node => {
            let args = vec!["-e".to_string(), "console.log('df_node_ok')".to_string()];
            assert(texts(args@) =~= seq!["-e"@, "console.log('df_node_ok')"@]);
            ("/usr/local/bin/node".to_string(), args)
        },
    }
}

/// What `{:?}` prints for the result of a handler whose output type is `name`.
pub open spec fn result_text(name: Seq<char>, result: Result<String, String>) -> Seq<char> {
    match result {
        Ok(d) => "Ok("@ + name + " { detail: "@ + quoted(d@) + " })"@,
        Err(e) => "Err("@ + quoted(e@) + ")"@,
    }
}

/// What `{:?}` prints for the result of a handler that reports a detail.
pub fn result_debug(name: &str, result: &Result<String, String>) -> (r: String)
    ensures
        r@ == result_text(name@, *result),
{
    match result {
        Ok(d) => {
            let body = quote(d.as_str());
            let mut text = cat3("Ok(", name, " { detail: ");
            text.append(body.as_str());
            text.append(" })");
            text
        },
        Err(e) => {
            let body = quote(e.as_str());
            cat3("Err(", body.as_str(), ")")
        },
    }
}

/// The verdict on a handler that reports a detail: it must hold both texts.
pub open spec fn leaf_outcome_view(
    agent: Seq<char>,
    name: Seq<char>,
    result: Result<String, String>,
    first: Seq<char>,
    second: Seq<char>,
) -> OutcomeView {
    OutcomeView {
        agent,
        pass: result matches Ok(d) && contains_text(d@, first) && contains_text(d@, second),
        detail: result_text(name, result),
    }
}

/// The verdict on a handler that reports a detail.
pub fn leaf_outcome(
    agent: &str,
    name: &str,
    result: Result<String, String>,
    first: &str,
    second: &str,
) -> (o: TestOutcome)
    ensures
        o@ == leaf_outcome_view(agent@, name@, result, first@, second@),
{
    let detail = result_debug(name, &result);
    let pass = match &result {
        Ok(d) => contains(d.as_str(), first) && contains(d.as_str(), second),
        Err(_) => false,
    };
    TestOutcome::new(agent, pass, detail)
}

/// The verdict on a delayed fork: the program's text came back.
pub fn delayed_outcome(agent: AgentName, binary: DfBinary, result: Result<String, String>) -> (o:
    TestOutcome)
    ensures
        o@ == leaf_outcome_view(
            agent.wire(),
            "TriggerDelayedForkOut"@,
            result,
            binary.expected_text(),
            binary.expected_text(),
        ),
{
    leaf_outcome(
        agent.name(),
        "TriggerDelayedForkOut",
        result,
        binary.expected(),
        binary.expected(),
    )
}

/// The verdict on a stress run: it ran to its end without a failure.
pub fn stress_outcome(result: Result<String, String>) -> (o: TestOutcome)
    ensures
        o@ == leaf_outcome_view(
            "A"@,
            "StressExecOut"@,
            result,
            "STRESS_START"@,
            "STRESS_END failures=0"@,
        ),
{
    leaf_outcome("A", "StressExecOut", result, "STRESS_START", "STRESS_END failures=0")
}

/// The probes that report an inherited resource.
#[derive(Clone, Copy, Debug, PartialEq, Eq, Structural)]
pub enum Inherited {
    /// A descriptor buffered in a socket.
    BufferedScm,
    /// One end of a socket pair.
    Socketpair,
    /// A process descriptor.
    Pidfd,
}

impl Inherited {
    pub open spec fn out_name(self) -> Seq<char> {
        match self {
            Inherited::BufferedScm => "BufferedScmForkOut"@,
            Inherited::Socketpair => "SocketpairForkCrossOut"@,
            Inherited::Pidfd => "PidfdInheritForkOut"@,
        }
    }

    pub open spec fn ok_text(self) -> Seq<char> {
        match self {
            Inherited::BufferedScm => "BSF_OK"@,
            Inherited::Socketpair => "SXF_OK"@,
            Inherited::Pidfd => "PIF_OK"@,
        }
    }
}

/// The verdict on an inherited resource.
pub fn inherited_outcome(kind: Inherited, result: Result<String, String>) -> (o: TestOutcome)
    ensures
        o@ == leaf_outcome_view("A"@, kind.out_name(), result, kind.ok_text(), kind.ok_text()),
{
    match kind {
        Inherited::BufferedScm => leaf_outcome("A", "BufferedScmForkOut", result, "BSF_OK", "BSF_OK"),
        Inherited::Socketpair => leaf_outcome(
            "A",
            "SocketpairForkCrossOut",
            result,
            "SXF_OK",
            "SXF_OK",
        ),
        Inherited::Pidfd => leaf_outcome("A", "PidfdInheritForkOut", result, "PIF_OK", "PIF_OK"),
    }
}

/// A command line with the program of the binary type in its places.
pub open spec fn resolved(cmd: Seq<char>, target: Seq<char>) -> Seq<char> {
    replace_text(
        replace_text(cmd, "/nonpie-bin"@, target),
        "/nonpie-cmd"@,
        target + " echo-test"@,
    )
}

/// The command line of a way to start a binary type; `None` where it is started directly.
pub fn nonpie_command(c: NonPieCase, target: &str) -> (r: Option<String>)
    ensures
        match r {
            Some(s) => c.bash_cmd matches Some(cmd) && s@ == resolved(cmd@, target@),
            None => c.bash_cmd is None,
        },
{
    proof {
        reveal_strlit("/nonpie-bin");
        reveal_strlit("/nonpie-cmd");
    }
    match c.bash_cmd {
        None => None,
        Some(cmd) => {
            let with_bin = replace(cmd, "/nonpie-bin", target);
            let run = cat(target, " echo-test");
            Some(replace(with_bin.as_str(), "/nonpie-cmd", run.as_str()))
        },
    }
}

/// The program printed the word for "not here".
pub open spec fn skipped_itself(r: ResponseView) -> bool {
    is_absent(Absent::Mark("SKIP"), r)
}

/// The verdict on starting a binary type: a missing binary fails.
pub open spec fn nonpie_outcome_view(r: ResponseView) -> OutcomeView {
    if is_absent(Absent::NotFound, r) || skipped_itself(r) {
        OutcomeView { agent: "A"@, pass: false, detail: "FAIL: binary not found"@ }
    } else {
        plain("A"@, prints(r, "ECHO_TEST_OK"@), r)
    }
}

/// The verdict on starting a binary type.
pub fn nonpie_outcome(r: &Response) -> (o: TestOutcome)
    ensures
        o@ == nonpie_outcome_view(r@),
{
    if absent(Absent::NotFound, r) || absent(Absent::Mark("SKIP"), r) {
        TestOutcome::new("A", false, "FAIL: binary not found".to_string())
    } else {
        plain_outcome("A", did_print(r, "ECHO_TEST_OK"), r)
    }
}

/// What follows the first of two programs: a verdict at once, or the second program.
pub fn init_level_first(r: &Response) -> (o: Option<TestOutcome>)
    ensures
        match o {
            Some(v) => is_absent(Absent::NotFound, r@) && v@ == (OutcomeView {
                agent: "A"@,
                pass: false,
                detail: "FAIL: nonpie binary not found"@,
            }),
            None => !is_absent(Absent::NotFound, r@),
        },
{
    if absent(Absent::NotFound, r) {
        Some(TestOutcome::new("A", false, "FAIL: nonpie binary not found".to_string()))
    } else {
        None
    }
}

/// The verdict on the second of two programs: it printed its own text and nothing else.
pub fn init_level_second(r: &Response) -> (o: TestOutcome)
    ensures
        o@ == plain("A"@, accepts(Accept::PrintsTrimmed("ECHO_TEST_OK"), r@), r@),
{
    plain_outcome("A", accept(Accept::PrintsTrimmed("ECHO_TEST_OK"), r), r)
}

/// The command line of a contamination case.
pub open spec fn contamination_text(c: ContaminationCase, target: Seq<char>, nonpie: Seq<char>) -> Seq<char> {
    resolved(replace_text(c.bash_template@, "{self_exe}"@, target), nonpie)
}

/// The command line of a contamination case.
pub fn contamination_command(c: ContaminationCase, target: &str, nonpie: &str) -> (r: String)
    ensures
        r@ == contamination_text(c, target@, nonpie@),
{
    proof {
        reveal_strlit("{self_exe}");
        reveal_strlit("/nonpie-bin");
        reveal_strlit("/nonpie-cmd");
    }
    let own = replace(c.bash_template, "{self_exe}", target);
    let with_bin = replace(own.as_str(), "/nonpie-bin", nonpie);
    let run = cat(nonpie, " echo-test");
    replace(with_bin.as_str(), "/nonpie-cmd", run.as_str())
}

/// The verdict on a contamination case: a missing non-PIE binary fails.
pub open spec fn contamination_outcome_view(c: ContaminationCase, r: ResponseView) -> OutcomeView {
    if skipped_itself(r) {
        OutcomeView { agent: "A"@, pass: false, detail: "FAIL: nonpie binary not found"@ }
    } else {
        plain("A"@, prints(r, c.expected@), r)
    }
}

/// The verdict on a contamination case.
pub fn contamination_outcome(c: ContaminationCase, r: &Response) -> (o: TestOutcome)
    ensures
        o@ == contamination_outcome_view(c, r@),
{
    if absent(Absent::Mark("SKIP"), r) {
        TestOutcome::new("A", false, "FAIL: nonpie binary not found".to_string())
    } else {
        plain_outcome("A", did_print(r, c.expected), r)
    }
}

/// A substituted host name came back, and is not empty.
pub open spec fn names_host(r: ResponseView) -> bool {
    printed(r) matches Some(o) && starts_with_text(o, "HOST="@) && trim_end_text(o).len()
        > "HOST="@.len()
}

/// The verdicts on the bash tests: a listing, a substitution, a background job.
pub open spec fn bash_pass(test: usize, r: ResponseView) -> bool {
    if test == 0 {
        prints(r, "LS_OK"@)
    } else if test == 1 {
        names_host(r)
    } else {
        accepts(Accept::PrintsBoth("BG_DONE", "FG_DONE"), r)
    }
}

/// The command line of a bash test.
#[verifier::allow_in_spec]
pub fn bash_command(test: usize) -> &'static str
    returns
        (if test == 0 {
            "ls / > /dev/null && echo LS_OK"
        } else if test == 1 {
            "echo HOST=$(cat /etc/hostname)"
        } else {
            "(sleep 0.05 && echo BG_DONE) & cat /etc/hostname > /dev/null; wait; echo FG_DONE"
        }),
{
    if test == 0 {
        "ls / > /dev/null && echo LS_OK"
    } else if test == 1 {
        "echo HOST=$(cat /etc/hostname)"
    } else {
        "(sleep 0.05 && echo BG_DONE) & cat /etc/hostname > /dev/null; wait; echo FG_DONE"
    }
}

/// The verdict on a bash test.
pub fn bash_outcome(agent: AgentName, test: usize, r: &Response) -> (o: TestOutcome)
    ensures
        o@ == plain(agent.wire(), bash_pass(test, r@), r@),
{
    let pass = if test == 0 {
        did_print(r, "LS_OK")
    } else if test == 1 {
        match output(r) {
            Some(out) => {
                proof {
                    reveal_strlit("HOST=");
                }
                starts_with(out, "HOST=") && trim_end(out).unicode_len() > 5
            },
            None => false,
        }
    } else {
        accept(Accept::PrintsBoth("BG_DONE", "FG_DONE"), r)
    };
    plain_outcome(agent.name(), pass, r)
}

/// The program and arguments of a worker test: the launcher runs the target.
pub fn worker_argv(launcher: &str, target: &str) -> (r: Vec<String>)
    ensures
        texts(r@) == seq![launcher@, "fork-exec-pie"@, target@, "echo-test"@],
{
    let r = vec![
        launcher.to_string(),
        "fork-exec-pie".to_string(),
        target.to_string(),
        "echo-test".to_string(),
    ];
    assert(texts(r@) =~= seq![launcher@, "fork-exec-pie"@, target@, "echo-test"@]);
    r
}

/// The verdict on a worker test.
pub fn worker_outcome(agent: AgentName, r: &Response) -> (o: TestOutcome)
    ensures
        o@ == plain(agent.wire(), prints(r@, "FORK_EXEC_PIE_OK"@), r@),
{
    plain_outcome(agent.name(), did_print(r, "FORK_EXEC_PIE_OK"), r)
}

/// The verdict on a subtree kill: `gone` is whether the agent was gone within the budget.
pub fn kill_outcome(gone: bool, elapsed_ms: u64) -> (o: TestOutcome)
    ensures
        o@ == (OutcomeView {
            agent: "E"@,
            pass: gone,
            detail: (if gone {
                "kill_and_wait Ok elapsed="@
            } else {
                "kill_and_wait TIMEOUT elapsed="@
            }) + dec_text(elapsed_ms as nat) + "ms budget="@ + dec_text(
                SK_WAIT_BUDGET_SECS as nat,
            ) + "s"@,
        }),
{
    let head = if gone {
        "kill_and_wait Ok elapsed="
    } else {
        "kill_and_wait TIMEOUT elapsed="
    };
    let ms = dec(elapsed_ms);
    let mut detail = cat3(head, ms.as_str(), "ms budget=");
    let budget = dec(SK_WAIT_BUDGET_SECS);
    detail.append(budget.as_str());
    detail.append("s");
    TestOutcome::new("E", gone, detail)
}

/// The verdict where the non-PIE child of a subtree kill test did not start.
pub fn kill_setup_failed(deep: bool, r: &Response) -> (o: TestOutcome)
    ensures
        o@ == (OutcomeView {
            agent: "E"@,
            pass: false,
            detail: (if deep {
                "setup: spawn_ephemeral(NPx via EE) failed: "@
            } else {
                "setup: spawn_ephemeral(NPx) failed: "@
            }) + r@.debug(),
        }),
{
    let head = if deep {
        "setup: spawn_ephemeral(NPx via EE) failed: "
    } else {
        "setup: spawn_ephemeral(NPx) failed: "
    };
    let body = r.debug_text();
    TestOutcome::new("E", false, cat(head, body.as_str()))
}

/// A program printed its word exactly if it ended by itself with code zero and the word stands
/// in its output: neither another code, nor the error stream, nor another answer will do.
pub proof fn law_word_needs_good_end(r: ResponseView, word: Seq<char>)
    ensures
        prints(r, word) <==> (r matches ResponseView::ExecResult { exit_code, stdout, .. }
            && exit_code == 0 && contains_text(stdout, word)),
{
}

/// A shell pattern passes exactly if its program ended with code zero and printed the pattern's
/// text or, where it has none, anything but white space. A program that outlived its time fails,
/// and the detail says so.
pub proof fn law_shell_verdict(agent: AgentName, p: ShellPattern, r: ResponseView)
    ensures
        ({
            let o = shell_outcome_view(agent, p, r);
            &&& o.agent == agent.wire()
            &&& o.pass <==> (r matches ResponseView::ExecResult { exit_code, stdout, .. }
                && exit_code == 0 && (p.expected@.len() > 0 ==> contains_text(
                stdout,
                p.expected@,
            )) && (p.expected@.len() == 0 ==> trim_text(stdout).len() > 0))
            &&& r is ExecTimeout ==> !o.pass
            &&& o.detail == (if r matches ResponseView::ExecTimeout { stderr } && stderr.len() > 0 {
                "timeout=true "@
            } else {
                "timeout=false "@
            }) + r.debug()
        }),
{
    reveal_strlit("timeout=true ");
    reveal_strlit("timeout=false ");
    reveal_strlit("timeout=");
    reveal_strlit("true");
    reveal_strlit("false");
    reveal_strlit(" ");
    assert("timeout="@ + "true"@ + " "@ =~= "timeout=true "@);
    assert("timeout="@ + "false"@ + " "@ =~= "timeout=false "@);
}

/// What follows a prefix is taken from the first line that begins with it, and from no other;
/// there is nothing exactly if no line does.
pub proof fn law_first_line_decides(lines: Seq<Seq<char>>, prefix: Seq<char>)
    ensures
        match after_prefix(lines, prefix) {
            None => forall|k: int|
                0 <= k < lines.len() ==> !starts_with_text(#[trigger] lines[k], prefix),
            Some(rest) => exists|k: int|
                0 <= k < lines.len() && #[trigger] lines[k] == prefix + rest && forall|j: int|
                    0 <= j < k ==> !starts_with_text(#[trigger] lines[j], prefix),
        },
    decreases lines.len(),
{
    if lines.len() > 0 {
        if starts_with_text(lines[0], prefix) {
            assert(lines[0] =~= prefix + lines[0].skip(prefix.len() as int));
        } else {
            let rest = lines.skip(1);
            law_first_line_decides(rest, prefix);
            match after_prefix(rest, prefix) {
                None => {
                    assert forall|k: int| 0 <= k < lines.len() implies !starts_with_text(
                        #[trigger] lines[k],
                        prefix,
                    ) by {
                        if k > 0 {
                            assert(rest[k - 1] == lines[k]);
                        }
                    }
                },
                Some(found) => {
                    let k = choose|k: int|
                        0 <= k < rest.len() && #[trigger] rest[k] == prefix + found && forall|j: int|
                            0 <= j < k ==> !starts_with_text(#[trigger] rest[j], prefix);
                    assert(lines[k + 1] == prefix + found);
                    assert forall|j: int| 0 <= j < k + 1 implies !starts_with_text(
                        #[trigger] lines[j],
                        prefix,
                    ) by {
                        if j > 0 {
                            assert(rest[j - 1] == lines[j]);
                        }
                    }
                },
            }
        }
    }
}

/// Interfaces are listed only if a line reports a number of them, and the number is not zero.
pub proof fn law_interfaces_are_counted(out: Seq<char>)
    requires
        lists_interfaces(out),
    ensures
        exists|k: int, rest: Seq<char>|
            0 <= k < split_text(out, '\n').len() && #[trigger] split_text(out, '\n')[k]
                == #[trigger] ("NETIF_OK:"@ + rest) && (parse_unsigned_text(
                trim_text(rest),
                u32::MAX as nat,
            ) matches Ok(n) && n > 0),
{
    let lines = split_text(out, '\n');
    law_first_line_decides(lines, "NETIF_OK:"@);
}

/// A handler that reports a detail passes exactly if it gave one that holds both texts; an
/// error of the handler never passes, and is shown.
pub proof fn law_leaf_verdict(
    agent: Seq<char>,
    name: Seq<char>,
    result: Result<String, String>,
    first: Seq<char>,
    second: Seq<char>,
)
    ensures
        ({
            let o = leaf_outcome_view(agent, name, result, first, second);
            &&& o.agent == agent
            &&& result is Err ==> !o.pass
            &&& result matches Ok(d) ==> (o.pass <==> contains_text(d@, first) && contains_text(
                d@,
                second,
            ))
            &&& result matches Ok(d) ==> o.detail == "Ok("@ + name + " { detail: "@ + quoted(d@)
                + " })"@
            &&& result matches Err(e) ==> o.detail == "Err("@ + quoted(e@) + ")"@
        }),
{
}

/// A binary type passes exactly if its program ended with code zero, printed its text and did not
/// print the word for "not here". A binary that is missing fails, and is said to be missing.
pub proof fn law_binary_verdict(r: ResponseView)
    ensures
        nonpie_outcome_view(r).pass <==> (r matches ResponseView::ExecResult {
            exit_code,
            stdout,
            ..
        } && exit_code == 0 && contains_text(stdout, "ECHO_TEST_OK"@) && !contains_text(
            stdout,
            "SKIP"@,
        )),
        r is Error ==> nonpie_outcome_view(r).detail == "FAIL: binary not found"@,
        (r matches ResponseView::ExecResult { exit_code, .. } && exit_code == 127)
            ==> nonpie_outcome_view(r).detail == "FAIL: binary not found"@,
        nonpie_outcome_view(r).agent == "A"@,
        nonpie_outcome_view(r).pass ==> nonpie_outcome_view(r).detail == r.debug(),
{
}

/// A contamination case passes exactly if its command line ended with code zero, printed the
/// text of the case and did not print the word for "not here".
pub proof fn law_contamination_verdict(c: ContaminationCase, r: ResponseView)
    ensures
        contamination_outcome_view(c, r).pass <==> (r matches ResponseView::ExecResult {
            exit_code,
            stdout,
            ..
        } && exit_code == 0 && contains_text(stdout, c.expected@) && !contains_text(
            stdout,
            "SKIP"@,
        )),
        (r matches ResponseView::ExecResult { stdout, .. } && contains_text(stdout, "SKIP"@))
            ==> contamination_outcome_view(c, r).detail == "FAIL: nonpie binary not found"@,
        contamination_outcome_view(c, r).agent == "A"@,
        contamination_outcome_view(c, r).pass ==> contamination_outcome_view(c, r).detail
            == r.debug(),
{
}

/// The three bash tests: a listing that worked, a host name that is not empty, and a job in the
/// background that ended as the one in the foreground did. Each needs code zero.
pub proof fn law_bash_verdicts(r: ResponseView)
    ensures
        forall|test: usize| #[trigger] bash_pass(test, r) ==> (r matches ResponseView::ExecResult {
            exit_code,
            ..
        } && exit_code == 0),
        r matches ResponseView::ExecResult { exit_code, stdout, .. } ==> (exit_code == 0 ==> {
            &&& bash_pass(0, r) <==> contains_text(stdout, "LS_OK"@)
            &&& bash_pass(1, r) <==> starts_with_text(stdout, "HOST="@) && trim_end_text(
                stdout,
            ).len() > 5
            &&& bash_pass(2, r) <==> contains_text(stdout, "BG_DONE"@) && contains_text(
                stdout,
                "FG_DONE"@,
            )
        }),
{
    reveal_strlit("HOST=");
    assert("HOST="@.len() == 5);
}

/// A command line that names neither of the two places is left as it is, and what stands in
/// both places is the program under test, in the second with the word for its check.
pub proof fn law_resolved_places(cmd: Seq<char>, target: Seq<char>)
    ensures
        !contains_text(cmd, "/nonpie-bin"@) && !contains_text(cmd, "/nonpie-cmd"@) ==> resolved(
            cmd,
            target,
        ) == cmd,
        !contains_text(cmd, "/nonpie-bin"@) ==> resolved(cmd, target) == replace_text(
            cmd,
            "/nonpie-cmd"@,
            target + " echo-test"@,
        ),
        resolved("/nonpie-cmd"@, target) == target + " echo-test"@,
{
    law_replace_leaves_the_rest(cmd, "/nonpie-bin"@, target);
    law_replace_leaves_the_rest(cmd, "/nonpie-cmd"@, target + " echo-test"@);
    let p = "/nonpie-cmd"@;
    reveal_strlit("/nonpie-cmd");
    reveal_strlit("/nonpie-bin");
    assert forall|at: int| !occurs_at(p, "/nonpie-bin"@, at) by {
        if occurs_at(p, "/nonpie-bin"@, at) {
            assert(p.subrange(at, at + 11)[8] == 'b');
            assert(p[8] == 'c');
        }
    }
    law_replace_leaves_the_rest(p, "/nonpie-bin"@, target);
    law_replace_from_the_left(' ', Seq::empty(), p, target + " echo-test"@);
    assert(p + Seq::<char>::empty() =~= p);
    assert(replace_text(Seq::empty(), p, target + " echo-test"@) =~= Seq::<char>::empty());
    assert(target + " echo-test"@ + Seq::<char>::empty() =~= target + " echo-test"@);
}

/// Each inherited resource has a word and a report of its own.
pub proof fn law_inherited_words(a: Inherited, b: Inherited)
    ensures
        a.ok_text() == b.ok_text() ==> a == b,
        a.out_name() == b.out_name() ==> a == b,
{
    reveal_strlit("BSF_OK");
    reveal_strlit("SXF_OK");
    reveal_strlit("PIF_OK");
    reveal_strlit("BufferedScmForkOut");
    reveal_strlit("SocketpairForkCrossOut");
    reveal_strlit("PidfdInheritForkOut");
    assert("BSF_OK"@[0] == 'B' && "SXF_OK"@[0] == 'S' && "PIF_OK"@[0] == 'P');
    assert("BufferedScmForkOut"@[0] == 'B' && "SocketpairForkCrossOut"@[0] == 'S'
        && "PidfdInheritForkOut"@[0] == 'P');
}

/// The result of a handler prints with its type and its detail, or with its error.
pub proof fn law_results_print(name: Seq<char>, result: Result<String, String>)
    ensures
        result matches Ok(d) ==> result_text(name, result) == "Ok("@ + name + " { detail: "@
            + quoted(d@) + " })"@,
        result matches Err(e) ==> result_text(name, result) == "Err("@ + quoted(e@) + ")"@,
{
}

/// A plain outcome names the agent, keeps the verdict and shows the answer.
pub proof fn law_plain_outcome(agent: Seq<char>, pass: bool, r: ResponseView)
    ensures
        plain(agent, pass, r).agent == agent,
        plain(agent, pass, r).pass == pass,
        plain(agent, pass, r).detail == r.debug(),
{
}

/// The Node.js test of an agent prints a text that holds the agent's name.
pub proof fn law_node_word(agent: AgentName)
    ensures
        node_word(agent) == "node_"@ + agent.wire() + "_ok"@,
{
}

/// A bash test passes only with what its command line prints: the mark of the listing, the name of
/// the host, or both marks of the jobs.
pub proof fn law_bash_commands_print()
    ensures
        contains_text(bash_command(0)@, "echo LS_OK"@),
        contains_text(bash_command(1)@, "echo HOST="@),
        contains_text(bash_command(2)@, "echo BG_DONE"@),
        contains_text(bash_command(2)@, "echo FG_DONE"@),
{
    reveal_strlit("ls / > /dev/null && echo LS_OK");
    reveal_strlit("echo HOST=$(cat /etc/hostname)");
    reveal_strlit(
        "(sleep 0.05 && echo BG_DONE) & cat /etc/hostname > /dev/null; wait; echo FG_DONE",
    );
    reveal_strlit("echo LS_OK");
    reveal_strlit("echo HOST=");
    reveal_strlit("echo BG_DONE");
    reveal_strlit("echo FG_DONE");
    assert(bash_command(0)@.subrange(20, 30) =~= "echo LS_OK"@);
    assert(occurs_at(bash_command(0)@, "echo LS_OK"@, 20));
    assert(bash_command(1)@.subrange(0, 10) =~= "echo HOST="@);
    assert(occurs_at(bash_command(1)@, "echo HOST="@, 0));
    assert(bash_command(2)@.subrange(15, 27) =~= "echo BG_DONE"@);
    assert(occurs_at(bash_command(2)@, "echo BG_DONE"@, 15));
    assert(bash_command(2)@.subrange(68, 80) =~= "echo FG_DONE"@);
    assert(occurs_at(bash_command(2)@, "echo FG_DONE"@, 68));
}

/// A template that holds the place of the program under test is tried for each binary type, and no
/// other is.
pub proof fn law_per_binary(before: Seq<char>, after: Seq<char>, other: Seq<char>)
    ensures
        per_binary(before + "{self_exe}"@ + after),
        (forall|i: int| 0 <= i < other.len() ==> other[i] != '{') ==> !per_binary(other),
{
    let all = before + "{self_exe}"@ + after;
    reveal_strlit("{self_exe}");
    assert(all.subrange(before.len() as int, before.len() as int + 10) =~= "{self_exe}"@);
    assert(occurs_at(all, "{self_exe}"@, before.len() as int));
    if per_binary(other) {
        let at = choose|at: int| occurs_at(other, "{self_exe}"@, at);
        assert(other.subrange(at, at + 10)[0] == other[at]);
    }
}

/// The place of the program under test is filled first, and only then those of the other program;
/// a command line without such a place keeps the program under test out.
pub proof fn law_contamination_text(
    c: ContaminationCase,
    rest: Seq<char>,
    target: Seq<char>,
    nonpie: Seq<char>,
)
    ensures
        c.bash_template@ == "{self_exe}"@ + rest ==> contamination_text(c, target, nonpie)
            == resolved(target + replace_text(rest, "{self_exe}"@, target), nonpie),
        !contains_text(c.bash_template@, "{self_exe}"@) ==> contamination_text(c, target, nonpie)
            == resolved(c.bash_template@, nonpie),
{
    reveal_strlit("{self_exe}");
    law_replace_from_the_left(' ', rest, "{self_exe}"@, target);
    law_replace_leaves_the_rest(c.bash_template@, "{self_exe}"@, target);
}

} // verus!
