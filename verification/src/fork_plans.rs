//! Registration of the fork and exec matrix: shell patterns, binary types, delayed
//! forks, stress runs, and what one program leaves behind for the next.

use vstd::prelude::*;
use crate::agents::{AgentName, SpawnKind};
use crate::registry::{
    binary_at, binary_type, fork_binary_label, on_agents, on_leaf, plan_on, plan_on_leaf, plan_views,
    BinaryType, Group, Handler, KindView, LeafView, PlanView, RegistrationContext, TestPlan,
};
use crate::text::{cat, cat3};

verus! {

/// A shell pattern: its name, the command line, and a text that it prints (empty
/// where any output will do).
#[derive(Clone, Copy, Debug, PartialEq, Eq)]
pub struct ShellPattern {
    pub name: &'static str,
    pub cmd: &'static str,
    pub expected: &'static str,
}

/// A way to start a program: its name, a command line in which `{self_exe}` stands
/// for the program, and what it prints.
#[derive(Clone, Copy, Debug, PartialEq, Eq)]
pub struct ExecMethodCase {
    pub name: &'static str,
    pub cmd_template: &'static str,
    pub expected: &'static str,
}

/// A way to start a program of a binary type: direct, or by a command line.
#[derive(Clone, Copy, Debug, PartialEq, Eq)]
pub struct NonPieCase {
    pub name: &'static str,
    pub bash_cmd: Option<&'static str>,
}

/// A command line that runs a non-PIE program before another one, and what the
/// other one prints.
#[derive(Clone, Copy, Debug, PartialEq, Eq)]
pub struct ContaminationCase {
    pub name: &'static str,
    pub bash_template: &'static str,
    pub expected: &'static str,
}

/// Binary that an exec test runs directly.
#[derive(Clone, Copy, Debug, PartialEq, Eq, Structural)]
pub enum ExecBinary {
    Node,
}

impl ExecBinary {
    /// The name in test ids.
    pub fn suffix(self) -> (r: &'static str)
        ensures
            r@ == "node"@,
    {
        match self {
            ExecBinary::Node => "node",
        }
    }
}

/// What makes a forked child move to a worker of its own.
#[derive(Clone, Copy, Debug, PartialEq, Eq, Structural)]
pub enum DfTrigger {
    Mmap,
    Thread,
}

impl DfTrigger {
    pub open spec fn text(self) -> Seq<char> {
        match self {
            DfTrigger::Mmap => "mmap"@,
            DfTrigger::Thread => "thread"@,
        }
    }

    /// The name in test ids.
    pub fn suffix(self) -> (r: &'static str)
        ensures
            r@ == self.text(),
    {
        match self {
            DfTrigger::Mmap => "mmap",
            DfTrigger::Thread => "thread",
        }
    }
}

/// The program that runs after a delayed fork.
#[derive(Clone, Copy, Debug, PartialEq, Eq, Structural)]
pub enum DfBinary {
    Harness(BinaryType),
    Node,
}

impl DfBinary {
    pub open spec fn text(self) -> Seq<char> {
        match self {
            DfBinary::Harness(bt) => bt.label_text(),
            DfBinary::Node => "node"@,
        }
    }

    pub open spec fn expected_text(self) -> Seq<char> {
        match self {
            DfBinary::Harness(_) => "ECHO_TEST_OK"@,
            DfBinary::Node => "df_node_ok"@,
        }
    }

    /// The name in test ids.
    pub fn suffix(self) -> (r: &'static str)
        ensures
            r@ == self.text(),
    {
        match self {
            DfBinary::Harness(bt) => bt.label(),
            DfBinary::Node => "node",
        }
    }

    /// What the program prints.
    pub fn expected(self) -> (r: &'static str)
        ensures
            r@ == self.expected_text(),
    {
        match self {
            DfBinary::Harness(_) => "ECHO_TEST_OK",
            DfBinary::Node => "df_node_ok",
        }
    }
}

/// How the program is started.
#[derive(Clone, Copy, Debug, PartialEq, Eq, Structural)]
pub enum DfInvocation {
    Direct,
    ScriptFile,
}

impl DfInvocation {
    pub open spec fn text(self) -> Seq<char> {
        match self {
            DfInvocation::Direct => "direct"@,
            DfInvocation::ScriptFile => "script"@,
        }
    }

    /// The name in test ids.
    pub fn suffix(self) -> (r: &'static str)
        ensures
            r@ == self.text(),
    {
        match self {
            DfInvocation::Direct => "direct",
            DfInvocation::ScriptFile => "script",
        }
    }
}

/// The shell pattern at a position.
#[verifier::allow_in_spec]
pub fn shell_pattern(k: usize) -> ShellPattern
    returns
        (if k == 0 {
        ShellPattern { name: "echo", cmd: "echo hello_from_bash", expected: "hello_from_bash" }
    } else if k == 1 {
        ShellPattern { name: "cmd_substitution", cmd: "echo $(echo inner_value)", expected: "inner_value" }
    } else if k == 2 {
        ShellPattern { name: "pipe_in_subshell", cmd: "echo $(echo pipe_data | cat)", expected: "pipe_data" }
    } else if k == 3 {
        ShellPattern { name: "process_substitution", cmd: "cat <(echo proc_sub_data)", expected: "proc_sub_data" }
    } else if k == 4 {
        ShellPattern { name: "simple_pipe", cmd: "echo pipe_two_stage | cat", expected: "pipe_two_stage" }
    } else if k == 5 {
        ShellPattern { name: "three_stage_pipe", cmd: "echo three_stage | cat | cat", expected: "three_stage" }
    } else if k == 6 {
        ShellPattern { name: "background_wait", cmd: "sleep 0 & wait; echo bg_done", expected: "bg_done" }
    } else if k == 7 {
        ShellPattern { name: "multi_background", cmd: "echo bg_a & echo bg_b & wait", expected: "bg_a" }
    } else if k == 8 {
        ShellPattern { name: "subshell_exit_code", cmd: "(exit 42); echo $?", expected: "42" }
    } else if k == 9 {
        ShellPattern { name: "sequential_cmds", cmd: "echo seq_a && echo seq_b && echo seq_c", expected: "seq_a" }
    } else if k == 10 {
        ShellPattern { name: "nested_subshell", cmd: "echo $(echo $(echo deep_nested))", expected: "deep_nested" }
    } else if k == 11 {
        ShellPattern { name: "heredoc", cmd: "cat <<'EOF'\nheredoc_line\nEOF", expected: "heredoc_line" }
    } else if k == 12 {
        ShellPattern { name: "herestring", cmd: "cat <<< 'herestring_data'", expected: "herestring_data" }
    } else if k == 13 {
        ShellPattern { name: "pipe_grep", cmd: "echo -e 'alpha\\nbeta\\ngamma' | grep beta", expected: "beta" }
    } else if k == 14 {
        ShellPattern { name: "subshell_pipe_wc", cmd: "echo $(echo 'line1\\nline2\\nline3' | wc -l)", expected: "" }
    } else if k == 15 {
        ShellPattern { name: "backtick_subst", cmd: "echo `echo backtick_val`", expected: "backtick_val" }
    } else if k == 16 {
        ShellPattern { name: "pipe_while_read", cmd: "echo -e 'a\\nb\\nc' | while read line; do echo \"got_$line\"; done", expected: "got_a" }
    } else {
        ShellPattern { name: "xargs", cmd: "echo -e 'p\\nq\\nr' | xargs -I{} echo xargs_{}", expected: "xargs_p" }
    }),
{
    if k == 0 {
        ShellPattern { name: "echo", cmd: "echo hello_from_bash", expected: "hello_from_bash" }
    } else if k == 1 {
        ShellPattern { name: "cmd_substitution", cmd: "echo $(echo inner_value)", expected: "inner_value" }
    } else if k == 2 {
        ShellPattern { name: "pipe_in_subshell", cmd: "echo $(echo pipe_data | cat)", expected: "pipe_data" }
    } else if k == 3 {
        ShellPattern { name: "process_substitution", cmd: "cat <(echo proc_sub_data)", expected: "proc_sub_data" }
    } else if k == 4 {
        ShellPattern { name: "simple_pipe", cmd: "echo pipe_two_stage | cat", expected: "pipe_two_stage" }
    } else if k == 5 {
        ShellPattern { name: "three_stage_pipe", cmd: "echo three_stage | cat | cat", expected: "three_stage" }
    } else if k == 6 {
        ShellPattern { name: "background_wait", cmd: "sleep 0 & wait; echo bg_done", expected: "bg_done" }
    } else if k == 7 {
        ShellPattern { name: "multi_background", cmd: "echo bg_a & echo bg_b & wait", expected: "bg_a" }
    } else if k == 8 {
        ShellPattern { name: "subshell_exit_code", cmd: "(exit 42); echo $?", expected: "42" }
    } else if k == 9 {
        ShellPattern { name: "sequential_cmds", cmd: "echo seq_a && echo seq_b && echo seq_c", expected: "seq_a" }
    } else if k == 10 {
        ShellPattern { name: "nested_subshell", cmd: "echo $(echo $(echo deep_nested))", expected: "deep_nested" }
    } else if k == 11 {
        ShellPattern { name: "heredoc", cmd: "cat <<'EOF'\nheredoc_line\nEOF", expected: "heredoc_line" }
    } else if k == 12 {
        ShellPattern { name: "herestring", cmd: "cat <<< 'herestring_data'", expected: "herestring_data" }
    } else if k == 13 {
        ShellPattern { name: "pipe_grep", cmd: "echo -e 'alpha\\nbeta\\ngamma' | grep beta", expected: "beta" }
    } else if k == 14 {
        ShellPattern { name: "subshell_pipe_wc", cmd: "echo $(echo 'line1\\nline2\\nline3' | wc -l)", expected: "" }
    } else if k == 15 {
        ShellPattern { name: "backtick_subst", cmd: "echo `echo backtick_val`", expected: "backtick_val" }
    } else if k == 16 {
        ShellPattern { name: "pipe_while_read", cmd: "echo -e 'a\\nb\\nc' | while read line; do echo \"got_$line\"; done", expected: "got_a" }
    } else {
        ShellPattern { name: "xargs", cmd: "echo -e 'p\\nq\\nr' | xargs -I{} echo xargs_{}", expected: "xargs_p" }
    }
}

/// The way to start a program at a position.
#[verifier::allow_in_spec]
pub fn exec_method(k: usize) -> ExecMethodCase
    returns
        (if k == 0 {
        ExecMethodCase { name: "script_echo", cmd_template: "echo '#!/usr/bin/bash' > /tmp/xm.sh && echo 'echo script_echo_ok' >> /tmp/xm.sh && chmod +x /tmp/xm.sh && /tmp/xm.sh; EXIT=$?; rm -f /tmp/xm.sh; exit $EXIT", expected: "script_echo_ok" }
    } else if k == 1 {
        ExecMethodCase { name: "script_node", cmd_template: "echo '#!/usr/bin/bash' > /tmp/xm.sh && echo '/usr/local/bin/node -e \"console.log(\\\"script_node_ok\\\")\"' >> /tmp/xm.sh && chmod +x /tmp/xm.sh && /tmp/xm.sh; EXIT=$?; rm -f /tmp/xm.sh; exit $EXIT", expected: "script_node_ok" }
    } else if k == 2 {
        ExecMethodCase { name: "script_env_shebang", cmd_template: "echo '#!/usr/bin/env bash' > /tmp/xm.sh && echo 'echo script_env_ok' >> /tmp/xm.sh && chmod +x /tmp/xm.sh && /tmp/xm.sh; EXIT=$?; rm -f /tmp/xm.sh; exit $EXIT", expected: "script_env_ok" }
    } else if k == 3 {
        ExecMethodCase { name: "script_cat_pipe", cmd_template: "echo '#!/usr/bin/bash' > /tmp/xm.sh && echo 'echo cat_input | cat' >> /tmp/xm.sh && chmod +x /tmp/xm.sh && /tmp/xm.sh; EXIT=$?; rm -f /tmp/xm.sh; exit $EXIT", expected: "cat_input" }
    } else if k == 4 {
        ExecMethodCase { name: "nested_bash_node", cmd_template: "bash -c '/usr/local/bin/node -e \"console.log(\\\"nested_ok\\\")\"'", expected: "nested_ok" }
    } else {
        ExecMethodCase { name: "script_exec_node", cmd_template: "echo '#!/usr/bin/bash' > /tmp/xm.sh && echo 'exec /usr/local/bin/node -e \"console.log(\\\"exec_ok\\\")\"' >> /tmp/xm.sh && chmod +x /tmp/xm.sh && /tmp/xm.sh; EXIT=$?; rm -f /tmp/xm.sh; exit $EXIT", expected: "exec_ok" }
    }),
{
    if k == 0 {
        ExecMethodCase { name: "script_echo", cmd_template: "echo '#!/usr/bin/bash' > /tmp/xm.sh && echo 'echo script_echo_ok' >> /tmp/xm.sh && chmod +x /tmp/xm.sh && /tmp/xm.sh; EXIT=$?; rm -f /tmp/xm.sh; exit $EXIT", expected: "script_echo_ok" }
    } else if k == 1 {
        ExecMethodCase { name: "script_node", cmd_template: "echo '#!/usr/bin/bash' > /tmp/xm.sh && echo '/usr/local/bin/node -e \"console.log(\\\"script_node_ok\\\")\"' >> /tmp/xm.sh && chmod +x /tmp/xm.sh && /tmp/xm.sh; EXIT=$?; rm -f /tmp/xm.sh; exit $EXIT", expected: "script_node_ok" }
    } else if k == 2 {
        ExecMethodCase { name: "script_env_shebang", cmd_template: "echo '#!/usr/bin/env bash' > /tmp/xm.sh && echo 'echo script_env_ok' >> /tmp/xm.sh && chmod +x /tmp/xm.sh && /tmp/xm.sh; EXIT=$?; rm -f /tmp/xm.sh; exit $EXIT", expected: "script_env_ok" }
    } else if k == 3 {
        ExecMethodCase { name: "script_cat_pipe", cmd_template: "echo '#!/usr/bin/bash' > /tmp/xm.sh && echo 'echo cat_input | cat' >> /tmp/xm.sh && chmod +x /tmp/xm.sh && /tmp/xm.sh; EXIT=$?; rm -f /tmp/xm.sh; exit $EXIT", expected: "cat_input" }
    } else if k == 4 {
        ExecMethodCase { name: "nested_bash_node", cmd_template: "bash -c '/usr/local/bin/node -e \"console.log(\\\"nested_ok\\\")\"'", expected: "nested_ok" }
    } else {
        ExecMethodCase { name: "script_exec_node", cmd_template: "echo '#!/usr/bin/bash' > /tmp/xm.sh && echo 'exec /usr/local/bin/node -e \"console.log(\\\"exec_ok\\\")\"' >> /tmp/xm.sh && chmod +x /tmp/xm.sh && /tmp/xm.sh; EXIT=$?; rm -f /tmp/xm.sh; exit $EXIT", expected: "exec_ok" }
    }
}

/// The way to start a binary type at a position.
#[verifier::allow_in_spec]
pub fn nonpie_case(k: usize) -> NonPieCase
    returns
        (if k == 0 {
        NonPieCase { name: "direct", bash_cmd: None }
    } else if k == 1 {
        NonPieCase { name: "script", bash_cmd: Some("if [ -x /nonpie-bin ]; then echo '#!/usr/bin/bash' > /tmp/xnp.sh && echo '/nonpie-cmd' >> /tmp/xnp.sh && chmod +x /tmp/xnp.sh && /tmp/xnp.sh; EXIT=$?; rm -f /tmp/xnp.sh; exit $EXIT; else echo SKIP; fi") }
    } else {
        NonPieCase { name: "bash_inline", bash_cmd: Some("if [ -x /nonpie-bin ]; then /nonpie-cmd; else echo SKIP; fi") }
    }),
{
    if k == 0 {
        NonPieCase { name: "direct", bash_cmd: None }
    } else if k == 1 {
        NonPieCase { name: "script", bash_cmd: Some("if [ -x /nonpie-bin ]; then echo '#!/usr/bin/bash' > /tmp/xnp.sh && echo '/nonpie-cmd' >> /tmp/xnp.sh && chmod +x /tmp/xnp.sh && /tmp/xnp.sh; EXIT=$?; rm -f /tmp/xnp.sh; exit $EXIT; else echo SKIP; fi") }
    } else {
        NonPieCase { name: "bash_inline", bash_cmd: Some("if [ -x /nonpie-bin ]; then /nonpie-cmd; else echo SKIP; fi") }
    }
}

/// The contamination case at a position.
#[verifier::allow_in_spec]
pub fn contamination_case(k: usize) -> ContaminationCase
    returns
        (if k == 0 {
        ContaminationCase { name: "child_clean", bash_template: "if [ -x /nonpie-bin ]; then /nonpie-cmd >/dev/null 2>&1; echo CHILD_CLEAN; else echo SKIP; fi", expected: "CHILD_CLEAN" }
    } else if k == 1 {
        ContaminationCase { name: "child_sequential", bash_template: "if [ -x /nonpie-bin ]; then FIRST=$(/nonpie-cmd); SECOND=$({self_exe} echo-test); echo \"first=$FIRST\"; echo \"second=$SECOND\"; else echo SKIP; fi", expected: "second=ECHO_TEST_OK" }
    } else if k == 2 {
        ContaminationCase { name: "grandchild_nonpie", bash_template: "if [ -x /nonpie-bin ]; then bash -c '/nonpie-cmd'; else echo SKIP; fi", expected: "ECHO_TEST_OK" }
    } else {
        ContaminationCase { name: "depth2_clean", bash_template: "if [ -x /nonpie-bin ]; then bash -c '/nonpie-cmd >/dev/null; {self_exe} echo-test'; else echo SKIP; fi", expected: "ECHO_TEST_OK" }
    }),
{
    if k == 0 {
        ContaminationCase { name: "child_clean", bash_template: "if [ -x /nonpie-bin ]; then /nonpie-cmd >/dev/null 2>&1; echo CHILD_CLEAN; else echo SKIP; fi", expected: "CHILD_CLEAN" }
    } else if k == 1 {
        ContaminationCase { name: "child_sequential", bash_template: "if [ -x /nonpie-bin ]; then FIRST=$(/nonpie-cmd); SECOND=$({self_exe} echo-test); echo \"first=$FIRST\"; echo \"second=$SECOND\"; else echo SKIP; fi", expected: "second=ECHO_TEST_OK" }
    } else if k == 2 {
        ContaminationCase { name: "grandchild_nonpie", bash_template: "if [ -x /nonpie-bin ]; then bash -c '/nonpie-cmd'; else echo SKIP; fi", expected: "ECHO_TEST_OK" }
    } else {
        ContaminationCase { name: "depth2_clean", bash_template: "if [ -x /nonpie-bin ]; then bash -c '/nonpie-cmd >/dev/null; {self_exe} echo-test'; else echo SKIP; fi", expected: "ECHO_TEST_OK" }
    }
}

/// The agents of growing depth.
#[verifier::allow_in_spec]
pub fn depth_agent(k: usize) -> AgentName
    returns
        (if k == 0 {
        AgentName::Dpg1
    } else if k == 1 {
        AgentName::Dpg1Dpg1
    } else {
        AgentName::Dpg1Dpg1Dpg1
    }),
{
    if k == 0 {
        AgentName::Dpg1
    } else if k == 1 {
        AgentName::Dpg1Dpg1
    } else {
        AgentName::Dpg1Dpg1Dpg1
    }
}

/// The agents that list network interfaces.
#[verifier::allow_in_spec]
pub fn netif_agent(k: usize) -> AgentName
    returns
        (if k == 0 {
        AgentName::Dpg1
    } else if k == 1 {
        AgentName::Dpg1Dpg1
    } else if k == 2 {
        AgentName::Dpg2
    } else {
        AgentName::Dpg1Dng
    }),
{
    if k == 0 {
        AgentName::Dpg1
    } else if k == 1 {
        AgentName::Dpg1Dpg1
    } else if k == 2 {
        AgentName::Dpg2
    } else {
        AgentName::Dpg1Dng
    }
}

/// How the ids of those tests end.
#[verifier::allow_in_spec]
pub fn netif_suffix(k: usize) -> &'static str
    returns
        (if k == 0 {
        ""
    } else if k == 1 {
        ".AA"
    } else if k == 2 {
        ".B"
    } else {
        ".dpg1_dng"
    }),
{
    if k == 0 {
        ""
    } else if k == 1 {
        ".AA"
    } else if k == 2 {
        ".B"
    } else {
        ".dpg1_dng"
    }
}

/// The trigger at a position.
#[verifier::allow_in_spec]
pub fn df_trigger(k: usize) -> DfTrigger
    returns
        (if k == 0 {
        DfTrigger::Mmap
    } else {
        DfTrigger::Thread
    }),
{
    if k == 0 {
        DfTrigger::Mmap
    } else {
        DfTrigger::Thread
    }
}

/// The invocation at a position.
#[verifier::allow_in_spec]
pub fn df_invocation(k: usize) -> DfInvocation
    returns
        (if k == 0 {
        DfInvocation::Direct
    } else {
        DfInvocation::ScriptFile
    }),
{
    if k == 0 {
        DfInvocation::Direct
    } else {
        DfInvocation::ScriptFile
    }
}

/// The agent at a position.
#[verifier::allow_in_spec]
pub fn df_agent(k: usize) -> AgentName
    returns
        (if k == 0 {
        AgentName::Dpg1
    } else {
        AgentName::Dpg1Dpg1
    }),
{
    if k == 0 {
        AgentName::Dpg1
    } else {
        AgentName::Dpg1Dpg1
    }
}

/// The stress mode at a position.
#[verifier::allow_in_spec]
pub fn stress_mode(k: usize) -> &'static str
    returns
        (if k == 0 {
        "pie"
    } else if k == 1 {
        "nonpie"
    } else {
        "mixed"
    }),
{
    if k == 0 {
        "pie"
    } else if k == 1 {
        "nonpie"
    } else {
        "mixed"
    }
}

/// The spawn method at a position.
#[verifier::allow_in_spec]
pub fn spawn_method(k: usize) -> &'static str
    returns
        (if k == 0 {
        "sync"
    } else {
        "tokio"
    }),
{
    if k == 0 {
        "sync"
    } else {
        "tokio"
    }
}

/// The contamination case of each test, and the binary type where the test has one.
#[verifier::allow_in_spec]
pub fn contamination_row(k: usize) -> (usize, Option<usize>)
    returns
        (if k == 0 {
        (0usize, None)
    } else if k == 1 {
        (1usize, Some(0usize))
    } else if k == 2 {
        (1usize, Some(1usize))
    } else if k == 3 {
        (1usize, Some(2usize))
    } else if k == 4 {
        (1usize, Some(3usize))
    } else if k == 5 {
        (1usize, Some(4usize))
    } else if k == 6 {
        (2usize, None)
    } else if k == 7 {
        (3usize, Some(0usize))
    } else if k == 8 {
        (3usize, Some(1usize))
    } else if k == 9 {
        (3usize, Some(2usize))
    } else if k == 10 {
        (3usize, Some(3usize))
    } else {
        (3usize, Some(4usize))
    }),
{
    if k == 0 {
        (0usize, None)
    } else if k == 1 {
        (1usize, Some(0usize))
    } else if k == 2 {
        (1usize, Some(1usize))
    } else if k == 3 {
        (1usize, Some(2usize))
    } else if k == 4 {
        (1usize, Some(3usize))
    } else if k == 5 {
        (1usize, Some(4usize))
    } else if k == 6 {
        (2usize, None)
    } else if k == 7 {
        (3usize, Some(0usize))
    } else if k == 8 {
        (3usize, Some(1usize))
    } else if k == 9 {
        (3usize, Some(2usize))
    } else if k == 10 {
        (3usize, Some(3usize))
    } else {
        (3usize, Some(4usize))
    }
}

/// The fork matrix's group.
#[verifier::allow_in_spec]
pub fn fork_group() -> Group
    returns
        (Group { suite: "fork", family: "fork_matrix", timeout_secs: Some(60) }),
{
    Group { suite: "fork", family: "fork_matrix", timeout_secs: Some(60) }
}

/// The bash tests' group.
#[verifier::allow_in_spec]
pub fn bash_group() -> Group
    returns
        (Group { suite: "fork", family: "bash_fork_exec", timeout_secs: Some(60) }),
{
    Group { suite: "fork", family: "bash_fork_exec", timeout_secs: Some(60) }
}

/// The worker tests' group.
#[verifier::allow_in_spec]
pub fn worker_group() -> Group
    returns
        (Group { suite: "fork", family: "fork_from_worker_exec", timeout_secs: Some(60) }),
{
    Group { suite: "fork", family: "fork_from_worker_exec", timeout_secs: Some(60) }
}

/// The subtree kill tests' group.
#[verifier::allow_in_spec]
pub fn kill_group() -> Group
    returns
        (Group { suite: "matrix", family: "subtree_kill", timeout_secs: Some(SK_TEST_TIMEOUT_SECS) }),
{
    Group { suite: "matrix", family: "subtree_kill", timeout_secs: Some(SK_TEST_TIMEOUT_SECS) }
}

/// Seconds within which a killed agent must be gone.
pub const SK_WAIT_BUDGET_SECS: u64 = 5;

/// Seconds a subtree kill test may take.
pub const SK_TEST_TIMEOUT_SECS: u64 = 90;

/// The program after a delayed fork, at a position: each binary type, then Node.js.
pub open spec fn df_binary_at(k: int) -> DfBinary {
    if k < 5 {
        DfBinary::Harness(binary_at(k))
    } else {
        DfBinary::Node
    }
}

/// The program after a delayed fork, at a position.
pub fn df_binary(k: usize) -> (r: DfBinary)
    ensures
        r == df_binary_at(k as int),
{
    if k < 5 {
        DfBinary::Harness(binary_type(k))
    } else {
        DfBinary::Node
    }
}

/// The handler for a trigger.
pub open spec fn delayed_handler_of(t: DfTrigger) -> Handler {
    match t {
        DfTrigger::Mmap => Handler::Named("fork_matrix.trigger_delayed_fork"),
        DfTrigger::Thread => Handler::Named("fork_matrix.trigger_delayed_fork_thread"),
    }
}

/// The handler for a trigger.
pub fn delayed_handler(t: DfTrigger) -> (r: Handler)
    ensures
        r == delayed_handler_of(t),
{
    match t {
        DfTrigger::Mmap => Handler::Named("fork_matrix.trigger_delayed_fork"),
        DfTrigger::Thread => Handler::Named("fork_matrix.trigger_delayed_fork_thread"),
    }
}

pub open spec fn program_or_bash_of(bash: bool) -> Handler {
    if bash {
        Handler::Named("fork_matrix.bash")
    } else {
        Handler::Named("fork_matrix.exec_bin")
    }
}

fn program_or_bash(bash: bool) -> (r: Handler)
    ensures
        r == program_or_bash_of(bash),
{
    if bash {
        Handler::Named("fork_matrix.bash")
    } else {
        Handler::Named("fork_matrix.exec_bin")
    }
}

/// How many tests the fork matrix has.
pub const FORK_MATRIX_TESTS: usize = 198;

/// The test at a position of the fork matrix: shell patterns by depth, Node.js by
/// depth, ways to start a program, network interfaces, delayed forks, inherited
/// sockets and pidfds, nested delayed forks, stress runs, binary types, and what a
/// non-PIE program leaves behind.
pub open spec fn fork_matrix_row(t: int) -> PlanView {
    if t < 54 {
        let j: int = t;
        let a = depth_agent((j / 18) as usize);
        on_agents(
            fork_group(),
            "XB."@ + shell_pattern((j % 18) as usize).name@ + "."@ + a.wire(),
            Handler::Named("fork_matrix.bash"),
            seq![a],
        )
    } else if t < 57 {
        let j: int = t - 54;
        let a = depth_agent(j as usize);
        on_agents(
            fork_group(),
            "X.node."@ + a.wire(),
            Handler::Named("fork_matrix.exec_bin"),
            seq![a],
        )
    } else if t < 58 {
        let j: int = t - 57;
        on_agents(
            fork_group(),
            "X.node_stdout_write.A"@,
            Handler::Named("fork_matrix.exec_bin"),
            seq![AgentName::Dpg1],
        )
    } else if t < 64 {
        let j: int = t - 58;
        on_agents(
            fork_group(),
            "XM."@ + exec_method(j as usize).name@,
            Handler::Named("fork_matrix.bash"),
            seq![AgentName::Dpg1],
        )
    } else if t < 68 {
        let j: int = t - 64;
        on_agents(
            fork_group(),
            "XM.node_networkInterfaces"@ + netif_suffix(j as usize)@,
            Handler::Named("fork_matrix.exec_bin"),
            seq![netif_agent(j as usize)],
        )
    } else if t < 116 {
        let j: int = t - 68;
        let t = df_trigger((j / 24) as usize);
        let b = df_binary_at((j / 4) % 6);
        let i = df_invocation(((j / 2) % 2) as usize);
        let a = df_agent((j % 2) as usize);
        on_leaf(
            fork_group(),
            "XDF."@ + b.text() + "."@ + t.text() + "."@ + i.text() + "."@ + a.wire(),
            delayed_handler_of(t),
            a,
            "XDF_"@ + b.text() + "_"@ + t.text() + "_"@ + i.text() + "_"@ + a.wire(),
            "self",
        )
    } else if t < 121 {
        let j: int = t - 116;
        on_leaf(
            fork_group(),
            "BSF."@ + binary_at(j).label_text(),
            Handler::Named("fork_matrix.buffered_scm_fork"),
            AgentName::Dpg1,
            "BSF_"@ + binary_at(j).label_text(),
            "self",
        )
    } else if t < 126 {
        let j: int = t - 121;
        on_leaf(
            fork_group(),
            "SXF."@ + binary_at(j).label_text(),
            Handler::Named("fork_matrix.socketpair_fork_cross"),
            AgentName::Dpg1,
            "SXF_"@ + binary_at(j).label_text(),
            "self",
        )
    } else if t < 131 {
        let j: int = t - 126;
        on_leaf(
            fork_group(),
            "PIF."@ + binary_at(j).label_text(),
            Handler::Named("fork_matrix.pidfd_inherit_fork"),
            AgentName::Dpg1,
            "PIF_"@ + binary_at(j).label_text(),
            "self",
        )
    } else if t < 136 {
        let j: int = t - 131;
        on_leaf(
            fork_group(),
            "XDF."@ + binary_at(j).label_text() + ".triple_nesting"@,
            delayed_handler_of(DfTrigger::Mmap),
            AgentName::Dpg1,
            "XDF_triple_"@ + binary_at(j).label_text(),
            binary_at(j).fork_text(),
        )
    } else if t < 166 {
        let j: int = t - 136;
        let m = stress_mode((j / 10) as usize);
        let s = spawn_method(((j / 5) % 2) as usize);
        let bt = binary_at(j % 5);
        on_leaf(
            fork_group(),
            "XS."@ + bt.label_text() + "."@ + m@ + "."@ + s@,
            Handler::Named("fork_matrix.stress_exec"),
            AgentName::Dpg1,
            "XS_"@ + bt.label_text() + "_"@ + m@ + "_"@ + s@,
            bt.fork_text(),
        )
    } else if t < 181 {
        let j: int = t - 166;
        let c = nonpie_case((j / 5) as usize);
        on_agents(
            fork_group(),
            "XNP."@ + binary_at(j % 5).label_text() + "."@ + c.name@,
            program_or_bash_of(c.bash_cmd is Some),
            seq![AgentName::Dpg1],
        )
    } else if t < 186 {
        let j: int = t - 181;
        on_agents(
            fork_group(),
            "XC."@ + binary_at(j).label_text() + ".init_level"@,
            Handler::Named("fork_matrix.exec_bin"),
            seq![AgentName::Dpg1],
        )
    } else {
        let j: int = t - 186;
        let (c, b) = contamination_row(j as usize);
        on_agents(
            fork_group(),
            match b {
                Some(k) => "XC."@ + binary_at(k as int).label_text() + "."@
                    + contamination_case(c).name@,
                None => "XC."@ + contamination_case(c).name@,
            },
            Handler::Named("fork_matrix.bash"),
            seq![AgentName::Dpg1],
        )
    }
}

/// The test at a position of the fork matrix.
#[verifier::rlimit(40)]
fn fork_matrix_plan(t: usize) -> (r: TestPlan)
    requires
        t < FORK_MATRIX_TESTS,
    ensures
        r@ == fork_matrix_row(t as int),
{
    if t < 54 {
        let j: usize = t;
        let a = depth_agent(j / 18);
        let mut id = cat3("XB.", shell_pattern(j % 18).name, ".");
        id.append(a.name());
        plan_on(fork_group(), id, Handler::Named("fork_matrix.bash"), a)
    } else if t < 57 {
        let j: usize = t - 54;
        let a = depth_agent(j);
        plan_on(fork_group(), cat("X.node.", a.name()), Handler::Named("fork_matrix.exec_bin"), a)
    } else if t < 58 {
        let j: usize = t - 57;
        plan_on(
            fork_group(),
            "X.node_stdout_write.A".to_string(),
            Handler::Named("fork_matrix.exec_bin"),
            AgentName::Dpg1,
        )
    } else if t < 64 {
        let j: usize = t - 58;
        plan_on(
            fork_group(),
            cat("XM.", exec_method(j).name),
            Handler::Named("fork_matrix.bash"),
            AgentName::Dpg1,
        )
    } else if t < 68 {
        let j: usize = t - 64;
        plan_on(
            fork_group(),
            cat("XM.node_networkInterfaces", netif_suffix(j)),
            Handler::Named("fork_matrix.exec_bin"),
            netif_agent(j),
        )
    } else if t < 116 {
        let j: usize = t - 68;
        let t = df_trigger(j / 24);
        let b = df_binary((j / 4) % 6);
        let i = df_invocation((j / 2) % 2);
        let a = df_agent(j % 2);
        let mut id = cat3("XDF.", b.suffix(), ".");
        id.append(t.suffix());
        id.append(".");
        id.append(i.suffix());
        id.append(".");
        id.append(a.name());
        let mut label = cat3("XDF_", b.suffix(), "_");
        label.append(t.suffix());
        label.append("_");
        label.append(i.suffix());
        label.append("_");
        label.append(a.name());
        plan_on_leaf(fork_group(), id, delayed_handler(t), a, label.as_str(), "self")
    } else if t < 121 {
        let j: usize = t - 116;
        let bt = binary_type(j);
        let label = cat("BSF_", bt.label());
        plan_on_leaf(
            fork_group(),
            cat("BSF.", bt.label()),
            Handler::Named("fork_matrix.buffered_scm_fork"),
            AgentName::Dpg1,
            label.as_str(),
            "self",
        )
    } else if t < 126 {
        let j: usize = t - 121;
        let bt = binary_type(j);
        let label = cat("SXF_", bt.label());
        plan_on_leaf(
            fork_group(),
            cat("SXF.", bt.label()),
            Handler::Named("fork_matrix.socketpair_fork_cross"),
            AgentName::Dpg1,
            label.as_str(),
            "self",
        )
    } else if t < 131 {
        let j: usize = t - 126;
        let bt = binary_type(j);
        let label = cat("PIF_", bt.label());
        plan_on_leaf(
            fork_group(),
            cat("PIF.", bt.label()),
            Handler::Named("fork_matrix.pidfd_inherit_fork"),
            AgentName::Dpg1,
            label.as_str(),
            "self",
        )
    } else if t < 136 {
        let j: usize = t - 131;
        let bt = binary_type(j);
        let label = cat("XDF_triple_", bt.label());
        plan_on_leaf(
            fork_group(),
            cat3("XDF.", bt.label(), ".triple_nesting"),
            delayed_handler(DfTrigger::Mmap),
            AgentName::Dpg1,
            label.as_str(),
            fork_binary_label(bt),
        )
    } else if t < 166 {
        let j: usize = t - 136;
        let m = stress_mode(j / 10);
        let s = spawn_method((j / 5) % 2);
        let bt = binary_type(j % 5);
        let mut id = cat3("XS.", bt.label(), ".");
        id.append(m);
        id.append(".");
        id.append(s);
        let mut label = cat3("XS_", bt.label(), "_");
        label.append(m);
        label.append("_");
        label.append(s);
        plan_on_leaf(
            fork_group(),
            id,
            Handler::Named("fork_matrix.stress_exec"),
            AgentName::Dpg1,
            label.as_str(),
            fork_binary_label(bt),
        )
    } else if t < 181 {
        let j: usize = t - 166;
        let c = nonpie_case(j / 5);
        let mut id = cat3("XNP.", binary_type(j % 5).label(), ".");
        id.append(c.name);
        plan_on(fork_group(), id, program_or_bash(c.bash_cmd.is_some()), AgentName::Dpg1)
    } else if t < 186 {
        let j: usize = t - 181;
        plan_on(
            fork_group(),
            cat3("XC.", binary_type(j).label(), ".init_level"),
            Handler::Named("fork_matrix.exec_bin"),
            AgentName::Dpg1,
        )
    } else {
        let j: usize = t - 186;
        let (c, b) = contamination_row(j);
        let id = match b {
            Some(k) => {
                let mut id = cat3("XC.", binary_type(k).label(), ".");
                id.append(contamination_case(c).name);
                id
            },
            None => cat("XC.", contamination_case(c).name),
        };
        plan_on(fork_group(), id, Handler::Named("fork_matrix.bash"), AgentName::Dpg1)
    }
}

/// The tests of the fork matrix, in order.
pub fn register_fork_matrix() -> (r: Vec<TestPlan>)
    ensures
        plan_views(r@) == Seq::new(FORK_MATRIX_TESTS as nat, |t: int| fork_matrix_row(t)),
{
    let mut out: Vec<TestPlan> = Vec::new();
    let mut t: usize = 0;
    while t < FORK_MATRIX_TESTS
        invariant
            t <= FORK_MATRIX_TESTS,
            out@.len() == t,
            forall|k: int| 0 <= k < t ==> (#[trigger] out@[k])@ == fork_matrix_row(k),
        decreases FORK_MATRIX_TESTS - t,
    {
        out.push(fork_matrix_plan(t));
        t = t + 1;
    }
    assert(plan_views(out@) =~= Seq::new(FORK_MATRIX_TESTS as nat, |t: int| fork_matrix_row(t)));
    out
}

/// The agents of the bash tests.
#[verifier::allow_in_spec]
pub fn bash_agent(k: usize) -> AgentName
    returns
        (if k == 0 {
        AgentName::Dpg1
    } else {
        AgentName::Dpg2
    }),
{
    if k == 0 {
        AgentName::Dpg1
    } else {
        AgentName::Dpg2
    }
}

/// The names of the bash tests.
#[verifier::allow_in_spec]
pub fn bash_test(k: usize) -> &'static str
    returns
        (if k == 0 {
        "BASH.fork_ls."
    } else if k == 1 {
        "BASH.fork_subst."
    } else {
        "BASH.fork_bg_fg."
    }),
{
    if k == 0 {
        "BASH.fork_ls."
    } else if k == 1 {
        "BASH.fork_subst."
    } else {
        "BASH.fork_bg_fg."
    }
}

/// The bash test at a position: three tests for each agent.
pub open spec fn bash_row(t: int) -> PlanView {
    let a = bash_agent((t / 3) as usize);
    on_agents(bash_group(), bash_test((t % 3) as usize)@ + a.wire(), Handler::RunProgram, seq![a])
}

fn bash_plan(t: usize) -> (r: TestPlan)
    ensures
        r@ == bash_row(t as int),
{
    let a = bash_agent(t / 3);
    plan_on(bash_group(), cat(bash_test(t % 3), a.name()), Handler::RunProgram, a)
}

/// How many bash tests there are.
pub const BASH_TESTS: usize = 6;

/// The bash tests, in order.
pub fn register_bash_fork_exec_tests() -> (r: Vec<TestPlan>)
    ensures
        plan_views(r@) == Seq::new(BASH_TESTS as nat, |t: int| bash_row(t)),
{
    let mut out: Vec<TestPlan> = Vec::new();
    let mut t: usize = 0;
    while t < BASH_TESTS
        invariant
            t <= BASH_TESTS,
            out@.len() == t,
            forall|k: int| 0 <= k < t ==> (#[trigger] out@[k])@ == bash_row(k),
        decreases BASH_TESTS - t,
    {
        out.push(bash_plan(t));
        t = t + 1;
    }
    assert(plan_views(out@) =~= Seq::new(BASH_TESTS as nat, |t: int| bash_row(t)));
    out
}

/// The launchers of the worker tests: a PIE agent and a non-PIE one.
#[verifier::allow_in_spec]
pub fn launcher_agent(k: usize) -> AgentName
    returns
        (if k == 0 {
        AgentName::Dpg1
    } else {
        AgentName::Dpg1Dng
    }),
{
    if k == 0 {
        AgentName::Dpg1
    } else {
        AgentName::Dpg1Dng
    }
}

/// The names of the launchers.
#[verifier::allow_in_spec]
pub fn launcher_label(k: usize) -> &'static str
    returns
        (if k == 0 {
        "from_init"
    } else {
        "from_worker_exec"
    }),
{
    if k == 0 {
        "from_init"
    } else {
        "from_worker_exec"
    }
}

/// Seconds that each launcher's program may take.
#[verifier::allow_in_spec]
pub fn launcher_secs(k: usize) -> u64
    returns
        (if k == 0 {
        20u64
    } else {
        30u64
    }),
{
    if k == 0 {
        20u64
    } else {
        30u64
    }
}

/// The worker test at a position: both launchers for each binary type.
pub open spec fn worker_row(t: int) -> PlanView {
    on_agents(
        worker_group(),
        "FWE."@ + binary_at(t / 2).label_text() + "."@ + launcher_label((t % 2) as usize)@,
        Handler::RunProgram,
        seq![launcher_agent((t % 2) as usize)],
    )
}

fn worker_plan(t: usize) -> (r: TestPlan)
    ensures
        r@ == worker_row(t as int),
{
    let mut id = cat3("FWE.", binary_type(t / 2).label(), ".");
    id.append(launcher_label(t % 2));
    plan_on(worker_group(), id, Handler::RunProgram, launcher_agent(t % 2))
}

/// How many worker tests there are.
pub const WORKER_TESTS: usize = 10;

/// The worker tests, in order.
pub fn register_fork_from_worker_exec_tests() -> (r: Vec<TestPlan>)
    ensures
        plan_views(r@) == Seq::new(WORKER_TESTS as nat, |t: int| worker_row(t)),
{
    let mut out: Vec<TestPlan> = Vec::new();
    let mut t: usize = 0;
    while t < WORKER_TESTS
        invariant
            t <= WORKER_TESTS,
            out@.len() == t,
            forall|k: int| 0 <= k < t ==> (#[trigger] out@[k])@ == worker_row(k),
        decreases WORKER_TESTS - t,
    {
        out.push(worker_plan(t));
        t = t + 1;
    }
    assert(plan_views(out@) =~= Seq::new(WORKER_TESTS as nat, |t: int| worker_row(t)));
    out
}

/// A subtree kill test: the killed agent is `Dpg3`; a non-PIE child hangs under it,
/// or under its own child where the test is deep.
pub open spec fn kill_row(id: Seq<char>, deep: bool) -> PlanView {
    let parent = if deep {
        AgentName::Dpg3Dpg
    } else {
        AgentName::Dpg3
    };
    PlanView {
        suite: kill_group().suite,
        family: kill_group().family,
        id,
        timeout_secs: kill_group().timeout_secs,
        handler: Handler::Direct,
        agents: if deep {
            seq![AgentName::Dpg3, AgentName::Dpg3Dpg]
        } else {
            seq![AgentName::Dpg3]
        },
        leaves: seq![LeafView { parent, label: "NPx"@, kind: KindView::NonPie }],
    }
}

fn kill_plan(id: &str, deep: bool) -> (r: TestPlan)
    ensures
        r@ == kill_row(id@, deep),
{
    let g = kill_group();
    let mut cx = RegistrationContext::new();
    let _ = cx.require(AgentName::Dpg3);
    let parent = if deep {
        let _ = cx.require(AgentName::Dpg3Dpg);
        AgentName::Dpg3Dpg
    } else {
        AgentName::Dpg3
    };
    let _ = cx.declare_ephemeral(parent, "NPx", SpawnKind::NonPie);
    assert(cx.required() =~= if deep {
        seq![AgentName::Dpg3, AgentName::Dpg3Dpg]
    } else {
        seq![AgentName::Dpg3]
    });
    assert(cx.ephemerals() =~= seq![LeafView { parent, label: "NPx"@, kind: KindView::NonPie }]);
    TestPlan {
        suite: g.suite,
        family: g.family,
        id: id.to_string(),
        timeout_secs: g.timeout_secs,
        handler: Handler::Direct,
        cx,
    }
}

/// The subtree kill tests, in order.
pub fn register_subtree_kill_tests() -> (r: Vec<TestPlan>)
    ensures
        plan_views(r@) == seq![
            kill_row("SK.subtree.direct"@, false),
            kill_row("SK.subtree.deep"@, true),
            kill_row("SK.subtree.exit_then_kill"@, false),
        ],
{
    let r = vec![
        kill_plan("SK.subtree.direct", false),
        kill_plan("SK.subtree.deep", true),
        kill_plan("SK.subtree.exit_then_kill", false),
    ];
    assert(plan_views(r@) =~= seq![
        kill_row("SK.subtree.direct"@, false),
        kill_row("SK.subtree.deep"@, true),
        kill_row("SK.subtree.exit_then_kill"@, false),
    ]);
    r
}

/// Each shell pattern is tested on each of the three agents of growing depth.
pub proof fn law_shell_patterns_cover(a: int, k: int)
    requires
        0 <= a < 3,
        0 <= k < 18,
    ensures
        fork_matrix_row(18 * a + k).id == "XB."@ + shell_pattern(k as usize).name@ + "."@
            + depth_agent(a as usize).wire(),
        fork_matrix_row(18 * a + k).agents == seq![depth_agent(a as usize)],
        fork_matrix_row(18 * a + k).handler == Handler::Named("fork_matrix.bash"),
{
    assert((18 * a + k) / 18 == a && (18 * a + k) % 18 == k);
}

/// A fork that is put off is tested for both triggers, all six programs, both ways to start them
/// and both agents; each test has a leaf under its agent, and the handler of its trigger.
pub proof fn law_delayed_forks_cover(t: int, b: int, i: int, a: int)
    requires
        0 <= t < 2,
        0 <= b < 6,
        0 <= i < 2,
        0 <= a < 2,
    ensures
        ({
            let row = fork_matrix_row(68 + 24 * t + 4 * b + 2 * i + a);
            &&& row.id == "XDF."@ + df_binary_at(b).text() + "."@ + df_trigger(t as usize).text()
                + "."@ + df_invocation(i as usize).text() + "."@ + df_agent(a as usize).wire()
            &&& row.handler == Handler::Named(
                if t == 0 {
                    "fork_matrix.trigger_delayed_fork"
                } else {
                    "fork_matrix.trigger_delayed_fork_thread"
                },
            )
            &&& row.leaves.len() == 1
            &&& row.leaves[0].parent == df_agent(a as usize)
        }),
{
    let j = 24 * t + 4 * b + 2 * i + a;
    assert(j / 24 == t && j / 4 == 6 * t + b && (j / 4) % 6 == b && j / 2 == 12 * t + 2 * b + i && (j
        / 2) % 2 == i && j % 2 == a);
}

/// A stress run is tested in each mode, for both ways to start programs and all binary types; its
/// leaf is of the test's binary type.
pub proof fn law_stress_runs_cover(m: int, s: int, b: int)
    requires
        0 <= m < 3,
        0 <= s < 2,
        0 <= b < 5,
    ensures
        ({
            let row = fork_matrix_row(136 + 10 * m + 5 * s + b);
            &&& row.id == "XS."@ + binary_at(b).label_text() + "."@ + stress_mode(m as usize)@
                + "."@ + spawn_method(s as usize)@
            &&& row.handler == Handler::Named("fork_matrix.stress_exec")
            &&& row.leaves.len() == 1
            &&& row.leaves[0].kind == (KindView::Fork {
                binary: binary_at(b).fork_text(),
                ports: Seq::empty(),
            })
        }),
{
    let j = 10 * m + 5 * s + b;
    assert(j / 10 == m && j / 5 == 2 * m + s && (j / 5) % 2 == s && j % 5 == b);
}

/// The inherited resources, the nested forks and the runs after another binary are each tested for
/// every binary type.
pub proof fn law_binary_types_cover(b: int)
    requires
        0 <= b < 5,
    ensures
        fork_matrix_row(116 + b).id == "BSF."@ + binary_at(b).label_text(),
        fork_matrix_row(121 + b).id == "SXF."@ + binary_at(b).label_text(),
        fork_matrix_row(126 + b).id == "PIF."@ + binary_at(b).label_text(),
        fork_matrix_row(116 + b).handler == Handler::Named("fork_matrix.buffered_scm_fork"),
        fork_matrix_row(121 + b).handler == Handler::Named("fork_matrix.socketpair_fork_cross"),
        fork_matrix_row(126 + b).handler == Handler::Named("fork_matrix.pidfd_inherit_fork"),
        fork_matrix_row(131 + b).id == "XDF."@ + binary_at(b).label_text() + ".triple_nesting"@,
        fork_matrix_row(181 + b).id == "XC."@ + binary_at(b).label_text() + ".init_level"@,
        fork_matrix_row(131 + b).leaves.len() == 1 && fork_matrix_row(131 + b).leaves[0].kind == (
        KindView::Fork { binary: binary_at(b).fork_text(), ports: Seq::empty() }),
{
}

/// Each way to start a binary type is tested for every type, and goes through bash exactly if it
/// has a command line.
pub proof fn law_starts_cover(c: int, b: int)
    requires
        0 <= c < 3,
        0 <= b < 5,
    ensures
        ({
            let row = fork_matrix_row(166 + 5 * c + b);
            &&& row.id == "XNP."@ + binary_at(b).label_text() + "."@ + nonpie_case(c as usize).name@
            &&& row.handler == Handler::Named(
                if nonpie_case(c as usize).bash_cmd is Some {
                    "fork_matrix.bash"
                } else {
                    "fork_matrix.exec_bin"
                },
            )
            &&& row.agents == seq![AgentName::Dpg1]
        }),
{
    let j = 5 * c + b;
    assert(j / 5 == c && j % 5 == b);
}

/// The six programs after a delayed fork are the five binary types, in order, and Node.js; the
/// harness prints one text and Node.js another.
pub proof fn law_delayed_programs(k: int)
    requires
        0 <= k < 6,
    ensures
        k < 5 ==> df_binary_at(k) == DfBinary::Harness(binary_at(k)),
        k == 5 ==> df_binary_at(k) is Node,
        df_binary_at(k).expected_text() == if k < 5 {
            "ECHO_TEST_OK"@
        } else {
            "df_node_ok"@
        },
{
}

/// The three bash tests run on both agents, and both launchers start every binary type.
pub proof fn law_bash_and_workers_cover(a: int, k: int, b: int)
    requires
        0 <= a < 2,
        0 <= k < 3,
        0 <= b < 5,
    ensures
        bash_row(3 * a + k).id == bash_test(k as usize)@ + bash_agent(a as usize).wire(),
        bash_row(3 * a + k).agents == seq![bash_agent(a as usize)],
        worker_row(2 * b + a).id == "FWE."@ + binary_at(b).label_text() + "."@ + launcher_label(
            a as usize,
        )@,
        worker_row(2 * b + a).agents == seq![launcher_agent(a as usize)],
{
    assert((3 * a + k) / 3 == a && (3 * a + k) % 3 == k);
    assert((2 * b + a) / 2 == b && (2 * b + a) % 2 == a);
}

/// A subtree kill test declares the root that it kills, and a non-PIE child under it or, in the
/// deep test, under its own child, which it declares too.
pub proof fn law_kill_rows(id: Seq<char>, deep: bool)
    ensures
        ({
            let row = kill_row(id, deep);
            &&& row.id == id
            &&& row.agents[0] == AgentName::Dpg3
            &&& deep ==> row.agents == seq![AgentName::Dpg3, AgentName::Dpg3Dpg]
            &&& !deep ==> row.agents.len() == 1
            &&& row.leaves.len() == 1
            &&& row.leaves[0].kind is NonPie
            &&& row.leaves[0].parent == row.agents.last()
            &&& row.timeout_secs == Some(90u64)
            &&& row.handler is Direct
        }),
{
}

/// The axes of the fork tests, each value once and in order.
pub proof fn law_fork_axes()
    ensures
        netif_agent(0) == AgentName::Dpg1,
        netif_agent(1) == AgentName::Dpg1Dpg1,
        netif_agent(2) == AgentName::Dpg2,
        netif_agent(3) == AgentName::Dpg1Dng,
        df_agent(0) == AgentName::Dpg1,
        df_agent(1) == AgentName::Dpg1Dpg1,
        bash_agent(0) == AgentName::Dpg1,
        bash_agent(1) == AgentName::Dpg2,
        launcher_agent(0) == AgentName::Dpg1,
        launcher_agent(1) == AgentName::Dpg1Dng,
        df_trigger(0) == DfTrigger::Mmap,
        df_trigger(1) == DfTrigger::Thread,
        df_invocation(0) == DfInvocation::Direct,
        df_invocation(1) == DfInvocation::ScriptFile,
        stress_mode(0) == "pie",
        stress_mode(1) == "nonpie",
        stress_mode(2) == "mixed",
        spawn_method(0) == "sync",
        spawn_method(1) == "tokio",
        bash_test(0) == "BASH.fork_ls.",
        bash_test(1) == "BASH.fork_subst.",
        bash_test(2) == "BASH.fork_bg_fg.",
        launcher_label(0) == "from_init",
        launcher_label(1) == "from_worker_exec",
{
}

/// The agents of growing depth are one below the other, and the launcher that is itself started by
/// a program of another binary type is given more time.
pub proof fn law_depths_and_times(k: usize)
    requires
        k < 3,
    ensures
        depth_agent(k).depth() == k,
        k > 0 ==> depth_agent(k).parent_of() == Some(depth_agent((k - 1) as usize)),
        launcher_secs(0) == 20,
        launcher_secs(1) == 30,
        fork_group().timeout_secs == Some(60u64),
        bash_group().timeout_secs == Some(60u64),
        worker_group().timeout_secs == Some(60u64),
        kill_group().timeout_secs == Some(90u64),
{
}

/// Two of the contamination cases are tried once, and the two others for every binary type.
pub proof fn law_contamination_rows(b: usize)
    requires
        b < 5,
    ensures
        contamination_row(0) == (0usize, None::<usize>),
        contamination_row((1 + b) as usize) == (1usize, Some(b)),
        contamination_row(6) == (2usize, None::<usize>),
        contamination_row((7 + b) as usize) == (3usize, Some(b)),
{
}

/// A contamination test bears the name of its case, after that of its binary type where it has
/// one, and runs a shell on the first agent.
pub proof fn law_contamination_tests(k: usize)
    requires
        k < 12,
    ensures
        contamination_row(k).1 is None ==> fork_matrix_row(186 + k).id == "XC."@
            + contamination_case(contamination_row(k).0).name@,
        contamination_row(k).1 matches Some(b) ==> fork_matrix_row(186 + k).id == "XC."@ + binary_at(
            b as int,
        ).label_text() + "."@ + contamination_case(contamination_row(k).0).name@,
        fork_matrix_row(186 + k).handler == Handler::Named("fork_matrix.bash"),
        fork_matrix_row(186 + k).agents == seq![AgentName::Dpg1],
{
}

} // verus!
