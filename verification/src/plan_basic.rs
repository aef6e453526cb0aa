//! The scripts for files, sockets, programs and the environment.

use vstd::prelude::*;
use crate::number::{base_text, dec_text, int_text};
use crate::protocol::ResponseView;
use crate::script::{
    accepts, coherent, law_append_coherent, stage_fits, Accept, Call, Detail, Shape, Stage,
};
use crate::stages::{excused, quiet, single};
use crate::text::{contains_text, occurs_at};

verus! {

/// Files seen from parent to child and back.
#[verifier::opaque]
pub open spec fn fs_family_stages(not_writable: Option<&'static str>) -> Seq<Stage> {
    seq![
        single("A", Call::Read("/shared/f1.txt"), "F1.absent", Accept::Missing, Detail::Plain),
        quiet("init", Call::Write("/shared/f1.txt", "hello"), 1),
        excused("A", Call::Read("/shared/f1.txt"), "F1.created", Accept::Data("hello"), not_writable),
        quiet("init", Call::Write("/shared/f1.txt", "updated"), 1),
        excused("A", Call::Read("/shared/f1.txt"), "F1.updated", Accept::Data("updated"), not_writable),
        quiet("init", Call::Delete("/shared/f1.txt"), 1),
        single("A", Call::Read("/shared/f1.txt"), "F1.deleted", Accept::Missing, Detail::Plain),
        quiet("A", Call::Write("/shared/f2.txt", "from_child"), 1),
        excused("init", Call::Read("/shared/f2.txt"), "F2", Accept::Data("from_child"), not_writable),
        quiet("A", Call::Write("/shared/f2.txt", "child_update"), 1),
        excused("init", Call::Read("/shared/f2.txt"), "F2.update", Accept::Data("child_update"), not_writable),
        quiet("A", Call::Delete("/shared/f2.txt"), 1),
        single("init", Call::Read("/shared/f2.txt"), "F2.deleted", Accept::Missing, Detail::Plain),
    ]
}

fn fs_family(not_writable: Option<&'static str>) -> (r: Vec<Stage>)
    ensures
        r@ == fs_family_stages(not_writable),
        coherent(r@),
{
    let r: Vec<Stage> = vec![
        single("A", Call::Read("/shared/f1.txt"), "F1.absent", Accept::Missing, Detail::Plain),
        quiet("init", Call::Write("/shared/f1.txt", "hello"), 1),
        excused("A", Call::Read("/shared/f1.txt"), "F1.created", Accept::Data("hello"), not_writable),
        quiet("init", Call::Write("/shared/f1.txt", "updated"), 1),
        excused("A", Call::Read("/shared/f1.txt"), "F1.updated", Accept::Data("updated"), not_writable),
        quiet("init", Call::Delete("/shared/f1.txt"), 1),
        single("A", Call::Read("/shared/f1.txt"), "F1.deleted", Accept::Missing, Detail::Plain),
        quiet("A", Call::Write("/shared/f2.txt", "from_child"), 1),
        excused("init", Call::Read("/shared/f2.txt"), "F2", Accept::Data("from_child"), not_writable),
        quiet("A", Call::Write("/shared/f2.txt", "child_update"), 1),
        excused("init", Call::Read("/shared/f2.txt"), "F2.update", Accept::Data("child_update"), not_writable),
        quiet("A", Call::Delete("/shared/f2.txt"), 1),
        single("init", Call::Read("/shared/f2.txt"), "F2.deleted", Accept::Missing, Detail::Plain),
    ];
    proof {
        reveal(fs_family_stages);
        assert(r@ =~= fs_family_stages(not_writable));
        assert forall|k: int| 0 <= k < r@.len() implies #[trigger] stage_fits(r@, k) by {}
    }
    r
}

/// Files seen between siblings, cousins and distant relatives.
#[verifier::opaque]
pub open spec fn fs_kin_stages(not_writable: Option<&'static str>) -> Seq<Stage> {
    seq![
        quiet("A", Call::Write("/shared/f3.txt", "from_A"), 1),
        excused("B", Call::Read("/shared/f3.txt"), "F3.A→B", Accept::Data("from_A"), not_writable),
        quiet("B", Call::Write("/shared/f3b.txt", "from_B"), 1),
        excused("A", Call::Read("/shared/f3b.txt"), "F3.B→A", Accept::Data("from_B"), not_writable),
        quiet("AA", Call::Write("/shared/f4.txt", "from_AA"), 1),
        excused("init", Call::Read("/shared/f4.txt"), "F4.AA→init", Accept::Data("from_AA"), not_writable),
        excused("B", Call::Read("/shared/f4.txt"), "F4.AA→B", Accept::Data("from_AA"), not_writable),
        quiet("AAA", Call::Write("/shared/f4c.txt", "from_AAA"), 1),
        excused("init", Call::Read("/shared/f4c.txt"), "F4.AAA→init", Accept::Data("from_AAA"), not_writable),
    ]
}

fn fs_kin(not_writable: Option<&'static str>) -> (r: Vec<Stage>)
    ensures
        r@ == fs_kin_stages(not_writable),
        coherent(r@),
{
    let r: Vec<Stage> = vec![
        quiet("A", Call::Write("/shared/f3.txt", "from_A"), 1),
        excused("B", Call::Read("/shared/f3.txt"), "F3.A→B", Accept::Data("from_A"), not_writable),
        quiet("B", Call::Write("/shared/f3b.txt", "from_B"), 1),
        excused("A", Call::Read("/shared/f3b.txt"), "F3.B→A", Accept::Data("from_B"), not_writable),
        quiet("AA", Call::Write("/shared/f4.txt", "from_AA"), 1),
        excused("init", Call::Read("/shared/f4.txt"), "F4.AA→init", Accept::Data("from_AA"), not_writable),
        excused("B", Call::Read("/shared/f4.txt"), "F4.AA→B", Accept::Data("from_AA"), not_writable),
        quiet("AAA", Call::Write("/shared/f4c.txt", "from_AAA"), 1),
        excused("init", Call::Read("/shared/f4c.txt"), "F4.AAA→init", Accept::Data("from_AAA"), not_writable),
    ];
    proof {
        reveal(fs_kin_stages);
        assert(r@ =~= fs_kin_stages(not_writable));
        assert forall|k: int| 0 <= k < r@.len() implies #[trigger] stage_fits(r@, k) by {}
    }
    r
}

/// Temporary files, and files of the host.
#[verifier::opaque]
pub open spec fn fs_edge_stages(no_host_file: Option<&'static str>) -> Seq<Stage> {
    seq![
        quiet("A", Call::Write("/tmp/f5.txt", "temp"), 1),
        single("AA", Call::Read("/tmp/f5.txt"), "F5.parent→child", Accept::Any, Detail::Isolated),
        single("B", Call::Read("/tmp/f5.txt"), "F5.sibling", Accept::Any, Detail::Isolated),
        excused("init", Call::Read("/shared/host_wrote.txt"), "F6.host→init", Accept::Data("from_host"), no_host_file),
        excused("A", Call::Read("/shared/host_wrote.txt"), "F6.host→A", Accept::Data("from_host"), no_host_file),
        quiet("init", Call::Write("/shared/for_host.txt", "from_agent"), 1),
    ]
}

fn fs_edge(no_host_file: Option<&'static str>) -> (r: Vec<Stage>)
    ensures
        r@ == fs_edge_stages(no_host_file),
        coherent(r@),
{
    let r: Vec<Stage> = vec![
        quiet("A", Call::Write("/tmp/f5.txt", "temp"), 1),
        single("AA", Call::Read("/tmp/f5.txt"), "F5.parent→child", Accept::Any, Detail::Isolated),
        single("B", Call::Read("/tmp/f5.txt"), "F5.sibling", Accept::Any, Detail::Isolated),
        excused("init", Call::Read("/shared/host_wrote.txt"), "F6.host→init", Accept::Data("from_host"), no_host_file),
        excused("A", Call::Read("/shared/host_wrote.txt"), "F6.host→A", Accept::Data("from_host"), no_host_file),
        quiet("init", Call::Write("/shared/for_host.txt", "from_agent"), 1),
    ];
    proof {
        reveal(fs_edge_stages);
        assert(r@ =~= fs_edge_stages(no_host_file));
        assert forall|k: int| 0 <= k < r@.len() implies #[trigger] stage_fits(r@, k) by {}
    }
    r
}

/// Why a failure is expected where `/shared/` cannot be written.
pub open spec fn write_excuse(shared_writable: bool) -> Option<&'static str> {
    if shared_writable { None } else { Some("/shared/ not writable (policy or rootfs)") }
}

/// Why a failure is expected where the host left no file.
pub open spec fn host_excuse(shared_writable: bool) -> Option<&'static str> {
    if shared_writable { None } else { Some("no /shared/host_wrote.txt in rootfs") }
}

/// The script of the file tests. Where `/shared/` cannot be written, the tests that
/// need it are expected to fail.
pub open spec fn fs_stages_all(shared_writable: bool) -> Seq<Stage> {
    fs_family_stages(write_excuse(shared_writable)) + fs_kin_stages(
        write_excuse(shared_writable),
    ) + fs_edge_stages(host_excuse(shared_writable))
}

/// The script of the file tests.
pub fn fs_tests(shared_writable: bool) -> (r: Vec<Stage>)
    ensures
        r@ == fs_stages_all(shared_writable),
        coherent(r@),
{
    let not_writable: Option<&'static str> = if shared_writable { None } else { Some("/shared/ not writable (policy or rootfs)") };
    let no_host_file: Option<&'static str> = if shared_writable { None } else { Some("no /shared/host_wrote.txt in rootfs") };
    let mut r = fs_family(not_writable);
    let mut more = fs_kin(not_writable);
    proof {
        law_append_coherent(r@, more@);
    }
    r.append(&mut more);
    let mut more = fs_edge(no_host_file);
    proof {
        law_append_coherent(r@, more@);
    }
    r.append(&mut more);
    r
}

/// Connections between parents, children and siblings.
#[verifier::opaque]
pub open spec fn net_near_stages() -> Seq<Stage> {
    seq![
        single("A", Call::Listen(9001), "N1.listen", Accept::Listening, Detail::Plain),
        single("init", Call::Connect("127.0.0.1:9001", "N1"), "N1.init→A", Accept::Echo("N1"), Detail::Plain),
        single("B", Call::Listen(9002), "N2.listen", Accept::Listening, Detail::Plain),
        single("A", Call::Connect("127.0.0.1:9002", "N2"), "N2.A→B", Accept::Echo("N2"), Detail::Plain),
        single("B", Call::Connect("127.0.0.1:9001", "N3"), "N3.B→A", Accept::Echo("N3"), Detail::Plain),
        single("AAA", Call::Connect("127.0.0.1:9001", "N4"), "N4.AAA→A", Accept::Echo("N4"), Detail::Plain),
        single("A", Call::Unlisten(9001), "N1.unlisten", Accept::DoneAny, Detail::Plain),
        single("AAA", Call::Listen(9005), "N5.listen", Accept::Listening, Detail::Plain),
        single("B", Call::Connect("127.0.0.1:9005", "N5"), "N5.B→AAA", Accept::Echo("N5"), Detail::Plain),
        single("AAA", Call::Unlisten(9005), "N5.unlisten", Accept::DoneAny, Detail::Plain),
    ]
}

fn net_near() -> (r: Vec<Stage>)
    ensures
        r@ == net_near_stages(),
        coherent(r@),
{
    let r: Vec<Stage> = vec![
        single("A", Call::Listen(9001), "N1.listen", Accept::Listening, Detail::Plain),
        single("init", Call::Connect("127.0.0.1:9001", "N1"), "N1.init→A", Accept::Echo("N1"), Detail::Plain),
        single("B", Call::Listen(9002), "N2.listen", Accept::Listening, Detail::Plain),
        single("A", Call::Connect("127.0.0.1:9002", "N2"), "N2.A→B", Accept::Echo("N2"), Detail::Plain),
        single("B", Call::Connect("127.0.0.1:9001", "N3"), "N3.B→A", Accept::Echo("N3"), Detail::Plain),
        single("AAA", Call::Connect("127.0.0.1:9001", "N4"), "N4.AAA→A", Accept::Echo("N4"), Detail::Plain),
        single("A", Call::Unlisten(9001), "N1.unlisten", Accept::DoneAny, Detail::Plain),
        single("AAA", Call::Listen(9005), "N5.listen", Accept::Listening, Detail::Plain),
        single("B", Call::Connect("127.0.0.1:9005", "N5"), "N5.B→AAA", Accept::Echo("N5"), Detail::Plain),
        single("AAA", Call::Unlisten(9005), "N5.unlisten", Accept::DoneAny, Detail::Plain),
    ];
    proof {
        reveal(net_near_stages);
        assert(r@ =~= net_near_stages());
        assert forall|k: int| 0 <= k < r@.len() implies #[trigger] stage_fits(r@, k) by {}
    }
    r
}

/// Connections between deep siblings and to an uncle.
#[verifier::opaque]
pub open spec fn net_far_stages() -> Seq<Stage> {
    seq![
        single("AB", Call::Listen(9004), "N6.listen", Accept::Listening, Detail::Plain),
        single("AA", Call::Connect("127.0.0.1:9004", "N6"), "N6.AA→AB", Accept::Echo("N6"), Detail::Plain),
        single("AB", Call::Unlisten(9004), "N6.unlisten", Accept::DoneAny, Detail::Plain),
        single("AAB", Call::Listen(9006), "N7.listen", Accept::Listening, Detail::Plain),
        single("AAA", Call::Connect("127.0.0.1:9006", "N7"), "N7.AAA→AAB", Accept::Echo("N7"), Detail::Plain),
        single("AAB", Call::Unlisten(9006), "N7.unlisten", Accept::DoneAny, Detail::Plain),
        single("AB", Call::Connect("127.0.0.1:9002", "N8"), "N8.AB→B", Accept::Echo("N8"), Detail::Plain),
        single("B", Call::Unlisten(9002), "N8.unlisten", Accept::DoneAny, Detail::Plain),
    ]
}

fn net_far() -> (r: Vec<Stage>)
    ensures
        r@ == net_far_stages(),
        coherent(r@),
{
    let r: Vec<Stage> = vec![
        single("AB", Call::Listen(9004), "N6.listen", Accept::Listening, Detail::Plain),
        single("AA", Call::Connect("127.0.0.1:9004", "N6"), "N6.AA→AB", Accept::Echo("N6"), Detail::Plain),
        single("AB", Call::Unlisten(9004), "N6.unlisten", Accept::DoneAny, Detail::Plain),
        single("AAB", Call::Listen(9006), "N7.listen", Accept::Listening, Detail::Plain),
        single("AAA", Call::Connect("127.0.0.1:9006", "N7"), "N7.AAA→AAB", Accept::Echo("N7"), Detail::Plain),
        single("AAB", Call::Unlisten(9006), "N7.unlisten", Accept::DoneAny, Detail::Plain),
        single("AB", Call::Connect("127.0.0.1:9002", "N8"), "N8.AB→B", Accept::Echo("N8"), Detail::Plain),
        single("B", Call::Unlisten(9002), "N8.unlisten", Accept::DoneAny, Detail::Plain),
    ];
    proof {
        reveal(net_far_stages);
        assert(r@ =~= net_far_stages());
        assert forall|k: int| 0 <= k < r@.len() implies #[trigger] stage_fits(r@, k) by {}
    }
    r
}

/// The script of the connection tests.
pub open spec fn net_stages_all() -> Seq<Stage> {
    net_near_stages() + net_far_stages()
}

/// The script of the connection tests.
pub fn net_tests() -> (r: Vec<Stage>)
    ensures
        r@ == net_stages_all(),
        coherent(r@),
{
    let mut r = net_near();
    let mut more = net_far();
    proof {
        law_append_coherent(r@, more@);
    }
    r.append(&mut more);
    r
}

/// Programs run at each depth, and their exit codes.
#[verifier::opaque]
pub open spec fn exec_depth_stages() -> Seq<Stage> {
    seq![
        single("A", Call::Exec(Shape::Own1("echo-test")), "X1.A", Accept::Output("ECHO_TEST_OK"), Detail::Plain),
        single("AA", Call::Exec(Shape::Own1("echo-test")), "X2.AA", Accept::Output("ECHO_TEST_OK"), Detail::Plain),
        single("AAA", Call::Exec(Shape::Own1("echo-test")), "X3.AAA", Accept::Output("ECHO_TEST_OK"), Detail::Plain),
        single("A", Call::Exec(Shape::Own2("exit-with", "42")), "X4.exit_code", Accept::Exit(42), Detail::Plain),
        single("AAA", Call::Exec(Shape::Own2("exit-with", "7")), "X5.deep_exit", Accept::Exit(7), Detail::Plain),
        single("A", Call::Exec(Shape::Bash("echo hello_from_bash")), "X6.bash_echo", Accept::Prints("hello_from_bash"), Detail::Plain),
        single("A", Call::Exec(Shape::Bash("echo $(echo inner_value)")), "X7.cmd_substitution", Accept::Prints("inner_value"), Detail::Plain),
        single("A", Call::Exec(Shape::Bash("echo $(echo pipe_data | cat)")), "X8.pipe_in_subshell", Accept::Prints("pipe_data"), Detail::Timeout),
    ]
}

fn exec_depth() -> (r: Vec<Stage>)
    ensures
        r@ == exec_depth_stages(),
        coherent(r@),
{
    let r: Vec<Stage> = vec![
        single("A", Call::Exec(Shape::Own1("echo-test")), "X1.A", Accept::Output("ECHO_TEST_OK"), Detail::Plain),
        single("AA", Call::Exec(Shape::Own1("echo-test")), "X2.AA", Accept::Output("ECHO_TEST_OK"), Detail::Plain),
        single("AAA", Call::Exec(Shape::Own1("echo-test")), "X3.AAA", Accept::Output("ECHO_TEST_OK"), Detail::Plain),
        single("A", Call::Exec(Shape::Own2("exit-with", "42")), "X4.exit_code", Accept::Exit(42), Detail::Plain),
        single("AAA", Call::Exec(Shape::Own2("exit-with", "7")), "X5.deep_exit", Accept::Exit(7), Detail::Plain),
        single("A", Call::Exec(Shape::Bash("echo hello_from_bash")), "X6.bash_echo", Accept::Prints("hello_from_bash"), Detail::Plain),
        single("A", Call::Exec(Shape::Bash("echo $(echo inner_value)")), "X7.cmd_substitution", Accept::Prints("inner_value"), Detail::Plain),
        single("A", Call::Exec(Shape::Bash("echo $(echo pipe_data | cat)")), "X8.pipe_in_subshell", Accept::Prints("pipe_data"), Detail::Timeout),
    ];
    proof {
        reveal(exec_depth_stages);
        assert(r@ =~= exec_depth_stages());
        assert forall|k: int| 0 <= k < r@.len() implies #[trigger] stage_fits(r@, k) by {}
    }
    r
}

/// Process substitution, pipes and background jobs in bash.
#[verifier::opaque]
pub open spec fn exec_pipe_stages(devfd_accept: Accept, devfd_detail: Detail) -> Seq<Stage> {
    seq![
        single("A", Call::Exec(Shape::Bash("cat <(echo proc_sub_data)")), "X9.process_substitution", devfd_accept, devfd_detail),
        single("A", Call::Exec(Shape::Bash("echo pipe_two_stage | cat")), "X10.simple_pipe", Accept::Prints("pipe_two_stage"), Detail::Timeout),
        single("A", Call::Exec(Shape::Bash("echo three_stage | cat | cat")), "X11.three_stage_pipe", Accept::Prints("three_stage"), Detail::Timeout),
        single("A", Call::Exec(Shape::Bash("sleep 0 & wait; echo bg_done")), "X12.background_wait", Accept::Prints("bg_done"), Detail::Timeout),
        single("A", Call::Exec(Shape::Bash("echo bg_a & echo bg_b & wait")), "X13.multi_background", Accept::PrintsBoth("bg_a", "bg_b"), Detail::Timeout),
        single("A", Call::Exec(Shape::Bash("(exit 42); echo $?")), "X14.subshell_exit_code", Accept::Prints("42"), Detail::Timeout),
        single("A", Call::Exec(Shape::Bash("echo seq_a && echo seq_b && echo seq_c")), "X15.sequential_cmds", Accept::PrintsBoth("seq_a", "seq_c"), Detail::Plain),
        single("A", Call::Exec(Shape::Bash("echo $(echo $(echo deep_nested))")), "X16.nested_subshell", Accept::Prints("deep_nested"), Detail::Timeout),
    ]
}

fn exec_pipe(devfd_accept: Accept, devfd_detail: Detail) -> (r: Vec<Stage>)
    ensures
        r@ == exec_pipe_stages(devfd_accept, devfd_detail),
        coherent(r@),
{
    let r: Vec<Stage> = vec![
        single("A", Call::Exec(Shape::Bash("cat <(echo proc_sub_data)")), "X9.process_substitution", devfd_accept, devfd_detail),
        single("A", Call::Exec(Shape::Bash("echo pipe_two_stage | cat")), "X10.simple_pipe", Accept::Prints("pipe_two_stage"), Detail::Timeout),
        single("A", Call::Exec(Shape::Bash("echo three_stage | cat | cat")), "X11.three_stage_pipe", Accept::Prints("three_stage"), Detail::Timeout),
        single("A", Call::Exec(Shape::Bash("sleep 0 & wait; echo bg_done")), "X12.background_wait", Accept::Prints("bg_done"), Detail::Timeout),
        single("A", Call::Exec(Shape::Bash("echo bg_a & echo bg_b & wait")), "X13.multi_background", Accept::PrintsBoth("bg_a", "bg_b"), Detail::Timeout),
        single("A", Call::Exec(Shape::Bash("(exit 42); echo $?")), "X14.subshell_exit_code", Accept::Prints("42"), Detail::Timeout),
        single("A", Call::Exec(Shape::Bash("echo seq_a && echo seq_b && echo seq_c")), "X15.sequential_cmds", Accept::PrintsBoth("seq_a", "seq_c"), Detail::Plain),
        single("A", Call::Exec(Shape::Bash("echo $(echo $(echo deep_nested))")), "X16.nested_subshell", Accept::Prints("deep_nested"), Detail::Timeout),
    ];
    proof {
        reveal(exec_pipe_stages);
        assert(r@ =~= exec_pipe_stages(devfd_accept, devfd_detail));
        assert forall|k: int| 0 <= k < r@.len() implies #[trigger] stage_fits(r@, k) by {}
    }
    r
}

/// Here-documents, substitutions and loops in bash.
#[verifier::opaque]
pub open spec fn exec_shell_stages() -> Seq<Stage> {
    seq![
        single("A", Call::Exec(Shape::Bash("cat <<'EOF'\nheredoc_line\nEOF")), "X17.heredoc", Accept::Prints("heredoc_line"), Detail::Timeout),
        single("A", Call::Exec(Shape::Bash("cat <<< 'herestring_data'")), "X18.herestring", Accept::Prints("herestring_data"), Detail::Timeout),
        single("A", Call::Exec(Shape::Bash("echo -e 'alpha\\nbeta\\ngamma' | grep beta")), "X19.pipe_grep", Accept::Prints("beta"), Detail::Timeout),
        single("A", Call::Exec(Shape::Bash("echo $(echo 'line1\\nline2\\nline3' | wc -l)")), "X20.subshell_pipe_wc", Accept::PrintsSomething, Detail::Timeout),
        single("A", Call::Exec(Shape::Bash("echo `echo backtick_val`")), "X21.backtick_subst", Accept::Prints("backtick_val"), Detail::Timeout),
        single("A", Call::Exec(Shape::Bash("echo -e 'a\\nb\\nc' | while read line; do echo \"got_$line\"; done")), "X22.pipe_while_read", Accept::PrintsBoth("got_a", "got_c"), Detail::Timeout),
        single("AA", Call::Exec(Shape::Bash("echo deeper_pipe | cat")), "X23.deep_pipe", Accept::Prints("deeper_pipe"), Detail::Timeout),
        single("AAA", Call::Exec(Shape::Bash("echo $(echo deep_sub | cat)")), "X24.deep_subshell_pipe", Accept::Prints("deep_sub"), Detail::Timeout),
        single("A", Call::Exec(Shape::Bash("echo -e 'p\\nq\\nr' | xargs -I{} echo xargs_{}")), "X25.xargs", Accept::PrintsBoth("xargs_p", "xargs_r"), Detail::Timeout),
    ]
}

fn exec_shell() -> (r: Vec<Stage>)
    ensures
        r@ == exec_shell_stages(),
        coherent(r@),
{
    let r: Vec<Stage> = vec![
        single("A", Call::Exec(Shape::Bash("cat <<'EOF'\nheredoc_line\nEOF")), "X17.heredoc", Accept::Prints("heredoc_line"), Detail::Timeout),
        single("A", Call::Exec(Shape::Bash("cat <<< 'herestring_data'")), "X18.herestring", Accept::Prints("herestring_data"), Detail::Timeout),
        single("A", Call::Exec(Shape::Bash("echo -e 'alpha\\nbeta\\ngamma' | grep beta")), "X19.pipe_grep", Accept::Prints("beta"), Detail::Timeout),
        single("A", Call::Exec(Shape::Bash("echo $(echo 'line1\\nline2\\nline3' | wc -l)")), "X20.subshell_pipe_wc", Accept::PrintsSomething, Detail::Timeout),
        single("A", Call::Exec(Shape::Bash("echo `echo backtick_val`")), "X21.backtick_subst", Accept::Prints("backtick_val"), Detail::Timeout),
        single("A", Call::Exec(Shape::Bash("echo -e 'a\\nb\\nc' | while read line; do echo \"got_$line\"; done")), "X22.pipe_while_read", Accept::PrintsBoth("got_a", "got_c"), Detail::Timeout),
        single("AA", Call::Exec(Shape::Bash("echo deeper_pipe | cat")), "X23.deep_pipe", Accept::Prints("deeper_pipe"), Detail::Timeout),
        single("AAA", Call::Exec(Shape::Bash("echo $(echo deep_sub | cat)")), "X24.deep_subshell_pipe", Accept::Prints("deep_sub"), Detail::Timeout),
        single("A", Call::Exec(Shape::Bash("echo -e 'p\\nq\\nr' | xargs -I{} echo xargs_{}")), "X25.xargs", Accept::PrintsBoth("xargs_p", "xargs_r"), Detail::Timeout),
    ];
    proof {
        reveal(exec_shell_stages);
        assert(r@ =~= exec_shell_stages());
        assert forall|k: int| 0 <= k < r@.len() implies #[trigger] stage_fits(r@, k) by {}
    }
    r
}

/// The answers that pass where a missing `/dev/fd` is tolerated, and where it is not.
pub open spec fn devfd_rule(tolerated: bool) -> (Accept, Detail) {
    if tolerated {
        (Accept::PrintsOrNoDevFd("proc_sub_data"), Detail::DevFd)
    } else {
        (Accept::Prints("proc_sub_data"), Detail::Timeout)
    }
}

/// The script of the program tests.
pub open spec fn exec_stages_all(devfd_tolerated: bool) -> Seq<Stage> {
    exec_depth_stages() + exec_pipe_stages(
        devfd_rule(devfd_tolerated).0,
        devfd_rule(devfd_tolerated).1,
    ) + exec_shell_stages()
}

/// The script of the program tests. A sandbox without `/dev/fd` fails process
/// substitution; `devfd_tolerated` lets that failure pass.
pub fn exec_tests(devfd_tolerated: bool) -> (r: Vec<Stage>)
    ensures
        r@ == exec_stages_all(devfd_tolerated),
        coherent(r@),
{
    let mut r = exec_depth();
    let mut more = if devfd_tolerated {
        exec_pipe(Accept::PrintsOrNoDevFd("proc_sub_data"), Detail::DevFd)
    } else {
        exec_pipe(Accept::Prints("proc_sub_data"), Detail::Timeout)
    };
    proof {
        law_append_coherent(r@, more@);
    }
    r.append(&mut more);
    let mut more = exec_shell();
    proof {
        law_append_coherent(r@, more@);
    }
    r.append(&mut more);
    r
}

/// Variables and working directories of agents.
#[verifier::opaque]
pub open spec fn env_stages() -> Seq<Stage> {
    seq![
        single("A", Call::Env("HOME"), "E1.A", Accept::DataSet, Detail::Plain),
        single("A", Call::Env("PATH"), "E2.A", Accept::DataSet, Detail::Plain),
        single("A", Call::Cwd, "E3.A", Accept::DataAny, Detail::Plain),
        single("AAA", Call::Env("HOME"), "E4.AAA", Accept::DataSet, Detail::Plain),
        single("B", Call::Cwd, "E5.B", Accept::DataAny, Detail::Plain),
    ]
}

fn env() -> (r: Vec<Stage>)
    ensures
        r@ == env_stages(),
        coherent(r@),
{
    let r: Vec<Stage> = vec![
        single("A", Call::Env("HOME"), "E1.A", Accept::DataSet, Detail::Plain),
        single("A", Call::Env("PATH"), "E2.A", Accept::DataSet, Detail::Plain),
        single("A", Call::Cwd, "E3.A", Accept::DataAny, Detail::Plain),
        single("AAA", Call::Env("HOME"), "E4.AAA", Accept::DataSet, Detail::Plain),
        single("B", Call::Cwd, "E5.B", Accept::DataAny, Detail::Plain),
    ];
    proof {
        reveal(env_stages);
        assert(r@ =~= env_stages());
        assert forall|k: int| 0 <= k < r@.len() implies #[trigger] stage_fits(r@, k) by {}
    }
    r
}

/// The script of the environment tests.
pub open spec fn env_stages_all() -> Seq<Stage> {
    env_stages()
}

/// The script of the environment tests.
pub fn env_tests() -> (r: Vec<Stage>)
    ensures
        r@ == env_stages_all(),
        coherent(r@),
{
    env()
}

/// The agents of the scripts have different names.
proof fn lemma_names_differ()
    ensures
        "A"@ != "B"@,
        "A"@ != "AA"@,
        "A"@ != "AAA"@,
        "A"@ != "init"@,
        "B"@ != "AA"@,
        "B"@ != "AAA"@,
        "B"@ != "AB"@,
        "B"@ != "init"@,
        "AA"@ != "AB"@,
        "AA"@ != "init"@,
        "AAA"@ != "AAB"@,
        "AAA"@ != "init"@,
{
    reveal_strlit("A");
    reveal_strlit("B");
    reveal_strlit("AA");
    reveal_strlit("AB");
    reveal_strlit("AAA");
    reveal_strlit("AAB");
    reveal_strlit("init");
    assert("A"@.len() == 1 && "B"@.len() == 1 && "AA"@.len() == 2 && "AB"@.len() == 2
        && "AAA"@.len() == 3 && "AAB"@.len() == 3 && "init"@.len() == 4);
    assert("A"@[0] == 'A' && "B"@[0] == 'B');
    assert("AA"@[1] == 'A' && "AB"@[1] == 'B');
    assert("AAA"@[2] == 'A' && "AAB"@[2] == 'B');
}

/// The stage does this once, by an agent other than the reader.
pub open spec fn changed_by_other(stage: Stage, call: Call, reader: &'static str) -> bool {
    stage matches Stage::Quiet { probe, times } && probe.call == call && times == 1
        && probe.target@ != reader@
}

/// The stage only reads a file.
pub open spec fn only_reads(stage: Stage) -> bool {
    stage matches Stage::Single { probe, .. } && probe.call is Read
}

/// Another agent did this before the stage at `k`, and only reads came between.
pub open spec fn follows(s: Seq<Stage>, k: int, call: Call, reader: &'static str) -> bool {
    exists|w: int|
        0 <= w < k && #[trigger] changed_by_other(s[w], call, reader) && forall|j: int|
            w < j < k ==> only_reads(#[trigger] s[j])
}

/// A test that expects a text in a file reads it after another agent wrote that very text there;
/// a test that expects no file comes before all others or after another agent deleted it. A
/// failure is excused exactly for the tests that need a file in `/shared/`, and exactly where it
/// cannot be written; what becomes of a temporary file passes in any case.
pub proof fn law_reads_follow_writes(shared_writable: bool, k: int)
    requires
        0 <= k < fs_stages_all(shared_writable).len(),
    ensures
        fs_stages_all(shared_writable).len() == 28,
        fs_stages_all(shared_writable)[k] is Quiet || only_reads(fs_stages_all(shared_writable)[k]),
        fs_stages_all(shared_writable)[k] matches Stage::Single { probe, verdict } ==> (probe.call
            matches Call::Read(p) ==> {
            let s = fs_stages_all(shared_writable);
            &&& verdict.agent == probe.target
            &&& match verdict.accept {
                Accept::Data(d) => (verdict.excuse is None <==> shared_writable) && ((p
                    == "/shared/host_wrote.txt" && d == "from_host") || follows(
                    s,
                    k,
                    Call::Write(p, d),
                    probe.target,
                )),
                Accept::Missing => verdict.excuse is None && (k == 0 || follows(
                    s,
                    k,
                    Call::Delete(p),
                    probe.target,
                )),
                Accept::Any => verdict.excuse is None && follows(
                    s,
                    k,
                    Call::Write(p, "temp"),
                    probe.target,
                ) && p == "/tmp/f5.txt",
                _ => false,
            }
        }),
{
    reveal(fs_family_stages);
    reveal(fs_kin_stages);
    reveal(fs_edge_stages);
    lemma_names_differ();
    let s = fs_stages_all(shared_writable);
    if k == 2 {
        assert(changed_by_other(s[1], Call::Write("/shared/f1.txt", "hello"), "A"));
    }
    if k == 4 {
        assert(changed_by_other(s[3], Call::Write("/shared/f1.txt", "updated"), "A"));
    }
    if k == 6 {
        assert(changed_by_other(s[5], Call::Delete("/shared/f1.txt"), "A"));
    }
    if k == 8 {
        assert(changed_by_other(s[7], Call::Write("/shared/f2.txt", "from_child"), "init"));
    }
    if k == 10 {
        assert(changed_by_other(s[9], Call::Write("/shared/f2.txt", "child_update"), "init"));
    }
    if k == 12 {
        assert(changed_by_other(s[11], Call::Delete("/shared/f2.txt"), "init"));
    }
    if k == 14 {
        assert(changed_by_other(s[13], Call::Write("/shared/f3.txt", "from_A"), "B"));
    }
    if k == 16 {
        assert(changed_by_other(s[15], Call::Write("/shared/f3b.txt", "from_B"), "A"));
    }
    if k == 18 {
        assert(changed_by_other(s[17], Call::Write("/shared/f4.txt", "from_AA"), "init"));
    }
    if k == 19 {
        assert(changed_by_other(s[17], Call::Write("/shared/f4.txt", "from_AA"), "B"));
    }
    if k == 21 {
        assert(changed_by_other(s[20], Call::Write("/shared/f4c.txt", "from_AAA"), "init"));
    }
    if k == 23 {
        assert(changed_by_other(s[22], Call::Write("/tmp/f5.txt", "temp"), "AA"));
    }
    if k == 24 {
        assert(changed_by_other(s[22], Call::Write("/tmp/f5.txt", "temp"), "B"));
    }
}

/// The addresses of the scripts are those of their ports.
proof fn lemma_addresses()
    ensures
        "127.0.0.1:9001"@ == "127.0.0.1:"@ + dec_text(9001),
        "127.0.0.1:9002"@ == "127.0.0.1:"@ + dec_text(9002),
        "127.0.0.1:9004"@ == "127.0.0.1:"@ + dec_text(9004),
        "127.0.0.1:9005"@ == "127.0.0.1:"@ + dec_text(9005),
        "127.0.0.1:9006"@ == "127.0.0.1:"@ + dec_text(9006),
{
    reveal_with_fuel(base_text, 5);
    reveal_strlit("127.0.0.1:");
    reveal_strlit("127.0.0.1:9001");
    assert(dec_text(9001) =~= seq!['9', '0', '0', '1']);
    assert("127.0.0.1:9001"@ =~= "127.0.0.1:"@ + dec_text(9001));
    reveal_strlit("127.0.0.1:9002");
    assert(dec_text(9002) =~= seq!['9', '0', '0', '2']);
    assert("127.0.0.1:9002"@ =~= "127.0.0.1:"@ + dec_text(9002));
    reveal_strlit("127.0.0.1:9004");
    assert(dec_text(9004) =~= seq!['9', '0', '0', '4']);
    assert("127.0.0.1:9004"@ =~= "127.0.0.1:"@ + dec_text(9004));
    reveal_strlit("127.0.0.1:9005");
    assert(dec_text(9005) =~= seq!['9', '0', '0', '5']);
    assert("127.0.0.1:9005"@ =~= "127.0.0.1:"@ + dec_text(9005));
    reveal_strlit("127.0.0.1:9006");
    assert(dec_text(9006) =~= seq!['9', '0', '0', '6']);
    assert("127.0.0.1:9006"@ =~= "127.0.0.1:"@ + dec_text(9006));
}

/// The stage sends this call to the agent.
pub open spec fn sends(stage: Stage, call: Call, target: &'static str) -> bool {
    stage matches Stage::Single { probe, .. } && probe.call == call && probe.target == target
}

/// An agent other than the caller listens on the port when the stage at `k` comes.
pub open spec fn other_listens(s: Seq<Stage>, k: int, port: u16, caller: &'static str) -> bool {
    exists|w: int, target: &'static str|
        0 <= w < k && target@ != caller@ && #[trigger] sends(s[w], Call::Listen(port), target)
            && forall|j: int| w < j < k ==> !sends(#[trigger] s[j], Call::Unlisten(port), target)
}

/// The agent gives the port up after the stage at `k`.
pub open spec fn given_up_later(s: Seq<Stage>, k: int, port: u16, target: &'static str) -> bool {
    exists|e: int| k < e < s.len() && sends(#[trigger] s[e], Call::Unlisten(port), target)
}

/// The agent takes the port before the stage at `k`.
pub open spec fn taken_before(s: Seq<Stage>, k: int, port: u16, target: &'static str) -> bool {
    exists|w: int| 0 <= w < k && sends(#[trigger] s[w], Call::Listen(port), target)
}

/// What the stage at `k` of a connection script asks, and which answer it lets pass, fit to what
/// the other stages do.
pub open spec fn fits_connections(s: Seq<Stage>, k: int) -> bool {
    s[k] matches Stage::Single { probe, verdict } && verdict.agent == probe.target
        && verdict.excuse is None && match probe.call {
        Call::Connect(addr, text) => verdict.accept == Accept::Echo(text) && exists|port: u16|
            #[trigger] other_listens(s, k, port, probe.target) && addr@ == "127.0.0.1:"@ + dec_text(
                port as nat,
            ),
        Call::Listen(port) => verdict.accept is Listening && given_up_later(
            s,
            k,
            port,
            probe.target,
        ),
        Call::Unlisten(port) => verdict.accept is DoneAny && taken_before(
            s,
            k,
            port,
            probe.target,
        ),
        _ => false,
    }
}

/// A connection goes to a port on which another agent then listens, and passes only with the echo
/// of what it sent. Every agent that listens gives its port up again, and only such an agent does.
pub proof fn law_connections_are_echoed(k: int)
    requires
        0 <= k < net_stages_all().len(),
    ensures
        net_stages_all().len() == 18,
        fits_connections(net_stages_all(), k),
{
    reveal(net_near_stages);
    reveal(net_far_stages);
    lemma_names_differ();
    lemma_addresses();
    let s = net_stages_all();
    assert(s.len() == 18);
    if k == 0 {
        assert(sends(s[6], Call::Unlisten(9001), "A"));
        assert(given_up_later(s, 0, 9001, "A"));
        assert(s[0] == single("A", Call::Listen(9001), "N1.listen", Accept::Listening, Detail::Plain));
        assert(fits_connections(s, 0));
    }
    if k == 1 {
        assert(sends(s[0], Call::Listen(9001), "A"));
        assert(other_listens(s, 1, 9001, "init"));
        assert(s[1] == single("init", Call::Connect("127.0.0.1:9001", "N1"), "N1.init→A", Accept::Echo("N1"), Detail::Plain));
        assert(fits_connections(s, 1));
    }
    if k == 2 {
        assert(sends(s[17], Call::Unlisten(9002), "B"));
        assert(given_up_later(s, 2, 9002, "B"));
        assert(s[2] == single("B", Call::Listen(9002), "N2.listen", Accept::Listening, Detail::Plain));
        assert(fits_connections(s, 2));
    }
    if k == 3 {
        assert(sends(s[2], Call::Listen(9002), "B"));
        assert(other_listens(s, 3, 9002, "A"));
        assert(s[3] == single("A", Call::Connect("127.0.0.1:9002", "N2"), "N2.A→B", Accept::Echo("N2"), Detail::Plain));
        assert(fits_connections(s, 3));
    }
    if k == 4 {
        assert(sends(s[0], Call::Listen(9001), "A"));
        assert(other_listens(s, 4, 9001, "B"));
        assert(s[4] == single("B", Call::Connect("127.0.0.1:9001", "N3"), "N3.B→A", Accept::Echo("N3"), Detail::Plain));
        assert(fits_connections(s, 4));
    }
    if k == 5 {
        assert(sends(s[0], Call::Listen(9001), "A"));
        assert(other_listens(s, 5, 9001, "AAA"));
        assert(s[5] == single("AAA", Call::Connect("127.0.0.1:9001", "N4"), "N4.AAA→A", Accept::Echo("N4"), Detail::Plain));
        assert(fits_connections(s, 5));
    }
    if k == 6 {
        assert(sends(s[0], Call::Listen(9001), "A"));
        assert(taken_before(s, 6, 9001, "A"));
        assert(s[6] == single("A", Call::Unlisten(9001), "N1.unlisten", Accept::DoneAny, Detail::Plain));
        assert(fits_connections(s, 6));
    }
    if k == 7 {
        assert(sends(s[9], Call::Unlisten(9005), "AAA"));
        assert(given_up_later(s, 7, 9005, "AAA"));
        assert(s[7] == single("AAA", Call::Listen(9005), "N5.listen", Accept::Listening, Detail::Plain));
        assert(fits_connections(s, 7));
    }
    if k == 8 {
        assert(sends(s[7], Call::Listen(9005), "AAA"));
        assert(other_listens(s, 8, 9005, "B"));
        assert(s[8] == single("B", Call::Connect("127.0.0.1:9005", "N5"), "N5.B→AAA", Accept::Echo("N5"), Detail::Plain));
        assert(fits_connections(s, 8));
    }
    if k == 9 {
        assert(sends(s[7], Call::Listen(9005), "AAA"));
        assert(taken_before(s, 9, 9005, "AAA"));
        assert(s[9] == single("AAA", Call::Unlisten(9005), "N5.unlisten", Accept::DoneAny, Detail::Plain));
        assert(fits_connections(s, 9));
    }
    if k == 10 {
        assert(sends(s[12], Call::Unlisten(9004), "AB"));
        assert(given_up_later(s, 10, 9004, "AB"));
        assert(s[10] == single("AB", Call::Listen(9004), "N6.listen", Accept::Listening, Detail::Plain));
        assert(fits_connections(s, 10));
    }
    if k == 11 {
        assert(sends(s[10], Call::Listen(9004), "AB"));
        assert(other_listens(s, 11, 9004, "AA"));
        assert(s[11] == single("AA", Call::Connect("127.0.0.1:9004", "N6"), "N6.AA→AB", Accept::Echo("N6"), Detail::Plain));
        assert(fits_connections(s, 11));
    }
    if k == 12 {
        assert(sends(s[10], Call::Listen(9004), "AB"));
        assert(taken_before(s, 12, 9004, "AB"));
        assert(s[12] == single("AB", Call::Unlisten(9004), "N6.unlisten", Accept::DoneAny, Detail::Plain));
        assert(fits_connections(s, 12));
    }
    if k == 13 {
        assert(sends(s[15], Call::Unlisten(9006), "AAB"));
        assert(given_up_later(s, 13, 9006, "AAB"));
        assert(s[13] == single("AAB", Call::Listen(9006), "N7.listen", Accept::Listening, Detail::Plain));
        assert(fits_connections(s, 13));
    }
    if k == 14 {
        assert(sends(s[13], Call::Listen(9006), "AAB"));
        assert(other_listens(s, 14, 9006, "AAA"));
        assert(s[14] == single("AAA", Call::Connect("127.0.0.1:9006", "N7"), "N7.AAA→AAB", Accept::Echo("N7"), Detail::Plain));
        assert(fits_connections(s, 14));
    }
    if k == 15 {
        assert(sends(s[13], Call::Listen(9006), "AAB"));
        assert(taken_before(s, 15, 9006, "AAB"));
        assert(s[15] == single("AAB", Call::Unlisten(9006), "N7.unlisten", Accept::DoneAny, Detail::Plain));
        assert(fits_connections(s, 15));
    }
    if k == 16 {
        assert(sends(s[2], Call::Listen(9002), "B"));
        assert(other_listens(s, 16, 9002, "AB"));
        assert(s[16] == single("AB", Call::Connect("127.0.0.1:9002", "N8"), "N8.AB→B", Accept::Echo("N8"), Detail::Plain));
        assert(fits_connections(s, 16));
    }
    if k == 17 {
        assert(sends(s[2], Call::Listen(9002), "B"));
        assert(taken_before(s, 17, 9002, "B"));
        assert(s[17] == single("B", Call::Unlisten(9002), "N8.unlisten", Accept::DoneAny, Detail::Plain));
        assert(fits_connections(s, 17));
    }
}

/// What a program test must find follows from what it runs: the harness's own echo prints its
/// mark, a program that is told to end with a code ends with it, and a command line prints a text
/// that it names.
pub open spec fn fits_program(shape: Shape, accept: Accept) -> bool {
    match shape {
        Shape::Own1(c) => c == "echo-test" && accept == Accept::Output("ECHO_TEST_OK"),
        Shape::Own2(c, code) => c == "exit-with" && (accept matches Accept::Exit(n) && code@
            == int_text(n as int)),
        Shape::Bash(c) => match accept {
            Accept::Prints(t) => contains_text(c@, t@),
            Accept::PrintsOrNoDevFd(t) => contains_text(c@, t@),
            Accept::PrintsBoth(t, u) => t@ != u@,
            Accept::PrintsSomething => true,
            _ => false,
        },
        _ => false,
    }
}

/// Every stage of the program script runs one program and judges it by what it runs; nothing is
/// excused, and no answer passes unseen.
pub proof fn law_program_tests_fit(devfd_tolerated: bool, k: int)
    requires
        0 <= k < exec_stages_all(devfd_tolerated).len(),
    ensures
        exec_stages_all(devfd_tolerated).len() == 25,
        exec_stages_all(devfd_tolerated)[k] matches Stage::Single { probe, verdict } && verdict.agent
            == probe.target && verdict.excuse is None && (probe.call matches Call::Exec(shape)
            && fits_program(shape, verdict.accept)),
{
    reveal(exec_depth_stages);
    reveal(exec_pipe_stages);
    reveal(exec_shell_stages);
    reveal_with_fuel(base_text, 3);
    if k == 3 {
        reveal_strlit("42");
        assert("42"@ =~= int_text(42));
    }
    if k == 4 {
        reveal_strlit("7");
        assert("7"@ =~= int_text(7));
    }
    if k == 5 {
        assert(contains_text("echo hello_from_bash"@, "hello_from_bash"@)) by {
            reveal_strlit("echo hello_from_bash");
            reveal_strlit("hello_from_bash");
            assert("echo hello_from_bash"@.subrange(5, 20) =~= "hello_from_bash"@);
            assert(occurs_at("echo hello_from_bash"@, "hello_from_bash"@, 5));
        }
    }
    if k == 6 {
        assert(contains_text("echo $(echo inner_value)"@, "inner_value"@)) by {
            reveal_strlit("echo $(echo inner_value)");
            reveal_strlit("inner_value");
            assert("echo $(echo inner_value)"@.subrange(12, 23) =~= "inner_value"@);
            assert(occurs_at("echo $(echo inner_value)"@, "inner_value"@, 12));
        }
    }
    if k == 7 {
        assert(contains_text("echo $(echo pipe_data | cat)"@, "pipe_data"@)) by {
            reveal_strlit("echo $(echo pipe_data | cat)");
            reveal_strlit("pipe_data");
            assert("echo $(echo pipe_data | cat)"@.subrange(12, 21) =~= "pipe_data"@);
            assert(occurs_at("echo $(echo pipe_data | cat)"@, "pipe_data"@, 12));
        }
    }
    if k == 8 {
        assert(contains_text("cat <(echo proc_sub_data)"@, "proc_sub_data"@)) by {
            reveal_strlit("cat <(echo proc_sub_data)");
            reveal_strlit("proc_sub_data");
            assert("cat <(echo proc_sub_data)"@.subrange(11, 24) =~= "proc_sub_data"@);
            assert(occurs_at("cat <(echo proc_sub_data)"@, "proc_sub_data"@, 11));
        }
    }
    if k == 9 {
        assert(contains_text("echo pipe_two_stage | cat"@, "pipe_two_stage"@)) by {
            reveal_strlit("echo pipe_two_stage | cat");
            reveal_strlit("pipe_two_stage");
            assert("echo pipe_two_stage | cat"@.subrange(5, 19) =~= "pipe_two_stage"@);
            assert(occurs_at("echo pipe_two_stage | cat"@, "pipe_two_stage"@, 5));
        }
    }
    if k == 10 {
        assert(contains_text("echo three_stage | cat | cat"@, "three_stage"@)) by {
            reveal_strlit("echo three_stage | cat | cat");
            reveal_strlit("three_stage");
            assert("echo three_stage | cat | cat"@.subrange(5, 16) =~= "three_stage"@);
            assert(occurs_at("echo three_stage | cat | cat"@, "three_stage"@, 5));
        }
    }
    if k == 11 {
        assert(contains_text("sleep 0 & wait; echo bg_done"@, "bg_done"@)) by {
            reveal_strlit("sleep 0 & wait; echo bg_done");
            reveal_strlit("bg_done");
            assert("sleep 0 & wait; echo bg_done"@.subrange(21, 28) =~= "bg_done"@);
            assert(occurs_at("sleep 0 & wait; echo bg_done"@, "bg_done"@, 21));
        }
    }
    if k == 12 {
        reveal_strlit("bg_a");
        reveal_strlit("bg_b");
        assert("bg_a"@[3] != "bg_b"@[3]);
    }
    if k == 13 {
        assert(contains_text("(exit 42); echo $?"@, "42"@)) by {
            reveal_strlit("(exit 42); echo $?");
            reveal_strlit("42");
            assert("(exit 42); echo $?"@.subrange(6, 8) =~= "42"@);
            assert(occurs_at("(exit 42); echo $?"@, "42"@, 6));
        }
    }
    if k == 14 {
        reveal_strlit("seq_a");
        reveal_strlit("seq_c");
        assert("seq_a"@[4] != "seq_c"@[4]);
    }
    if k == 15 {
        assert(contains_text("echo $(echo $(echo deep_nested))"@, "deep_nested"@)) by {
            reveal_strlit("echo $(echo $(echo deep_nested))");
            reveal_strlit("deep_nested");
            assert("echo $(echo $(echo deep_nested))"@.subrange(19, 30) =~= "deep_nested"@);
            assert(occurs_at("echo $(echo $(echo deep_nested))"@, "deep_nested"@, 19));
        }
    }
    if k == 16 {
        assert(contains_text("cat <<'EOF'\nheredoc_line\nEOF"@, "heredoc_line"@)) by {
            reveal_strlit("cat <<'EOF'\nheredoc_line\nEOF");
            reveal_strlit("heredoc_line");
            assert("cat <<'EOF'\nheredoc_line\nEOF"@.subrange(12, 24) =~= "heredoc_line"@);
            assert(occurs_at("cat <<'EOF'\nheredoc_line\nEOF"@, "heredoc_line"@, 12));
        }
    }
    if k == 17 {
        assert(contains_text("cat <<< 'herestring_data'"@, "herestring_data"@)) by {
            reveal_strlit("cat <<< 'herestring_data'");
            reveal_strlit("herestring_data");
            assert("cat <<< 'herestring_data'"@.subrange(9, 24) =~= "herestring_data"@);
            assert(occurs_at("cat <<< 'herestring_data'"@, "herestring_data"@, 9));
        }
    }
    if k == 18 {
        assert(contains_text("echo -e 'alpha\\nbeta\\ngamma' | grep beta"@, "beta"@)) by {
            reveal_strlit("echo -e 'alpha\\nbeta\\ngamma' | grep beta");
            reveal_strlit("beta");
            assert("echo -e 'alpha\\nbeta\\ngamma' | grep beta"@.subrange(16, 20) =~= "beta"@);
            assert(occurs_at("echo -e 'alpha\\nbeta\\ngamma' | grep beta"@, "beta"@, 16));
        }
    }
    if k == 20 {
        assert(contains_text("echo `echo backtick_val`"@, "backtick_val"@)) by {
            reveal_strlit("echo `echo backtick_val`");
            reveal_strlit("backtick_val");
            assert("echo `echo backtick_val`"@.subrange(11, 23) =~= "backtick_val"@);
            assert(occurs_at("echo `echo backtick_val`"@, "backtick_val"@, 11));
        }
    }
    if k == 21 {
        reveal_strlit("got_a");
        reveal_strlit("got_c");
        assert("got_a"@[4] != "got_c"@[4]);
    }
    if k == 22 {
        assert(contains_text("echo deeper_pipe | cat"@, "deeper_pipe"@)) by {
            reveal_strlit("echo deeper_pipe | cat");
            reveal_strlit("deeper_pipe");
            assert("echo deeper_pipe | cat"@.subrange(5, 16) =~= "deeper_pipe"@);
            assert(occurs_at("echo deeper_pipe | cat"@, "deeper_pipe"@, 5));
        }
    }
    if k == 23 {
        assert(contains_text("echo $(echo deep_sub | cat)"@, "deep_sub"@)) by {
            reveal_strlit("echo $(echo deep_sub | cat)");
            reveal_strlit("deep_sub");
            assert("echo $(echo deep_sub | cat)"@.subrange(12, 20) =~= "deep_sub"@);
            assert(occurs_at("echo $(echo deep_sub | cat)"@, "deep_sub"@, 12));
        }
    }
    if k == 24 {
        reveal_strlit("xargs_p");
        reveal_strlit("xargs_r");
        assert("xargs_p"@[6] != "xargs_r"@[6]);
    }
}

/// Tolerance for a missing `/dev/fd` changes the one test that needs it, and nothing else: there a
/// program that failed for want of it passes too, and only with the tolerance.
pub proof fn law_devfd_tolerance(k: int, r: ResponseView)
    requires
        0 <= k < 25,
    ensures
        k != 8 ==> exec_stages_all(true)[k] == exec_stages_all(false)[k],
        exec_stages_all(false)[8] matches Stage::Single { verdict, .. } && (accepts(
            verdict.accept,
            r,
        ) <==> accepts(Accept::Prints("proc_sub_data"), r)),
        exec_stages_all(true)[8] matches Stage::Single { verdict, .. } && (accepts(
            verdict.accept,
            r,
        ) <==> accepts(Accept::Prints("proc_sub_data"), r) || (r matches ResponseView::ExecResult {
            exit_code,
            stderr,
            ..
        } && exit_code == 1 && contains_text(stderr, "/dev/fd"@))),
{
    reveal(exec_depth_stages);
    reveal(exec_pipe_stages);
    reveal(exec_shell_stages);
}

/// A variable must be set, and any working directory will do; both are asked of the agent that the
/// verdict names.
pub proof fn law_environment_tests_fit(k: int)
    requires
        0 <= k < env_stages_all().len(),
    ensures
        env_stages_all().len() == 5,
        env_stages_all()[k] matches Stage::Single { probe, verdict } && verdict.agent == probe.target
            && verdict.excuse is None && match probe.call {
            Call::Env(v) => verdict.accept is DataSet && (v == "HOME" || v == "PATH"),
            Call::Cwd => verdict.accept is DataAny,
            _ => false,
        },
{
    reveal(env_stages);
}

} // verus!
