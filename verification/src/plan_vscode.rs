//! The script that reproduces how VS Code's server uses sockets, ports and temporary files.

use vstd::prelude::*;
use crate::script::{coherent, law_append_coherent, stage_fits, Absent, Accept, Call, Detail, Shape, Stage};
use crate::stages::{gate, guard, pause, quiet, single};
use crate::text::{contains_text, occurs_at};

verus! {

/// Unix sockets, port reuse and temporary scripts, as VS Code's server uses them.
#[verifier::opaque]
pub open spec fn vscode_socket_stages() -> Seq<Stage> {
    seq![
        single("A", Call::UnixSocket("/tmp/test-t1.sock"), "T1.unix_socket", Accept::DataContains("unix_socket_ok"), Detail::Plain),
        single("AA", Call::UnixSocket("/tmp/test-t1b.sock"), "T1b.unix_socket_deep", Accept::DataContains("unix_socket_ok"), Detail::Plain),
        single("A", Call::Listen(9100), "T2.listen_A", Accept::ListeningOn(9100), Detail::Plain),
        single("A", Call::Unlisten(9100), "T2.unlisten_A", Accept::DoneAny, Detail::Plain),
        pause(500),
        gate("B", Call::Listen(9100), "T2.reuse_B", Accept::ListeningOn(9100), 1),
        quiet("B", Call::Unlisten(9100), 1),
        single("A", Call::Exec(Shape::Bash("echo tmp_write_test > /tmp/t3-test.sh && cat /tmp/t3-test.sh && rm /tmp/t3-test.sh")), "T3.tmp_write", Accept::Prints("tmp_write_test"), Detail::Timeout),
        single("AA", Call::Exec(Shape::Bash("echo deep_tmp > /tmp/t3b-test.sh && cat /tmp/t3b-test.sh && rm /tmp/t3b-test.sh")), "T3b.tmp_write_deep", Accept::Prints("deep_tmp"), Detail::Plain),
    ]
}

fn vscode_socket() -> (r: Vec<Stage>)
    ensures
        r@ == vscode_socket_stages(),
        coherent(r@),
{
    let r: Vec<Stage> = vec![
        single("A", Call::UnixSocket("/tmp/test-t1.sock"), "T1.unix_socket", Accept::DataContains("unix_socket_ok"), Detail::Plain),
        single("AA", Call::UnixSocket("/tmp/test-t1b.sock"), "T1b.unix_socket_deep", Accept::DataContains("unix_socket_ok"), Detail::Plain),
        single("A", Call::Listen(9100), "T2.listen_A", Accept::ListeningOn(9100), Detail::Plain),
        single("A", Call::Unlisten(9100), "T2.unlisten_A", Accept::DoneAny, Detail::Plain),
        pause(500),
        gate("B", Call::Listen(9100), "T2.reuse_B", Accept::ListeningOn(9100), 1),
        quiet("B", Call::Unlisten(9100), 1),
        single("A", Call::Exec(Shape::Bash("echo tmp_write_test > /tmp/t3-test.sh && cat /tmp/t3-test.sh && rm /tmp/t3-test.sh")), "T3.tmp_write", Accept::Prints("tmp_write_test"), Detail::Timeout),
        single("AA", Call::Exec(Shape::Bash("echo deep_tmp > /tmp/t3b-test.sh && cat /tmp/t3b-test.sh && rm /tmp/t3b-test.sh")), "T3b.tmp_write_deep", Accept::Prints("deep_tmp"), Detail::Plain),
    ];
    proof {
        reveal(vscode_socket_stages);
        assert(r@ =~= vscode_socket_stages());
        assert forall|k: int| 0 <= k < r@.len() implies #[trigger] stage_fits(r@, k) by {}
    }
    r
}

/// VS Code's server itself, where it is installed.
#[verifier::opaque]
pub open spec fn vscode_server_stages() -> Seq<Stage> {
    seq![
        guard("A", Call::ExecFor(Shape::Bash("if [ -x /root/.vscode-server/cli/servers/Stable-ae130017f8afe532557dbb8539a6ef3bdaec6389/server/bin/code-server ]; then /root/.vscode-server/cli/servers/Stable-ae130017f8afe532557dbb8539a6ef3bdaec6389/server/bin/code-server --connection-token=test --accept-server-license-terms --start-server --socket-path=/tmp/t4-test.sock 2>&1 & PID=$!; sleep 3; kill $PID 2>/dev/null; wait $PID 2>/dev/null; echo exit=$?; else echo SKIP_NOT_FOUND; fi"), 30), Absent::Mark("SKIP_NOT_FOUND"), "T4.code_server", Accept::RanWithout("SKIP_NOT_FOUND"), "skipped (binary not found)", 0),
        quiet("A", Call::Exec(Shape::Bash("rm -f /tmp/t4-test.sock")), 1),
        single("A", Call::ExecFor(Shape::BashOwn("rm -f /tmp/t5.sock; {self_exe} unix-echo-server /tmp/t5.sock & SERVER_PID=$!; sleep 1; RESULT=$({self_exe} unix-echo-client /tmp/t5.sock UNIX_ECHO_TEST 2>&1); echo \"t5_result=$RESULT\"; kill $SERVER_PID 2>/dev/null; wait $SERVER_PID 2>/dev/null; rm -f /tmp/t5.sock"), 30), "T5.unix_relay", Accept::Output("t5_result=UNIX_ECHO_TEST"), Detail::Timeout),
        guard("A", Call::ExecFor(Shape::Bash("if [ -x /root/.vscode-server/cli/servers/Stable-ae130017f8afe532557dbb8539a6ef3bdaec6389/server/bin/code-server ]; then /root/.vscode-server/cli/servers/Stable-ae130017f8afe532557dbb8539a6ef3bdaec6389/server/bin/code-server --connection-token=test --accept-server-license-terms --start-server --socket-path=/tmp/t6-test.sock >/dev/null 2>&1 & PID=$!; sleep 3; if [ -S /tmp/t6-test.sock ]; then echo SOCKET_CREATED; else echo SOCKET_MISSING; fi; kill $PID 2>/dev/null; wait $PID 2>/dev/null; else echo SKIP_NOT_FOUND; fi"), 30), Absent::Mark("SKIP_NOT_FOUND"), "T6.code_server_socket", Accept::Output("SOCKET_CREATED"), "skipped (binary not found)", 0),
        quiet("A", Call::Exec(Shape::Bash("rm -f /tmp/t6-test.sock")), 1),
        guard("A", Call::ExecFor(Shape::Bash("if [ -x /root/.vscode-server/cli/servers/Stable-ae130017f8afe532557dbb8539a6ef3bdaec6389/server/bin/code-server ]; then /root/.vscode-server/cli/servers/Stable-ae130017f8afe532557dbb8539a6ef3bdaec6389/server/bin/code-server --connection-token=test --accept-server-license-terms --start-server --enable-remote-auto-shutdown --socket-path=/tmp/t7-test.sock >/dev/null 2>&1 & PID=$!; sleep 5; if kill -0 $PID 2>/dev/null; then echo STILL_RUNNING; else echo EXITED_EARLY; fi; kill $PID 2>/dev/null; wait $PID 2>/dev/null; else echo SKIP_NOT_FOUND; fi"), 30), Absent::Mark("SKIP_NOT_FOUND"), "T7.auto_shutdown", Accept::Output("STILL_RUNNING"), "skipped (binary not found)", 0),
        quiet("A", Call::Exec(Shape::Bash("rm -f /tmp/t7-test.sock")), 1),
    ]
}

fn vscode_server() -> (r: Vec<Stage>)
    ensures
        r@ == vscode_server_stages(),
        coherent(r@),
{
    let r: Vec<Stage> = vec![
        guard("A", Call::ExecFor(Shape::Bash("if [ -x /root/.vscode-server/cli/servers/Stable-ae130017f8afe532557dbb8539a6ef3bdaec6389/server/bin/code-server ]; then /root/.vscode-server/cli/servers/Stable-ae130017f8afe532557dbb8539a6ef3bdaec6389/server/bin/code-server --connection-token=test --accept-server-license-terms --start-server --socket-path=/tmp/t4-test.sock 2>&1 & PID=$!; sleep 3; kill $PID 2>/dev/null; wait $PID 2>/dev/null; echo exit=$?; else echo SKIP_NOT_FOUND; fi"), 30), Absent::Mark("SKIP_NOT_FOUND"), "T4.code_server", Accept::RanWithout("SKIP_NOT_FOUND"), "skipped (binary not found)", 0),
        quiet("A", Call::Exec(Shape::Bash("rm -f /tmp/t4-test.sock")), 1),
        single("A", Call::ExecFor(Shape::BashOwn("rm -f /tmp/t5.sock; {self_exe} unix-echo-server /tmp/t5.sock & SERVER_PID=$!; sleep 1; RESULT=$({self_exe} unix-echo-client /tmp/t5.sock UNIX_ECHO_TEST 2>&1); echo \"t5_result=$RESULT\"; kill $SERVER_PID 2>/dev/null; wait $SERVER_PID 2>/dev/null; rm -f /tmp/t5.sock"), 30), "T5.unix_relay", Accept::Output("t5_result=UNIX_ECHO_TEST"), Detail::Timeout),
        guard("A", Call::ExecFor(Shape::Bash("if [ -x /root/.vscode-server/cli/servers/Stable-ae130017f8afe532557dbb8539a6ef3bdaec6389/server/bin/code-server ]; then /root/.vscode-server/cli/servers/Stable-ae130017f8afe532557dbb8539a6ef3bdaec6389/server/bin/code-server --connection-token=test --accept-server-license-terms --start-server --socket-path=/tmp/t6-test.sock >/dev/null 2>&1 & PID=$!; sleep 3; if [ -S /tmp/t6-test.sock ]; then echo SOCKET_CREATED; else echo SOCKET_MISSING; fi; kill $PID 2>/dev/null; wait $PID 2>/dev/null; else echo SKIP_NOT_FOUND; fi"), 30), Absent::Mark("SKIP_NOT_FOUND"), "T6.code_server_socket", Accept::Output("SOCKET_CREATED"), "skipped (binary not found)", 0),
        quiet("A", Call::Exec(Shape::Bash("rm -f /tmp/t6-test.sock")), 1),
        guard("A", Call::ExecFor(Shape::Bash("if [ -x /root/.vscode-server/cli/servers/Stable-ae130017f8afe532557dbb8539a6ef3bdaec6389/server/bin/code-server ]; then /root/.vscode-server/cli/servers/Stable-ae130017f8afe532557dbb8539a6ef3bdaec6389/server/bin/code-server --connection-token=test --accept-server-license-terms --start-server --enable-remote-auto-shutdown --socket-path=/tmp/t7-test.sock >/dev/null 2>&1 & PID=$!; sleep 5; if kill -0 $PID 2>/dev/null; then echo STILL_RUNNING; else echo EXITED_EARLY; fi; kill $PID 2>/dev/null; wait $PID 2>/dev/null; else echo SKIP_NOT_FOUND; fi"), 30), Absent::Mark("SKIP_NOT_FOUND"), "T7.auto_shutdown", Accept::Output("STILL_RUNNING"), "skipped (binary not found)", 0),
        quiet("A", Call::Exec(Shape::Bash("rm -f /tmp/t7-test.sock")), 1),
    ];
    proof {
        reveal(vscode_server_stages);
        assert(r@ =~= vscode_server_stages());
        assert forall|k: int| 0 <= k < r@.len() implies #[trigger] stage_fits(r@, k) by {}
    }
    r
}

/// The script of the VS Code reproduction tests.
pub open spec fn vscode_repro_stages_all() -> Seq<Stage> {
    vscode_socket_stages() + vscode_server_stages()
}

/// The script of the VS Code reproduction tests.
pub fn vscode_repro_tests() -> (r: Vec<Stage>)
    ensures
        r@ == vscode_repro_stages_all(),
        coherent(r@),
{
    let mut r = vscode_socket();
    let mut more = vscode_server();
    proof {
        law_append_coherent(r@, more@);
    }
    r.append(&mut more);
    r
}

/// What the stage at `k` sends, and which answer it lets pass, fit together.
pub open spec fn fits_vscode_script(s: Seq<Stage>, k: int) -> bool {
    match s[k] {
        Stage::Single { probe, verdict } => verdict.agent == probe.target && verdict.excuse is None
            && match probe.call {
            Call::UnixSocket(_) => verdict.accept == Accept::DataContains("unix_socket_ok"),
            Call::Listen(port) => verdict.accept == Accept::ListeningOn(port),
            Call::Unlisten(_) => verdict.accept is DoneAny,
            Call::Exec(Shape::Bash(c)) => verdict.accept matches Accept::Prints(t) && contains_text(
                c@,
                t@,
            ),
            Call::ExecFor(Shape::BashOwn(c), secs) => secs == 30 && verdict.accept
                == Accept::Output("t5_result=UNIX_ECHO_TEST") && contains_text(
                c@,
                "/tmp/t5.sock UNIX_ECHO_TEST"@,
            ),
            _ => false,
        },
        Stage::Gate { probe, verdict, span } => verdict.agent == probe.target && verdict.excuse
            is None && span == 1 && (probe.call matches Call::Listen(port) && verdict.accept
            == Accept::ListeningOn(port) && k > 0 && s[k - 1] is Pause && (s[k + 1]
            matches Stage::Quiet { probe: next, times } && next.call == Call::Unlisten(port)
            && next.target == probe.target && times == 1)),
        Stage::Guard { probe, absent, verdict, span } => absent == Absent::Mark("SKIP_NOT_FOUND")
            && span == 0 && (verdict matches Some(v) && v.agent == probe.target && v.excuse is None
            && (probe.call matches Call::ExecFor(Shape::Bash(c), secs) && secs == 30
            && contains_text(c@, "else echo SKIP_NOT_FOUND; fi"@) && match v.accept {
            Accept::Output(t) => contains_text(c@, t@),
            Accept::RanWithout(m) => m == "SKIP_NOT_FOUND",
            _ => false,
        })) && (s[k + 1] matches Stage::Quiet { probe: next, times } && next.target == probe.target
            && times == 1 && next.call is Exec),
        Stage::Quiet { times, .. } => times == 1,
        Stage::Pause { millis } => millis == 500,
        _ => false,
    }
}

/// Every stage of the script judges an answer by what it asked and records the agent that it
/// asked. A port is taken again by another agent after a pause, and given up where that worked;
/// VS Code's server is skipped where it is not there, and cleaned up after.
pub proof fn law_vscode_tests_fit(k: int)
    requires
        0 <= k < vscode_repro_stages_all().len(),
    ensures
        vscode_repro_stages_all().len() == 16,
        fits_vscode_script(vscode_repro_stages_all(), k),
{
    reveal(vscode_socket_stages);
    reveal(vscode_server_stages);
    let s = vscode_repro_stages_all();
    assert(s.len() == 16);
    if k == 7 {
        assert(contains_text("echo tmp_write_test > /tmp/t3-test.sh && cat /tmp/t3-test.sh && rm /tmp/t3-test.sh"@, "tmp_write_test"@)) by {
            reveal_strlit("echo tmp_write_test > /tmp/t3-test.sh && cat /tmp/t3-test.sh && rm /tmp/t3-test.sh");
            reveal_strlit("tmp_write_test");
            assert("echo tmp_write_test > /tmp/t3-test.sh && cat /tmp/t3-test.sh && rm /tmp/t3-test.sh"@.subrange(5, 19) =~= "tmp_write_test"@);
            assert(occurs_at("echo tmp_write_test > /tmp/t3-test.sh && cat /tmp/t3-test.sh && rm /tmp/t3-test.sh"@, "tmp_write_test"@, 5));
        }
    }
    if k == 8 {
        assert(contains_text("echo deep_tmp > /tmp/t3b-test.sh && cat /tmp/t3b-test.sh && rm /tmp/t3b-test.sh"@, "deep_tmp"@)) by {
            reveal_strlit("echo deep_tmp > /tmp/t3b-test.sh && cat /tmp/t3b-test.sh && rm /tmp/t3b-test.sh");
            reveal_strlit("deep_tmp");
            assert("echo deep_tmp > /tmp/t3b-test.sh && cat /tmp/t3b-test.sh && rm /tmp/t3b-test.sh"@.subrange(5, 13) =~= "deep_tmp"@);
            assert(occurs_at("echo deep_tmp > /tmp/t3b-test.sh && cat /tmp/t3b-test.sh && rm /tmp/t3b-test.sh"@, "deep_tmp"@, 5));
        }
    }
    if k == 9 {
        assert(contains_text("if [ -x /root/.vscode-server/cli/servers/Stable-ae130017f8afe532557dbb8539a6ef3bdaec6389/server/bin/code-server ]; then /root/.vscode-server/cli/servers/Stable-ae130017f8afe532557dbb8539a6ef3bdaec6389/server/bin/code-server --connection-token=test --accept-server-license-terms --start-server --socket-path=/tmp/t4-test.sock 2>&1 & PID=$!; sleep 3; kill $PID 2>/dev/null; wait $PID 2>/dev/null; echo exit=$?; else echo SKIP_NOT_FOUND; fi"@, "else echo SKIP_NOT_FOUND; fi"@)) by {
            reveal_strlit("if [ -x /root/.vscode-server/cli/servers/Stable-ae130017f8afe532557dbb8539a6ef3bdaec6389/server/bin/code-server ]; then /root/.vscode-server/cli/servers/Stable-ae130017f8afe532557dbb8539a6ef3bdaec6389/server/bin/code-server --connection-token=test --accept-server-license-terms --start-server --socket-path=/tmp/t4-test.sock 2>&1 & PID=$!; sleep 3; kill $PID 2>/dev/null; wait $PID 2>/dev/null; echo exit=$?; else echo SKIP_NOT_FOUND; fi");
            reveal_strlit("else echo SKIP_NOT_FOUND; fi");
            assert("if [ -x /root/.vscode-server/cli/servers/Stable-ae130017f8afe532557dbb8539a6ef3bdaec6389/server/bin/code-server ]; then /root/.vscode-server/cli/servers/Stable-ae130017f8afe532557dbb8539a6ef3bdaec6389/server/bin/code-server --connection-token=test --accept-server-license-terms --start-server --socket-path=/tmp/t4-test.sock 2>&1 & PID=$!; sleep 3; kill $PID 2>/dev/null; wait $PID 2>/dev/null; echo exit=$?; else echo SKIP_NOT_FOUND; fi"@.subrange(409, 437) =~= "else echo SKIP_NOT_FOUND; fi"@);
            assert(occurs_at("if [ -x /root/.vscode-server/cli/servers/Stable-ae130017f8afe532557dbb8539a6ef3bdaec6389/server/bin/code-server ]; then /root/.vscode-server/cli/servers/Stable-ae130017f8afe532557dbb8539a6ef3bdaec6389/server/bin/code-server --connection-token=test --accept-server-license-terms --start-server --socket-path=/tmp/t4-test.sock 2>&1 & PID=$!; sleep 3; kill $PID 2>/dev/null; wait $PID 2>/dev/null; echo exit=$?; else echo SKIP_NOT_FOUND; fi"@, "else echo SKIP_NOT_FOUND; fi"@, 409));
        }
    }
    if k == 11 {
        assert(contains_text("rm -f /tmp/t5.sock; {self_exe} unix-echo-server /tmp/t5.sock & SERVER_PID=$!; sleep 1; RESULT=$({self_exe} unix-echo-client /tmp/t5.sock UNIX_ECHO_TEST 2>&1); echo \"t5_result=$RESULT\"; kill $SERVER_PID 2>/dev/null; wait $SERVER_PID 2>/dev/null; rm -f /tmp/t5.sock"@, "/tmp/t5.sock UNIX_ECHO_TEST"@)) by {
            reveal_strlit("rm -f /tmp/t5.sock; {self_exe} unix-echo-server /tmp/t5.sock & SERVER_PID=$!; sleep 1; RESULT=$({self_exe} unix-echo-client /tmp/t5.sock UNIX_ECHO_TEST 2>&1); echo \"t5_result=$RESULT\"; kill $SERVER_PID 2>/dev/null; wait $SERVER_PID 2>/dev/null; rm -f /tmp/t5.sock");
            reveal_strlit("/tmp/t5.sock UNIX_ECHO_TEST");
            assert("rm -f /tmp/t5.sock; {self_exe} unix-echo-server /tmp/t5.sock & SERVER_PID=$!; sleep 1; RESULT=$({self_exe} unix-echo-client /tmp/t5.sock UNIX_ECHO_TEST 2>&1); echo \"t5_result=$RESULT\"; kill $SERVER_PID 2>/dev/null; wait $SERVER_PID 2>/dev/null; rm -f /tmp/t5.sock"@.subrange(124, 151) =~= "/tmp/t5.sock UNIX_ECHO_TEST"@);
            assert(occurs_at("rm -f /tmp/t5.sock; {self_exe} unix-echo-server /tmp/t5.sock & SERVER_PID=$!; sleep 1; RESULT=$({self_exe} unix-echo-client /tmp/t5.sock UNIX_ECHO_TEST 2>&1); echo \"t5_result=$RESULT\"; kill $SERVER_PID 2>/dev/null; wait $SERVER_PID 2>/dev/null; rm -f /tmp/t5.sock"@, "/tmp/t5.sock UNIX_ECHO_TEST"@, 124));
        }
    }
    if k == 12 {
        assert(contains_text("if [ -x /root/.vscode-server/cli/servers/Stable-ae130017f8afe532557dbb8539a6ef3bdaec6389/server/bin/code-server ]; then /root/.vscode-server/cli/servers/Stable-ae130017f8afe532557dbb8539a6ef3bdaec6389/server/bin/code-server --connection-token=test --accept-server-license-terms --start-server --socket-path=/tmp/t6-test.sock >/dev/null 2>&1 & PID=$!; sleep 3; if [ -S /tmp/t6-test.sock ]; then echo SOCKET_CREATED; else echo SOCKET_MISSING; fi; kill $PID 2>/dev/null; wait $PID 2>/dev/null; else echo SKIP_NOT_FOUND; fi"@, "else echo SKIP_NOT_FOUND; fi"@)) by {
            reveal_strlit("if [ -x /root/.vscode-server/cli/servers/Stable-ae130017f8afe532557dbb8539a6ef3bdaec6389/server/bin/code-server ]; then /root/.vscode-server/cli/servers/Stable-ae130017f8afe532557dbb8539a6ef3bdaec6389/server/bin/code-server --connection-token=test --accept-server-license-terms --start-server --socket-path=/tmp/t6-test.sock >/dev/null 2>&1 & PID=$!; sleep 3; if [ -S /tmp/t6-test.sock ]; then echo SOCKET_CREATED; else echo SOCKET_MISSING; fi; kill $PID 2>/dev/null; wait $PID 2>/dev/null; else echo SKIP_NOT_FOUND; fi");
            reveal_strlit("else echo SKIP_NOT_FOUND; fi");
            assert("if [ -x /root/.vscode-server/cli/servers/Stable-ae130017f8afe532557dbb8539a6ef3bdaec6389/server/bin/code-server ]; then /root/.vscode-server/cli/servers/Stable-ae130017f8afe532557dbb8539a6ef3bdaec6389/server/bin/code-server --connection-token=test --accept-server-license-terms --start-server --socket-path=/tmp/t6-test.sock >/dev/null 2>&1 & PID=$!; sleep 3; if [ -S /tmp/t6-test.sock ]; then echo SOCKET_CREATED; else echo SOCKET_MISSING; fi; kill $PID 2>/dev/null; wait $PID 2>/dev/null; else echo SKIP_NOT_FOUND; fi"@.subrange(491, 519) =~= "else echo SKIP_NOT_FOUND; fi"@);
            assert(occurs_at("if [ -x /root/.vscode-server/cli/servers/Stable-ae130017f8afe532557dbb8539a6ef3bdaec6389/server/bin/code-server ]; then /root/.vscode-server/cli/servers/Stable-ae130017f8afe532557dbb8539a6ef3bdaec6389/server/bin/code-server --connection-token=test --accept-server-license-terms --start-server --socket-path=/tmp/t6-test.sock >/dev/null 2>&1 & PID=$!; sleep 3; if [ -S /tmp/t6-test.sock ]; then echo SOCKET_CREATED; else echo SOCKET_MISSING; fi; kill $PID 2>/dev/null; wait $PID 2>/dev/null; else echo SKIP_NOT_FOUND; fi"@, "else echo SKIP_NOT_FOUND; fi"@, 491));
        }
        assert(contains_text("if [ -x /root/.vscode-server/cli/servers/Stable-ae130017f8afe532557dbb8539a6ef3bdaec6389/server/bin/code-server ]; then /root/.vscode-server/cli/servers/Stable-ae130017f8afe532557dbb8539a6ef3bdaec6389/server/bin/code-server --connection-token=test --accept-server-license-terms --start-server --socket-path=/tmp/t6-test.sock >/dev/null 2>&1 & PID=$!; sleep 3; if [ -S /tmp/t6-test.sock ]; then echo SOCKET_CREATED; else echo SOCKET_MISSING; fi; kill $PID 2>/dev/null; wait $PID 2>/dev/null; else echo SKIP_NOT_FOUND; fi"@, "SOCKET_CREATED"@)) by {
            reveal_strlit("if [ -x /root/.vscode-server/cli/servers/Stable-ae130017f8afe532557dbb8539a6ef3bdaec6389/server/bin/code-server ]; then /root/.vscode-server/cli/servers/Stable-ae130017f8afe532557dbb8539a6ef3bdaec6389/server/bin/code-server --connection-token=test --accept-server-license-terms --start-server --socket-path=/tmp/t6-test.sock >/dev/null 2>&1 & PID=$!; sleep 3; if [ -S /tmp/t6-test.sock ]; then echo SOCKET_CREATED; else echo SOCKET_MISSING; fi; kill $PID 2>/dev/null; wait $PID 2>/dev/null; else echo SKIP_NOT_FOUND; fi");
            reveal_strlit("SOCKET_CREATED");
            assert("if [ -x /root/.vscode-server/cli/servers/Stable-ae130017f8afe532557dbb8539a6ef3bdaec6389/server/bin/code-server ]; then /root/.vscode-server/cli/servers/Stable-ae130017f8afe532557dbb8539a6ef3bdaec6389/server/bin/code-server --connection-token=test --accept-server-license-terms --start-server --socket-path=/tmp/t6-test.sock >/dev/null 2>&1 & PID=$!; sleep 3; if [ -S /tmp/t6-test.sock ]; then echo SOCKET_CREATED; else echo SOCKET_MISSING; fi; kill $PID 2>/dev/null; wait $PID 2>/dev/null; else echo SKIP_NOT_FOUND; fi"@.subrange(399, 413) =~= "SOCKET_CREATED"@);
            assert(occurs_at("if [ -x /root/.vscode-server/cli/servers/Stable-ae130017f8afe532557dbb8539a6ef3bdaec6389/server/bin/code-server ]; then /root/.vscode-server/cli/servers/Stable-ae130017f8afe532557dbb8539a6ef3bdaec6389/server/bin/code-server --connection-token=test --accept-server-license-terms --start-server --socket-path=/tmp/t6-test.sock >/dev/null 2>&1 & PID=$!; sleep 3; if [ -S /tmp/t6-test.sock ]; then echo SOCKET_CREATED; else echo SOCKET_MISSING; fi; kill $PID 2>/dev/null; wait $PID 2>/dev/null; else echo SKIP_NOT_FOUND; fi"@, "SOCKET_CREATED"@, 399));
        }
    }
    if k == 14 {
        assert(contains_text("if [ -x /root/.vscode-server/cli/servers/Stable-ae130017f8afe532557dbb8539a6ef3bdaec6389/server/bin/code-server ]; then /root/.vscode-server/cli/servers/Stable-ae130017f8afe532557dbb8539a6ef3bdaec6389/server/bin/code-server --connection-token=test --accept-server-license-terms --start-server --enable-remote-auto-shutdown --socket-path=/tmp/t7-test.sock >/dev/null 2>&1 & PID=$!; sleep 5; if kill -0 $PID 2>/dev/null; then echo STILL_RUNNING; else echo EXITED_EARLY; fi; kill $PID 2>/dev/null; wait $PID 2>/dev/null; else echo SKIP_NOT_FOUND; fi"@, "else echo SKIP_NOT_FOUND; fi"@)) by {
            reveal_strlit("if [ -x /root/.vscode-server/cli/servers/Stable-ae130017f8afe532557dbb8539a6ef3bdaec6389/server/bin/code-server ]; then /root/.vscode-server/cli/servers/Stable-ae130017f8afe532557dbb8539a6ef3bdaec6389/server/bin/code-server --connection-token=test --accept-server-license-terms --start-server --enable-remote-auto-shutdown --socket-path=/tmp/t7-test.sock >/dev/null 2>&1 & PID=$!; sleep 5; if kill -0 $PID 2>/dev/null; then echo STILL_RUNNING; else echo EXITED_EARLY; fi; kill $PID 2>/dev/null; wait $PID 2>/dev/null; else echo SKIP_NOT_FOUND; fi");
            reveal_strlit("else echo SKIP_NOT_FOUND; fi");
            assert("if [ -x /root/.vscode-server/cli/servers/Stable-ae130017f8afe532557dbb8539a6ef3bdaec6389/server/bin/code-server ]; then /root/.vscode-server/cli/servers/Stable-ae130017f8afe532557dbb8539a6ef3bdaec6389/server/bin/code-server --connection-token=test --accept-server-license-terms --start-server --enable-remote-auto-shutdown --socket-path=/tmp/t7-test.sock >/dev/null 2>&1 & PID=$!; sleep 5; if kill -0 $PID 2>/dev/null; then echo STILL_RUNNING; else echo EXITED_EARLY; fi; kill $PID 2>/dev/null; wait $PID 2>/dev/null; else echo SKIP_NOT_FOUND; fi"@.subrange(518, 546) =~= "else echo SKIP_NOT_FOUND; fi"@);
            assert(occurs_at("if [ -x /root/.vscode-server/cli/servers/Stable-ae130017f8afe532557dbb8539a6ef3bdaec6389/server/bin/code-server ]; then /root/.vscode-server/cli/servers/Stable-ae130017f8afe532557dbb8539a6ef3bdaec6389/server/bin/code-server --connection-token=test --accept-server-license-terms --start-server --enable-remote-auto-shutdown --socket-path=/tmp/t7-test.sock >/dev/null 2>&1 & PID=$!; sleep 5; if kill -0 $PID 2>/dev/null; then echo STILL_RUNNING; else echo EXITED_EARLY; fi; kill $PID 2>/dev/null; wait $PID 2>/dev/null; else echo SKIP_NOT_FOUND; fi"@, "else echo SKIP_NOT_FOUND; fi"@, 518));
        }
        assert(contains_text("if [ -x /root/.vscode-server/cli/servers/Stable-ae130017f8afe532557dbb8539a6ef3bdaec6389/server/bin/code-server ]; then /root/.vscode-server/cli/servers/Stable-ae130017f8afe532557dbb8539a6ef3bdaec6389/server/bin/code-server --connection-token=test --accept-server-license-terms --start-server --enable-remote-auto-shutdown --socket-path=/tmp/t7-test.sock >/dev/null 2>&1 & PID=$!; sleep 5; if kill -0 $PID 2>/dev/null; then echo STILL_RUNNING; else echo EXITED_EARLY; fi; kill $PID 2>/dev/null; wait $PID 2>/dev/null; else echo SKIP_NOT_FOUND; fi"@, "STILL_RUNNING"@)) by {
            reveal_strlit("if [ -x /root/.vscode-server/cli/servers/Stable-ae130017f8afe532557dbb8539a6ef3bdaec6389/server/bin/code-server ]; then /root/.vscode-server/cli/servers/Stable-ae130017f8afe532557dbb8539a6ef3bdaec6389/server/bin/code-server --connection-token=test --accept-server-license-terms --start-server --enable-remote-auto-shutdown --socket-path=/tmp/t7-test.sock >/dev/null 2>&1 & PID=$!; sleep 5; if kill -0 $PID 2>/dev/null; then echo STILL_RUNNING; else echo EXITED_EARLY; fi; kill $PID 2>/dev/null; wait $PID 2>/dev/null; else echo SKIP_NOT_FOUND; fi");
            reveal_strlit("STILL_RUNNING");
            assert("if [ -x /root/.vscode-server/cli/servers/Stable-ae130017f8afe532557dbb8539a6ef3bdaec6389/server/bin/code-server ]; then /root/.vscode-server/cli/servers/Stable-ae130017f8afe532557dbb8539a6ef3bdaec6389/server/bin/code-server --connection-token=test --accept-server-license-terms --start-server --enable-remote-auto-shutdown --socket-path=/tmp/t7-test.sock >/dev/null 2>&1 & PID=$!; sleep 5; if kill -0 $PID 2>/dev/null; then echo STILL_RUNNING; else echo EXITED_EARLY; fi; kill $PID 2>/dev/null; wait $PID 2>/dev/null; else echo SKIP_NOT_FOUND; fi"@.subrange(429, 442) =~= "STILL_RUNNING"@);
            assert(occurs_at("if [ -x /root/.vscode-server/cli/servers/Stable-ae130017f8afe532557dbb8539a6ef3bdaec6389/server/bin/code-server ]; then /root/.vscode-server/cli/servers/Stable-ae130017f8afe532557dbb8539a6ef3bdaec6389/server/bin/code-server --connection-token=test --accept-server-license-terms --start-server --enable-remote-auto-shutdown --socket-path=/tmp/t7-test.sock >/dev/null 2>&1 & PID=$!; sleep 5; if kill -0 $PID 2>/dev/null; then echo STILL_RUNNING; else echo EXITED_EARLY; fi; kill $PID 2>/dev/null; wait $PID 2>/dev/null; else echo SKIP_NOT_FOUND; fi"@, "STILL_RUNNING"@, 429));
        }
    }
}

} // verus!
