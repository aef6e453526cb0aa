//! The clone tests as they run: what each asks, and how its report is judged.

use vstd::prelude::*;
use crate::asks::{Ask, AskView, Paths, PathsView};
use crate::clone3::{
    cgroup_complaint, check_cgroup_outcome, check_dropbear_clone_success,
    check_dropbear_session_setup_success, check_set_tid_outcome, check_success_with_pidfd,
    check_success_without_pidfd, check_vfork_success, checked_as, checked_outcome, clone_agent,
    clone_row, dropbear_complaint, passes_cgroup, passes_child, passes_pidfd, passes_plain,
    passes_set_tid, pidfd_complaint, plain_complaint, session_complaint, session_stage,
    set_tid_complaint, vfork_complaint, Clone3Out, OutView, CLONE_TESTS,
};
use crate::registry::{binary_at, binary_type, Handler, TestOutcome};

verus! {

/// What a clone test asks: the program of its binary type, the stage of its session, or
/// nothing.
pub open spec fn clone_ask_of(t: int, p: PathsView) -> AskView {
    let j = t % 31;
    if 1 <= j < 21 {
        AskView::Target { exec_target: p.target(binary_at((j - 1) % 5)) }
    } else if j >= 24 {
        AskView::Session { stage: session_stage((j - 24) as usize) }
    } else {
        AskView::Nothing
    }
}

/// What a clone test asks.
pub fn clone_ask(t: usize, p: &Paths) -> (r: Ask)
    requires
        t < CLONE_TESTS,
        p@.wf(),
    ensures
        r@ == clone_ask_of(t as int, p@),
{
    let j: usize = t % 31;
    if 1 <= j && j < 21 {
        Ask::Target { exec_target: p.target(binary_type((j - 1) % 5)).to_string() }
    } else if j >= 24 {
        Ask::Session { stage: session_stage(j - 24) }
    } else {
        Ask::Nothing
    }
}

/// The reports that a clone test accepts.
pub open spec fn clone_passes(t: int, o: OutView) -> bool {
    let j = t % 31;
    if j < 6 || j == 21 || j == 22 {
        passes_plain(o)
    } else if j < 11 {
        passes_pidfd(o)
    } else if j < 16 {
        passes_set_tid(o)
    } else if j < 21 {
        passes_cgroup(o)
    } else {
        passes_child(o)
    }
}

/// What a clone test says of a report that it does not accept.
pub open spec fn clone_complaint(t: int) -> Seq<char> {
    let j = t % 31;
    if j < 6 || j == 22 {
        plain_complaint()
    } else if j < 11 {
        pidfd_complaint()
    } else if j < 16 {
        set_tid_complaint()
    } else if j < 21 {
        cgroup_complaint()
    } else if j == 21 {
        vfork_complaint()
    } else if j == 23 {
        dropbear_complaint()
    } else {
        session_complaint()
    }
}

/// Check the report of a clone test.
pub fn clone_check(t: usize, out: &Clone3Out) -> (r: Result<String, String>)
    requires
        t < CLONE_TESTS,
    ensures
        checked_as(r, clone_passes(t as int, out@), clone_complaint(t as int), out@),
{
    let j: usize = t % 31;
    if j < 6 || j == 22 {
        check_success_without_pidfd(out)
    } else if j < 11 {
        check_success_with_pidfd(out)
    } else if j < 16 {
        check_set_tid_outcome(out)
    } else if j < 21 {
        check_cgroup_outcome(out)
    } else if j == 21 {
        check_vfork_success(out)
    } else if j == 23 {
        check_dropbear_clone_success(out)
    } else {
        check_dropbear_session_setup_success(out)
    }
}

/// The verdict on the report of a clone test, or on the error that came in its place.
pub fn clone_judge(t: usize, result: Result<Clone3Out, String>) -> (o: TestOutcome)
    requires
        t < CLONE_TESTS,
    ensures
        o@.agent == clone_agent((t / 31) as usize).wire(),
        o@.pass == (result matches Ok(out) && clone_passes(t as int, out@)),
        o@.detail == match result {
            Ok(out) => if clone_passes(t as int, out@) {
                out@.debug()
            } else {
                clone_complaint(t as int) + out@.debug() + "; response="@ + out@.debug()
            },
            Err(e) => e@,
        },
{
    let agent = clone_agent(t / 31);
    match result {
        Ok(out) => {
            let checked = clone_check(t, &out);
            checked_outcome(agent, checked, &out)
        },
        Err(e) => TestOutcome::new(agent.name(), false, e),
    }
}

/// A clone test asks for a program exactly where it has one of the handlers that start one,
/// and for a stage exactly where it has the handler that sets a session up.
pub proof fn law_clone_asks_fit(t: int, p: PathsView)
    requires
        0 <= t < CLONE_TESTS,
        p.wf(),
    ensures
        clone_ask_of(t, p) is Target ==> clone_row(t).handler == Handler::Named("clone3.process")
            || clone_row(t).handler == Handler::Named("clone3.with_pidfd") || clone_row(t).handler
            == Handler::Named("clone3.with_set_tid") || clone_row(t).handler == Handler::Named(
            "clone3.with_cgroup",
        ),
        clone_ask_of(t, p) is Session ==> clone_row(t).handler == Handler::Named(
            "clone.dropbear_session_setup",
        ),
        clone_ask_of(t, p) is Nothing ==> clone_row(t).handler == Handler::Named("clone3.thread")
            || clone_row(t).handler == Handler::Named("clone3.vfork") || clone_row(t).handler
            == Handler::Named("clone3.dropbear_vfork") || clone_row(t).handler == Handler::Named(
            "clone.dropbear_vfork",
        ),
{
}

/// Each clone test has the check of its handler: a thread, a plain process and the two that
/// suspend their parent must do without a descriptor, the descriptor's test must have one, the
/// wanted number and the control group may be refused, and a dropbear-shaped child must have run.
pub proof fn law_clone_checks_by_handler(a: int, j: int, o: OutView)
    requires
        0 <= a < 4,
        0 <= j < 31,
    ensures
        ({
            let t = 31 * a + j;
            let h = clone_row(t).handler;
            &&& j == 0 ==> h == Handler::Named("clone3.thread") && (clone_passes(t, o)
                <==> passes_plain(o))
            &&& 1 <= j < 6 ==> h == Handler::Named("clone3.process") && (clone_passes(t, o)
                <==> passes_plain(o))
            &&& 6 <= j < 11 ==> h == Handler::Named("clone3.with_pidfd") && (clone_passes(t, o)
                <==> passes_pidfd(o))
            &&& 11 <= j < 16 ==> h == Handler::Named("clone3.with_set_tid") && (clone_passes(t, o)
                <==> passes_set_tid(o))
            &&& 16 <= j < 21 ==> h == Handler::Named("clone3.with_cgroup") && (clone_passes(t, o)
                <==> passes_cgroup(o))
            &&& j == 21 ==> h == Handler::Named("clone3.vfork") && (clone_passes(t, o)
                <==> passes_plain(o))
            &&& j == 22 ==> h == Handler::Named("clone3.dropbear_vfork") && (clone_passes(t, o)
                <==> passes_plain(o))
            &&& j == 23 ==> h == Handler::Named("clone.dropbear_vfork") && (clone_passes(t, o)
                <==> passes_child(o))
            &&& 24 <= j ==> h == Handler::Named("clone.dropbear_session_setup") && (clone_passes(
                t,
                o,
            ) <==> passes_child(o))
        }),
{
    assert((31 * a + j) % 31 == j && (31 * a + j) / 31 == a);
}

/// A clone test runs the program of its own binary type, and a session test asks for its own
/// stage; no other test asks for anything.
pub proof fn law_clone_asks(a: int, c: int, b: int, s: int, p: PathsView)
    requires
        0 <= a < 4,
        0 <= c < 4,
        0 <= b < 5,
        0 <= s < 7,
        p.wf(),
    ensures
        clone_ask_of(31 * a + 1 + 5 * c + b, p) == (AskView::Target {
            exec_target: p.target(binary_at(b)),
        }),
        clone_ask_of(31 * a + 24 + s, p) == (AskView::Session { stage: session_stage(s as usize) }),
        clone_ask_of(31 * a, p) is Nothing,
        clone_ask_of(31 * a + 21, p) is Nothing,
        clone_ask_of(31 * a + 22, p) is Nothing,
        clone_ask_of(31 * a + 23, p) is Nothing,
{
    let j = 1 + 5 * c + b;
    assert((31 * a + j) % 31 == j);
    assert((j - 1) % 5 == b);
    assert((31 * a + (24 + s)) % 31 == 24 + s);
    assert((31 * a) % 31 == 0 && (31 * a + 21) % 31 == 21 && (31 * a + 22) % 31 == 22 && (31 * a
        + 23) % 31 == 23);
}

/// A complaint says which check it was that the report did not pass.
pub proof fn law_clone_complaints(t: int)
    requires
        0 <= t,
    ensures
        t % 31 < 6 || t % 31 == 22 ==> clone_complaint(t)
            == "expected clone3 success or documented native ENOSYS/seccomp result without pidfd, got "@,
        6 <= t % 31 < 11 ==> clone_complaint(t)
            == "expected clone3 success or documented native ENOSYS/seccomp result with pidfd, got "@,
        11 <= t % 31 < 16 ==> clone_complaint(t)
            == "expected set_tid success or documented ENOSYS/EPERM failure, got "@,
        16 <= t % 31 < 21 ==> clone_complaint(t)
            == "expected cgroup success or documented cgroup-fd/permission error, got "@,
        t % 31 == 23 ==> clone_complaint(t)
            == "expected dropbear-shaped clone/vfork child marker, got "@,
        24 <= t % 31 ==> clone_complaint(t)
            == "expected dropbear session child to exec and exit successfully, got "@,
{
}

} // verus!
