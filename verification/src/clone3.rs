//! Probes of the clone system calls: what they ask for, what their children do, and
//! how their outcomes are judged.

use vstd::prelude::*;
use crate::agents::AgentName;
use crate::errno::{errno_name, errno_text, last_errno_name, EINTR};
use crate::number::{dec, dec_i64, dec_text, int_text, opt_i32, opt_int_text};
use crate::registry::{
    binary_at, binary_type, on_agents, plan_on, plan_views, Group, Handler, OutcomeView, PlanView,
    TestOutcome, TestPlan,
};
use crate::text::{
    bool_text, bool_word, cat, cat3, chars_of, contains, contains_text, occurs_at, quote, quoted,
    starts_with, starts_with_text, texts,
};
use crate::wait_status::{code_of, ended_well, exit_code, exited, succeeded};

verus! {

/// What a clone probe reports.
#[derive(Clone, Debug)]
pub struct Clone3Out {
    pub pid: u64,
    pub pidfd: Option<i32>,
    pub ok: bool,
    pub error: Option<String>,
}

/// What a clone probe reports, in contracts.
pub struct OutView {
    pub pid: u64,
    pub pidfd: Option<i32>,
    pub ok: bool,
    pub error: Option<Seq<char>>,
}

impl View for Clone3Out {
    type V = OutView;

    open spec fn view(&self) -> OutView {
        OutView {
            pid: self.pid,
            pidfd: self.pidfd,
            ok: self.ok,
            error: match self.error {
                Some(e) => Some(e@),
                None => None,
            },
        }
    }
}

impl OutView {
    /// What `{:?}` prints for the report.
    pub open spec fn debug(self) -> Seq<char> {
        "Clone3Out { pid: "@ + dec_text(self.pid as nat) + ", pidfd: "@ + opt_int_text(self.pidfd)
            + ", ok: "@ + bool_text(self.ok) + ", error: "@ + match self.error {
            Some(e) => "Some("@ + quoted(e) + ")"@,
            None => "None"@,
        } + " }"@
    }

    /// The call worked: there is a child, and no error.
    pub open spec fn worked(self) -> bool {
        self.ok && self.error is None && self.pid > 0
    }

    /// The call failed with an error that holds one of the names.
    pub open spec fn failed_with(self, names: Seq<&'static str>) -> bool {
        !self.ok && (self.error matches Some(e) && documented(e, names))
    }
}

/// The error holds one of the names.
pub open spec fn documented(error: Seq<char>, names: Seq<&'static str>) -> bool {
    exists|k: int| 0 <= k < names.len() && contains_text(error, (#[trigger] names[k])@)
}

/// A report of success.
pub open spec fn out_ok(pid: u64, pidfd: Option<i32>) -> OutView {
    OutView { pid, pidfd, ok: true, error: None }
}

/// A report of failure.
pub open spec fn out_err(pid: u64, error: Seq<char>) -> OutView {
    OutView { pid, pidfd: None, ok: false, error: Some(error) }
}

impl Clone3Out {
    /// What `{:?}` prints for the report.
    pub fn debug_text(&self) -> (r: String)
        ensures
            r@ == self@.debug(),
    {
        let pid = dec(self.pid);
        let pidfd = opt_i32(self.pidfd);
        let mut out = cat3("Clone3Out { pid: ", pid.as_str(), ", pidfd: ");
        out.append(pidfd.as_str());
        out.append(", ok: ");
        out.append(bool_word(self.ok));
        out.append(", error: ");
        let error = match &self.error {
            Some(e) => {
                let body = quote(e.as_str());
                cat3("Some(", body.as_str(), ")")
            },
            None => "None".to_string(),
        };
        out.append(error.as_str());
        out.append(" }");
        out
    }
}

/// Whether the error holds one of the names.
pub fn documented_error(error: &str, names: &[&'static str]) -> (r: bool)
    ensures
        r == documented(error@, names@),
{
    let mut i: usize = 0;
    while i < names.len()
        invariant
            i <= names.len(),
            forall|k: int| 0 <= k < i ==> !contains_text(error@, (#[trigger] names@[k])@),
        decreases names.len() - i,
    {
        if contains(error, names[i]) {
            return true;
        }
        i = i + 1;
    }
    false
}

fn failed_as_documented(out: &Clone3Out, names: &[&'static str]) -> (r: bool)
    ensures
        r == out@.failed_with(names@),
{
    if out.ok {
        return false;
    }
    match &out.error {
        Some(e) => documented_error(e.as_str(), names),
        None => false,
    }
}

fn call_worked(out: &Clone3Out) -> (r: bool)
    ensures
        r == out@.worked(),
{
    out.ok && out.error.is_none() && out.pid > 0
}

fn unexpected(what: &str, out: &Clone3Out) -> (r: String)
    ensures
        r@ == what@ + out@.debug(),
{
    let body = out.debug_text();
    cat(what, body.as_str())
}

/// A plain clone passes where it worked without a process descriptor, or the kernel
/// does not have the call.
pub open spec fn passes_plain(o: OutView) -> bool {
    (o.worked() && o.pidfd is None) || o.failed_with(seq!["ENOSYS"])
}

pub open spec fn passes_pidfd(o: OutView) -> bool {
    (o.worked() && (o.pidfd matches Some(fd) && fd >= 0)) || o.failed_with(seq!["ENOSYS"])
}

pub open spec fn passes_set_tid(o: OutView) -> bool {
    o.worked() || o.failed_with(seq!["ENOSYS", "EPERM"])
}

/// The errors with which a clone into a control group may fail.
pub open spec fn cgroup_errors() -> Seq<&'static str> {
    seq!["EACCES", "EBADF", "EINVAL", "ENOENT", "ENOSYS", "EOPNOTSUPP", "EPERM", "EROFS"]
}

pub open spec fn passes_cgroup(o: OutView) -> bool {
    o.worked() || o.failed_with(cgroup_errors()) || (!o.ok && (o.error matches Some(e)
        && starts_with_text(e, "cgroup_fd_unavailable:"@)))
}

/// A child that must have run passes only where the call worked.
pub open spec fn passes_child(o: OutView) -> bool {
    o.worked() && o.pidfd is None
}

/// What a judgement returns: nothing where the report passes, else the complaint.
pub open spec fn judged_as(r: Result<(), String>, pass: bool, what: Seq<char>, o: OutView) -> bool {
    match r {
        Ok(()) => pass,
        Err(e) => !pass && e@ == what + o.debug(),
    }
}

/// What a check returns: the report where it passes, else the complaint.
pub open spec fn checked_as(r: Result<String, String>, pass: bool, what: Seq<char>, o: OutView) -> bool {
    match r {
        Ok(d) => pass && d@ == o.debug(),
        Err(e) => !pass && e@ == what + o.debug(),
    }
}

pub open spec fn plain_complaint() -> Seq<char> {
    "expected clone3 success or documented native ENOSYS/seccomp result without pidfd, got "@
}

pub open spec fn vfork_complaint() -> Seq<char> {
    "expected clone3(CLONE_VFORK) success or documented native ENOSYS/seccomp result without pidfd, got "@
}

pub open spec fn pidfd_complaint() -> Seq<char> {
    "expected clone3 success or documented native ENOSYS/seccomp result with pidfd, got "@
}

pub open spec fn set_tid_complaint() -> Seq<char> {
    "expected set_tid success or documented ENOSYS/EPERM failure, got "@
}

pub open spec fn cgroup_complaint() -> Seq<char> {
    "expected cgroup success or documented cgroup-fd/permission error, got "@
}

pub open spec fn dropbear_complaint() -> Seq<char> {
    "expected dropbear-shaped clone/vfork child marker, got "@
}

pub open spec fn session_complaint() -> Seq<char> {
    "expected dropbear session child to exec and exit successfully, got "@
}

/// Judge a plain clone.
pub fn expect_success_without_pidfd(out: &Clone3Out) -> (r: Result<(), String>)
    ensures
        judged_as(r, passes_plain(out@), plain_complaint(), out@),
{
    let names: [&'static str; 1] = ["ENOSYS"];
    assert(names@ =~= seq!["ENOSYS"]);
    if (call_worked(out) && out.pidfd.is_none()) || failed_as_documented(out, &names) {
        Ok(())
    } else {
        Err(
            unexpected(
                "expected clone3 success or documented native ENOSYS/seccomp result without pidfd, got ",
                out,
            ),
        )
    }
}

/// Judge a clone that suspends its parent.
pub fn expect_vfork_success(out: &Clone3Out) -> (r: Result<(), String>)
    ensures
        judged_as(r, passes_plain(out@), vfork_complaint(), out@),
{
    let names: [&'static str; 1] = ["ENOSYS"];
    assert(names@ =~= seq!["ENOSYS"]);
    if (call_worked(out) && out.pidfd.is_none()) || failed_as_documented(out, &names) {
        Ok(())
    } else {
        Err(
            unexpected(
                "expected clone3(CLONE_VFORK) success or documented native ENOSYS/seccomp result without pidfd, got ",
                out,
            ),
        )
    }
}

/// Judge a clone that asks for a process descriptor.
pub fn expect_success_with_pidfd(out: &Clone3Out) -> (r: Result<(), String>)
    ensures
        judged_as(r, passes_pidfd(out@), pidfd_complaint(), out@),
{
    let names: [&'static str; 1] = ["ENOSYS"];
    assert(names@ =~= seq!["ENOSYS"]);
    let has_fd = match out.pidfd {
        Some(fd) => fd >= 0,
        None => false,
    };
    if (call_worked(out) && has_fd) || failed_as_documented(out, &names) {
        Ok(())
    } else {
        Err(
            unexpected(
                "expected clone3 success or documented native ENOSYS/seccomp result with pidfd, got ",
                out,
            ),
        )
    }
}

/// Judge a clone that asks for a process number.
pub fn expect_set_tid_outcome(out: &Clone3Out) -> (r: Result<(), String>)
    ensures
        judged_as(r, passes_set_tid(out@), set_tid_complaint(), out@),
{
    let names: [&'static str; 2] = ["ENOSYS", "EPERM"];
    assert(names@ =~= seq!["ENOSYS", "EPERM"]);
    if call_worked(out) || failed_as_documented(out, &names) {
        Ok(())
    } else {
        Err(
            unexpected("expected set_tid success or documented ENOSYS/EPERM failure, got ", out),
        )
    }
}

/// Judge a clone into a control group.
pub fn expect_cgroup_outcome(out: &Clone3Out) -> (r: Result<(), String>)
    ensures
        judged_as(r, passes_cgroup(out@), cgroup_complaint(), out@),
{
    let names: [&'static str; 8] = [
        "EACCES",
        "EBADF",
        "EINVAL",
        "ENOENT",
        "ENOSYS",
        "EOPNOTSUPP",
        "EPERM",
        "EROFS",
    ];
    assert(names@ =~= cgroup_errors());
    let no_group = !out.ok && match &out.error {
        Some(e) => starts_with(e.as_str(), "cgroup_fd_unavailable:"),
        None => false,
    };
    if call_worked(out) || no_group || failed_as_documented(out, &names) {
        Ok(())
    } else {
        Err(
            unexpected(
                "expected cgroup success or documented cgroup-fd/permission error, got ",
                out,
            ),
        )
    }
}

fn with_report(judged: Result<(), String>, out: &Clone3Out) -> (r: Result<String, String>)
    ensures
        match judged {
            Ok(()) => r matches Ok(d) && d@ == out@.debug(),
            Err(e) => r == Err::<String, String>(e),
        },
{
    match judged {
        Ok(()) => Ok(out.debug_text()),
        Err(e) => Err(e),
    }
}

/// Check a plain clone.
pub fn check_success_without_pidfd(out: &Clone3Out) -> (r: Result<String, String>)
    ensures
        checked_as(r, passes_plain(out@), plain_complaint(), out@),
{
    with_report(expect_success_without_pidfd(out), out)
}

/// Check a clone that suspends its parent.
pub fn check_vfork_success(out: &Clone3Out) -> (r: Result<String, String>)
    ensures
        checked_as(r, passes_plain(out@), vfork_complaint(), out@),
{
    with_report(expect_vfork_success(out), out)
}

/// Check a clone in dropbear's shape: its child must have run.
pub fn check_dropbear_clone_success(out: &Clone3Out) -> (r: Result<String, String>)
    ensures
        checked_as(r, passes_child(out@), dropbear_complaint(), out@),
{
    if call_worked(out) && out.pidfd.is_none() {
        Ok(out.debug_text())
    } else {
        Err(unexpected("expected dropbear-shaped clone/vfork child marker, got ", out))
    }
}

/// Check a session in dropbear's shape: its child must have run.
pub fn check_dropbear_session_setup_success(out: &Clone3Out) -> (r: Result<String, String>)
    ensures
        checked_as(r, passes_child(out@), session_complaint(), out@),
{
    if call_worked(out) && out.pidfd.is_none() {
        Ok(out.debug_text())
    } else {
        Err(unexpected("expected dropbear session child to exec and exit successfully, got ", out))
    }
}

/// Check a clone that asks for a process descriptor.
pub fn check_success_with_pidfd(out: &Clone3Out) -> (r: Result<String, String>)
    ensures
        checked_as(r, passes_pidfd(out@), pidfd_complaint(), out@),
{
    with_report(expect_success_with_pidfd(out), out)
}

/// Check a clone that asks for a process number.
pub fn check_set_tid_outcome(out: &Clone3Out) -> (r: Result<String, String>)
    ensures
        checked_as(r, passes_set_tid(out@), set_tid_complaint(), out@),
{
    with_report(expect_set_tid_outcome(out), out)
}

/// Check a clone into a control group.
pub fn check_cgroup_outcome(out: &Clone3Out) -> (r: Result<String, String>)
    ensures
        checked_as(r, passes_cgroup(out@), cgroup_complaint(), out@),
{
    with_report(expect_cgroup_outcome(out), out)
}

/// The outcome of a test whose report was checked: a failure repeats the report.
pub fn checked_outcome(agent: AgentName, checked: Result<String, String>, out: &Clone3Out) -> (o:
    TestOutcome)
    ensures
        o@ == match checked {
            Ok(d) => OutcomeView { agent: agent.wire(), pass: true, detail: d@ },
            Err(e) => OutcomeView {
                agent: agent.wire(),
                pass: false,
                detail: e@ + "; response="@ + out@.debug(),
            },
        },
{
    match checked {
        Ok(d) => TestOutcome::new(agent.name(), true, d),
        Err(e) => {
            let body = out.debug_text();
            TestOutcome::new(agent.name(), false, cat3(e.as_str(), "; response=", body.as_str()))
        },
    }
}

/// A report of a probe that failed before it had a child.
pub fn clone_result_error(error: String) -> (r: Clone3Out)
    ensures
        r@ == out_err(0, error@),
{
    Clone3Out { pid: 0, pidfd: None, ok: false, error: Some(error) }
}

fn success(pid: u64, pidfd: Option<i32>) -> (r: Clone3Out)
    ensures
        r@ == out_ok(pid, pidfd),
{
    Clone3Out { pid, pidfd, ok: true, error: None }
}

fn failure(pid: u64, error: String) -> (r: Clone3Out)
    ensures
        r@ == out_err(pid, error@),
{
    Clone3Out { pid, pidfd: None, ok: false, error: Some(error) }
}

/// Whether the wait for a cloned child goes on.
pub enum CloneWait {
    Again,
    Done { result: Result<(), String> },
}

/// One wait for a child. `mine` is whether the wait returned the child itself.
pub fn clone_wait_step(mine: bool, status: i32, last: Option<i32>) -> (r: CloneWait)
    ensures
        match r {
            CloneWait::Again => !mine && last == Some(EINTR),
            CloneWait::Done { result: Ok(()) } => mine && ended_well(status),
            CloneWait::Done { result: Err(e) } => if mine {
                !ended_well(status) && e@ == "child status="@ + int_text(status as int)
            } else {
                last != Some(EINTR) && e@ == errno_text(
                    match last {
                        Some(n) => n,
                        None => 0i32,
                    },
                )
            },
        },
{
    if mine {
        if succeeded(status) {
            CloneWait::Done { result: Ok(()) }
        } else {
            let n = dec_i64(status as i64);
            CloneWait::Done { result: Err(cat("child status=", n.as_str())) }
        }
    } else {
        match last {
            Some(n) => if n == EINTR {
                CloneWait::Again
            } else {
                CloneWait::Done { result: Err(errno_name(n)) }
            },
            None => CloneWait::Done { result: Err(errno_name(0)) },
        }
    }
}

/// A wait that failed, in a report.
pub open spec fn wait_text(error: Seq<char>) -> Seq<char> {
    "wait:"@ + error
}

/// The report of a probe whose child only has to end well.
pub fn waited_report(pid: u64, waited: Result<(), String>) -> (r: Clone3Out)
    ensures
        r@ == match waited {
            Ok(()) => out_ok(pid, None),
            Err(e) => out_err(pid, wait_text(e@)),
        },
{
    match waited {
        Ok(()) => success(pid, None),
        Err(e) => failure(pid, cat("wait:", e.as_str())),
    }
}

/// The byte by which a dropbear-shaped child shows that it ran.
pub const DROPBEAR_MARKER: u8 = 0x48;

/// Whether the child's marker came.
pub open spec fn marker_came(read: int, byte: u8) -> bool {
    read == 1 && byte == DROPBEAR_MARKER
}

/// The report of a dropbear-shaped clone: first the marker, then the end of the child.
pub fn marker_report(label: &str, read: i64, byte: u8, pid: u64, waited: Result<(), String>) -> (r:
    Clone3Out)
    ensures
        r@ == if !marker_came(read as int, byte) {
            out_err(
                0,
                label@ + "_marker_failed:read="@ + int_text(read as int) + ",byte="@ + dec_text(
                    byte as nat,
                ),
            )
        } else {
            match waited {
                Ok(()) => out_ok(pid, None),
                Err(e) => out_err(pid, wait_text(e@)),
            }
        },
{
    if read != 1 || byte != DROPBEAR_MARKER {
        let n = dec_i64(read);
        let b = dec(byte as u64);
        let mut text = cat3(label, "_marker_failed:read=", n.as_str());
        text.append(",byte=");
        text.append(b.as_str());
        clone_result_error(text)
    } else {
        waited_report(pid, waited)
    }
}

/// The report of a clone that suspends its parent: the parent must come back only
/// after the child's last stage.
pub fn vfork_report(pid: u64, stage: i32, waited: Result<(), String>) -> (r: Clone3Out)
    ensures
        r@ == if stage != 2 {
            out_err(
                pid,
                "vfork_parent_resumed_before_child_exit:stage="@ + int_text(stage as int),
            )
        } else {
            match waited {
                Ok(()) => out_ok(pid, None),
                Err(e) => out_err(pid, wait_text(e@)),
            }
        },
{
    if stage != 2 {
        let n = dec_i64(stage as i64);
        failure(pid, cat("vfork_parent_resumed_before_child_exit:stage=", n.as_str()))
    } else {
        waited_report(pid, waited)
    }
}

/// The report of a cloned thread: it must have signalled and left its number.
pub fn thread_report(read: i64, tid: i32) -> (r: Clone3Out)
    ensures
        r@ == if read == 1 && tid > 0 {
            out_ok(tid as u64, None)
        } else {
            out_err(
                0,
                "thread_signal_failed:read="@ + int_text(read as int) + ",tid="@ + int_text(
                    tid as int,
                ),
            )
        },
{
    if read == 1 && tid > 0 {
        success(tid as u64, None)
    } else {
        let n = dec_i64(read);
        let t = dec_i64(tid as i64);
        let mut text = cat3("thread_signal_failed:read=", n.as_str(), ",tid=");
        text.append(t.as_str());
        clone_result_error(text)
    }
}

/// The report of a cloned process.
pub open spec fn process_report_view(
    pid: u64,
    with_pidfd: bool,
    pidfd: i32,
    waited: Result<(), String>,
) -> OutView {
    match waited {
        Err(e) => out_err(pid, wait_text(e@)),
        Ok(()) => if with_pidfd && pidfd < 0 {
            out_err(pid, "missing_pidfd"@)
        } else if with_pidfd {
            out_ok(pid, Some(pidfd))
        } else {
            out_ok(pid, None)
        },
    }
}

/// The report of a cloned process.
pub fn process_report(pid: u64, with_pidfd: bool, pidfd: i32, waited: Result<(), String>) -> (r:
    Clone3Out)
    ensures
        r@ == process_report_view(pid, with_pidfd, pidfd, waited),
{
    match waited {
        Err(e) => failure(pid, cat("wait:", e.as_str())),
        Ok(()) => if with_pidfd && pidfd < 0 {
            failure(pid, "missing_pidfd".to_string())
        } else if with_pidfd {
            success(pid, Some(pidfd))
        } else {
            success(pid, None)
        },
    }
}

/// A cloned process that ended well passes the check for its kind; where a process
/// descriptor was asked for, exactly if there is one.
pub proof fn law_process_report_passes(pid: u64, with_pidfd: bool, pidfd: i32)
    requires
        pid > 0,
    ensures
        ({
            let o = process_report_view(pid, with_pidfd, pidfd, Ok(()));
            &&& !with_pidfd ==> passes_plain(o) && passes_set_tid(o) && passes_cgroup(o)
            &&& with_pidfd ==> (passes_pidfd(o) <==> pidfd >= 0)
        }),
{
    if with_pidfd && pidfd < 0 {
        let error = "missing_pidfd"@;
        let name = "ENOSYS"@;
        reveal_strlit("missing_pidfd");
        reveal_strlit("ENOSYS");
        assert forall|at: int| !occurs_at(error, name, at) by {
            if occurs_at(error, name, at) {
                assert(error.subrange(at, at + name.len())[0] == name[0]);
                assert(error[at] == 'E');
            }
        }
        assert(!documented(error, seq!["ENOSYS"]));
    }
}

/// The report where no control group can be opened.
pub fn cgroup_unavailable(last: Option<i32>) -> (r: Clone3Out)
    ensures
        r@ == out_err(
            0,
            "cgroup_fd_unavailable:"@ + errno_text(
                match last {
                    Some(n) => n,
                    None => 0i32,
                },
            ) + "; fallback attempted /sys/fs/cgroup"@,
        ),
{
    let name = match last {
        Some(n) => errno_name(n),
        None => errno_name(0),
    };
    clone_result_error(
        cat3("cgroup_fd_unavailable:", name.as_str(), "; fallback attempted /sys/fs/cgroup"),
    )
}

/// A missing control group passes the check of the control group test.
pub proof fn law_missing_cgroup_passes(error: Seq<char>)
    ensures
        passes_cgroup(out_err(0, "cgroup_fd_unavailable:"@ + error)),
{
    let e = "cgroup_fd_unavailable:"@ + error;
    assert(e.subrange(0, "cgroup_fd_unavailable:"@.len() as int) =~= "cgroup_fd_unavailable:"@);
}

pub const CLONE_VM: u64 = 0x100;

pub const CLONE_FS: u64 = 0x200;

pub const CLONE_FILES: u64 = 0x400;

pub const CLONE_SIGHAND: u64 = 0x800;

pub const CLONE_PIDFD: u64 = 0x1000;

pub const CLONE_VFORK: u64 = 0x4000;

pub const CLONE_THREAD: u64 = 0x10000;

pub const CLONE_SYSVSEM: u64 = 0x40000;

pub const CLONE_SETTLS: u64 = 0x80000;

pub const CLONE_PARENT_SETTID: u64 = 0x100000;

pub const CLONE_CHILD_CLEARTID: u64 = 0x200000;

pub const CLONE_INTO_CGROUP: u64 = 0x2_0000_0000;

pub const SIGCHLD: u64 = 17;

/// What a clone call is asked for. Addresses are plain numbers; zero means none.
#[derive(Clone, Copy, Debug, PartialEq, Eq, Structural)]
pub struct CloneArgs {
    pub flags: u64,
    pub pidfd: u64,
    pub child_tid: u64,
    pub parent_tid: u64,
    pub exit_signal: u64,
    pub stack: u64,
    pub stack_size: u64,
    pub tls: u64,
    pub set_tid: u64,
    pub set_tid_size: u64,
    pub cgroup: u64,
}

/// Nothing asked for.
pub open spec fn no_args() -> CloneArgs {
    CloneArgs {
        flags: 0,
        pidfd: 0,
        child_tid: 0,
        parent_tid: 0,
        exit_signal: 0,
        stack: 0,
        stack_size: 0,
        tls: 0,
        set_tid: 0,
        set_tid_size: 0,
        cgroup: 0,
    }
}

fn empty_args() -> (r: CloneArgs)
    ensures
        r == no_args(),
{
    CloneArgs {
        flags: 0,
        pidfd: 0,
        child_tid: 0,
        parent_tid: 0,
        exit_signal: 0,
        stack: 0,
        stack_size: 0,
        tls: 0,
        set_tid: 0,
        set_tid_size: 0,
        cgroup: 0,
    }
}

/// The flags of a cloned process.
pub open spec fn process_flags(with_pidfd: bool, into_cgroup: bool) -> u64 {
    (CLONE_CHILD_CLEARTID | if with_pidfd {
        CLONE_PIDFD
    } else {
        0u64
    }) | if into_cgroup {
        CLONE_INTO_CGROUP
    } else {
        0u64
    }
}

/// What a cloned process asks for: where its number is cleared, where its descriptor
/// goes, which number it wants, which control group it joins.
pub open spec fn process_args_of(
    child_tid: u64,
    pidfd: Option<u64>,
    set_tid: Option<u64>,
    cgroup: Option<u64>,
) -> CloneArgs {
    CloneArgs {
        flags: process_flags(pidfd is Some, cgroup is Some),
        child_tid,
        exit_signal: SIGCHLD,
        pidfd: match pidfd {
            Some(a) => a,
            None => 0u64,
        },
        set_tid: match set_tid {
            Some(a) => a,
            None => 0u64,
        },
        set_tid_size: if set_tid is Some {
            1
        } else {
            0
        },
        cgroup: match cgroup {
            Some(fd) => fd,
            None => 0u64,
        },
        ..no_args()
    }
}

/// What a cloned process asks for.
pub fn process_args(
    child_tid: u64,
    pidfd: Option<u64>,
    set_tid: Option<u64>,
    cgroup: Option<u64>,
) -> (r: CloneArgs)
    ensures
        r == process_args_of(child_tid, pidfd, set_tid, cgroup),
{
    let mut args = empty_args();
    args.child_tid = child_tid;
    args.exit_signal = SIGCHLD;
    let watch: u64 = match pidfd {
        Some(a) => {
            args.pidfd = a;
            CLONE_PIDFD
        },
        None => 0,
    };
    if let Some(a) = set_tid {
        args.set_tid = a;
        args.set_tid_size = 1;
    }
    let group: u64 = match cgroup {
        Some(fd) => {
            args.cgroup = fd;
            CLONE_INTO_CGROUP
        },
        None => 0,
    };
    args.flags = CLONE_CHILD_CLEARTID | watch | group;
    args
}

/// Each flag of a cloned process is set exactly where its feature is asked for.
pub proof fn law_process_flags(with_pidfd: bool, into_cgroup: bool)
    ensures
        ({
            let f = process_flags(with_pidfd, into_cgroup);
            &&& (f & CLONE_PIDFD != 0) == with_pidfd
            &&& (f & CLONE_INTO_CGROUP != 0) == into_cgroup
            &&& f & CLONE_CHILD_CLEARTID != 0
            &&& f & CLONE_VM == 0
            &&& f & CLONE_VFORK == 0
        }),
{
    assert((0x200000u64 | 0x1000u64) | 0x2_0000_0000u64 == 0x2_0020_1000u64) by (bit_vector);
    assert((0x200000u64 | 0u64) | 0x2_0000_0000u64 == 0x2_0020_0000u64) by (bit_vector);
    assert((0x200000u64 | 0x1000u64) | 0u64 == 0x20_1000u64) by (bit_vector);
    assert((0x200000u64 | 0u64) | 0u64 == 0x20_0000u64) by (bit_vector);
    assert(forall|f: u64|
        f == 0x2_0020_1000u64 ==> (f & 0x1000u64 != 0 && f & 0x2_0000_0000u64 != 0 && f
            & 0x200000u64 != 0 && f & 0x100u64 == 0 && f & 0x4000u64 == 0)) by (bit_vector);
    assert(forall|f: u64|
        f == 0x2_0020_0000u64 ==> (f & 0x1000u64 == 0 && f & 0x2_0000_0000u64 != 0 && f
            & 0x200000u64 != 0 && f & 0x100u64 == 0 && f & 0x4000u64 == 0)) by (bit_vector);
    assert(forall|f: u64|
        f == 0x20_1000u64 ==> (f & 0x1000u64 != 0 && f & 0x2_0000_0000u64 == 0 && f & 0x200000u64
            != 0 && f & 0x100u64 == 0 && f & 0x4000u64 == 0)) by (bit_vector);
    assert(forall|f: u64|
        f == 0x20_0000u64 ==> (f & 0x1000u64 == 0 && f & 0x2_0000_0000u64 == 0 && f & 0x200000u64
            != 0 && f & 0x100u64 == 0 && f & 0x4000u64 == 0)) by (bit_vector);
}

/// What a cloned thread asks for.
pub fn thread_args(parent_tid: u64, child_tid: u64, tls: u64) -> (r: CloneArgs)
    ensures
        r == (CloneArgs {
            flags: CLONE_VM | CLONE_THREAD | CLONE_SIGHAND | CLONE_SYSVSEM | CLONE_SETTLS | CLONE_FS
                | CLONE_FILES | CLONE_PARENT_SETTID | CLONE_CHILD_CLEARTID,
            parent_tid,
            child_tid,
            tls,
            ..no_args()
        }),
{
    let mut args = empty_args();
    args.flags = CLONE_VM | CLONE_THREAD | CLONE_SIGHAND | CLONE_SYSVSEM | CLONE_SETTLS | CLONE_FS
        | CLONE_FILES | CLONE_PARENT_SETTID | CLONE_CHILD_CLEARTID;
    args.parent_tid = parent_tid;
    args.child_tid = child_tid;
    args.tls = tls;
    args
}

/// What a clone that suspends its parent asks for. `child_tid` is where the child's
/// number is cleared, where the probe wants that.
pub fn vfork_args(child_tid: Option<u64>) -> (r: CloneArgs)
    ensures
        r == match child_tid {
            Some(a) => CloneArgs {
                flags: CLONE_VM | CLONE_VFORK | CLONE_CHILD_CLEARTID,
                child_tid: a,
                exit_signal: SIGCHLD,
                ..no_args()
            },
            None => CloneArgs {
                flags: CLONE_VM | CLONE_VFORK,
                exit_signal: SIGCHLD,
                ..no_args()
            },
        },
{
    let mut args = empty_args();
    args.exit_signal = SIGCHLD;
    match child_tid {
        Some(a) => {
            args.flags = CLONE_VM | CLONE_VFORK | CLONE_CHILD_CLEARTID;
            args.child_tid = a;
        },
        None => {
            args.flags = CLONE_VM | CLONE_VFORK;
        },
    }
    args
}

/// The flags of the older call that suspends the parent, which carries the signal in
/// its low byte.
#[verifier::allow_in_spec]
pub fn legacy_flags() -> u64
    returns
        (CLONE_VM | CLONE_VFORK | SIGCHLD),
{
    CLONE_VM | CLONE_VFORK | SIGCHLD
}

/// The older call asks for the same flags and signal as the newer one without a place
/// for the child's number.
pub proof fn law_legacy_flags()
    ensures
        legacy_flags() & 0xff == SIGCHLD,
        legacy_flags() & !0xffu64 == CLONE_VM | CLONE_VFORK,
{
    assert((0x100u64 | 0x4000u64 | 17u64) & 0xff == 17u64) by (bit_vector);
    assert((0x100u64 | 0x4000u64 | 17u64) & !0xffu64 == 0x100u64 | 0x4000u64) by (bit_vector);
}

/// A report of a probe that failed while it was set up: the step, and why.
pub fn setup_failed(step: &str, error: &str) -> (r: Clone3Out)
    ensures
        r@ == out_err(0, step@ + ":"@ + error@),
{
    clone_result_error(cat3(step, ":", error))
}

/// What a cloned process runs. A target that no program can be named by, because it
/// holds a zero character, becomes a program that fails.
pub open spec fn process_argv_of(target: Option<Seq<char>>) -> Seq<Seq<char>> {
    match target {
        Some(t) => if t.contains('\0') {
            seq!["/bin/false"@, "/bin/false"@, "echo-test"@]
        } else {
            seq![t, t, "echo-test"@]
        },
        None => seq!["/bin/sh"@, "sh"@, "-c"@, "getpid >/dev/null; exit 0"@],
    }
}

fn has_zero(s: &str) -> (r: bool)
    ensures
        r == s@.contains('\0'),
{
    let v = chars_of(s);
    let mut i: usize = 0;
    while i < v.len()
        invariant
            i <= v.len(),
            v@ == s@,
            forall|k: int| 0 <= k < i ==> v@[k] != '\0',
        decreases v.len() - i,
    {
        if v[i] == '\0' {
            assert(s@[i as int] == '\0');
            return true;
        }
        i = i + 1;
    }
    false
}

/// What a cloned process runs: the program's path, then its arguments from its name on.
pub fn process_argv(target: Option<&str>) -> (r: Vec<String>)
    ensures
        texts(r@) == process_argv_of(
            match target {
                Some(t) => Some(t@),
                None => None,
            },
        ),
{
    let r = match target {
        Some(t) => if has_zero(t) {
            vec!["/bin/false".to_string(), "/bin/false".to_string(), "echo-test".to_string()]
        } else {
            vec![t.to_string(), t.to_string(), "echo-test".to_string()]
        },
        None => vec![
            "/bin/sh".to_string(),
            "sh".to_string(),
            "-c".to_string(),
            "getpid >/dev/null; exit 0".to_string(),
        ],
    };
    assert(texts(r@) =~= process_argv_of(
        match target {
            Some(t) => Some(t@),
            None => None,
        },
    ));
    r
}

/// How far the child of a dropbear session goes before it runs its program.
#[derive(Clone, Copy, Debug, PartialEq, Eq, Structural)]
pub enum DropbearSessionStage {
    ExecOnly,
    Setsid,
    DupStdio,
    Tiocsctty,
    Full,
    FullBash,
    FullSetidNetwork,
}

impl DropbearSessionStage {
    pub open spec fn text(self) -> Seq<char> {
        match self {
            DropbearSessionStage::ExecOnly => "exec_only"@,
            DropbearSessionStage::Setsid => "setsid"@,
            DropbearSessionStage::DupStdio => "dup_stdio"@,
            DropbearSessionStage::Tiocsctty => "tiocsctty"@,
            DropbearSessionStage::Full => "full"@,
            DropbearSessionStage::FullBash => "full_bash"@,
            DropbearSessionStage::FullSetidNetwork => "full_setid_network"@,
        }
    }

    /// The name in test ids.
    pub fn label(self) -> (r: &'static str)
        ensures
            r@ == self.text(),
    {
        match self {
            DropbearSessionStage::ExecOnly => "exec_only",
            DropbearSessionStage::Setsid => "setsid",
            DropbearSessionStage::DupStdio => "dup_stdio",
            DropbearSessionStage::Tiocsctty => "tiocsctty",
            DropbearSessionStage::Full => "full",
            DropbearSessionStage::FullBash => "full_bash",
            DropbearSessionStage::FullSetidNetwork => "full_setid_network",
        }
    }

    pub open spec fn prints_to_pty(self) -> bool {
        self == DropbearSessionStage::DupStdio || self == DropbearSessionStage::Full || self
            == DropbearSessionStage::FullBash
    }

    /// Whether the child's program prints to the terminal.
    pub fn uses_pty_stdio(self) -> (r: bool)
        ensures
            r == self.prints_to_pty(),
    {
        match self {
            DropbearSessionStage::ExecOnly => false,
            DropbearSessionStage::Setsid => false,
            DropbearSessionStage::Tiocsctty => false,
            DropbearSessionStage::DupStdio => true,
            DropbearSessionStage::Full => true,
            DropbearSessionStage::FullBash => true,
            DropbearSessionStage::FullSetidNetwork => false,
        }
    }

    /// The stage takes the terminal as its own.
    pub open spec fn takes_terminal(self) -> bool {
        self == DropbearSessionStage::Tiocsctty || self == DropbearSessionStage::Full || self
            == DropbearSessionStage::FullBash || self == DropbearSessionStage::FullSetidNetwork
    }

    /// The stage puts the terminal on the standard descriptors.
    pub open spec fn dups_terminal(self) -> bool {
        self == DropbearSessionStage::DupStdio || self == DropbearSessionStage::Full || self
            == DropbearSessionStage::FullBash || self == DropbearSessionStage::FullSetidNetwork
    }
}

/// One system call of the session's child.
#[derive(Clone, Copy, Debug, PartialEq, Eq, Structural)]
pub enum SessionStep {
    Setsid,
    TakeTerminal,
    /// Put the terminal on a standard descriptor.
    DupTerminal { target: i32 },
    /// Set the group to the present one.
    Setgid,
    /// Set the user to the present one.
    Setuid,
    CloseSlave,
    CloseMaster,
    /// Run `/bin/echo HELLO_CL3`.
    ExecEcho,
    /// Run `/bin/bash -c 'echo HELLO_CL3'`.
    ExecBash,
    /// Run `/bin/true`.
    ExecTrue,
}

impl SessionStep {
    /// With which code the child exits where the call fails; nothing where it goes on.
    pub open spec fn failure_of(self) -> Option<i32> {
        match self {
            SessionStep::Setsid => Some(111i32),
            SessionStep::TakeTerminal => Some(112i32),
            SessionStep::DupTerminal { .. } => Some(113i32),
            SessionStep::Setgid => Some(114i32),
            SessionStep::Setuid => Some(115i32),
            SessionStep::CloseSlave => None,
            SessionStep::CloseMaster => None,
            SessionStep::ExecEcho => Some(127i32),
            SessionStep::ExecBash => Some(127i32),
            SessionStep::ExecTrue => Some(127i32),
        }
    }

    /// With which code the child exits where the call fails; nothing where it goes on.
    pub fn failure_code(self) -> (r: Option<i32>)
        ensures
            r == self.failure_of(),
    {
        match self {
            SessionStep::Setsid => Some(111),
            SessionStep::TakeTerminal => Some(112),
            SessionStep::DupTerminal { .. } => Some(113),
            SessionStep::Setgid => Some(114),
            SessionStep::Setuid => Some(115),
            SessionStep::CloseSlave => None,
            SessionStep::CloseMaster => None,
            SessionStep::ExecEcho => Some(127),
            SessionStep::ExecBash => Some(127),
            SessionStep::ExecTrue => Some(127),
        }
    }
}

/// The step with which the child runs its program.
pub open spec fn session_program(stage: DropbearSessionStage) -> SessionStep {
    match stage {
        DropbearSessionStage::DupStdio => SessionStep::ExecEcho,
        DropbearSessionStage::Full => SessionStep::ExecEcho,
        DropbearSessionStage::FullBash => SessionStep::ExecBash,
        _ => SessionStep::ExecTrue,
    }
}

/// The steps if the condition holds, else none.
pub open spec fn steps_if(when: bool, steps: Seq<SessionStep>) -> Seq<SessionStep> {
    if when {
        steps
    } else {
        Seq::empty()
    }
}

/// The calls of the session's child, in order.
pub open spec fn session_steps_of(stage: DropbearSessionStage, slave_fd: i32) -> Seq<SessionStep> {
    steps_if(stage != DropbearSessionStage::ExecOnly, seq![SessionStep::Setsid]) + steps_if(
        stage.takes_terminal(),
        seq![SessionStep::TakeTerminal],
    ) + steps_if(
        stage.dups_terminal(),
        seq![
            SessionStep::DupTerminal { target: 0 },
            SessionStep::DupTerminal { target: 1 },
            SessionStep::DupTerminal { target: 2 },
        ],
    ) + steps_if(
        stage == DropbearSessionStage::FullSetidNetwork,
        seq![SessionStep::Setgid, SessionStep::Setuid],
    ) + steps_if(slave_fd > 2, seq![SessionStep::CloseSlave]) + seq![
        SessionStep::CloseMaster,
        session_program(stage),
    ]
}

/// The calls of the session's child, in order.
pub fn session_steps(stage: DropbearSessionStage, slave_fd: i32) -> (r: Vec<SessionStep>)
    ensures
        r@ == session_steps_of(stage, slave_fd),
{
    let mut out: Vec<SessionStep> = Vec::new();
    if !matches!(stage, DropbearSessionStage::ExecOnly) {
        out.push(SessionStep::Setsid);
    }
    if matches!(
        stage,
        DropbearSessionStage::Tiocsctty | DropbearSessionStage::Full | DropbearSessionStage::FullBash
            | DropbearSessionStage::FullSetidNetwork
    ) {
        out.push(SessionStep::TakeTerminal);
    }
    if matches!(
        stage,
        DropbearSessionStage::DupStdio | DropbearSessionStage::Full | DropbearSessionStage::FullBash
            | DropbearSessionStage::FullSetidNetwork
    ) {
        out.push(SessionStep::DupTerminal { target: 0 });
        out.push(SessionStep::DupTerminal { target: 1 });
        out.push(SessionStep::DupTerminal { target: 2 });
    }
    if matches!(stage, DropbearSessionStage::FullSetidNetwork) {
        out.push(SessionStep::Setgid);
        out.push(SessionStep::Setuid);
    }
    if slave_fd > 2 {
        out.push(SessionStep::CloseSlave);
    }
    out.push(SessionStep::CloseMaster);
    match stage {
        DropbearSessionStage::DupStdio => out.push(SessionStep::ExecEcho),
        DropbearSessionStage::Full => out.push(SessionStep::ExecEcho),
        DropbearSessionStage::FullBash => out.push(SessionStep::ExecBash),
        _ => out.push(SessionStep::ExecTrue),
    }
    assert(out@ =~= session_steps_of(stage, slave_fd));
    out
}

/// Whether a step runs a program.
pub open spec fn is_exec(s: SessionStep) -> bool {
    s == SessionStep::ExecEcho || s == SessionStep::ExecBash || s == SessionStep::ExecTrue
}

/// The child runs exactly one program, as its last step, and it prints to the terminal
/// exactly where the parent waits for that.
pub proof fn law_session_ends_with_exec(stage: DropbearSessionStage, slave_fd: i32)
    ensures
        ({
            let steps = session_steps_of(stage, slave_fd);
            &&& steps.len() > 0
            &&& is_exec(steps.last())
            &&& forall|k: int| 0 <= k < steps.len() - 1 ==> !is_exec(#[trigger] steps[k])
            &&& stage.prints_to_pty() <==> steps.last() != SessionStep::ExecTrue
            &&& stage.prints_to_pty() ==> steps.contains(SessionStep::DupTerminal { target: 1 })
        }),
{
    let steps = session_steps_of(stage, slave_fd);
    if stage.prints_to_pty() {
        let at = if stage == DropbearSessionStage::DupStdio {
            2int
        } else {
            3int
        };
        assert(steps[at] == (SessionStep::DupTerminal { target: 1 }));
    }
}

/// Whether the wait for the session's child goes on.
pub enum TimedWait {
    /// Ask again later.
    Again,
    /// It is over: the child's exit status, or why there is none.
    Done { result: Result<i32, String> },
}

/// One look at the session's child: `waited` is what the wait for `pid` returned, `late`
/// whether the time is over. A child that has ended is reported even then.
pub fn timed_wait_step(pid: i32, waited: i32, status: i32, last: Option<i32>, late: bool) -> (r:
    TimedWait)
    ensures
        match r {
            TimedWait::Again => waited != pid && waited >= 0 && !late,
            TimedWait::Done { result: Ok(code) } => waited == pid && code == if exited(status) {
                code_of(status)
            } else {
                99i32
            },
            TimedWait::Done { result: Err(e) } => waited != pid && if waited < 0 {
                e@ == errno_text(
                    match last {
                        Some(n) => n,
                        None => 0i32,
                    },
                )
            } else {
                late && e@ == "timeout"@
            },
        },
{
    if waited == pid {
        TimedWait::Done { result: Ok(exit_code(status)) }
    } else if waited < 0 {
        TimedWait::Done { result: Err(last_errno_name(last)) }
    } else if late {
        TimedWait::Done { result: Err("timeout".to_string()) }
    } else {
        TimedWait::Again
    }
}

/// What reading the terminal gave.
pub enum PtyRead {
    /// The stage does not use it.
    Unused,
    Data { text: String },
    Failed { error: String },
}

/// What waiting for the session's child gave: its exit status, or why not.
pub open spec fn session_report_view(pid: u64, pty: PtyRead, waited: Result<i32, String>) -> OutView {
    match pty {
        PtyRead::Data { text } if !contains_text(text@, "HELLO_CL3"@) => out_err(
            0,
            "missing HELLO_CL3 in pty data "@ + quoted(text@),
        ),
        PtyRead::Failed { error } => out_err(0, "pty_read:"@ + error@),
        _ => match waited {
            Ok(status) => if status == 0 {
                out_ok(pid, None)
            } else {
                out_err(0, "child_status:"@ + int_text(status as int))
            },
            Err(e) => out_err(0, wait_text(e@)),
        },
    }
}

/// The complaint about what the terminal showed, if there is one.
pub fn pty_complaint(pty: &PtyRead) -> (r: Option<Clone3Out>)
    ensures
        match r {
            Some(o) => match *pty {
                PtyRead::Unused => false,
                PtyRead::Data { text } => !contains_text(text@, "HELLO_CL3"@) && o@ == out_err(
                    0,
                    "missing HELLO_CL3 in pty data "@ + quoted(text@),
                ),
                PtyRead::Failed { error } => o@ == out_err(0, "pty_read:"@ + error@),
            },
            None => match *pty {
                PtyRead::Unused => true,
                PtyRead::Data { text } => contains_text(text@, "HELLO_CL3"@),
                PtyRead::Failed { .. } => false,
            },
        },
{
    match pty {
        PtyRead::Unused => None,
        PtyRead::Data { text } => if contains(text.as_str(), "HELLO_CL3") {
            None
        } else {
            let body = quote(text.as_str());
            Some(clone_result_error(cat("missing HELLO_CL3 in pty data ", body.as_str())))
        },
        PtyRead::Failed { error } => Some(clone_result_error(cat("pty_read:", error.as_str()))),
    }
}

/// How many live sockets the session's child inherits.
pub fn session_sockets(stage: DropbearSessionStage) -> (r: usize)
    ensures
        r == if stage == DropbearSessionStage::FullSetidNetwork {
            2usize
        } else {
            0usize
        },
{
    match stage {
        DropbearSessionStage::FullSetidNetwork => 2,
        _ => 0,
    }
}

/// How many seconds the parent waits for the session's child: only briefly once the
/// terminal has shown that the session failed.
pub fn session_wait_secs(complaint: &Option<Clone3Out>) -> (r: u64)
    ensures
        r == if complaint is Some {
            1u64
        } else {
            10u64
        },
{
    match complaint {
        Some(_) => 1,
        None => 10,
    }
}

/// The report of a session, over what the terminal showed and how the child ended.
pub fn session_report(pid: u64, pty: PtyRead, waited: Result<i32, String>) -> (r: Clone3Out)
    ensures
        r@ == session_report_view(pid, pty, waited),
{
    match pty_complaint(&pty) {
        Some(o) => o,
        None => match waited {
            Ok(status) => if status == 0 {
                success(pid, None)
            } else {
                let n = dec_i64(status as i64);
                clone_result_error(cat("child_status:", n.as_str()))
            },
            Err(e) => clone_result_error(cat("wait:", e.as_str())),
        },
    }
}

/// How the set-up of a session went.
#[allow(inconsistent_fields)]
pub enum SessionEvent {
    /// A step before the child failed.
    SetupFailed { step: String, error: String },
    /// The call that makes the child failed.
    Refused { error: String },
    /// The child ran: what the terminal showed, and how the child ended.
    Ran { pid: u64, pty: PtyRead, waited: Result<i32, String> },
}

impl SessionEvent {
    /// The child has a number, and the terminal is read exactly where the child's program
    /// prints to it.
    pub open spec fn wf(self, stage: DropbearSessionStage) -> bool {
        self matches SessionEvent::Ran { pid, pty, .. } ==> pid > 0 && (stage.prints_to_pty()
            <==> !(pty is Unused))
    }
}

/// The report of a session.
pub open spec fn session_result_view(ev: SessionEvent) -> OutView {
    match ev {
        SessionEvent::SetupFailed { step, error } => out_err(0, step@ + ":"@ + error@),
        SessionEvent::Refused { error } => out_err(0, error@),
        SessionEvent::Ran { pid, pty, waited } => session_report_view(pid, pty, waited),
    }
}

/// The report of a session.
pub fn session_result(ev: SessionEvent) -> (r: Clone3Out)
    ensures
        r@ == session_result_view(ev),
{
    match ev {
        SessionEvent::SetupFailed { step, error } => setup_failed(step.as_str(), error.as_str()),
        SessionEvent::Refused { error } => clone_result_error(error),
        SessionEvent::Ran { pid, pty, waited } => session_report(pid, pty, waited),
    }
}

/// A session's report names no process descriptor, and says that it worked exactly if it
/// holds no error and names the child; the check passes exactly then. It works exactly if
/// the set-up did not fail, the child ended with zero and, in the stages whose program prints
/// to the terminal, the terminal showed the word. A step of the child that fails ends it with
/// a code with which the session does not work.
pub proof fn law_session_setup(stage: DropbearSessionStage, slave_fd: i32, ev: SessionEvent)
    requires
        ev.wf(stage),
    ensures
        ({
            let o = session_result_view(ev);
            &&& o.pidfd is None
            &&& o.ok <==> o.error is None
            &&& o.ok <==> o.pid > 0
            &&& passes_child(o) <==> o.ok
            &&& !(ev is Ran) ==> !o.ok
            &&& ev matches SessionEvent::Ran { pid, pty, waited } ==> {
                &&& o.ok ==> o.pid == pid
                &&& o.ok <==> waited == Ok::<i32, String>(0i32) && (stage.prints_to_pty() ==> (
                pty matches PtyRead::Data { text } && contains_text(text@, "HELLO_CL3"@)))
                &&& forall|k: int|
                    #![trigger session_steps_of(stage, slave_fd)[k]]
                    0 <= k < session_steps_of(stage, slave_fd).len() && (
                    session_steps_of(stage, slave_fd)[k].failure_of() matches Some(code) && waited
                        == Ok::<i32, String>(code)) ==> !o.ok
            }
        }),
{
}

/// Agents of the clone tests.
#[verifier::allow_in_spec]
pub fn clone_agent(k: usize) -> AgentName
    returns
        (if k == 0 {
            AgentName::Dpg1
        } else if k == 1 {
            AgentName::Dpg1Dpg1
        } else if k == 2 {
            AgentName::Dpg2
        } else {
            AgentName::Dpg2Dpg
        }),
{
    if k == 0 {
        AgentName::Dpg1
    } else if k == 1 {
        AgentName::Dpg1Dpg1
    } else if k == 2 {
        AgentName::Dpg2
    } else {
        AgentName::Dpg2Dpg
    }
}

/// The stage of a session test.
#[verifier::allow_in_spec]
pub fn session_stage(k: usize) -> DropbearSessionStage
    returns
        (if k == 0 {
            DropbearSessionStage::ExecOnly
        } else if k == 1 {
            DropbearSessionStage::Setsid
        } else if k == 2 {
            DropbearSessionStage::DupStdio
        } else if k == 3 {
            DropbearSessionStage::Tiocsctty
        } else if k == 4 {
            DropbearSessionStage::Full
        } else if k == 5 {
            DropbearSessionStage::FullBash
        } else {
            DropbearSessionStage::FullSetidNetwork
        }),
{
    if k == 0 {
        DropbearSessionStage::ExecOnly
    } else if k == 1 {
        DropbearSessionStage::Setsid
    } else if k == 2 {
        DropbearSessionStage::DupStdio
    } else if k == 3 {
        DropbearSessionStage::Tiocsctty
    } else if k == 4 {
        DropbearSessionStage::Full
    } else if k == 5 {
        DropbearSessionStage::FullBash
    } else {
        DropbearSessionStage::FullSetidNetwork
    }
}

/// The name and handler of a test that runs once for each binary type.
#[verifier::allow_in_spec]
pub fn exec_case(k: usize) -> (&'static str, &'static str)
    returns
        (if k == 0 {
            ("process", "clone3.process")
        } else if k == 1 {
            ("with_pidfd", "clone3.with_pidfd")
        } else if k == 2 {
            ("with_set_tid", "clone3.with_set_tid")
        } else {
            ("with_cgroup", "clone3.with_cgroup")
        }),
{
    if k == 0 {
        ("process", "clone3.process")
    } else if k == 1 {
        ("with_pidfd", "clone3.with_pidfd")
    } else if k == 2 {
        ("with_set_tid", "clone3.with_set_tid")
    } else {
        ("with_cgroup", "clone3.with_cgroup")
    }
}

/// The group of the clone tests, with a time of its own or the default one.
#[verifier::allow_in_spec]
pub fn clone_group(timed: bool) -> Group
    returns
        (Group {
            suite: "vscode",
            family: "clone3",
            timeout_secs: if timed {
                Some(60u64)
            } else {
                None
            },
        }),
{
    Group {
        suite: "vscode",
        family: "clone3",
        timeout_secs: if timed {
            Some(60u64)
        } else {
            None
        },
    }
}

/// The test at a position of one agent's list: a thread, four cases for each binary
/// type, three ways to suspend the parent, and seven session stages.
pub open spec fn clone_agent_row(a: AgentName, j: int) -> PlanView {
    if j == 0 {
        on_agents(
            clone_group(false),
            "CL3.thread."@ + a.wire(),
            Handler::Named("clone3.thread"),
            seq![a],
        )
    } else if j < 21 {
        let c = exec_case(((j - 1) / 5) as usize);
        on_agents(
            clone_group(true),
            "CL3."@ + c.0@ + "."@ + binary_at((j - 1) % 5).label_text() + "."@ + a.wire(),
            Handler::Named(c.1),
            seq![a],
        )
    } else if j == 21 {
        on_agents(
            clone_group(false),
            "CL3.vfork."@ + a.wire(),
            Handler::Named("clone3.vfork"),
            seq![a],
        )
    } else if j == 22 {
        on_agents(
            clone_group(false),
            "CL3.dropbear_vfork."@ + a.wire(),
            Handler::Named("clone3.dropbear_vfork"),
            seq![a],
        )
    } else if j == 23 {
        on_agents(
            clone_group(false),
            "CL3.dropbear_clone."@ + a.wire(),
            Handler::Named("clone.dropbear_vfork"),
            seq![a],
        )
    } else {
        on_agents(
            clone_group(true),
            "CL3.dropbear_session_setup."@ + session_stage((j - 24) as usize).text() + "."@
                + a.wire(),
            Handler::Named("clone.dropbear_session_setup"),
            seq![a],
        )
    }
}

/// The clone test at a position: thirty-one tests for each agent.
pub open spec fn clone_row(t: int) -> PlanView {
    clone_agent_row(clone_agent((t / 31) as usize), t % 31)
}

fn clone_plan(t: usize) -> (r: TestPlan)
    requires
        t < CLONE_TESTS,
    ensures
        r@ == clone_row(t as int),
{
    let a = clone_agent(t / 31);
    let j: usize = t % 31;
    if j == 0 {
        plan_on(clone_group(false), cat("CL3.thread.", a.name()), Handler::Named("clone3.thread"), a)
    } else if j < 21 {
        let c = exec_case((j - 1) / 5);
        let mut id = cat3("CL3.", c.0, ".");
        id.append(binary_type((j - 1) % 5).label());
        id.append(".");
        id.append(a.name());
        plan_on(clone_group(true), id, Handler::Named(c.1), a)
    } else if j == 21 {
        plan_on(clone_group(false), cat("CL3.vfork.", a.name()), Handler::Named("clone3.vfork"), a)
    } else if j == 22 {
        plan_on(
            clone_group(false),
            cat("CL3.dropbear_vfork.", a.name()),
            Handler::Named("clone3.dropbear_vfork"),
            a,
        )
    } else if j == 23 {
        plan_on(
            clone_group(false),
            cat("CL3.dropbear_clone.", a.name()),
            Handler::Named("clone.dropbear_vfork"),
            a,
        )
    } else {
        let mut id = cat3("CL3.dropbear_session_setup.", session_stage(j - 24).label(), ".");
        id.append(a.name());
        plan_on(clone_group(true), id, Handler::Named("clone.dropbear_session_setup"), a)
    }
}

/// How many clone tests there are.
pub const CLONE_TESTS: usize = 124;

/// The clone tests, in order.
pub fn register_clone3_matrix() -> (r: Vec<TestPlan>)
    ensures
        plan_views(r@) == Seq::new(CLONE_TESTS as nat, |t: int| clone_row(t)),
{
    let mut out: Vec<TestPlan> = Vec::new();
    let mut t: usize = 0;
    while t < CLONE_TESTS
        invariant
            t <= CLONE_TESTS,
            out@.len() == t,
            forall|k: int| 0 <= k < t ==> (#[trigger] out@[k])@ == clone_row(k),
        decreases CLONE_TESTS - t,
    {
        out.push(clone_plan(t));
        t = t + 1;
    }
    assert(plan_views(out@) =~= Seq::new(CLONE_TESTS as nat, |t: int| clone_row(t)));
    out
}

/// Every stage but the one that only runs its program begins a session of its own, before
/// anything else, and begins it once; that one stage does not.
pub proof fn law_session_begins_with_setsid(stage: DropbearSessionStage, slave_fd: i32)
    ensures
        ({
            let steps = session_steps_of(stage, slave_fd);
            &&& !(stage is ExecOnly) ==> steps[0] == SessionStep::Setsid
            &&& stage is ExecOnly ==> !steps.contains(SessionStep::Setsid)
            &&& forall|k: int| 0 < k < steps.len() ==> #[trigger] steps[k] != SessionStep::Setsid
        }),
{
}

/// The terminal is taken, right after the session was begun, exactly in the stage of that name
/// and in the three full ones.
pub proof fn law_session_takes_terminal(stage: DropbearSessionStage, slave_fd: i32)
    ensures
        ({
            let steps = session_steps_of(stage, slave_fd);
            let takes = stage is Tiocsctty || stage is Full || stage is FullBash || stage
                is FullSetidNetwork;
            &&& takes ==> steps[0] == SessionStep::Setsid && steps[1] == SessionStep::TakeTerminal
            &&& !takes ==> !steps.contains(SessionStep::TakeTerminal)
            &&& forall|k: int|
                0 <= k < steps.len() && k != 1 ==> #[trigger] steps[k] != SessionStep::TakeTerminal
        }),
{
}

/// The terminal goes on the three standard descriptors, in order and after the session was
/// begun, exactly in the stage of that name and in the three full ones, in these after the
/// terminal was taken; in the others it goes on none.
pub proof fn law_session_dups_terminal(stage: DropbearSessionStage, slave_fd: i32)
    ensures
        ({
            let steps = session_steps_of(stage, slave_fd);
            let full = stage is Full || stage is FullBash || stage is FullSetidNetwork;
            &&& full ==> steps[2] == (SessionStep::DupTerminal { target: 0 }) && steps[3] == (
            SessionStep::DupTerminal { target: 1 }) && steps[4] == (SessionStep::DupTerminal {
                target: 2,
            })
            &&& stage is DupStdio ==> steps[1] == (SessionStep::DupTerminal { target: 0 })
                && steps[2] == (SessionStep::DupTerminal { target: 1 }) && steps[3] == (
            SessionStep::DupTerminal { target: 2 })
            &&& !full && !(stage is DupStdio) ==> forall|k: int|
                0 <= k < steps.len() ==> !((#[trigger] steps[k]) is DupTerminal)
            &&& forall|j: int, k: int|
                0 <= j < k < steps.len() && (#[trigger] steps[j]) is DupTerminal && (
                #[trigger] steps[k]) is DupTerminal ==> steps[j]->DupTerminal_target
                    < steps[k]->DupTerminal_target
        }),
{
}

/// Group and user are set, in this order and after the terminal is on the descriptors, in the
/// stage with the network and in no other.
pub proof fn law_session_sets_ids(stage: DropbearSessionStage, slave_fd: i32)
    ensures
        ({
            let steps = session_steps_of(stage, slave_fd);
            &&& stage is FullSetidNetwork ==> steps[5] == SessionStep::Setgid && steps[6]
                == SessionStep::Setuid
            &&& !(stage is FullSetidNetwork) ==> !steps.contains(SessionStep::Setgid)
                && !steps.contains(SessionStep::Setuid)
        }),
{
}

/// The child's end of the terminal is closed, once, exactly if it is none of the standard
/// descriptors; the parent's end always is. Both are closed right before the program is run, and
/// the program is the one of the stage.
pub proof fn law_session_closes_before_exec(stage: DropbearSessionStage, slave_fd: i32)
    ensures
        ({
            let steps = session_steps_of(stage, slave_fd);
            let n = steps.len() as int;
            &&& n >= 2
            &&& steps[n - 2] == SessionStep::CloseMaster
            &&& forall|k: int|
                0 <= k < n && k != n - 2 ==> #[trigger] steps[k] != SessionStep::CloseMaster
            &&& slave_fd > 2 ==> n >= 3 && steps[n - 3] == SessionStep::CloseSlave
            &&& slave_fd <= 2 ==> !steps.contains(SessionStep::CloseSlave)
            &&& forall|k: int|
                0 <= k < n && k != n - 3 ==> #[trigger] steps[k] != SessionStep::CloseSlave
            &&& stage is DupStdio || stage is Full ==> steps[n - 1] == SessionStep::ExecEcho
            &&& stage is FullBash ==> steps[n - 1] == SessionStep::ExecBash
            &&& stage is ExecOnly || stage is Setsid || stage is Tiocsctty || stage
                is FullSetidNetwork ==> steps[n - 1] == SessionStep::ExecTrue
        }),
{
}

/// No step is missing and none is too many: each stage makes as many calls as its parts, and
/// one more where the child's end of the terminal has to be closed.
pub proof fn law_session_length(stage: DropbearSessionStage, slave_fd: i32)
    ensures
        session_steps_of(stage, slave_fd).len() == (match stage {
            DropbearSessionStage::ExecOnly => 2int,
            DropbearSessionStage::Setsid => 3int,
            DropbearSessionStage::Tiocsctty => 4int,
            DropbearSessionStage::DupStdio => 6int,
            DropbearSessionStage::Full => 7int,
            DropbearSessionStage::FullBash => 7int,
            DropbearSessionStage::FullSetidNetwork => 9int,
        }) + if slave_fd > 2 {
            1int
        } else {
            0int
        },
{
}

/// The codes by which the parent tells the failing calls apart differ for every kind of call,
/// and none is zero; a descriptor that cannot be closed does not end the child.
pub proof fn law_session_failure_codes(a: SessionStep, b: SessionStep)
    ensures
        a.failure_of() is None <==> a is CloseSlave || a is CloseMaster,
        a.failure_of() matches Some(code) ==> code > 0,
        a is Setsid ==> a.failure_of() == Some(111i32),
        a is TakeTerminal ==> a.failure_of() == Some(112i32),
        a is DupTerminal ==> a.failure_of() == Some(113i32),
        a is Setgid ==> a.failure_of() == Some(114i32),
        a is Setuid ==> a.failure_of() == Some(115i32),
        is_exec(a) ==> a.failure_of() == Some(127i32),
        a.failure_of() is Some && a.failure_of() == b.failure_of() ==> a == b || (a is DupTerminal
            && b is DupTerminal) || (is_exec(a) && is_exec(b)),
{
}

/// A plain clone, one that suspends its parent and a dropbear-shaped child pass only without a
/// process descriptor, and one that asks for a descriptor only with one. Whatever passes either
/// worked, with a child's number and no error, or failed with an error; and a child that must
/// have run passes only if the call worked.
pub proof fn law_clone_checks(o: OutView)
    ensures
        ({
            let worked = o.ok && o.error is None && o.pid > 0;
            let lacking = !o.ok && (o.error matches Some(e) && contains_text(e, "ENOSYS"@));
            let denied = !o.ok && (o.error matches Some(e) && contains_text(e, "EPERM"@));
            &&& passes_plain(o) <==> (worked && o.pidfd is None) || lacking
            &&& passes_pidfd(o) <==> (worked && (o.pidfd matches Some(fd) && fd >= 0)) || lacking
            &&& passes_set_tid(o) <==> worked || lacking || denied
            &&& passes_child(o) <==> worked && o.pidfd is None
        }),
{
    if let Some(e) = o.error {
        let one: Seq<&'static str> = seq!["ENOSYS"];
        let two: Seq<&'static str> = seq!["ENOSYS", "EPERM"];
        assert(one[0]@ == "ENOSYS"@);
        assert(two[0]@ == "ENOSYS"@ && two[1]@ == "EPERM"@);
        assert(documented(e, one) <==> contains_text(e, "ENOSYS"@));
        assert(documented(e, two) <==> contains_text(e, "ENOSYS"@) || contains_text(e, "EPERM"@));
    }
}

/// A clone into a control group passes if it worked, if no group could be opened, or if it
/// failed with one of the eight errors that the kernel has for that; it does not pass with any
/// other error, nor with none.
pub proof fn law_cgroup_check(o: OutView)
    ensures
        passes_cgroup(o) <==> (o.ok && o.error is None && o.pid > 0) || (!o.ok && (
        o.error matches Some(e) && (starts_with_text(e, "cgroup_fd_unavailable:"@)
            || contains_text(e, "EACCES"@) || contains_text(e, "EBADF"@) || contains_text(
            e,
            "EINVAL"@,
        ) || contains_text(e, "ENOENT"@) || contains_text(e, "ENOSYS"@) || contains_text(
            e,
            "EOPNOTSUPP"@,
        ) || contains_text(e, "EPERM"@) || contains_text(e, "EROFS"@)))),
{
    if let Some(e) = o.error {
        let n = cgroup_errors();
        assert(n[0]@ == "EACCES"@ && n[1]@ == "EBADF"@ && n[2]@ == "EINVAL"@ && n[3]@ == "ENOENT"@
            && n[4]@ == "ENOSYS"@ && n[5]@ == "EOPNOTSUPP"@ && n[6]@ == "EPERM"@ && n[7]@
            == "EROFS"@);
    }
}

/// A cloned process asks for exactly what it was told to: its number is cleared where the probe
/// looks, and the place for a descriptor, the wanted number and the control group are handed
/// over as they came, or left out together with what announces them.
pub proof fn law_process_args(
    child_tid: u64,
    pidfd: Option<u64>,
    set_tid: Option<u64>,
    cgroup: Option<u64>,
)
    ensures
        ({
            let a = process_args_of(child_tid, pidfd, set_tid, cgroup);
            &&& a.child_tid == child_tid
            &&& a.exit_signal == 17
            &&& pidfd matches Some(p) ==> a.pidfd == p && a.flags & 0x1000 != 0
            &&& pidfd is None ==> a.pidfd == 0 && a.flags & 0x1000 == 0
            &&& set_tid matches Some(p) ==> a.set_tid == p && a.set_tid_size == 1
            &&& set_tid is None ==> a.set_tid == 0 && a.set_tid_size == 0
            &&& cgroup matches Some(fd) ==> a.cgroup == fd && a.flags & 0x2_0000_0000 != 0
            &&& cgroup is None ==> a.cgroup == 0 && a.flags & 0x2_0000_0000 == 0
            &&& a.flags & 0x20_0000 != 0
            &&& a.parent_tid == 0 && a.stack == 0 && a.stack_size == 0 && a.tls == 0
        }),
{
    law_process_flags(pidfd is Some, cgroup is Some);
}

/// A target runs itself with the one argument that its check looks for; without a target a
/// shell ends well; a target that cannot be handed to the system fails.
pub proof fn law_process_argv(t: Seq<char>)
    ensures
        process_argv_of(None).len() == 4,
        process_argv_of(None)[0] == "/bin/sh"@,
        process_argv_of(None)[2] == "-c"@,
        process_argv_of(Some(t)).len() == 3,
        process_argv_of(Some(t))[0] == process_argv_of(Some(t))[1],
        process_argv_of(Some(t))[2] == "echo-test"@,
        !t.contains('\0') ==> process_argv_of(Some(t))[0] == t,
        t.contains('\0') ==> process_argv_of(Some(t))[0] == "/bin/false"@,
{
}

/// The report of a cloned process is good exactly if its child ended well and a descriptor that
/// was asked for is there; it always names the child, and a descriptor only where it was asked
/// for.
pub proof fn law_process_report(
    pid: u64,
    with_pidfd: bool,
    pidfd: i32,
    waited: Result<(), String>,
)
    ensures
        ({
            let o = process_report_view(pid, with_pidfd, pidfd, waited);
            &&& o.pid == pid
            &&& o.ok <==> waited is Ok && (with_pidfd ==> pidfd >= 0)
            &&& o.ok <==> o.error is None
            &&& o.pidfd is Some <==> o.ok && with_pidfd
            &&& o.pidfd matches Some(fd) ==> fd == pidfd
            &&& waited matches Err(e) ==> o.error == Some("wait:"@ + e@)
            &&& waited is Ok && !o.ok ==> o.error == Some("missing_pidfd"@)
        }),
{
}

/// The report of a session says what went wrong first: the set-up, then the terminal, then the
/// child's end; and it names no child then.
pub proof fn law_session_report_says_why(pid: u64, pty: PtyRead, waited: Result<i32, String>)
    ensures
        ({
            let o = session_report_view(pid, pty, waited);
            let shown = pty is Unused || (pty matches PtyRead::Data { text } && contains_text(
                text@,
                "HELLO_CL3"@,
            ));
            &&& o.pidfd is None
            &&& o.ok <==> shown && waited == Ok::<i32, String>(0i32)
            &&& o.ok ==> o.pid == pid && o.error is None
            &&& !o.ok ==> o.pid == 0
            &&& pty matches PtyRead::Failed { error } ==> o.error == Some("pty_read:"@ + error@)
            &&& pty matches PtyRead::Data { text } ==> (!shown ==> o.error == Some(
                "missing HELLO_CL3 in pty data "@ + quoted(text@),
            ))
            &&& shown && waited is Err ==> o.error == Some("wait:"@ + waited->Err_0@)
            &&& shown && waited is Ok && waited->Ok_0 != 0 ==> o.error == Some(
                "child_status:"@ + int_text(waited->Ok_0 as int),
            )
        }),
{
}

/// A session that did not get as far as a child says which step failed and why, or what the
/// call was refused with.
pub proof fn law_session_result_says_why(ev: SessionEvent)
    ensures
        ev matches SessionEvent::SetupFailed { step, error } ==> session_result_view(ev).error
            == Some(step@ + ":"@ + error@) && !session_result_view(ev).ok,
        ev matches SessionEvent::Refused { error } ==> session_result_view(ev).error == Some(
            error@,
        ) && !session_result_view(ev).ok,
        ev matches SessionEvent::Ran { pid, pty, waited } ==> session_result_view(ev)
            == session_report_view(pid, pty, waited),
{
}

/// The marker of a dropbear-shaped child counts only as one byte, and only as that byte.
pub proof fn law_marker(read: int, byte: u8)
    ensures
        marker_came(read, byte) <==> read == 1 && byte == 0x48,
{
}

/// Every agent has the whole list of clone tests: a thread, four cases for each binary type, three
/// ways to suspend the parent, and the seven stages of a session.
pub proof fn law_clone_tests_cover(a: int, c: int, b: int, s: int)
    requires
        0 <= a < 4,
        0 <= c < 4,
        0 <= b < 5,
        0 <= s < 7,
    ensures
        ({
            let w = clone_agent(a as usize);
            &&& clone_row(31 * a).id == "CL3.thread."@ + w.wire()
            &&& clone_row(31 * a + 1 + 5 * c + b).id == "CL3."@ + exec_case(c as usize).0@ + "."@
                + binary_at(b).label_text() + "."@ + w.wire()
            &&& clone_row(31 * a + 1 + 5 * c + b).handler == Handler::Named(exec_case(c as usize).1)
            &&& clone_row(31 * a + 21).id == "CL3.vfork."@ + w.wire()
            &&& clone_row(31 * a + 22).id == "CL3.dropbear_vfork."@ + w.wire()
            &&& clone_row(31 * a + 23).id == "CL3.dropbear_clone."@ + w.wire()
            &&& clone_row(31 * a + 24 + s).id == "CL3.dropbear_session_setup."@ + session_stage(
                s as usize,
            ).text() + "."@ + w.wire()
            &&& clone_row(31 * a + 24 + s).agents == seq![w]
        }),
{
    let j = 1 + 5 * c + b;
    assert((31 * a + j) / 31 == a && (31 * a + j) % 31 == j);
    assert((j - 1) / 5 == c && (j - 1) % 5 == b);
    assert((31 * a + (24 + s)) / 31 == a && (31 * a + (24 + s)) % 31 == 24 + s);
    assert((31 * a) / 31 == a && (31 * a) % 31 == 0);
    assert((31 * a + 21) / 31 == a && (31 * a + 21) % 31 == 21);
    assert((31 * a + 22) / 31 == a && (31 * a + 22) % 31 == 22);
    assert((31 * a + 23) / 31 == a && (31 * a + 23) % 31 == 23);
}

/// A report prints with the child, the descriptor, whether it worked, and the error.
pub proof fn law_clone_report_prints(o: OutView)
    ensures
        o.error is None ==> o.debug() == "Clone3Out { pid: "@ + dec_text(o.pid as nat)
            + ", pidfd: "@ + opt_int_text(o.pidfd) + ", ok: "@ + bool_text(o.ok) + ", error: "@
            + "None"@ + " }"@,
        o.error matches Some(e) ==> o.debug() == "Clone3Out { pid: "@ + dec_text(o.pid as nat)
            + ", pidfd: "@ + opt_int_text(o.pidfd) + ", ok: "@ + bool_text(o.ok) + ", error: "@ + (
        "Some("@ + quoted(e) + ")"@) + " }"@,
{
}

/// The terminal shows a program's output exactly in the stages whose program prints.
pub proof fn law_printing_stages(stage: DropbearSessionStage)
    ensures
        stage.prints_to_pty() <==> stage is DupStdio || stage is Full || stage is FullBash,
{
}

/// A judgement is good exactly if the report passes, and a complaint shows the report; a check
/// shows the report either way.
pub proof fn law_judgement_tells(
    j: Result<(), String>,
    c: Result<String, String>,
    pass: bool,
    what: Seq<char>,
    o: OutView,
)
    requires
        judged_as(j, pass, what, o),
        checked_as(c, pass, what, o),
    ensures
        j is Ok <==> pass,
        c is Ok <==> pass,
        j matches Err(e) ==> e@ == what + o.debug(),
        c matches Err(e) ==> e@ == what + o.debug(),
        c matches Ok(d) ==> d@ == o.debug(),
{
}

/// A report of success has no error, and shows the child and its descriptor; a wait that failed is
/// told as one.
pub proof fn law_success_report(pid: u64, pidfd: Option<i32>, error: Seq<char>)
    ensures
        out_ok(pid, pidfd).ok,
        out_ok(pid, pidfd).error is None,
        out_ok(pid, pidfd).pid == pid,
        out_ok(pid, pidfd).pidfd == pidfd,
        wait_text(error) == "wait:"@ + error,
{
}

/// The complaint about a child that suspends its parent names the way it was made.
pub proof fn law_vfork_complaint()
    ensures
        vfork_complaint()
            == "expected clone3(CLONE_VFORK) success or documented native ENOSYS/seccomp result without pidfd, got "@,
{
}

/// A call that asks for nothing has zero in every field.
pub proof fn law_no_args()
    ensures
        no_args().flags == 0 && no_args().pidfd == 0 && no_args().child_tid == 0
            && no_args().parent_tid == 0 && no_args().exit_signal == 0 && no_args().stack == 0
            && no_args().stack_size == 0 && no_args().tls == 0 && no_args().set_tid == 0
            && no_args().set_tid_size == 0 && no_args().cgroup == 0,
{
}

/// A session that was never started has no child to report.
pub proof fn law_session_without_child(ev: SessionEvent)
    ensures
        !(ev is Ran) ==> session_result_view(ev).pid == 0 && session_result_view(ev).pidfd is None,
        ev is SetupFailed || ev is Refused || ev is Ran,
{
}

/// The agents of the clone tests, and the stages of a session, each once and in order.
pub proof fn law_clone_agents_and_stages()
    ensures
        clone_agent(0) == AgentName::Dpg1,
        clone_agent(1) == AgentName::Dpg1Dpg1,
        clone_agent(2) == AgentName::Dpg2,
        clone_agent(3) == AgentName::Dpg2Dpg,
        session_stage(0) == DropbearSessionStage::ExecOnly,
        session_stage(1) == DropbearSessionStage::Setsid,
        session_stage(2) == DropbearSessionStage::DupStdio,
        session_stage(3) == DropbearSessionStage::Tiocsctty,
        session_stage(4) == DropbearSessionStage::Full,
        session_stage(5) == DropbearSessionStage::FullBash,
        session_stage(6) == DropbearSessionStage::FullSetidNetwork,
{
}

/// A case of the clone tests is called like its handler.
pub proof fn law_clone_cases_name_handlers(k: usize)
    requires
        k < 4,
    ensures
        exec_case(k).0@ == Seq::<char>::empty() + exec_case(k).1@.skip(7),
        exec_case(k).1@.take(7) == "clone3."@,
{
    reveal_strlit("clone3.");
    if k == 0 {
        reveal_strlit("process");
        reveal_strlit("clone3.process");
        assert("process"@ =~= Seq::<char>::empty() + "clone3.process"@.skip(7));
        assert("clone3.process"@.take(7) =~= "clone3."@);
    }
    if k == 1 {
        reveal_strlit("with_pidfd");
        reveal_strlit("clone3.with_pidfd");
        assert("with_pidfd"@ =~= Seq::<char>::empty() + "clone3.with_pidfd"@.skip(7));
        assert("clone3.with_pidfd"@.take(7) =~= "clone3."@);
    }
    if k == 2 {
        reveal_strlit("with_set_tid");
        reveal_strlit("clone3.with_set_tid");
        assert("with_set_tid"@ =~= Seq::<char>::empty() + "clone3.with_set_tid"@.skip(7));
        assert("clone3.with_set_tid"@.take(7) =~= "clone3."@);
    }
    if k == 3 {
        reveal_strlit("with_cgroup");
        reveal_strlit("clone3.with_cgroup");
        assert("with_cgroup"@ =~= Seq::<char>::empty() + "clone3.with_cgroup"@.skip(7));
        assert("clone3.with_cgroup"@.take(7) =~= "clone3."@);
    }
}

} // verus!
