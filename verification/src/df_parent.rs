//! Forks of a parent that holds one more descriptor: which descriptors there are, how the
//! child is judged, and the tests over them.

use vstd::prelude::*;
use crate::agents::AgentName;
use crate::fork_verdicts::{leaf_outcome, leaf_outcome_view};
use crate::number::{dec_i64, int_text};
use crate::registry::{
    binary_at, binary_type, fork_binary_label, on_leaf, plan_on_leaf, plan_views, Group, Handler,
    PlanView, TestOutcome, TestPlan,
};
use crate::text::{cat, cat3, lossy, lossy_text, same};

verus! {

/// What a parent holds besides its standard descriptors when it forks.
#[derive(Clone, Copy, Debug, PartialEq, Eq, Structural)]
pub enum ParentFdKind {
    /// Nothing beyond the standard descriptors.
    StdioOnly,
    /// Both ends of a pipe.
    Pipe,
    /// An event counter.
    EventFd,
    /// Both ends of a socket pair.
    UnixSocket,
    /// A signal descriptor.
    Signalfd,
    /// A listener on the loopback.
    InetListener,
    /// A regular file.
    FilesystemFd,
    /// A timer.
    TimerFd,
    /// A readiness set.
    Epoll,
    /// A watch on files.
    Inotify,
    /// A descriptor of the process itself.
    PidFd,
}

/// How many kinds there are.
pub const PARENT_FD_KINDS: usize = 11;

/// The kinds, in order.
#[verifier::allow_in_spec]
pub fn parent_fd_kind(k: usize) -> ParentFdKind
    returns
        (if k == 0 {
            ParentFdKind::StdioOnly
        } else if k == 1 {
            ParentFdKind::Pipe
        } else if k == 2 {
            ParentFdKind::EventFd
        } else if k == 3 {
            ParentFdKind::UnixSocket
        } else if k == 4 {
            ParentFdKind::Signalfd
        } else if k == 5 {
            ParentFdKind::InetListener
        } else if k == 6 {
            ParentFdKind::FilesystemFd
        } else if k == 7 {
            ParentFdKind::TimerFd
        } else if k == 8 {
            ParentFdKind::Epoll
        } else if k == 9 {
            ParentFdKind::Inotify
        } else {
            ParentFdKind::PidFd
        }),
{
    if k == 0 {
        ParentFdKind::StdioOnly
    } else if k == 1 {
        ParentFdKind::Pipe
    } else if k == 2 {
        ParentFdKind::EventFd
    } else if k == 3 {
        ParentFdKind::UnixSocket
    } else if k == 4 {
        ParentFdKind::Signalfd
    } else if k == 5 {
        ParentFdKind::InetListener
    } else if k == 6 {
        ParentFdKind::FilesystemFd
    } else if k == 7 {
        ParentFdKind::TimerFd
    } else if k == 8 {
        ParentFdKind::Epoll
    } else if k == 9 {
        ParentFdKind::Inotify
    } else {
        ParentFdKind::PidFd
    }
}

impl ParentFdKind {
    pub open spec fn text(self) -> &'static str {
        match self {
            ParentFdKind::StdioOnly => "stdio_only",
            ParentFdKind::Pipe => "pipe",
            ParentFdKind::EventFd => "eventfd",
            ParentFdKind::UnixSocket => "unix_socket",
            ParentFdKind::Signalfd => "signalfd",
            ParentFdKind::InetListener => "inet_listener",
            ParentFdKind::FilesystemFd => "filesystem_fd",
            ParentFdKind::TimerFd => "timerfd",
            ParentFdKind::Epoll => "epoll",
            ParentFdKind::Inotify => "inotify",
            ParentFdKind::PidFd => "pidfd",
        }
    }

    /// The name in test ids.
    pub fn suffix(self) -> (r: &'static str)
        ensures
            r == self.text(),
    {
        match self {
            ParentFdKind::StdioOnly => "stdio_only",
            ParentFdKind::Pipe => "pipe",
            ParentFdKind::EventFd => "eventfd",
            ParentFdKind::UnixSocket => "unix_socket",
            ParentFdKind::Signalfd => "signalfd",
            ParentFdKind::InetListener => "inet_listener",
            ParentFdKind::FilesystemFd => "filesystem_fd",
            ParentFdKind::TimerFd => "timerfd",
            ParentFdKind::Epoll => "epoll",
            ParentFdKind::Inotify => "inotify",
            ParentFdKind::PidFd => "pidfd",
        }
    }

    /// The name in arguments, which is the one in test ids.
    pub fn wire(self) -> (r: &'static str)
        ensures
            r == self.text(),
    {
        self.suffix()
    }

    /// The kind of that name.
    pub fn from_wire(s: &str) -> (r: Option<Self>)
        ensures
            match r {
                Some(k) => k.text()@ == s@,
                None => forall|k: ParentFdKind| k.text()@ != s@,
            },
    {
        let mut i: usize = 0;
        while i < PARENT_FD_KINDS
            invariant
                i <= PARENT_FD_KINDS,
                forall|k: int| 0 <= k < i ==> (#[trigger] parent_fd_kind(k as usize)).text()@ != s@,
            decreases PARENT_FD_KINDS - i,
        {
            let k = parent_fd_kind(i);
            if same(k.wire(), s) {
                return Some(k);
            }
            assert(parent_fd_kind(i as int as usize).text()@ != s@);
            i = i + 1;
        }
        proof {
            assert forall|k: ParentFdKind| k.text()@ != s@ by {
                let at = position(k);
                assert(parent_fd_kind(at as usize) == k);
            }
        }
        None
    }
}

/// The position of a kind in their order.
pub open spec fn position(kind: ParentFdKind) -> int {
    match kind {
        ParentFdKind::StdioOnly => 0,
        ParentFdKind::Pipe => 1,
        ParentFdKind::EventFd => 2,
        ParentFdKind::UnixSocket => 3,
        ParentFdKind::Signalfd => 4,
        ParentFdKind::InetListener => 5,
        ParentFdKind::FilesystemFd => 6,
        ParentFdKind::TimerFd => 7,
        ParentFdKind::Epoll => 8,
        ParentFdKind::Inotify => 9,
        ParentFdKind::PidFd => 10,
    }
}

/// No two kinds share a name, so that reading a name back gives the kind.
pub proof fn law_kind_names_distinct(a: ParentFdKind, b: ParentFdKind)
    ensures
        a.text()@ == b.text()@ ==> a == b,
{
    reveal_strlit("stdio_only");
    reveal_strlit("pipe");
    reveal_strlit("eventfd");
    reveal_strlit("unix_socket");
    reveal_strlit("signalfd");
    reveal_strlit("inet_listener");
    reveal_strlit("filesystem_fd");
    reveal_strlit("timerfd");
    reveal_strlit("epoll");
    reveal_strlit("inotify");
    reveal_strlit("pidfd");
    if a.text()@ == b.text()@ {
        assert(a.text()@.len() == b.text()@.len());
        assert(a.text()@[0] == b.text()@[0]);
        assert(a.text()@[1] == b.text()@[1]);
    }
}

/// The complaint about a kind that is not known.
pub fn unknown_kind(name: &str) -> (r: String)
    ensures
        r@ == "unknown fd_class: "@ + name@,
{
    cat("unknown fd_class: ", name)
}

/// The call that opens a kind's descriptors, as complaints name it.
pub open spec fn opener_text(kind: ParentFdKind) -> Seq<char> {
    match kind {
        ParentFdKind::StdioOnly => ""@,
        ParentFdKind::Pipe => "pipe2"@,
        ParentFdKind::EventFd => "eventfd"@,
        ParentFdKind::UnixSocket => "socketpair"@,
        ParentFdKind::Signalfd => "signalfd"@,
        ParentFdKind::InetListener => "socket(AF_INET)"@,
        ParentFdKind::FilesystemFd => "open(/etc/hostname)"@,
        ParentFdKind::TimerFd => "timerfd_create"@,
        ParentFdKind::Epoll => "epoll_create1"@,
        ParentFdKind::Inotify => "inotify_init1"@,
        ParentFdKind::PidFd => "pidfd_open"@,
    }
}

/// The call that opens a kind's descriptors, as complaints name it.
pub fn opener(kind: ParentFdKind) -> (r: &'static str)
    ensures
        r@ == opener_text(kind),
{
    match kind {
        ParentFdKind::StdioOnly => "",
        ParentFdKind::Pipe => "pipe2",
        ParentFdKind::EventFd => "eventfd",
        ParentFdKind::UnixSocket => "socketpair",
        ParentFdKind::Signalfd => "signalfd",
        ParentFdKind::InetListener => "socket(AF_INET)",
        ParentFdKind::FilesystemFd => "open(/etc/hostname)",
        ParentFdKind::TimerFd => "timerfd_create",
        ParentFdKind::Epoll => "epoll_create1",
        ParentFdKind::Inotify => "inotify_init1",
        ParentFdKind::PidFd => "pidfd_open",
    }
}

/// How many descriptors the parent opens for a kind.
pub open spec fn fd_count_of(kind: ParentFdKind) -> nat {
    match kind {
        ParentFdKind::StdioOnly => 0,
        ParentFdKind::Pipe => 2,
        ParentFdKind::UnixSocket => 2,
        _ => 1,
    }
}

/// A call that failed, with its error number; `-1` where there is none.
pub open spec fn failure_text(call: Seq<char>, errno: Option<i32>) -> Seq<char> {
    call + ": errno="@ + int_text(
        match errno {
            Some(e) => e as int,
            None => -1,
        },
    )
}

/// A call that failed, with its error number; `-1` where there is none.
pub fn open_failed(call: &str, errno: Option<i32>) -> (r: String)
    ensures
        r@ == failure_text(call@, errno),
{
    let n = dec_i64(
        match errno {
            Some(e) => e as i64,
            None => -1,
        },
    );
    cat3(call, ": errno=", n.as_str())
}

/// A process descriptor in the kernel's type, where it fits.
pub fn pidfd_of(raw: i64) -> (r: Result<i32, String>)
    ensures
        match r {
            Ok(fd) => fd == raw,
            Err(e) => (raw < i32::MIN || raw > i32::MAX) && e@
                == "pidfd_open returned non-int fd value: "@ + int_text(raw as int),
        },
{
    if raw < i32::MIN as i64 || raw > i32::MAX as i64 {
        let n = dec_i64(raw);
        Err(cat("pidfd_open returned non-int fd value: ", n.as_str()))
    } else {
        Ok(raw as i32)
    }
}

/// The descriptors that opening a kind gave, from what its call returned and, where the
/// call fills in two descriptors, those. A listener is bound and made to listen after that.
pub open spec fn opened_fds(kind: ParentFdKind, rc: i64, pair: (i32, i32)) -> Seq<i32> {
    match kind {
        ParentFdKind::StdioOnly => Seq::empty(),
        ParentFdKind::Pipe => seq![pair.0, pair.1],
        ParentFdKind::UnixSocket => seq![pair.0, pair.1],
        _ => seq![rc as i32],
    }
}

/// The call that opens a kind failed.
pub open spec fn opening_failed(kind: ParentFdKind, rc: i64) -> bool {
    match kind {
        ParentFdKind::StdioOnly => false,
        ParentFdKind::Pipe => rc != 0,
        ParentFdKind::UnixSocket => rc != 0,
        _ => rc < 0,
    }
}

/// The descriptors that opening a kind gave, or why it failed.
pub fn opened(kind: ParentFdKind, rc: i64, pair: (i32, i32), errno: Option<i32>) -> (r: Result<
    Vec<i32>,
    String,
>)
    requires
        kind != ParentFdKind::PidFd ==> rc <= i32::MAX,
    ensures
        if opening_failed(kind, rc) {
            r matches Err(e) && e@ == failure_text(opener_text(kind), errno)
        } else if kind == ParentFdKind::PidFd && rc > i32::MAX {
            r matches Err(e) && e@ == "pidfd_open returned non-int fd value: "@ + int_text(
                rc as int,
            )
        } else {
            r matches Ok(fds) && fds@ == opened_fds(kind, rc, pair)
        },
{
    match kind {
        ParentFdKind::StdioOnly => {
            let none: Vec<i32> = Vec::new();
            assert(none@ =~= Seq::<i32>::empty());
            Ok(none)
        },
        ParentFdKind::Pipe | ParentFdKind::UnixSocket => if rc != 0 {
            Err(open_failed(opener(kind), errno))
        } else {
            let both = vec![pair.0, pair.1];
            assert(both@ =~= opened_fds(kind, rc, pair));
            Ok(both)
        },
        _ => if rc < 0 {
            Err(open_failed(opener(kind), errno))
        } else {
            match pidfd_of(rc) {
                Ok(fd) => {
                    let one = vec![fd];
                    assert(one@ =~= opened_fds(kind, rc, pair));
                    Ok(one)
                },
                Err(e) => Err(e),
            }
        },
    }
}

/// A call that makes a socket a listener.
#[derive(Clone, Copy, Debug, PartialEq, Eq, Structural)]
pub enum ListenerCall {
    /// Bind the socket to the loopback.
    Bind,
    /// Listen on it.
    Listen,
}

impl ListenerCall {
    /// The call, as complaints name it.
    pub open spec fn text(self) -> Seq<char> {
        if self is Bind {
            "bind"@
        } else {
            "listen"@
        }
    }
}

/// What follows a call that makes a socket a listener.
pub enum ListenerNext {
    /// Make it listen.
    Listen { fd: i32 },
    /// It listens.
    Ready { fd: i32 },
    /// The call failed: close the socket and report the error.
    Failed { close: i32, error: String },
}

/// What follows the call `at` on the socket, which returned `rc`.
pub fn listener_step(fd: i32, at: ListenerCall, rc: i32, errno: Option<i32>) -> (r: ListenerNext)
    ensures
        rc != 0 ==> (r matches ListenerNext::Failed { close, error } && close == fd && error@
            == failure_text(at.text(), errno)),
        rc == 0 && at is Bind ==> r == (ListenerNext::Listen { fd }),
        rc == 0 && at is Listen ==> r == (ListenerNext::Ready { fd }),
{
    match at {
        ListenerCall::Bind => if rc != 0 {
            ListenerNext::Failed { close: fd, error: open_failed("bind", errno) }
        } else {
            ListenerNext::Listen { fd }
        },
        ListenerCall::Listen => if rc != 0 {
            ListenerNext::Failed { close: fd, error: open_failed("listen", errno) }
        } else {
            ListenerNext::Ready { fd }
        },
    }
}

/// What a call returned, and the error number after it.
#[derive(Clone, Copy, Debug, PartialEq, Eq, Structural)]
pub struct CallEnd {
    pub rc: i32,
    pub errno: Option<i32>,
}

/// What the calls for a kind's descriptors come to. What comes after a failed call, or is not
/// made for the kind, does not matter.
pub struct OpenCalls {
    /// What the opening call returned, the pair it filled in, and the error number.
    pub rc: i64,
    pub pair: (i32, i32),
    pub errno: Option<i32>,
    /// What binding and listening came to, for a listener.
    pub bind: CallEnd,
    pub listen: CallEnd,
}

/// What opening a kind's descriptors comes to: the descriptors, or the error and what has to
/// be closed before it is reported.
#[allow(inconsistent_fields)]
pub enum OpenEnd {
    Opened { fds: Seq<i32> },
    Failed { error: Seq<char>, close: Option<i32> },
}

/// The descriptors that are open after the opening call.
pub open spec fn open_after(kind: ParentFdKind, c: OpenCalls) -> Seq<i32> {
    if opening_failed(kind, c.rc) || (kind == ParentFdKind::PidFd && c.rc > i32::MAX) {
        Seq::empty()
    } else {
        opened_fds(kind, c.rc, c.pair)
    }
}

/// What opening a kind's descriptors comes to.
pub open spec fn open_end(kind: ParentFdKind, c: OpenCalls) -> OpenEnd {
    if opening_failed(kind, c.rc) {
        OpenEnd::Failed { error: failure_text(opener_text(kind), c.errno), close: None }
    } else if kind == ParentFdKind::PidFd && c.rc > i32::MAX {
        OpenEnd::Failed {
            error: "pidfd_open returned non-int fd value: "@ + int_text(c.rc as int),
            close: None,
        }
    } else if kind == ParentFdKind::InetListener && c.bind.rc != 0 {
        OpenEnd::Failed {
            error: failure_text(ListenerCall::Bind.text(), c.bind.errno),
            close: Some(c.rc as i32),
        }
    } else if kind == ParentFdKind::InetListener && c.listen.rc != 0 {
        OpenEnd::Failed {
            error: failure_text(ListenerCall::Listen.text(), c.listen.errno),
            close: Some(c.rc as i32),
        }
    } else {
        OpenEnd::Opened { fds: opened_fds(kind, c.rc, c.pair) }
    }
}

/// What opening a kind's descriptors comes to, over all its calls: the descriptors, or the
/// descriptor to close and the error.
pub fn open_result(kind: ParentFdKind, c: OpenCalls) -> (r: Result<Vec<i32>, (Option<i32>, String)>)
    requires
        kind != ParentFdKind::PidFd ==> c.rc <= i32::MAX,
    ensures
        match open_end(kind, c) {
            OpenEnd::Opened { fds } => r matches Ok(v) && v@ == fds,
            OpenEnd::Failed { error, close } => r matches Err(e) && e.0 == close && e.1@ == error,
        },
{
    let fds = match opened(kind, c.rc, c.pair, c.errno) {
        Ok(fds) => fds,
        Err(error) => return Err((None, error)),
    };
    if let ParentFdKind::InetListener = kind {
        match listener_step(fds[0], ListenerCall::Bind, c.bind.rc, c.bind.errno) {
            ListenerNext::Failed { close, error } => return Err((Some(close), error)),
            _ => {},
        }
        match listener_step(fds[0], ListenerCall::Listen, c.listen.rc, c.listen.errno) {
            ListenerNext::Failed { close, error } => return Err((Some(close), error)),
            _ => {},
        }
    }
    Ok(fds)
}

/// A parent holds as many more descriptors as its kind says. They are those that the opening
/// call left open, and none of them is negative: a call that makes two fills in none that is.
pub proof fn law_opened_count(kind: ParentFdKind, c: OpenCalls)
    requires
        open_end(kind, c) is Opened,
        c.rc <= i32::MAX,
        c.pair.0 >= 0 && c.pair.1 >= 0,
    ensures
        ({
            let fds = open_end(kind, c)->fds;
            &&& fds == open_after(kind, c)
            &&& fds.len() == fd_count_of(kind)
            &&& forall|k: int| 0 <= k < fds.len() ==> #[trigger] fds[k] >= 0
        }),
{
}

/// Every failure either opened nothing or names the one open descriptor, which is closed
/// before the error is reported: no failure leaves a descriptor open.
pub proof fn law_failed_open_leaves_nothing(kind: ParentFdKind, c: OpenCalls)
    requires
        open_end(kind, c) is Failed,
    ensures
        match open_end(kind, c)->close {
            None => open_after(kind, c).len() == 0,
            Some(fd) => open_after(kind, c) == seq![fd],
        },
{
}

/// The complaint about a descriptor that is gone before the fork.
pub fn fd_vanished(fd: i32, errno: Option<i32>) -> (r: String)
    ensures
        r@ == "pre-fork F_GETFD on fd="@ + int_text(fd as int) + " failed errno="@ + int_text(
            match errno {
                Some(e) => e as int,
                None => -1,
            },
        ),
{
    let f = dec_i64(fd as i64);
    let n = dec_i64(
        match errno {
            Some(e) => e as i64,
            None => -1,
        },
    );
    let mut text = cat3("pre-fork F_GETFD on fd=", f.as_str(), " failed errno=");
    text.append(n.as_str());
    text
}

/// How the parent's child ended.
#[allow(inconsistent_fields)]
pub enum TriggerEnd {
    NotSpawned { error: String },
    Ended { success: bool, status: String, stdout: Vec<u8>, stderr: Vec<u8> },
}

/// What the parent reports of its child.
pub fn trigger_result(command: &str, end: TriggerEnd) -> (r: Result<String, String>)
    ensures
        match end {
            TriggerEnd::NotSpawned { error } => r matches Err(e) && e@ == "child "@ + command@
                + " fork+exec failed: "@ + error@,
            TriggerEnd::Ended { success, status, stdout, stderr } => if success {
                r matches Ok(d) && d@ == lossy_text(stdout@)
            } else {
                r matches Err(e) && e@ == "child "@ + command@ + " exit="@ + status@ + " stderr="@
                    + lossy_text(stderr@)
            },
        },
{
    match end {
        TriggerEnd::NotSpawned { error } => {
            let mut text = cat3("child ", command, " fork+exec failed: ");
            text.append(error.as_str());
            Err(text)
        },
        TriggerEnd::Ended { success, status, stdout, stderr } => if success {
            Ok(lossy(stdout.as_slice()))
        } else {
            let shown = lossy(stderr.as_slice());
            let mut text = cat3("child ", command, " exit=");
            text.append(status.as_str());
            text.append(" stderr=");
            text.append(shown.as_str());
            Err(text)
        },
    }
}

/// The verdict on a fork of such a parent.
pub fn trigger_outcome(result: Result<String, String>) -> (o: TestOutcome)
    ensures
        o@ == leaf_outcome_view(
            "A"@,
            "DfParentTriggerOut"@,
            result,
            "ECHO_TEST_OK"@,
            "ECHO_TEST_OK"@,
        ),
{
    leaf_outcome("A", "DfParentTriggerOut", result, "ECHO_TEST_OK", "ECHO_TEST_OK")
}

/// How many tests there are: each kind, for three binary types of the parent and of the
/// child.
pub const TRIGGER_TESTS: usize = 99;

/// The test at a position.
pub open spec fn trigger_row(t: int) -> PlanView {
    let kind = parent_fd_kind((t / 9) as usize).text()@;
    let parent = binary_at((t / 3) % 3);
    let child = binary_at(t % 3);
    on_leaf(
        Group { suite: "fork", family: "df_parent_trigger", timeout_secs: Some(60) },
        "DF_PARENT_TRIGGER."@ + kind + "."@ + parent.short_text() + "."@ + child.short_text(),
        Handler::Named("df_parent_trigger.run"),
        AgentName::Dpg1,
        "DFPT_"@ + kind + "_"@ + parent.short_text() + "_"@ + child.short_text(),
        parent.fork_text(),
    )
}

fn trigger_plan(t: usize) -> (r: TestPlan)
    requires
        t < TRIGGER_TESTS,
    ensures
        r@ == trigger_row(t as int),
{
    let kind = parent_fd_kind(t / 9).suffix();
    let parent = binary_type((t / 3) % 3);
    let child = binary_type(t % 3);
    let g = Group { suite: "fork", family: "df_parent_trigger", timeout_secs: Some(60) };
    let mut id = cat3("DF_PARENT_TRIGGER.", kind, ".");
    id.append(parent.short_label());
    id.append(".");
    id.append(child.short_label());
    let mut label = cat3("DFPT_", kind, "_");
    label.append(parent.short_label());
    label.append("_");
    label.append(child.short_label());
    plan_on_leaf(
        g,
        id,
        Handler::Named("df_parent_trigger.run"),
        AgentName::Dpg1,
        label.as_str(),
        fork_binary_label(parent),
    )
}

/// The tests, in order.
pub fn register_df_parent_trigger() -> (r: Vec<TestPlan>)
    ensures
        plan_views(r@) == Seq::new(TRIGGER_TESTS as nat, |t: int| trigger_row(t)),
{
    let mut out: Vec<TestPlan> = Vec::new();
    let mut t: usize = 0;
    while t < TRIGGER_TESTS
        invariant
            t <= TRIGGER_TESTS,
            out@.len() == t,
            forall|k: int| 0 <= k < t ==> (#[trigger] out@[k])@ == trigger_row(k),
        decreases TRIGGER_TESTS - t,
    {
        out.push(trigger_plan(t));
        t = t + 1;
    }
    assert(plan_views(out@) =~= Seq::new(TRIGGER_TESTS as nat, |t: int| trigger_row(t)));
    out
}

/// Opening fails exactly where the kind's call says so: a call that fills in two descriptors by
/// anything but zero, a call that returns one by a negative number; a parent that opens nothing
/// cannot fail.
pub proof fn law_opening_fails(kind: ParentFdKind, rc: i64)
    ensures
        kind is StdioOnly ==> !opening_failed(kind, rc),
        kind is Pipe || kind is UnixSocket ==> (opening_failed(kind, rc) <==> rc != 0),
        !(kind is StdioOnly || kind is Pipe || kind is UnixSocket) ==> (opening_failed(kind, rc)
            <==> rc < 0),
{
}

/// The descriptors of a kind are those that its call gave, in order: both of a pair, the one that
/// was returned, or none.
pub proof fn law_opened_descriptors(kind: ParentFdKind, rc: i64, pair: (i32, i32))
    requires
        0 <= rc <= i32::MAX,
    ensures
        kind is StdioOnly ==> opened_fds(kind, rc, pair).len() == 0,
        kind is Pipe || kind is UnixSocket ==> opened_fds(kind, rc, pair) == seq![pair.0, pair.1],
        !(kind is StdioOnly || kind is Pipe || kind is UnixSocket) ==> (opened_fds(
            kind,
            rc,
            pair,
        ).len() == 1 && opened_fds(kind, rc, pair)[0] == rc),
        fd_count_of(kind) == opened_fds(kind, rc, pair).len(),
{
}

/// A parent's descriptors are open exactly if the opening call worked and, for a listener, binding
/// and listening did too. A listener that cannot be bound or listened on is closed, and the error
/// names the call that failed; what another kind's binding would have come to does not matter.
pub proof fn law_open_end(kind: ParentFdKind, c: OpenCalls)
    requires
        c.rc <= i32::MAX,
    ensures
        open_end(kind, c) is Opened <==> !opening_failed(kind, c.rc) && (kind is InetListener ==> c.bind.rc
            == 0 && c.listen.rc == 0),
        open_end(kind, c) matches OpenEnd::Opened { fds } ==> fds == opened_fds(kind, c.rc, c.pair),
        opening_failed(kind, c.rc) ==> open_end(kind, c) == (OpenEnd::Failed {
            error: failure_text(opener_text(kind), c.errno),
            close: None,
        }),
        kind is InetListener && c.rc >= 0 && c.bind.rc != 0 ==> open_end(kind, c) == (
        OpenEnd::Failed {
            error: failure_text("bind"@, c.bind.errno),
            close: Some(c.rc as i32),
        }),
        kind is InetListener && c.rc >= 0 && c.bind.rc == 0 && c.listen.rc != 0 ==> open_end(
            kind,
            c,
        ) == (OpenEnd::Failed {
            error: failure_text("listen"@, c.listen.errno),
            close: Some(c.rc as i32),
        }),
{
}

/// A failure shows the call and its error number, and minus one where there is none.
pub proof fn law_failure_text(call: Seq<char>, e: i32)
    ensures
        failure_text(call, Some(e)) == call + ": errno="@ + int_text(e as int),
        failure_text(call, None) == call + ": errno="@ + int_text(-1),
{
}

/// Each kind stands at its own position, and the positions are those of the tests.
pub proof fn law_kind_positions(kind: ParentFdKind)
    ensures
        0 <= position(kind) < PARENT_FD_KINDS,
        parent_fd_kind(position(kind) as usize) == kind,
{
}

/// Each kind is tested for three binary types of the parent and three of the child; the parent is
/// a leaf of its own binary type.
pub proof fn law_trigger_covers(kind: ParentFdKind, parent: int, child: int)
    requires
        0 <= parent < 3,
        0 <= child < 3,
    ensures
        ({
            let t = 9 * position(kind) + 3 * parent + child;
            let p = trigger_row(t);
            &&& 0 <= t < TRIGGER_TESTS
            &&& p.id == "DF_PARENT_TRIGGER."@ + kind.text()@ + "."@ + binary_at(
                parent,
            ).short_text() + "."@ + binary_at(child).short_text()
            &&& p.leaves.len() == 1
            &&& p.leaves[0].parent == AgentName::Dpg1
            &&& p.leaves[0].kind == (crate::registry::KindView::Fork {
                binary: binary_at(parent).fork_text(),
                ports: Seq::empty(),
            })
            &&& p.timeout_secs == Some(60u64)
        }),
{
    let t = 9 * position(kind) + 3 * parent + child;
    assert(t / 9 == position(kind) && t / 3 == 3 * position(kind) + parent && (t / 3) % 3 == parent
        && t % 3 == child);
    law_kind_positions(kind);
}

/// A call that failed is shown with its error number, and with minus one where there is none.
pub proof fn law_failed_call_shown(call: Seq<char>, e: i32)
    ensures
        failure_text(call, Some(e)) == call + ": errno="@ + int_text(e as int),
        failure_text(call, None) == call + ": errno="@ + int_text(-1),
{
}

/// The kinds of descriptors that a parent can hold, in order.
pub proof fn law_parent_kinds()
    ensures
        parent_fd_kind(0) == ParentFdKind::StdioOnly,
        parent_fd_kind(1) == ParentFdKind::Pipe,
        parent_fd_kind(2) == ParentFdKind::EventFd,
        parent_fd_kind(3) == ParentFdKind::UnixSocket,
        parent_fd_kind(4) == ParentFdKind::Signalfd,
        parent_fd_kind(5) == ParentFdKind::InetListener,
        parent_fd_kind(6) == ParentFdKind::FilesystemFd,
        parent_fd_kind(7) == ParentFdKind::TimerFd,
        parent_fd_kind(8) == ParentFdKind::Epoll,
        parent_fd_kind(9) == ParentFdKind::Inotify,
        parent_fd_kind(10) == ParentFdKind::PidFd,
{
}

} // verus!
