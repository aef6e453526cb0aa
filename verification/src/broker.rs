//! Probes of listeners and datagram sockets: how they retry, and what they make of what
//! they receive.

use vstd::prelude::*;
use crate::agents::AgentName;
use crate::dns::Ipv4;
use crate::errno::{EAGAIN, EINPROGRESS};
use crate::number::{byte_texts, bytes_debug, dec, dec_i64, dec_text, hex, hex_text, int_text};
use crate::registry::{on_agents, plan_on, plan_views, Group, Handler, PlanView, TestPlan};
use crate::text::{cat, cat3, law_ascii_comes_back, list_text, lossy};

verus! {

/// What a socket probe reports.
#[derive(Clone, Debug)]
pub struct BLOut {
    pub bound_port: u16,
    pub peer_port: u16,
    pub bytes: String,
}

/// What a socket probe reports, in contracts.
pub struct BLView {
    pub bound_port: u16,
    pub peer_port: u16,
    pub bytes: Seq<char>,
}

impl View for BLOut {
    type V = BLView;

    open spec fn view(&self) -> BLView {
        BLView { bound_port: self.bound_port, peer_port: self.peer_port, bytes: self.bytes@ }
    }
}

/// The detail of a socket test.
pub fn bl_detail(out: &BLOut) -> (r: String)
    ensures
        r@ == "bound="@ + dec_text(out.bound_port as nat) + " peer="@ + dec_text(
            out.peer_port as nat,
        ) + " bytes="@ + out.bytes@,
{
    let bound = dec(out.bound_port as u64);
    let peer = dec(out.peer_port as u64);
    let mut text = cat3("bound=", bound.as_str(), " peer=");
    text.append(peer.as_str());
    text.append(" bytes=");
    text.append(out.bytes.as_str());
    text
}

/// A step that failed, and why.
pub open spec fn failed_text(what: Seq<char>, error: Seq<char>) -> Seq<char> {
    what + ": "@ + error
}

/// A step that failed, and why.
pub fn failed(what: &str, error: &str) -> (r: String)
    ensures
        r@ == failed_text(what@, error@),
{
    cat3(what, ": ", error)
}

/// A step that moved an unexpected number of bytes, and why.
pub open spec fn short_text(what: Seq<char>, n: int, error: Seq<char>) -> Seq<char> {
    what + "="@ + int_text(n) + ": "@ + error
}

/// A step that moved an unexpected number of bytes, and why.
pub fn fell_short(what: &str, n: i64, error: &str) -> (r: String)
    ensures
        r@ == short_text(what@, n as int, error@),
{
    let count = dec_i64(n);
    let mut text = cat3(what, "=", count.as_str());
    text.append(": ");
    text.append(error);
    text
}

/// An address and a port.
#[derive(Clone, Copy, Debug, PartialEq, Eq, Structural)]
pub struct Endpoint {
    pub ip: Ipv4,
    pub port: u16,
}

/// The address of no host in particular.
pub open spec fn is_unspecified(ip: Ipv4) -> bool {
    ip == Ipv4 { a: 0, b: 0, c: 0, d: 0 }
}

/// Where to connect to reach a listener that is bound there: a listener on every address
/// is reached over the loopback. No port means that the listener was not bound.
pub fn connect_target(bound: Endpoint) -> (r: Result<Endpoint, String>)
    ensures
        match r {
            Err(e) => bound.port == 0 && e@ == "getsockname returned port 0"@,
            Ok(to) => bound.port != 0 && to == if is_unspecified(bound.ip) {
                Endpoint { ip: Ipv4 { a: 127, b: 0, c: 0, d: 1 }, port: bound.port }
            } else {
                bound
            },
        },
{
    if bound.port == 0 {
        return Err("getsockname returned port 0".to_string());
    }
    let ip = bound.ip;
    if ip.a == 0 && ip.b == 0 && ip.c == 0 && ip.d == 0 {
        Ok(Endpoint { ip: Ipv4 { a: 127, b: 0, c: 0, d: 1 }, port: bound.port })
    } else {
        Ok(bound)
    }
}

/// Whether a connect without waiting is under way. `done` is whether it succeeded at once.
pub fn connect_started(done: bool, errno: Option<i32>, error: &str) -> (r: Result<(), String>)
    ensures
        match r {
            Ok(()) => done || errno == Some(EINPROGRESS),
            Err(e) => !done && errno != Some(EINPROGRESS) && e@ == failed_text("connect"@, error@),
        },
{
    if done || errno == Some(EINPROGRESS) {
        Ok(())
    } else {
        Err(failed("connect", error))
    }
}

/// Whether a repeated step goes on.
pub enum Retry {
    /// Try again after a pause.
    Again,
    Finished { result: Result<(), String> },
}

/// One try to write the two bytes of the greeting, of which `n` were written.
pub fn greet_step(n: i64, errno: Option<i32>, error: &str, late: bool) -> (r: Retry)
    ensures
        if n == 2 {
            r matches Retry::Finished { result: Ok(()) }
        } else if errno != Some(EAGAIN) {
            r matches Retry::Finished { result: Err(e) } && e@ == "write n="@ + int_text(n as int)
                + " err="@ + error@
        } else if late {
            r matches Retry::Finished { result: Err(e) } && e@ == "write timed out"@
        } else {
            r is Again
        },
{
    if n == 2 {
        Retry::Finished { result: Ok(()) }
    } else if errno != Some(EAGAIN) {
        let count = dec_i64(n);
        let mut text = cat3("write n=", count.as_str(), " err=");
        text.append(error);
        Retry::Finished { result: Err(text) }
    } else if late {
        Retry::Finished { result: Err("write timed out".to_string()) }
    } else {
        Retry::Again
    }
}

/// What became of the thread at the other end.
pub enum Partner {
    Running,
    Finished { result: Result<(), String> },
    Panicked,
}

/// Why an accept gives up once its time is over.
pub open spec fn accept_text(partner: Partner) -> Seq<char> {
    match partner {
        Partner::Running => "accept timed out waiting for connector"@,
        Partner::Finished { result: Ok(()) } => "connector exited before accept"@,
        Partner::Finished { result: Err(e) } => e@,
        Partner::Panicked => "connector panicked"@,
    }
}

/// One try to accept a connection, which gave none. `partner` says what became of the
/// connecting thread, for a probe that looks.
pub fn accept_step(errno: Option<i32>, error: &str, late: bool, partner: Partner) -> (r: Retry)
    ensures
        if errno != Some(EAGAIN) {
            r matches Retry::Finished { result: Err(e) } && e@ == failed_text("accept"@, error@)
        } else if late {
            r matches Retry::Finished { result: Err(e) } && e@ == accept_text(partner)
        } else {
            r is Again
        },
{
    if errno != Some(EAGAIN) {
        Retry::Finished { result: Err(failed("accept", error)) }
    } else if late {
        let why = match partner {
            Partner::Running => "accept timed out waiting for connector".to_string(),
            Partner::Finished { result } => match result {
                Ok(()) => "connector exited before accept".to_string(),
                Err(e) => e,
            },
            Partner::Panicked => "connector panicked".to_string(),
        };
        Retry::Finished { result: Err(why) }
    } else {
        Retry::Again
    }
}

/// The report of the accepting probe.
pub fn accepted(bound_port: u16, peer_port: u16) -> (r: BLOut)
    ensures
        r@ == (BLView { bound_port, peer_port, bytes: "accepted"@ }),
{
    BLOut { bound_port, peer_port, bytes: "accepted".to_string() }
}

/// The bytes are those of an ASCII text.
pub open spec fn spells(bytes: Seq<u8>, text: Seq<char>) -> bool {
    bytes =~= text.map_values(|c: char| c as u8)
}

/// Check what the connecting side sent: `n` bytes, of which the buffer holds five.
pub fn check_hello(n: i64, error: &str, buf: &[u8]) -> (r: Result<String, String>)
    ensures
        if n != 5 {
            r matches Err(e) && e@ == short_text("read n"@, n as int, error@)
        } else if !spells(buf@, "hello"@) {
            r matches Err(e) && e@ == failed_text("read bytes"@, list_text(byte_texts(buf@)))
        } else {
            r matches Ok(s) && s@ == "hello"@
        },
{
    if n != 5 {
        return Err(fell_short("read n", n, error));
    }
    proof {
        reveal_strlit("hello");
    }
    let right = buf.len() == 5 && buf[0] == 104 && buf[1] == 101 && buf[2] == 108 && buf[3] == 108
        && buf[4] == 111;
    assert(right == spells(buf@, "hello"@)) by {
        let t = "hello"@.map_values(|c: char| c as u8);
        if spells(buf@, "hello"@) {
            assert(buf@[0] == t[0] && buf@[1] == t[1] && buf@[2] == t[2] && buf@[3] == t[3]
                && buf@[4] == t[4]);
        }
    }
    if !right {
        let shown = bytes_debug(buf);
        Err(failed("read bytes", shown.as_str()))
    } else {
        proof {
            law_ascii_comes_back("hello"@);
        }
        Ok(lossy(buf))
    }
}

/// Check what the datagram sender sent: `n` bytes, of which `buf` holds the first two.
pub fn check_hi(n: i64, error: &str, buf: &[u8]) -> (r: Result<String, String>)
    ensures
        if n != 2 {
            r matches Err(e) && e@ == short_text("recvfrom n"@, n as int, error@)
        } else if !spells(buf@, "hi"@) {
            r matches Err(e) && e@ == failed_text("recvfrom bytes"@, list_text(byte_texts(buf@)))
        } else {
            r matches Ok(s) && s@ == "hi"@
        },
{
    if n != 2 {
        return Err(fell_short("recvfrom n", n, error));
    }
    proof {
        reveal_strlit("hi");
    }
    let right = buf.len() == 2 && buf[0] == 104 && buf[1] == 105;
    assert(right == spells(buf@, "hi"@)) by {
        let t = "hi"@.map_values(|c: char| c as u8);
        if spells(buf@, "hi"@) {
            assert(buf@[0] == t[0] && buf@[1] == t[1]);
        }
    }
    if !right {
        let shown = bytes_debug(buf);
        Err(failed("recvfrom bytes", shown.as_str()))
    } else {
        proof {
            law_ascii_comes_back("hi"@);
        }
        Ok(lossy(buf))
    }
}

/// The two probes of a listener.
#[derive(Clone, Copy, Debug, PartialEq, Eq, Structural)]
pub enum ListenerProbe {
    /// A connection is accepted.
    Accepts,
    /// A connection is accepted and its data read.
    Reads,
}

/// How far a probe of a listener is.
pub enum ListenPhase {
    /// Its socket is opened.
    Socket,
    Bind,
    Listen,
    /// Its address is asked for.
    Name,
    /// The connecting thread runs, and a connection is waited for.
    Accept { bound_port: u16 },
    /// The connection's data is read.
    Read { bound_port: u16, peer_port: u16 },
    /// The connecting thread is waited for.
    Join { bound_port: u16, peer_port: u16, bytes: String },
    /// It is over.
    Over { result: Result<BLOut, String> },
}

/// What a step of a probe gave.
pub enum ListenEvent<'a> {
    /// A call without a value worked.
    Worked,
    /// A call failed.
    Failed { error: &'a str },
    /// The listener's address.
    Named { bound: Endpoint },
    /// A connection from the port.
    Accepted { peer_port: u16 },
    /// No connection yet.
    NotAccepted { errno: Option<i32>, error: &'a str, late: bool, partner: Partner },
    /// What the read gave.
    Got { n: i64, error: &'a str, buf: &'a [u8] },
    /// What became of the connecting thread.
    Joined { partner: Partner },
}

/// The socket call, as the probe's complaint names it.
pub open spec fn socket_call(kind: ListenerProbe) -> Seq<char> {
    match kind {
        ListenerProbe::Accepts => "socket(AF_INET, SOCK_STREAM)"@,
        ListenerProbe::Reads => "listener socket(AF_INET, SOCK_STREAM)"@,
    }
}

/// The probe is over with this complaint.
pub open spec fn over_with(p: ListenPhase, error: Seq<char>) -> bool {
    p matches ListenPhase::Over { result: Err(e) } && e@ == error
}

/// The probe is over with this report.
pub open spec fn over_well(p: ListenPhase, report: BLView) -> bool {
    p matches ListenPhase::Over { result: Ok(o) } && o@ == report
}

/// Why the probe fails once its connecting thread did, if that failed.
pub open spec fn partner_complaint(partner: Partner) -> Option<Seq<char>> {
    match partner {
        Partner::Finished { result: Err(e) } => Some(e@),
        Partner::Panicked => Some("connector panicked"@),
        _ => None,
    }
}

/// The event is one that the phase can bring.
pub open spec fn fits(p: ListenPhase, ev: ListenEvent) -> bool {
    match p {
        ListenPhase::Socket => ev is Worked || ev is Failed,
        ListenPhase::Bind => ev is Worked || ev is Failed,
        ListenPhase::Listen => ev is Worked || ev is Failed,
        ListenPhase::Name => ev is Named || ev is Failed,
        ListenPhase::Accept { .. } => ev is Accepted || ev is NotAccepted,
        ListenPhase::Read { .. } => ev is Got,
        ListenPhase::Join { .. } => ev is Joined,
        ListenPhase::Over { .. } => false,
    }
}

/// The phase that follows.
pub open spec fn follows(kind: ListenerProbe, p: ListenPhase, ev: ListenEvent, q: ListenPhase) -> bool {
    match (p, ev) {
        (ListenPhase::Socket, ListenEvent::Failed { error }) => over_with(
            q,
            failed_text(socket_call(kind), error@),
        ),
        (ListenPhase::Socket, _) => q is Bind,
        (ListenPhase::Bind, ListenEvent::Failed { error }) => over_with(
            q,
            failed_text("bind"@, error@),
        ),
        (ListenPhase::Bind, _) => q is Listen,
        (ListenPhase::Listen, ListenEvent::Failed { error }) => over_with(
            q,
            failed_text("listen"@, error@),
        ),
        (ListenPhase::Listen, _) => q is Name,
        (ListenPhase::Name, ListenEvent::Failed { error }) => over_with(
            q,
            failed_text("getsockname"@, error@),
        ),
        (ListenPhase::Name, ListenEvent::Named { bound }) => if bound.port == 0 {
            over_with(q, "getsockname returned port 0"@)
        } else {
            q == (ListenPhase::Accept { bound_port: bound.port })
        },
        (ListenPhase::Accept { bound_port }, ListenEvent::Accepted { peer_port }) => match kind {
            ListenerProbe::Accepts => over_well(
                q,
                BLView { bound_port, peer_port, bytes: "accepted"@ },
            ),
            ListenerProbe::Reads => q == (ListenPhase::Read { bound_port, peer_port }),
        },
        (
            ListenPhase::Accept { bound_port },
            ListenEvent::NotAccepted { errno, error, late, partner },
        ) => if errno != Some(EAGAIN) {
            over_with(q, failed_text("accept"@, error@))
        } else if late {
            over_with(
                q,
                match kind {
                    ListenerProbe::Accepts => accept_text(partner),
                    ListenerProbe::Reads => accept_text(Partner::Running),
                },
            )
        } else {
            q == p
        },
        (ListenPhase::Read { bound_port, peer_port }, ListenEvent::Got { n, error, buf }) => if n
            != 5 {
            over_with(q, short_text("read n"@, n as int, error@))
        } else if !spells(buf@, "hello"@) {
            over_with(q, failed_text("read bytes"@, list_text(byte_texts(buf@))))
        } else {
            q matches ListenPhase::Join { bound_port: b, peer_port: r, bytes } && b == bound_port
                && r == peer_port && bytes@ == "hello"@
        },
        (
            ListenPhase::Join { bound_port, peer_port, bytes },
            ListenEvent::Joined { partner },
        ) => match partner_complaint(partner) {
            Some(c) => over_with(q, c),
            None => over_well(q, BLView { bound_port, peer_port, bytes: bytes@ }),
        },
        _ => q == p,
    }
}

fn over(error: String) -> (r: ListenPhase)
    ensures
        over_with(r, error@),
{
    ListenPhase::Over { result: Err(error) }
}

/// The phase that follows.
pub fn listen_step(kind: ListenerProbe, p: ListenPhase, ev: ListenEvent) -> (q: ListenPhase)
    requires
        fits(p, ev),
    ensures
        follows(kind, p, ev, q),
{
    match (p, ev) {
        (ListenPhase::Socket, ListenEvent::Failed { error }) => {
            let call = match kind {
                ListenerProbe::Accepts => "socket(AF_INET, SOCK_STREAM)",
                ListenerProbe::Reads => "listener socket(AF_INET, SOCK_STREAM)",
            };
            over(failed(call, error))
        },
        (ListenPhase::Socket, _) => ListenPhase::Bind,
        (ListenPhase::Bind, ListenEvent::Failed { error }) => over(failed("bind", error)),
        (ListenPhase::Bind, _) => ListenPhase::Listen,
        (ListenPhase::Listen, ListenEvent::Failed { error }) => over(failed("listen", error)),
        (ListenPhase::Listen, _) => ListenPhase::Name,
        (ListenPhase::Name, ListenEvent::Failed { error }) => over(failed("getsockname", error)),
        (ListenPhase::Name, ListenEvent::Named { bound }) => match connect_target(bound) {
            Err(e) => over(e),
            Ok(_) => ListenPhase::Accept { bound_port: bound.port },
        },
        (ListenPhase::Accept { bound_port }, ListenEvent::Accepted { peer_port }) => match kind {
            ListenerProbe::Accepts => ListenPhase::Over {
                result: Ok(accepted(bound_port, peer_port)),
            },
            ListenerProbe::Reads => ListenPhase::Read { bound_port, peer_port },
        },
        (
            ListenPhase::Accept { bound_port },
            ListenEvent::NotAccepted { errno, error, late, partner },
        ) => {
            let seen = match kind {
                ListenerProbe::Accepts => partner,
                ListenerProbe::Reads => Partner::Running,
            };
            match accept_step(errno, error, late, seen) {
                Retry::Again => ListenPhase::Accept { bound_port },
                Retry::Finished { result } => match result {
                    Err(e) => over(e),
                    Ok(()) => ListenPhase::Accept { bound_port },
                },
            }
        },
        (ListenPhase::Read { bound_port, peer_port }, ListenEvent::Got { n, error, buf }) => {
            match check_hello(n, error, buf) {
                Err(e) => over(e),
                Ok(bytes) => ListenPhase::Join { bound_port, peer_port, bytes },
            }
        },
        (
            ListenPhase::Join { bound_port, peer_port, bytes },
            ListenEvent::Joined { partner },
        ) => match partner {
            Partner::Finished { result: Err(e) } => over(e),
            Partner::Panicked => over("connector panicked".to_string()),
            _ => ListenPhase::Over { result: Ok(BLOut { bound_port, peer_port, bytes }) },
        },
        (p, _) => p,
    }
}

/// How many steps a probe can still need at most, waits for a connection aside.
pub open spec fn phases_left(p: ListenPhase) -> nat {
    match p {
        ListenPhase::Socket => 7,
        ListenPhase::Bind => 6,
        ListenPhase::Listen => 5,
        ListenPhase::Name => 4,
        ListenPhase::Accept { .. } => 3,
        ListenPhase::Read { .. } => 2,
        ListenPhase::Join { .. } => 1,
        ListenPhase::Over { .. } => 0,
    }
}

/// A probe goes forward with every event, except that it may wait on for a connection until
/// its time is up.
pub proof fn law_listen_progress(kind: ListenerProbe, p: ListenPhase, ev: ListenEvent, q: ListenPhase)
    requires
        fits(p, ev),
        follows(kind, p, ev, q),
    ensures
        phases_left(q) < phases_left(p) || (p is Accept && q == p && ev is NotAccepted && !ev->late),
{
}

/// The phases that a probe can be in: one that only accepts neither reads nor joins, and a
/// probe that has a port has one other than zero.
pub open spec fn possible(kind: ListenerProbe, p: ListenPhase) -> bool {
    match p {
        ListenPhase::Accept { bound_port } => bound_port != 0,
        ListenPhase::Read { bound_port, .. } => kind == ListenerProbe::Reads && bound_port != 0,
        ListenPhase::Join { bound_port, .. } => kind == ListenerProbe::Reads && bound_port != 0,
        ListenPhase::Over { result: Ok(o) } => o.bound_port != 0,
        _ => true,
    }
}

/// A probe stays in the phases that it can be in.
pub proof fn law_listen_possible(kind: ListenerProbe, p: ListenPhase, ev: ListenEvent, q: ListenPhase)
    requires
        possible(kind, p),
        fits(p, ev),
        follows(kind, p, ev, q),
    ensures
        possible(kind, q),
{
}

/// A probe that reads reports success only once the connecting side's data came whole and
/// its thread ended without complaint, and one that accepts only when a connection came.
pub proof fn law_listen_success(kind: ListenerProbe, p: ListenPhase, ev: ListenEvent, q: ListenPhase)
    requires
        possible(kind, p),
        fits(p, ev),
        follows(kind, p, ev, q),
        q matches ListenPhase::Over { result: Ok(_) },
    ensures
        kind == ListenerProbe::Accepts ==> p is Accept && ev is Accepted,
        kind == ListenerProbe::Reads ==> p is Join && partner_complaint(ev->Joined_partner) is None,
{
}

/// The flag by which the kernel says that a datagram was cut short.
pub const MSG_TRUNC: u32 = 0x20;

/// How long the datagram of the truncation test is, and how long the buffer for it.
pub const LONG_DATAGRAM: usize = 4096;

pub const SHORT_BUFFER: usize = 100;

/// Check a datagram that was longer than its buffer: the buffer is full, the kernel says
/// so, and what fits is kept.
pub fn check_truncated(n: i64, error: &str, flags: u32, buf: &[u8]) -> (r: Result<String, String>)
    ensures
        if n != SHORT_BUFFER {
            r matches Err(e) && e@ == short_text("recvmsg n"@, n as int, error@) + " flags="@
                + hex_text(flags as nat)
        } else if flags & MSG_TRUNC == 0 {
            r matches Err(e) && e@ == "recvmsg missing MSG_TRUNC: flags="@ + hex_text(flags as nat)
        } else if exists|k: int| 0 <= k < buf@.len() && buf@[k] != 120 {
            r matches Err(e) && e@ == "truncated payload bytes not preserved"@
        } else {
            r matches Ok(s) && s@ == int_text(n as int) + " bytes trunc"@
        },
{
    let shown = hex(flags as u64);
    if n != SHORT_BUFFER as i64 {
        let mut text = fell_short("recvmsg n", n, error);
        text.append(" flags=");
        text.append(shown.as_str());
        return Err(text);
    }
    if flags & MSG_TRUNC == 0 {
        return Err(cat("recvmsg missing MSG_TRUNC: flags=", shown.as_str()));
    }
    let mut i: usize = 0;
    while i < buf.len()
        invariant
            i <= buf.len(),
            n == SHORT_BUFFER,
            flags & MSG_TRUNC != 0,
            forall|k: int| 0 <= k < i ==> buf@[k] == 120,
        decreases buf.len() - i,
    {
        if buf[i] != 120 {
            return Err("truncated payload bytes not preserved".to_string());
        }
        i = i + 1;
    }
    let count = dec_i64(n);
    Ok(cat(count.as_str(), " bytes trunc"))
}

/// What the sending thread came to: its own port, or why it failed.
pub enum SenderEnd {
    Sent { port: u16 },
    Failed { error: String },
    Panicked,
}

/// The report of a datagram probe: the datagram must come from the sender's port.
pub fn datagram_report(bound_port: u16, peer_port: u16, sender: SenderEnd, bytes: String) -> (r:
    Result<BLOut, String>)
    ensures
        match sender {
            SenderEnd::Panicked => r matches Err(e) && e@ == "sender panicked"@,
            SenderEnd::Failed { error } => r matches Err(e) && e@ == error@,
            SenderEnd::Sent { port } => if peer_port != port {
                r matches Err(e) && e@ == "peer port "@ + dec_text(peer_port as nat)
                    + " != sender port "@ + dec_text(port as nat)
            } else {
                r matches Ok(o) && o@ == (BLView { bound_port, peer_port, bytes: bytes@ })
            },
        },
{
    match sender {
        SenderEnd::Panicked => Err("sender panicked".to_string()),
        SenderEnd::Failed { error } => Err(error),
        SenderEnd::Sent { port } => if peer_port != port {
            let a = dec(peer_port as u64);
            let b = dec(port as u64);
            let mut text = cat3("peer port ", a.as_str(), " != sender port ");
            text.append(b.as_str());
            Err(text)
        } else {
            Ok(BLOut { bound_port, peer_port, bytes })
        },
    }
}

/// How many listener tests there are.
pub const BROKER_TESTS: usize = 11;

/// Suite, family, id, agent and handler of a listener test.
#[verifier::allow_in_spec]
pub fn broker_case(k: usize) -> (&'static str, &'static str, &'static str, AgentName, &'static str)
    returns
        (if k == 0 {
            (
                "broker_listener",
                "listen_basic",
                "BL.listen_basic.pie-glibc.dpg1",
                AgentName::Dpg1,
                "broker_listener.listen_basic",
            )
        } else if k == 1 {
            (
                "broker_listener",
                "udp_recvfrom_remote_addr",
                "BL.udp_recvfrom_remote_addr.pie-glibc.dpg1",
                AgentName::Dpg1,
                "broker_listener.udp_recvfrom_remote_addr",
            )
        } else if k == 2 {
            (
                "invariants",
                "udp_truncation",
                "INV.udp_truncation.pie-glibc.dpg1",
                AgentName::Dpg1,
                "broker_listener.udp_truncation",
            )
        } else if k == 3 {
            (
                "broker_listener",
                "connect_basic",
                "BL.connect_basic.pie-glibc.dpg1",
                AgentName::Dpg1,
                "broker_listener.connect_basic",
            )
        } else if k == 4 {
            (
                "broker_listener",
                "dns_resolve",
                "BL.dns_resolve.pie-glibc.dpg1",
                AgentName::Dpg1,
                "broker_listener.dns_resolve",
            )
        } else if k == 5 {
            (
                "broker_listener",
                "dns_resolve_cname_heavy",
                "BL.dns_resolve_cname_heavy.pie-glibc.dpg1",
                AgentName::Dpg1,
                "broker_listener.dns_resolve_cname_heavy",
            )
        } else if k == 6 {
            (
                "broker_listener",
                "dns_resolve_cname_heavy",
                "BL.dns_resolve_cname_heavy.nonpie-glibc.dpg1_dng",
                AgentName::Dpg1Dng,
                "broker_listener.dns_resolve_cname_heavy",
            )
        } else if k == 7 {
            (
                "broker_listener",
                "dns_resolve_cname_heavy",
                "BL.dns_resolve_cname_heavy.static-pie-glibc.dpg1_spg",
                AgentName::Dpg1Spg,
                "broker_listener.dns_resolve_cname_heavy",
            )
        } else if k == 8 {
            (
                "broker_listener",
                "dns_resolve_cname_heavy",
                "BL.dns_resolve_cname_heavy.static-pie-musl.dpg1_spm",
                AgentName::Dpg1Spm,
                "broker_listener.dns_resolve_cname_heavy",
            )
        } else if k == 9 {
            (
                "broker_listener",
                "dns_resolve_cname_heavy",
                "BL.dns_resolve_cname_heavy.non-pie-static-musl.dpg1_snm",
                AgentName::Dpg1Snm,
                "broker_listener.dns_resolve_cname_heavy",
            )
        } else {
            (
                "broker_listener",
                "raw_icmp_echo",
                "BL.raw_icmp_echo.pie-glibc.dpg1",
                AgentName::Dpg1,
                "broker_listener.raw_icmp_echo",
            )
        }),
{
    if k == 0 {
        (
            "broker_listener",
            "listen_basic",
            "BL.listen_basic.pie-glibc.dpg1",
            AgentName::Dpg1,
            "broker_listener.listen_basic",
        )
    } else if k == 1 {
        (
            "broker_listener",
            "udp_recvfrom_remote_addr",
            "BL.udp_recvfrom_remote_addr.pie-glibc.dpg1",
            AgentName::Dpg1,
            "broker_listener.udp_recvfrom_remote_addr",
        )
    } else if k == 2 {
        (
            "invariants",
            "udp_truncation",
            "INV.udp_truncation.pie-glibc.dpg1",
            AgentName::Dpg1,
            "broker_listener.udp_truncation",
        )
    } else if k == 3 {
        (
            "broker_listener",
            "connect_basic",
            "BL.connect_basic.pie-glibc.dpg1",
            AgentName::Dpg1,
            "broker_listener.connect_basic",
        )
    } else if k == 4 {
        (
            "broker_listener",
            "dns_resolve",
            "BL.dns_resolve.pie-glibc.dpg1",
            AgentName::Dpg1,
            "broker_listener.dns_resolve",
        )
    } else if k == 5 {
        (
            "broker_listener",
            "dns_resolve_cname_heavy",
            "BL.dns_resolve_cname_heavy.pie-glibc.dpg1",
            AgentName::Dpg1,
            "broker_listener.dns_resolve_cname_heavy",
        )
    } else if k == 6 {
        (
            "broker_listener",
            "dns_resolve_cname_heavy",
            "BL.dns_resolve_cname_heavy.nonpie-glibc.dpg1_dng",
            AgentName::Dpg1Dng,
            "broker_listener.dns_resolve_cname_heavy",
        )
    } else if k == 7 {
        (
            "broker_listener",
            "dns_resolve_cname_heavy",
            "BL.dns_resolve_cname_heavy.static-pie-glibc.dpg1_spg",
            AgentName::Dpg1Spg,
            "broker_listener.dns_resolve_cname_heavy",
        )
    } else if k == 8 {
        (
            "broker_listener",
            "dns_resolve_cname_heavy",
            "BL.dns_resolve_cname_heavy.static-pie-musl.dpg1_spm",
            AgentName::Dpg1Spm,
            "broker_listener.dns_resolve_cname_heavy",
        )
    } else if k == 9 {
        (
            "broker_listener",
            "dns_resolve_cname_heavy",
            "BL.dns_resolve_cname_heavy.non-pie-static-musl.dpg1_snm",
            AgentName::Dpg1Snm,
            "broker_listener.dns_resolve_cname_heavy",
        )
    } else {
        (
            "broker_listener",
            "raw_icmp_echo",
            "BL.raw_icmp_echo.pie-glibc.dpg1",
            AgentName::Dpg1,
            "broker_listener.raw_icmp_echo",
        )
    }
}

/// The listener test at a position.
pub open spec fn broker_row(t: int) -> PlanView {
    let c = broker_case(t as usize);
    on_agents(
        Group { suite: c.0, family: c.1, timeout_secs: None },
        c.2@,
        Handler::Named(c.4),
        seq![c.3],
    )
}

/// The listener tests, in order.
pub fn register_broker_listener_tests() -> (r: Vec<TestPlan>)
    ensures
        plan_views(r@) == Seq::new(BROKER_TESTS as nat, |t: int| broker_row(t)),
{
    let mut out: Vec<TestPlan> = Vec::new();
    let mut t: usize = 0;
    while t < BROKER_TESTS
        invariant
            t <= BROKER_TESTS,
            out@.len() == t,
            forall|k: int| 0 <= k < t ==> (#[trigger] out@[k])@ == broker_row(k),
        decreases BROKER_TESTS - t,
    {
        let c = broker_case(t);
        let g = Group { suite: c.0, family: c.1, timeout_secs: None };
        out.push(plan_on(g, c.2.to_string(), Handler::Named(c.4), c.3));
        t = t + 1;
    }
    assert(plan_views(out@) =~= Seq::new(BROKER_TESTS as nat, |t: int| broker_row(t)));
    out
}

/// A probe of a listener goes through its set-up in one order, and the first call that fails ends
/// it with the call's name and the error.
pub proof fn law_listen_setup(kind: ListenerProbe, p: ListenPhase, ev: ListenEvent, q: ListenPhase)
    requires
        fits(p, ev),
        follows(kind, p, ev, q),
    ensures
        ev is Worked && p is Socket ==> q is Bind,
        ev is Worked && p is Bind ==> q is Listen,
        ev is Worked && p is Listen ==> q is Name,
        ev matches ListenEvent::Failed { error } ==> (q matches ListenPhase::Over { result }
            && result matches Err(e) && e@ == (match p {
            ListenPhase::Socket => if kind is Accepts {
                "socket(AF_INET, SOCK_STREAM)"@
            } else {
                "listener socket(AF_INET, SOCK_STREAM)"@
            },
            ListenPhase::Bind => "bind"@,
            ListenPhase::Listen => "listen"@,
            _ => "getsockname"@,
        }) + ": "@ + error@),
{
}

/// The ports in a probe's report are the one that its listener was bound to and the one that the
/// connection came from: every phase hands them on unchanged. A listener without a port ends it.
pub proof fn law_listen_ports(kind: ListenerProbe, p: ListenPhase, ev: ListenEvent, q: ListenPhase)
    requires
        fits(p, ev),
        follows(kind, p, ev, q),
    ensures
        ev matches ListenEvent::Named { bound } ==> {
            &&& bound.port != 0 ==> q == (ListenPhase::Accept { bound_port: bound.port })
            &&& bound.port == 0 ==> (q matches ListenPhase::Over { result } && result matches Err(e)
                && e@ == "getsockname returned port 0"@)
        },
        ev matches ListenEvent::Accepted { peer_port } ==> (p matches ListenPhase::Accept {
            bound_port,
        } && {
            &&& kind is Reads ==> q == (ListenPhase::Read { bound_port, peer_port })
            &&& kind is Accepts ==> (q matches ListenPhase::Over { result } && result matches Ok(o)
                && o.bound_port == bound_port && o.peer_port == peer_port && o.bytes@
                == "accepted"@)
        }),
        p matches ListenPhase::Read { bound_port, peer_port } ==> (q matches ListenPhase::Join {
            bound_port: b,
            peer_port: r,
            ..
        } ==> b == bound_port && r == peer_port),
        p matches ListenPhase::Join { bound_port, peer_port, bytes } ==> (
        q matches ListenPhase::Over { result } ==> (result matches Ok(o) ==> o.bound_port
            == bound_port && o.peer_port == peer_port && o.bytes@ == bytes@)),
{
}

/// A probe waits on for a connection exactly if there is none yet and its time is not up.
pub proof fn law_listen_waits(
    kind: ListenerProbe,
    bound_port: u16,
    errno: Option<i32>,
    error: &str,
    late: bool,
    partner: Partner,
    q: ListenPhase,
)
    requires
        follows(
            kind,
            ListenPhase::Accept { bound_port },
            ListenEvent::NotAccepted { errno, error, late, partner },
            q,
        ),
    ensures
        q == (ListenPhase::Accept { bound_port }) <==> errno == Some(11i32) && !late,
        !(q is Accept) ==> (q matches ListenPhase::Over { result } && result is Err),
        errno != Some(11i32) ==> (q matches ListenPhase::Over { result } && result matches Err(e)
            && e@ == "accept: "@ + error@),
{
    reveal_strlit("accept: ");
    reveal_strlit("accept");
    reveal_strlit(": ");
    assert("accept"@ + ": "@ =~= "accept: "@);
}

/// What the connecting side sent is accepted exactly if it is the five bytes of its greeting.
pub proof fn law_listen_reads(
    bound_port: u16,
    peer_port: u16,
    n: i64,
    error: &str,
    buf: &[u8],
    q: ListenPhase,
)
    requires
        follows(
            ListenerProbe::Reads,
            ListenPhase::Read { bound_port, peer_port },
            ListenEvent::Got { n, error, buf },
            q,
        ),
    ensures
        q is Join <==> n == 5 && buf@ == seq![104u8, 101u8, 108u8, 108u8, 111u8],
        q matches ListenPhase::Join { bytes, .. } ==> bytes@ == "hello"@,
        !(q is Join) ==> (q matches ListenPhase::Over { result } && result is Err),
{
    law_greetings(buf@);
}

/// The two greetings, byte by byte.
pub proof fn law_greetings(bytes: Seq<u8>)
    ensures
        spells(bytes, "hello"@) <==> bytes == seq![104u8, 101u8, 108u8, 108u8, 111u8],
        spells(bytes, "hi"@) <==> bytes == seq![104u8, 105u8],
{
    reveal_strlit("hello");
    reveal_strlit("hi");
    assert("hello"@.map_values(|c: char| c as u8) =~= seq![104u8, 101u8, 108u8, 108u8, 111u8]);
    assert("hi"@.map_values(|c: char| c as u8) =~= seq![104u8, 105u8]);
}

/// A connecting thread that failed or broke off fails the probe, and one that ended well or still
/// runs does not.
pub proof fn law_partner_decides(partner: Partner)
    ensures
        partner_complaint(partner) is None <==> partner is Running || (
        partner matches Partner::Finished { result } && result is Ok),
        partner matches Partner::Finished { result } ==> (result matches Err(e)
            ==> partner_complaint(partner) == Some(e@) && accept_text(partner) == e@),
        partner is Panicked ==> partner_complaint(partner) == Some("connector panicked"@)
            && accept_text(partner) == "connector panicked"@,
        partner is Running ==> accept_text(partner) == "accept timed out waiting for connector"@,
        (partner matches Partner::Finished { result } && result is Ok) ==> accept_text(partner)
            == "connector exited before accept"@,
{
}

/// No address in particular is the one whose four parts are zero, and no other.
pub proof fn law_unspecified(ip: Ipv4)
    ensures
        is_unspecified(ip) <==> ip.a == 0 && ip.b == 0 && ip.c == 0 && ip.d == 0,
{
}

/// A failure shows the step, what it moved where that counts, and the error, in this order.
pub proof fn law_failure_texts(what: Seq<char>, n: int, error: Seq<char>)
    ensures
        failed_text(what, error) == what + ": "@ + error,
        short_text(what, n, error) == what + "="@ + int_text(n) + ": "@ + error,
        MSG_TRUNC == 0x20,
        SHORT_BUFFER < LONG_DATAGRAM,
        SHORT_BUFFER == 100,
        LONG_DATAGRAM == 4096,
{
}

/// A probe that is over with a complaint did not end well, and shows that complaint.
pub proof fn law_over_with(p: ListenPhase, error: Seq<char>, other: Seq<char>)
    requires
        over_with(p, error),
    ensures
        p matches ListenPhase::Over { result } && (result matches Err(e) && e@ == error),
        over_with(p, other) ==> other == error,
{
}

/// Each phase takes the event of its own call: a call that worked or failed, the address, a
/// connection or none, what was read, and the end of the partner; a probe that is over takes none.
pub proof fn law_phase_events(p: ListenPhase, ev: ListenEvent)
    ensures
        p is Socket || p is Bind || p is Listen ==> (fits(p, ev) <==> ev is Worked || ev is Failed),
        p is Name ==> (fits(p, ev) <==> ev is Named || ev is Failed),
        p is Accept ==> (fits(p, ev) <==> ev is Accepted || ev is NotAccepted),
        p is Read ==> (fits(p, ev) <==> ev is Got),
        p is Join ==> (fits(p, ev) <==> ev is Joined),
        p is Over ==> !fits(p, ev),
{
}

} // verus!
