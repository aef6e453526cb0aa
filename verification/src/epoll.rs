//! Readiness events: which ones a probe waits for, how long it keeps asking, and what it
//! reports.

use vstd::prelude::*;
use crate::number::{dec, dec_text, dec_texts, numbers_debug};
use crate::text::{cat, cat3, list_text, same, split, split_text, texts};

verus! {

/// An event that a wait reported.
#[derive(Debug)]
pub struct EpollEvent {
    /// What kind of descriptor became ready.
    pub kind: String,
    /// Its number among those of its kind.
    pub id: u64,
    /// What it is ready for, as names with bars between them.
    pub observed_events: String,
}

/// The event says the name.
pub open spec fn says(e: EpollEvent, name: Seq<char>) -> bool {
    split_text(e.observed_events@, '|').contains(name)
}

/// The event says that its descriptor can be read.
pub open spec fn says_in(e: EpollEvent) -> bool {
    says(e, "in"@)
}

/// Whether an event says the name.
pub fn has_name(event: &EpollEvent, name: &str) -> (r: bool)
    ensures
        r == says(*event, name@),
{
    let parts = split(event.observed_events.as_str(), '|');
    let ghost all = texts(parts@);
    let mut i: usize = 0;
    while i < parts.len()
        invariant
            i <= parts.len(),
            all == texts(parts@),
            all == split_text(event.observed_events@, '|'),
            forall|k: int| 0 <= k < i ==> all[k] != name@,
        decreases parts.len() - i,
    {
        assert(all[i as int] == parts@[i as int]@);
        if same(parts[i].as_str(), name) {
            return true;
        }
        i = i + 1;
    }
    false
}

/// Whether an event says that its descriptor can be read.
pub fn has_in(event: &EpollEvent) -> (r: bool)
    ensures
        r == says_in(*event),
{
    has_name(event, "in")
}

/// The event says that the given descriptor can be read.
pub open spec fn is_ready(e: EpollEvent, kind: Seq<char>, id: u64) -> bool {
    e.kind@ == kind && e.id == id && says_in(e)
}

/// One of the events says that the given descriptor can be read.
pub open spec fn any_ready(events: Seq<EpollEvent>, kind: Seq<char>, id: u64) -> bool {
    exists|k: int| 0 <= k < events.len() && is_ready(#[trigger] events[k], kind, id)
}

/// How many of the events say that the given descriptor can be read.
pub open spec fn count_ready(events: Seq<EpollEvent>, kind: Seq<char>, id: u64) -> nat {
    events.filter(|e: EpollEvent| is_ready(e, kind, id)).len()
}

fn event_is(e: &EpollEvent, kind: &str, id: u64) -> (r: bool)
    ensures
        r == is_ready(*e, kind@, id),
{
    same(e.kind.as_str(), kind) && e.id == id && has_in(e)
}

/// Whether one of the events says that the given descriptor can be read.
pub fn some_ready(events: &Vec<EpollEvent>, kind: &str, id: u64) -> (r: bool)
    ensures
        r == any_ready(events@, kind@, id),
{
    let mut i: usize = 0;
    while i < events.len()
        invariant
            i <= events.len(),
            forall|k: int| 0 <= k < i ==> !is_ready(#[trigger] events@[k], kind@, id),
        decreases events.len() - i,
    {
        if event_is(&events[i], kind, id) {
            assert(is_ready(events@[i as int], kind@, id));
            return true;
        }
        i = i + 1;
    }
    false
}

/// How many of the events say that the given descriptor can be read.
pub fn ready_count(events: &Vec<EpollEvent>, kind: &str, id: u64) -> (r: usize)
    ensures
        r == count_ready(events@, kind@, id),
{
    let ghost want = |e: EpollEvent| is_ready(e, kind@, id);
    let mut n: usize = 0;
    let mut i: usize = 0;
    assert(events@.take(0).filter(want).len() == 0) by {
        reveal(Seq::filter);
    }
    while i < events.len()
        invariant
            i <= events.len(),
            n <= i,
            want == |e: EpollEvent| is_ready(e, kind@, id),
            n == events@.take(i as int).filter(want).len(),
        decreases events.len() - i,
    {
        proof {
            let next = events@.take(i + 1);
            assert(next.drop_last() =~= events@.take(i as int));
            assert(next.last() == events@[i as int]);
            reveal(Seq::filter);
        }
        if event_is(&events[i], kind, id) {
            n = n + 1;
        }
        i = i + 1;
    }
    assert(events@.take(i as int) =~= events@);
    n
}

/// The event says that a socket can be read.
pub open spec fn is_ready_socket(e: EpollEvent) -> bool {
    e.kind@ == "socket"@ && says_in(e)
}

/// A socket of that number is among the events.
pub open spec fn socket_ready(events: Seq<EpollEvent>, id: u64) -> bool {
    exists|k: int|
        0 <= k < events.len() && is_ready_socket(#[trigger] events[k]) && events[k].id == id
}

/// Each number stands before the larger ones, and none stands twice.
pub open spec fn rising(list: Seq<u64>) -> bool {
    forall|i: int, j: int| 0 <= i < j < list.len() ==> list[i] < list[j]
}

/// The list holds exactly the numbers of the sockets that can be read, in order.
pub open spec fn lists_ready_sockets(list: Seq<u64>, events: Seq<EpollEvent>) -> bool {
    &&& rising(list)
    &&& forall|id: u64| list.contains(id) <==> #[trigger] socket_ready(events, id)
}

/// Put a number into its place, unless it is there already.
fn insert_sorted(list: &mut Vec<u64>, id: u64)
    requires
        rising(old(list)@),
    ensures
        rising(final(list)@),
        forall|x: u64|
            #![trigger final(list)@.contains(x)]
            final(list)@.contains(x) <==> old(list)@.contains(x) || x == id,
{
    let ghost before = list@;
    let mut i: usize = 0;
    while i < list.len() && list[i] < id
        invariant
            i <= list.len(),
            list@ == before,
            forall|k: int| 0 <= k < i ==> list@[k] < id,
        decreases list.len() - i,
    {
        i = i + 1;
    }
    if i < list.len() && list[i] == id {
        assert(before.contains(id));
        return;
    }
    list.insert(i, id);
    proof {
        let after = list@;
        assert(after =~= before.insert(i as int, id));
        assert(forall|k: int| 0 <= k < i ==> after[k] == before[k]);
        assert(after[i as int] == id);
        assert(forall|k: int| i < k < after.len() ==> after[k] == before[k - 1]);
        assert forall|x: u64| after.contains(x) implies before.contains(x) || x == id by {
            let k = choose|k: int| 0 <= k < after.len() && after[k] == x;
            if k < i {
                assert(before[k] == x);
            } else if k > i {
                assert(before[k - 1] == x);
            }
        }
        assert forall|x: u64| before.contains(x) || x == id implies after.contains(x) by {
            if x == id {
                assert(after[i as int] == x);
            } else {
                let k = choose|k: int| 0 <= k < before.len() && before[k] == x;
                if k < i {
                    assert(after[k] == x);
                } else {
                    assert(after[k + 1] == x);
                }
            }
        }
    }
}

/// The numbers of the sockets that can be read, each once, in order.
pub fn ready_socket_ids(events: &Vec<EpollEvent>) -> (r: Vec<u64>)
    ensures
        lists_ready_sockets(r@, events@),
{
    let mut out: Vec<u64> = Vec::new();
    let mut i: usize = 0;
    assert(forall|id: u64| !socket_ready(events@.take(0), id));
    while i < events.len()
        invariant
            i <= events.len(),
            lists_ready_sockets(out@, events@.take(i as int)),
        decreases events.len() - i,
    {
        let e = &events[i];
        let ready = same(e.kind.as_str(), "socket") && has_in(e);
        let ghost before = out@;
        let ghost seen = events@.take(i as int);
        let ghost next = events@.take(i + 1);
        if ready {
            insert_sorted(&mut out, e.id);
        }
        proof {
            assert(forall|k: int| 0 <= k < i ==> next[k] == seen[k]);
            assert(next[i as int] == *e);
            assert forall|id: u64| out@.contains(id) <==> #[trigger] socket_ready(next, id) by {
                if socket_ready(seen, id) {
                    let k = choose|k: int|
                        0 <= k < seen.len() && is_ready_socket(#[trigger] seen[k]) && seen[k].id
                            == id;
                    assert(is_ready_socket(next[k]) && next[k].id == id);
                }
                if socket_ready(next, id) {
                    let k = choose|k: int|
                        0 <= k < next.len() && is_ready_socket(#[trigger] next[k]) && next[k].id
                            == id;
                    if k < i {
                        assert(is_ready_socket(seen[k]) && seen[k].id == id);
                    }
                }
                if ready && id == e.id {
                    assert(is_ready_socket(next[i as int]) && next[i as int].id == id);
                }
                assert(before.contains(id) <==> socket_ready(seen, id));
            }
        }
        i = i + 1;
    }
    assert(events@.take(i as int) =~= events@);
    out
}

/// Events decide on one list of sockets.
pub proof fn law_ready_sockets_unique(x: Seq<u64>, y: Seq<u64>, events: Seq<EpollEvent>)
    requires
        lists_ready_sockets(x, events),
        lists_ready_sockets(y, events),
    ensures
        x == y,
{
    assert forall|id: u64| x.contains(id) <==> y.contains(id) by {
        assert(x.contains(id) <==> socket_ready(events, id));
    }
    lemma_rising_unique(x, y);
}

proof fn lemma_rising_unique(x: Seq<u64>, y: Seq<u64>)
    requires
        rising(x),
        rising(y),
        forall|id: u64| x.contains(id) <==> y.contains(id),
    ensures
        x == y,
    decreases x.len(),
{
    if x.len() == 0 {
        if y.len() > 0 {
            assert(y.contains(y[0]));
            assert(x.contains(y[0]));
        }
        assert(x =~= y);
    } else {
        assert(x.contains(x.last()));
        assert(y.contains(x.last()));
        let ky = choose|k: int| 0 <= k < y.len() && y[k] == x.last();
        assert(y.contains(y.last()));
        assert(x.contains(y.last()));
        let kx = choose|k: int| 0 <= k < x.len() && x[k] == y.last();
        assert(x.last() == y.last());
        let a = x.drop_last();
        let b = y.drop_last();
        assert forall|id: u64| a.contains(id) <==> b.contains(id) by {
            if a.contains(id) {
                let k = choose|k: int| 0 <= k < a.len() && a[k] == id;
                assert(x[k] == id && id < x.last());
                assert(x.contains(id));
                let m = choose|m: int| 0 <= m < y.len() && y[m] == id;
                assert(b[m] == id);
            }
            if b.contains(id) {
                let k = choose|k: int| 0 <= k < b.len() && b[k] == id;
                assert(y[k] == id && id < y.last());
                assert(y.contains(id));
                let m = choose|m: int| 0 <= m < x.len() && x[m] == id;
                assert(a[m] == id);
            }
        }
        lemma_rising_unique(a, b);
        assert(x =~= a.push(x.last()));
        assert(y =~= b.push(y.last()));
    }
}

/// What a probe waits for.
#[derive(Clone, Copy, Debug, PartialEq, Eq, Structural)]
pub enum Goal {
    /// The end of a process, and data on the first socket.
    ProcessAndSocket { pid: u64 },
    /// Data on each of the four sockets, and on no other.
    FourSockets,
}

/// The sockets of the second goal.
pub open spec fn four() -> Seq<u64> {
    seq![1u64, 2, 3, 4]
}

/// The goal is reached.
pub open spec fn met(goal: Goal, events: Seq<EpollEvent>) -> bool {
    match goal {
        Goal::ProcessAndSocket { pid } => any_ready(events, "pidfd"@, pid) && any_ready(
            events,
            "socket"@,
            1,
        ),
        Goal::FourSockets => lists_ready_sockets(four(), events),
    }
}

fn is_met(goal: Goal, events: &Vec<EpollEvent>) -> (r: bool)
    ensures
        r == met(goal, events@),
{
    match goal {
        Goal::ProcessAndSocket { pid } => some_ready(events, "pidfd", pid) && some_ready(
            events,
            "socket",
            1,
        ),
        Goal::FourSockets => {
            let ready = ready_socket_ids(events);
            let r = ready.len() == 4 && ready[0] == 1 && ready[1] == 2 && ready[2] == 3 && ready[3]
                == 4;
            proof {
                if r {
                    assert(ready@ =~= four());
                }
                if met(goal, events@) {
                    law_ready_sockets_unique(ready@, four(), events@);
                }
            }
            r
        },
    }
}

/// Once a goal is reached it stays reached, as long as only the registered sockets report.
pub proof fn law_goal_stays(goal: Goal, seen: Seq<EpollEvent>, more: Seq<EpollEvent>)
    requires
        met(goal, seen),
        goal == Goal::FourSockets ==> forall|id: u64|
            #[trigger] socket_ready(more, id) ==> 1 <= id <= 4,
    ensures
        met(goal, seen + more),
{
    let all = seen + more;
    assert forall|kind: Seq<char>, id: u64| any_ready(seen, kind, id) implies any_ready(
        all,
        kind,
        id,
    ) by {
        let k = choose|k: int| 0 <= k < seen.len() && is_ready(#[trigger] seen[k], kind, id);
        assert(is_ready(all[k], kind, id));
    }
    if goal == Goal::FourSockets {
        assert forall|id: u64| four().contains(id) <==> #[trigger] socket_ready(all, id) by {
            assert(four().contains(id) <==> socket_ready(seen, id));
            if socket_ready(seen, id) {
                let k = choose|k: int|
                    0 <= k < seen.len() && is_ready_socket(#[trigger] seen[k]) && seen[k].id == id;
                assert(is_ready_socket(all[k]) && all[k].id == id);
            }
            if socket_ready(all, id) {
                let k = choose|k: int|
                    0 <= k < all.len() && is_ready_socket(#[trigger] all[k]) && all[k].id == id;
                if k >= seen.len() {
                    let m = k - seen.len();
                    assert(is_ready_socket(more[m]) && more[m].id == id);
                    assert(socket_ready(more, id));
                    assert(four()[id - 1] == id);
                }
            }
        }
    }
}

/// How often a probe asks again after its first wait.
pub const MORE_WAITS: usize = 5;

/// The events of a probe so far.
pub struct Watch {
    goal: Goal,
    events: Vec<EpollEvent>,
    waits: usize,
    dry: bool,
}

impl Watch {
    /// What it waits for.
    pub closed spec fn aim(self) -> Goal {
        self.goal
    }

    /// What it has seen.
    pub closed spec fn seen(self) -> Seq<EpollEvent> {
        self.events@
    }

    /// How often it asked again.
    pub closed spec fn asked(self) -> nat {
        self.waits as nat
    }

    /// A wait brought nothing.
    pub closed spec fn ran_dry(self) -> bool {
        self.dry
    }

    /// The probe goes on: its goal is not reached, its last wait brought something, and it
    /// may ask again.
    pub open spec fn goes_on(self) -> bool {
        !met(self.aim(), self.seen()) && !self.ran_dry() && self.asked() < MORE_WAITS
    }

    /// A probe after its first wait.
    pub fn start(goal: Goal, first: Vec<EpollEvent>) -> (r: Self)
        ensures
            r.aim() == goal,
            r.seen() == first@,
            r.asked() == 0,
            !r.ran_dry(),
    {
        Watch { goal, events: first, waits: 0, dry: false }
    }

    /// Whether the probe asks again.
    pub fn wants_more(&self) -> (r: bool)
        ensures
            r == self.goes_on(),
    {
        !self.dry && self.waits < MORE_WAITS && !is_met(self.goal, &self.events)
    }

    /// What another wait brought.
    pub fn feed(&mut self, more: Vec<EpollEvent>)
        requires
            old(self).goes_on(),
        ensures
            final(self).aim() == old(self).aim(),
            final(self).seen() == old(self).seen() + more@,
            final(self).asked() == old(self).asked() + 1,
            final(self).ran_dry() == (more@.len() == 0),
    {
        let mut more = more;
        self.waits = self.waits + 1;
        self.dry = more.len() == 0;
        self.events.append(&mut more);
    }

    /// What the probe has seen.
    pub fn events(&self) -> (r: &Vec<EpollEvent>)
        ensures
            r@ == self.seen(),
    {
        &self.events
    }

    /// What the probe reports. `shown` is how its events print.
    pub fn verdict(&self, shown: &str) -> (r: Result<String, String>)
        ensures
            self.aim() matches Goal::ProcessAndSocket { pid } ==> (r is Ok <==> {
                &&& exists|k: int|
                    0 <= k < self.seen().len() && (#[trigger] self.seen()[k]).kind@ == "pidfd"@
                        && self.seen()[k].id == pid && split_text(
                        self.seen()[k].observed_events@,
                        '|',
                    ).contains("in"@)
                &&& exists|k: int|
                    0 <= k < self.seen().len() && (#[trigger] self.seen()[k]).kind@ == "socket"@
                        && self.seen()[k].id == 1 && split_text(
                        self.seen()[k].observed_events@,
                        '|',
                    ).contains("in"@)
            }),
            match self.aim() {
                Goal::ProcessAndSocket { pid } => match r {
                    Ok(d) => met(self.aim(), self.seen()) && d@ == "pidfd pid="@ + dec_text(
                        pid as nat,
                    ) + " and socket conn=1 events="@ + shown@,
                    Err(e) => !met(self.aim(), self.seen()) && e@
                        == "missing pidfd/socket readiness pid="@ + dec_text(pid as nat)
                        + " conn=1 events="@ + shown@,
                },
                Goal::FourSockets => match r {
                    Ok(d) => met(self.aim(), self.seen()) && d@ == "all sockets ready conns="@
                        + list_text(dec_texts(four())) + " events="@ + shown@,
                    Err(e) => !met(self.aim(), self.seen()) && (exists|ready: Seq<u64>| #[trigger]
                        lists_ready_sockets(ready, self.seen()) && e@
                            == "socket readiness mismatch expected="@ + list_text(dec_texts(four()))
                            + " ready="@ + list_text(dec_texts(ready)) + " events="@ + shown@),
                },
            },
    {
        let done = is_met(self.goal, &self.events);
        match self.goal {
            Goal::ProcessAndSocket { pid } => {
                proof {
                    law_process_and_socket(pid, self.seen());
                }
                let n = dec(pid);
                if done {
                    let mut text = cat3("pidfd pid=", n.as_str(), " and socket conn=1 events=");
                    text.append(shown);
                    Ok(text)
                } else {
                    let mut text = cat3(
                        "missing pidfd/socket readiness pid=",
                        n.as_str(),
                        " conn=1 events=",
                    );
                    text.append(shown);
                    Err(text)
                }
            },
            Goal::FourSockets => {
                let expected: Vec<u64> = vec![1, 2, 3, 4];
                assert(expected@ =~= four());
                let list = numbers_debug(&expected);
                if done {
                    let mut text = cat3("all sockets ready conns=", list.as_str(), " events=");
                    text.append(shown);
                    Ok(text)
                } else {
                    let ready = ready_socket_ids(&self.events);
                    let ready_list = numbers_debug(&ready);
                    let mut text = cat3(
                        "socket readiness mismatch expected=",
                        list.as_str(),
                        " ready=",
                    );
                    text.append(ready_list.as_str());
                    text.append(" events=");
                    text.append(shown);
                    assert(lists_ready_sockets(ready@, self.seen()));
                    Err(text)
                }
            },
        }
    }
}

/// What the probe sends on one of the four sockets.
pub fn socket_payload(i: u64) -> (r: String)
    ensures
        r@ == "multi-socket-"@ + dec_text(i as nat),
{
    let n = dec(i);
    cat("multi-socket-", n.as_str())
}

/// The verdict on an event counter that was written to.
pub fn eventfd_verdict(events: &Vec<EpollEvent>, shown: &str) -> (r: Result<String, String>)
    ensures
        match r {
            Ok(d) => any_ready(events@, "eventfd"@, 1) && d@ == "eventfd ready id=1 events="@
                + shown@,
            Err(e) => !any_ready(events@, "eventfd"@, 1) && e@
                == "missing eventfd readiness id=1 events="@ + shown@,
        },
{
    if some_ready(events, "eventfd", 1) {
        Ok(cat("eventfd ready id=1 events=", shown))
    } else {
        Err(cat("missing eventfd readiness id=1 events=", shown))
    }
}

/// The verdict on a set that nothing was added to.
pub fn idle_verdict(events: &Vec<EpollEvent>, shown: &str) -> (r: Result<String, String>)
    ensures
        match r {
            Ok(d) => events@.len() == 0 && d@ == "idle epoll returned no events"@,
            Err(e) => events@.len() > 0 && e@ == "idle epoll returned unexpected events "@ + shown@,
        },
{
    if events.len() == 0 {
        Ok("idle epoll returned no events".to_string())
    } else {
        Err(cat("idle epoll returned unexpected events ", shown))
    }
}

/// The verdict on a socket that is watched for edges: two writes make one event, and no
/// further one without new data.
pub fn edge_verdict(
    first: &Vec<EpollEvent>,
    second: &Vec<EpollEvent>,
    first_shown: &str,
    second_shown: &str,
) -> (r: Result<String, String>)
    ensures
        ({
            let a = count_ready(first@, "socket"@, 1);
            let b = count_ready(second@, "socket"@, 1);
            let shown = "first="@ + first_shown@ + " second="@ + second_shown@;
            match r {
                Ok(d) => a == 1 && b == 0 && d@ =~= "edge-trigger coalesced "@ + shown,
                Err(e) => !(a == 1 && b == 0) && e@ =~= "edge-trigger mismatch first_count="@
                    + dec_text(a) + " second_count="@ + dec_text(b) + " "@ + shown,
            }
        }),
{
    let a: usize = ready_count(first, "socket", 1);
    let b: usize = ready_count(second, "socket", 1);
    let mut shown = cat3("first=", first_shown, " second=");
    shown.append(second_shown);
    if a == 1 && b == 0 {
        Ok(cat("edge-trigger coalesced ", shown.as_str()))
    } else {
        let na = dec(a as u64);
        let nb = dec(b as u64);
        let mut text = cat3("edge-trigger mismatch first_count=", na.as_str(), " second_count=");
        text.append(nb.as_str());
        text.append(" ");
        text.append(shown.as_str());
        Err(text)
    }
}

/// The detail that a handler reports, which must not be empty.
pub fn detail_out(detail: &str) -> (r: Result<String, String>)
    ensures
        match r {
            Ok(d) => detail@.len() > 0 && d@ == detail@,
            Err(e) => detail@.len() == 0 && e@ == "handler returned empty detail"@,
        },
{
    if detail.unicode_len() == 0 {
        Err("handler returned empty detail".to_string())
    } else {
        Ok(detail.to_string())
    }
}

/// Where a peer that listens on the port is reached.
pub fn peer_addr(port: u16) -> (r: String)
    ensures
        r@ == "127.0.0.1:"@ + dec_text(port as nat),
{
    let n = dec(port as u64);
    cat("127.0.0.1:", n.as_str())
}

/// The goal of a process and a socket is reached exactly if among the events one is of the
/// process and one of the first socket, and both name reading. Events of other descriptors, and
/// events that do not name reading, do not help.
pub proof fn law_process_and_socket(pid: u64, events: Seq<EpollEvent>)
    ensures
        met(Goal::ProcessAndSocket { pid }, events) <==> {
            &&& exists|k: int|
                0 <= k < events.len() && (#[trigger] events[k]).kind@ == "pidfd"@ && events[k].id
                    == pid && split_text(events[k].observed_events@, '|').contains("in"@)
            &&& exists|k: int|
                0 <= k < events.len() && (#[trigger] events[k]).kind@ == "socket"@ && events[k].id
                    == 1 && split_text(events[k].observed_events@, '|').contains("in"@)
        },
{
    if met(Goal::ProcessAndSocket { pid }, events) {
        let a = choose|k: int| 0 <= k < events.len() && is_ready(#[trigger] events[k], "pidfd"@, pid);
        let b = choose|k: int| 0 <= k < events.len() && is_ready(#[trigger] events[k], "socket"@, 1);
        assert(events[a].kind@ == "pidfd"@ && events[b].kind@ == "socket"@);
    }
    assert forall|k: int, kind: Seq<char>, id: u64|
        0 <= k < events.len() && (#[trigger] events[k]).kind@ == kind && events[k].id == id
            && split_text(events[k].observed_events@, '|').contains("in"@) implies #[trigger] any_ready(
        events,
        kind,
        id,
    ) by {
        assert(is_ready(events[k], kind, id));
    }
}

/// Among the events is one of the socket of that number that names reading.
pub open spec fn reads_socket(events: Seq<EpollEvent>, id: u64) -> bool {
    exists|k: int|
        0 <= k < events.len() && (#[trigger] events[k]).kind@ == "socket"@ && events[k].id == id
            && split_text(events[k].observed_events@, '|').contains("in"@)
}

/// The goal of the four sockets is reached exactly if each of the sockets one to four has an
/// event that names reading, and no socket of another number has.
pub proof fn law_four_sockets(events: Seq<EpollEvent>)
    ensures
        met(Goal::FourSockets, events) <==> reads_socket(events, 1) && reads_socket(events, 2)
            && reads_socket(events, 3) && reads_socket(events, 4) && (forall|id: u64| #[trigger]
            reads_socket(events, id) ==> 1 <= id <= 4),
{
    let list = four();
    assert(list[0] == 1 && list[1] == 2 && list[2] == 3 && list[3] == 4);
    assert forall|id: u64| #[trigger] list.contains(id) <==> 1 <= id <= 4 by {
        if 1 <= id <= 4 {
            assert(list[id - 1] == id);
        }
    }
    assert forall|id: u64| #[trigger] socket_ready(events, id) <==> reads_socket(events, id) by {
        if socket_ready(events, id) {
            let k = choose|k: int|
                0 <= k < events.len() && is_ready_socket(#[trigger] events[k]) && events[k].id == id;
            assert(events[k].kind@ == "socket"@);
        }
        if reads_socket(events, id) {
            let k = choose|k: int|
                0 <= k < events.len() && (#[trigger] events[k]).kind@ == "socket"@ && events[k].id
                    == id && split_text(events[k].observed_events@, '|').contains("in"@);
            assert(is_ready_socket(events[k]));
        }
    }
    assert(rising(list));
    if met(Goal::FourSockets, events) {
        assert(list.contains(1) && list.contains(2) && list.contains(3) && list.contains(4));
        assert(socket_ready(events, 1) && socket_ready(events, 2) && socket_ready(events, 3)
            && socket_ready(events, 4));
        assert forall|id: u64| #[trigger] reads_socket(events, id) implies 1 <= id <= 4 by {
            assert(socket_ready(events, id));
        }
    }
    if reads_socket(events, 1) && reads_socket(events, 2) && reads_socket(events, 3)
        && reads_socket(events, 4) && (forall|id: u64| #[trigger]
        reads_socket(events, id) ==> 1 <= id <= 4) {
        assert forall|id: u64| list.contains(id) <==> #[trigger] socket_ready(events, id) by {
            if 1 <= id <= 4 {
                assert(id == 1 || id == 2 || id == 3 || id == 4);
            }
        }
    }
}

/// One of the events is counted as ready exactly if it is of the kind and the number and names
/// reading: the count is zero where there is none, and adding an event adds one exactly if it
/// is such an event.
pub proof fn law_ready_events_are_counted(
    events: Seq<EpollEvent>,
    e: EpollEvent,
    kind: Seq<char>,
    id: u64,
)
    ensures
        count_ready(Seq::empty(), kind, id) == 0,
        count_ready(events.push(e), kind, id) == count_ready(events, kind, id) + if e.kind@ == kind
            && e.id == id && split_text(e.observed_events@, '|').contains("in"@) {
            1nat
        } else {
            0nat
        },
{
    reveal(Seq::filter);
    assert(events.push(e).drop_last() =~= events);
}

/// The count is zero exactly if none of the events is ready, that is if no event is of the
/// kind and the number and names reading.
pub proof fn law_none_ready(events: Seq<EpollEvent>, kind: Seq<char>, id: u64)
    ensures
        count_ready(events, kind, id) == 0 <==> forall|k: int|
            0 <= k < events.len() ==> !((#[trigger] events[k]).kind@ == kind && events[k].id == id
                && split_text(events[k].observed_events@, '|').contains("in"@)),
        any_ready(events, kind, id) <==> count_ready(events, kind, id) > 0,
    decreases events.len(),
{
    reveal(Seq::filter);
    if events.len() == 0 {
        assert(!any_ready(events, kind, id));
    } else {
        let before = events.drop_last();
        let e = events.last();
        law_none_ready(before, kind, id);
        law_ready_events_are_counted(before, e, kind, id);
        assert(before.push(e) =~= events);
        assert(forall|k: int| 0 <= k < before.len() ==> before[k] == events[k]);
        if any_ready(before, kind, id) {
            let k = choose|k: int| 0 <= k < before.len() && is_ready(#[trigger] before[k], kind, id);
            assert(is_ready(events[k], kind, id));
        }
        if any_ready(events, kind, id) {
            let k = choose|k: int| 0 <= k < events.len() && is_ready(#[trigger] events[k], kind, id);
            if k < before.len() {
                assert(is_ready(before[k], kind, id));
            }
        }
        if is_ready(e, kind, id) {
            assert(is_ready(events[events.len() - 1], kind, id));
        }
        if count_ready(before, kind, id) > 0 {
            assert(any_ready(before, kind, id));
            let k = choose|k: int| 0 <= k < before.len() && is_ready(#[trigger] before[k], kind, id);
            assert(events[k].kind@ == kind);
        }
    }
}

/// A probe asks again at most five times, and not once its goal is reached or a wait brought
/// nothing; before that it does ask again.
pub proof fn law_watch_asks_again(w: Watch)
    ensures
        w.goes_on() ==> w.asked() < 5,
        w.goes_on() ==> !w.ran_dry(),
        w.goes_on() ==> !met(w.aim(), w.seen()),
        !w.ran_dry() && w.asked() < 5 && !met(w.aim(), w.seen()) ==> w.goes_on(),
{
}

/// An event says a name if what was seen is that name alone, or ends with it after another; one
/// that says nothing else does not say it.
pub proof fn law_event_names(e: EpollEvent, a: Seq<char>, name: Seq<char>)
    requires
        forall|k: int| 0 <= k < a.len() ==> a[k] != '|',
        forall|k: int| 0 <= k < name.len() ==> name[k] != '|',
    ensures
        e.observed_events@ == name ==> says(e, name) && (says(e, a) ==> a == name),
        e.observed_events@ == a + seq!['|'] + name ==> says(e, a) && says(e, name),
{
    if e.observed_events@ == name {
        lemma_one_piece(name);
        assert(split_text(name, '|')[0] == name);
    }
    if e.observed_events@ == a + seq!['|'] + name {
        lemma_two_pieces(a, name);
        assert(split_text(e.observed_events@, '|')[0] == a);
        assert(split_text(e.observed_events@, '|')[1] == name);
    }
}

proof fn lemma_one_piece(s: Seq<char>)
    requires
        forall|k: int| 0 <= k < s.len() ==> s[k] != '|',
    ensures
        split_text(s, '|') == seq![s],
    decreases s.len(),
{
    if s.len() > 0 {
        lemma_one_piece(s.drop_last());
        assert(s.drop_last().push(s.last()) =~= s);
    } else {
        assert(s =~= Seq::empty());
    }
    assert(split_text(s, '|') =~= seq![s]);
}

proof fn lemma_two_pieces(a: Seq<char>, b: Seq<char>)
    requires
        forall|k: int| 0 <= k < a.len() ==> a[k] != '|',
        forall|k: int| 0 <= k < b.len() ==> b[k] != '|',
    ensures
        split_text(a + seq!['|'] + b, '|') == seq![a, b],
    decreases b.len(),
{
    let s = a + seq!['|'] + b;
    if b.len() == 0 {
        assert(s.drop_last() =~= a);
        assert(s.last() == '|');
        lemma_one_piece(a);
        assert(b =~= Seq::empty());
    } else {
        assert(s.drop_last() =~= a + seq!['|'] + b.drop_last());
        assert(s.last() == b.last());
        lemma_two_pieces(a, b.drop_last());
        assert(b.drop_last().push(b.last()) =~= b);
    }
    assert(split_text(s, '|') =~= seq![a, b]);
}

} // verus!
