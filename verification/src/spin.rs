//! Probes that count how often a wait returns: a descriptor that stays ready must report
//! its edge once and then let the wait block.

use vstd::prelude::*;
use crate::errno::EINTR;
use crate::number::{dec, dec_i64, dec_text, hex, hex_text, int_text, int_texts, ints_debug};
use crate::text::{cat, cat3, list_text, lossy, lossy_text};
use crate::wait_status::{ended_well, succeeded};

verus! {

/// What a counting probe reports.
#[derive(Clone, Debug)]
pub struct EpollSpinOut {
    pub detail: String,
    pub first_elapsed_ms: u64,
    pub first_events: i32,
    pub iterations: u64,
    pub loop_elapsed_ms: u64,
    pub timer_ready: u64,
    pub zero_event_returns: u64,
}

/// What a counting probe reports, in contracts.
pub struct SpinView {
    pub detail: Seq<char>,
    pub first_elapsed_ms: u64,
    pub first_events: i32,
    pub iterations: u64,
    pub loop_elapsed_ms: u64,
    pub timer_ready: u64,
    pub zero_event_returns: u64,
}

impl View for EpollSpinOut {
    type V = SpinView;

    open spec fn view(&self) -> SpinView {
        SpinView {
            detail: self.detail@,
            first_elapsed_ms: self.first_elapsed_ms,
            first_events: self.first_events,
            iterations: self.iterations,
            loop_elapsed_ms: self.loop_elapsed_ms,
            timer_ready: self.timer_ready,
            zero_event_returns: self.zero_event_returns,
        }
    }
}

/// What one wait gave: how many events, after how many milliseconds, and whether the timer
/// was among them.
#[derive(Clone, Copy, Debug, PartialEq, Eq, Structural)]
pub struct WaitSample {
    pub events: i32,
    pub elapsed_ms: u64,
    pub timer_ready: bool,
}

/// How many of the samples hold no event.
pub open spec fn empty_waits(samples: Seq<WaitSample>) -> nat
    decreases samples.len(),
{
    if samples.len() == 0 {
        0
    } else {
        empty_waits(samples.drop_last()) + if samples.last().events == 0 {
            1nat
        } else {
            0nat
        }
    }
}

/// How many of the samples hold the timer.
pub open spec fn timer_waits(samples: Seq<WaitSample>) -> nat
    decreases samples.len(),
{
    if samples.len() == 0 {
        0
    } else {
        timer_waits(samples.drop_last()) + if samples.last().timer_ready {
            1nat
        } else {
            0nat
        }
    }
}

/// The counts never exceed the number of samples.
pub proof fn law_counts_bounded(samples: Seq<WaitSample>)
    ensures
        empty_waits(samples) <= samples.len(),
        timer_waits(samples) <= samples.len(),
    decreases samples.len(),
{
    if samples.len() > 0 {
        law_counts_bounded(samples.drop_last());
    }
}

/// The waits of a counting probe so far. The first stands apart: it takes the initial edge.
pub struct SpinLog {
    first: WaitSample,
    iterations: u64,
    empty: u64,
    timer: u64,
    samples: Ghost<Seq<WaitSample>>,
}

impl SpinLog {
    /// All waits, the first included.
    pub closed spec fn waits(self) -> Seq<WaitSample> {
        self.samples@
    }

    /// The counts are those of the waits.
    pub closed spec fn wf(self) -> bool {
        &&& self.samples@.len() > 0
        &&& self.first == self.samples@[0]
        &&& self.iterations == self.samples@.len() - 1
        &&& self.empty == empty_waits(self.samples@)
        &&& self.timer == timer_waits(self.samples@)
    }

    /// A probe after its first wait.
    pub fn start(first: WaitSample) -> (r: Self)
        ensures
            r.wf(),
            r.waits() == seq![first],
    {
        let ghost one = seq![first];
        proof {
            assert(one.drop_last() =~= Seq::empty());
            reveal_with_fuel(empty_waits, 2);
            reveal_with_fuel(timer_waits, 2);
        }
        SpinLog {
            first,
            iterations: 0,
            empty: if first.events == 0 {
                1
            } else {
                0
            },
            timer: if first.timer_ready {
                1
            } else {
                0
            },
            samples: Ghost(one),
        }
    }

    /// Another wait.
    pub fn feed(&mut self, sample: WaitSample)
        requires
            old(self).wf(),
            old(self).waits().len() < u64::MAX,
        ensures
            final(self).wf(),
            final(self).waits() == old(self).waits().push(sample),
    {
        proof {
            law_counts_bounded(self.samples@);
            assert(self.samples@.push(sample).drop_last() =~= self.samples@);
        }
        self.iterations = self.iterations + 1;
        if sample.events == 0 {
            self.empty = self.empty + 1;
        }
        if sample.timer_ready {
            self.timer = self.timer + 1;
        }
        self.samples = Ghost(self.samples@.push(sample));
    }

    /// The report of the probe, in words.
    pub fn finish(&self, style: SpinStyle, prefix: &str, loop_elapsed_ms: u64) -> (r: EpollSpinOut)
        requires
            self.wf(),
        ensures
            r@ == spin_report(style, prefix@, self.waits(), loop_elapsed_ms),
    {
        let events = dec_i64(self.first.events as i64);
        let elapsed = dec(self.first.elapsed_ms);
        let iterations = dec(self.iterations);
        let whole = dec(loop_elapsed_ms);
        let timer = dec(self.timer);
        let empty = dec(self.empty);
        let mut detail = cat3(prefix, " first_events=", events.as_str());
        match style {
            SpinStyle::Level => {
                detail.append(" iterations=");
                detail.append(iterations.as_str());
            },
            _ => {
                detail.append(" first_elapsed_ms=");
                detail.append(elapsed.as_str());
                detail.append(" iterations=");
                detail.append(iterations.as_str());
                detail.append(" loop_elapsed_ms=");
                detail.append(whole.as_str());
                if let SpinStyle::Timer = style {
                    detail.append(" timer_ready=");
                    detail.append(timer.as_str());
                }
            },
        }
        detail.append(" zero_event_returns=");
        detail.append(empty.as_str());
        EpollSpinOut {
            detail,
            first_elapsed_ms: self.first.elapsed_ms,
            first_events: self.first.events,
            iterations: self.iterations,
            loop_elapsed_ms,
            timer_ready: match style {
                SpinStyle::Timer => self.timer,
                _ => 0,
            },
            zero_event_returns: self.empty,
        }
    }
}

/// What the report of a probe tells.
#[derive(Clone, Copy, Debug, PartialEq, Eq, Structural)]
pub enum SpinStyle {
    /// The first wait and the counts.
    Plain,
    /// How often the timer was among the events too.
    Timer,
    /// No times.
    Level,
}

/// The report of a probe over its waits.
pub open spec fn spin_report(
    style: SpinStyle,
    prefix: Seq<char>,
    waits: Seq<WaitSample>,
    loop_elapsed_ms: u64,
) -> SpinView {
    let first = waits[0];
    let iterations = (waits.len() - 1) as nat;
    let head = prefix + " first_events="@ + int_text(first.events as int);
    let times = head + " first_elapsed_ms="@ + dec_text(first.elapsed_ms as nat) + " iterations="@
        + dec_text(iterations) + " loop_elapsed_ms="@ + dec_text(loop_elapsed_ms as nat);
    SpinView {
        detail: match style {
            SpinStyle::Plain => times + " zero_event_returns="@ + dec_text(empty_waits(waits)),
            SpinStyle::Timer => times + " timer_ready="@ + dec_text(timer_waits(waits))
                + " zero_event_returns="@ + dec_text(empty_waits(waits)),
            SpinStyle::Level => head + " iterations="@ + dec_text(iterations)
                + " zero_event_returns="@ + dec_text(empty_waits(waits)),
        },
        first_elapsed_ms: first.elapsed_ms,
        first_events: first.events,
        iterations: iterations as u64,
        loop_elapsed_ms,
        timer_ready: match style {
            SpinStyle::Timer => timer_waits(waits) as u64,
            _ => 0,
        },
        zero_event_returns: empty_waits(waits) as u64,
    }
}

/// How a check answers: with the detail either way.
pub open spec fn answered(r: Result<String, String>, pass: bool, detail: Seq<char>) -> bool {
    match r {
        Ok(d) => pass && d@ == detail,
        Err(e) => !pass && e@ == detail,
    }
}

fn answer(pass: bool, detail: &str) -> (r: Result<String, String>)
    ensures
        answered(r, pass, detail@),
{
    if pass {
        Ok(detail.to_string())
    } else {
        Err(detail.to_string())
    }
}

/// Nothing happens on an idle counter: every wait blocks and comes back empty.
pub open spec fn idle_passes(o: SpinView) -> bool {
    o.first_events == 0 && o.first_elapsed_ms >= 500 && o.iterations <= 10 && o.zero_event_returns
        == o.iterations + 1
}

/// Check the probe of an idle counter.
pub fn check_epoll_spin_eventfd_idle(out: &EpollSpinOut) -> (r: Result<String, String>)
    ensures
        answered(r, idle_passes(out@), out.detail@),
{
    let pass = out.first_events == 0 && out.first_elapsed_ms >= 500 && out.iterations <= 10
        && out.zero_event_returns == out.iterations + 1;
    answer(pass, out.detail.as_str())
}

/// Every wait ends with the timer, which takes about a second.
pub open spec fn timer_passes(o: SpinView) -> bool {
    o.first_events > 0 && 500 <= o.first_elapsed_ms <= 1800 && o.iterations <= 10 && o.timer_ready
        == o.iterations + 1 && o.zero_event_returns == 0
}

/// Check the probe of a timer.
pub fn check_epoll_spin_timerfd(out: &EpollSpinOut) -> (r: Result<String, String>)
    ensures
        answered(r, timer_passes(out@), out.detail@),
{
    let pass = out.first_events > 0 && out.first_elapsed_ms >= 500 && out.first_elapsed_ms <= 1800
        && out.iterations <= 10 && out.timer_ready == out.iterations + 1 && out.zero_event_returns
        == 0;
    answer(pass, out.detail.as_str())
}

/// Check the probe of a datagram socket, which can always be written to: the waits must
/// block.
pub fn check_epoll_spin_broker_writable_et(out: &EpollSpinOut) -> (r: Result<String, String>)
    ensures
        answered(r, out.iterations <= 10, out.detail@),
{
    answer(out.iterations <= 10, out.detail.as_str())
}

/// The first wait takes the edge; each of the short waits after it comes back empty.
pub open spec fn sticky_out_passes(o: SpinView) -> bool {
    o.first_events > 0 && o.iterations <= 40 && o.zero_event_returns == o.iterations
}

/// Check the probe of a connection that can always be written to.
pub fn check_epoll_spin_broker_tcp_sticky_out(out: &EpollSpinOut) -> (r: Result<String, String>)
    ensures
        answered(r, sticky_out_passes(out@), out.detail@),
{
    let pass = out.first_events > 0 && out.iterations <= 40 && out.zero_event_returns
        == out.iterations;
    answer(pass, out.detail.as_str())
}

/// Each of the four cycles made an edge.
pub open spec fn refire_passes(o: SpinView) -> bool {
    o.first_events > 0 && o.iterations == 4 && o.timer_ready == 4 && o.zero_event_returns == 0
}

/// Check the probe that drains a connection again and again.
pub fn check_broker_tcp_refire(out: &EpollSpinOut) -> (r: Result<String, String>)
    ensures
        answered(r, refire_passes(out@), out.detail@),
{
    let pass = out.first_events > 0 && out.iterations == 4 && out.timer_ready == 4
        && out.zero_event_returns == 0;
    answer(pass, out.detail.as_str())
}

/// The edge comes once, and then the waits block.
pub open spec fn no_spin_passes(o: SpinView) -> bool {
    o.first_events > 0 && o.iterations <= 10
}

/// Check the probe of a descriptor that stays ready.
pub fn check_span_et_no_spin(out: &EpollSpinOut) -> (r: Result<String, String>)
    ensures
        answered(r, no_spin_passes(out@), out.detail@),
{
    answer(out.first_events > 0 && out.iterations <= 10, out.detail.as_str())
}

/// An edge, an empty wait after draining, and an edge again.
pub open spec fn span_refire_passes(o: SpinView) -> bool {
    o.first_events > 0 && o.zero_event_returns == 1 && o.timer_ready == 1
}

/// Check the probe that drains a counter and writes to it again.
pub fn check_span_refire(out: &EpollSpinOut) -> (r: Result<String, String>)
    ensures
        answered(r, span_refire_passes(out@), out.detail@),
{
    let pass = out.first_events > 0 && out.zero_event_returns == 1 && out.timer_ready == 1;
    answer(pass, out.detail.as_str())
}

/// Without edges every wait reports the descriptor at once.
pub open spec fn level_passes(o: SpinView) -> bool {
    o.first_events > 0 && o.iterations > 100 && o.zero_event_returns == 0
}

/// Check the probe of a descriptor that is watched for its level.
pub fn check_span_lt_persistent(out: &EpollSpinOut) -> (r: Result<String, String>)
    ensures
        answered(r, level_passes(out@), out.detail@),
{
    let pass = out.first_events > 0 && out.iterations > 100 && out.zero_event_returns == 0;
    answer(pass, out.detail.as_str())
}

/// No report passes both the check for edges and the check for levels.
pub proof fn law_edge_and_level_exclude(o: SpinView)
    ensures
        !(no_spin_passes(o) && level_passes(o)),
{
}

/// A probe of an idle counter passes exactly if its few waits all blocked without an event.
pub proof fn law_idle_means_all_empty(prefix: Seq<char>, waits: Seq<WaitSample>, elapsed: u64)
    requires
        0 < waits.len() <= u64::MAX,
    ensures
        idle_passes(spin_report(SpinStyle::Plain, prefix, waits, elapsed)) <==> {
            &&& waits.len() <= 11
            &&& waits[0].elapsed_ms >= 500
            &&& forall|k: int| 0 <= k < waits.len() ==> (#[trigger] waits[k]).events == 0
        },
{
    law_counts_bounded(waits);
    lemma_all_empty(waits);
}

proof fn lemma_all_empty(waits: Seq<WaitSample>)
    ensures
        empty_waits(waits) == waits.len() <==> forall|k: int|
            0 <= k < waits.len() ==> (#[trigger] waits[k]).events == 0,
    decreases waits.len(),
{
    law_counts_bounded(waits);
    if waits.len() > 0 {
        let front = waits.drop_last();
        lemma_all_empty(front);
        law_counts_bounded(front);
        if empty_waits(waits) == waits.len() {
            assert(forall|k: int| 0 <= k < front.len() ==> (#[trigger] front[k]).events == 0);
            assert forall|k: int| 0 <= k < waits.len() implies (#[trigger] waits[k]).events == 0 by {
                if k < front.len() {
                    assert(front[k].events == 0);
                }
            }
        }
        if forall|k: int| 0 <= k < waits.len() ==> (#[trigger] waits[k]).events == 0 {
            assert forall|k: int| 0 <= k < front.len() implies (#[trigger] front[k]).events == 0 by {
                assert(waits[k].events == 0);
            }
            assert(waits.last().events == 0);
        }
    }
}

/// The report of the probe that writes, drains and writes again, over its three waits.
pub fn refire_report(e1: WaitSample, e2: WaitSample, e3: WaitSample) -> (r: EpollSpinOut)
    ensures
        r@ == (SpinView {
            detail: "step=eventfd_in_refire e1="@ + int_text(e1.events as int) + " e2="@ + int_text(
                e2.events as int,
            ) + " e3="@ + int_text(e3.events as int) + " e1_ms="@ + dec_text(e1.elapsed_ms as nat)
                + " e3_ms="@ + dec_text(e3.elapsed_ms as nat),
            first_elapsed_ms: e1.elapsed_ms,
            first_events: e1.events,
            iterations: 0,
            loop_elapsed_ms: 0,
            timer_ready: if e3.events > 0 {
                1
            } else {
                0
            },
            zero_event_returns: if e2.events == 0 {
                1
            } else {
                0
            },
        }),
{
    let a = dec_i64(e1.events as i64);
    let b = dec_i64(e2.events as i64);
    let c = dec_i64(e3.events as i64);
    let ta = dec(e1.elapsed_ms);
    let tc = dec(e3.elapsed_ms);
    let mut detail = cat3("step=eventfd_in_refire e1=", a.as_str(), " e2=");
    detail.append(b.as_str());
    detail.append(" e3=");
    detail.append(c.as_str());
    detail.append(" e1_ms=");
    detail.append(ta.as_str());
    detail.append(" e3_ms=");
    detail.append(tc.as_str());
    EpollSpinOut {
        detail,
        first_elapsed_ms: e1.elapsed_ms,
        first_events: e1.events,
        iterations: 0,
        loop_elapsed_ms: 0,
        timer_ready: if e3.events > 0 {
            1
        } else {
            0
        },
        zero_event_returns: if e2.events == 0 {
            1
        } else {
            0
        },
    }
}

/// How often the probe of a connection writes and drains.
pub const CYCLES: usize = 4;

/// The cycles of the probe that drains a connection.
pub struct RefireLog {
    first_events: i32,
    first_elapsed_ms: u64,
    samples: Vec<i32>,
    drained: usize,
}

impl RefireLog {
    /// What the waits gave so far.
    pub closed spec fn events(self) -> Seq<i32> {
        self.samples@
    }

    /// How long the first wait took.
    pub closed spec fn first_ms(self) -> u64 {
        self.first_elapsed_ms
    }

    /// How many bytes were drained.
    pub closed spec fn bytes(self) -> usize {
        self.drained
    }

    /// The log remembers its first wait, and goes on only after waits with events.
    pub closed spec fn wf(self) -> bool {
        &&& self.samples@.len() > 0 ==> self.first_events == self.samples@[0]
        &&& self.samples@.len() == 0 ==> self.first_events == 0 && self.first_elapsed_ms == 0
        &&& self.samples@.len() <= CYCLES
        &&& forall|k: int| 0 <= k < self.samples@.len() ==> self.samples@[k] > 0
    }

    /// No cycle yet.
    pub fn new() -> (r: Self)
        ensures
            r.wf(),
            r.events() == Seq::<i32>::empty(),
            r.first_ms() == 0,
            r.bytes() == 0,
    {
        RefireLog { first_events: 0, first_elapsed_ms: 0, samples: Vec::new(), drained: 0 }
    }

    /// What one cycle's wait gave: the next thing is to drain the connection, or the report
    /// of a cycle without an edge.
    pub fn feed(&mut self, sample: WaitSample) -> (r: Option<EpollSpinOut>)
        requires
            old(self).wf(),
            old(self).events().len() < CYCLES,
        ensures
            final(self).events() == old(self).events().push(sample.events),
            final(self).bytes() == old(self).bytes(),
            final(self).first_ms() == if old(self).events().len() == 0 {
                sample.elapsed_ms
            } else {
                old(self).first_ms()
            },
            r is None <==> sample.events > 0,
            r is None ==> final(self).wf(),
            r matches Some(o) ==> o@ == (SpinView {
                detail: "step=broker_tcp_drain_in_refire_et cycle="@ + dec_text(
                    old(self).events().len(),
                ) + " timed out samples="@ + list_text(int_texts(final(self).events()))
                    + " drained_bytes="@ + dec_text(old(self).bytes() as nat),
                first_elapsed_ms: final(self).first_ms(),
                first_events: final(self).events()[0],
                iterations: old(self).events().len() as u64,
                loop_elapsed_ms: 0,
                timer_ready: old(self).events().len() as u64,
                zero_event_returns: 1,
            }),
    {
        let cycle: usize = self.samples.len();
        if cycle == 0 {
            self.first_events = sample.events;
            self.first_elapsed_ms = sample.elapsed_ms;
        }
        self.samples.push(sample.events);
        if sample.events > 0 {
            return None;
        }
        let n = dec(cycle as u64);
        let list = ints_debug(&self.samples);
        let bytes = dec(self.drained as u64);
        let mut detail = cat3(
            "step=broker_tcp_drain_in_refire_et cycle=",
            n.as_str(),
            " timed out samples=",
        );
        detail.append(list.as_str());
        detail.append(" drained_bytes=");
        detail.append(bytes.as_str());
        Some(
            EpollSpinOut {
                detail,
                first_elapsed_ms: self.first_elapsed_ms,
                first_events: self.first_events,
                iterations: cycle as u64,
                loop_elapsed_ms: 0,
                timer_ready: cycle as u64,
                zero_event_returns: 1,
            },
        )
    }

    /// So many bytes were drained in this cycle.
    pub fn drain(&mut self, bytes: usize)
        requires
            old(self).wf(),
            old(self).bytes() + bytes <= usize::MAX,
        ensures
            final(self).wf(),
            final(self).events() == old(self).events(),
            final(self).first_ms() == old(self).first_ms(),
            final(self).bytes() == old(self).bytes() + bytes,
    {
        self.drained = self.drained + bytes;
    }

    /// The report after all cycles.
    pub fn finish(&self) -> (r: EpollSpinOut)
        requires
            self.wf(),
            self.events().len() == CYCLES,
        ensures
            r@ == (SpinView {
                detail: "step=broker_tcp_drain_in_refire_et cycles=4 samples="@ + list_text(
                    int_texts(self.events()),
                ) + " drained_bytes="@ + dec_text(self.bytes() as nat),
                first_elapsed_ms: self.first_ms(),
                first_events: self.events()[0],
                iterations: 4,
                loop_elapsed_ms: 0,
                timer_ready: 4,
                zero_event_returns: 0,
            }),
            refire_passes(r@),
    {
        let list = ints_debug(&self.samples);
        let bytes = dec(self.drained as u64);
        let mut detail = cat3(
            "step=broker_tcp_drain_in_refire_et cycles=4 samples=",
            list.as_str(),
            " drained_bytes=",
        );
        detail.append(bytes.as_str());
        EpollSpinOut {
            detail,
            first_elapsed_ms: self.first_elapsed_ms,
            first_events: self.first_events,
            iterations: 4,
            loop_elapsed_ms: 0,
            timer_ready: 4,
            zero_event_returns: 0,
        }
    }
}

/// What the probe writes in a cycle.
pub fn refire_payload(cycle: usize) -> (r: String)
    ensures
        r@ == "broker-tcp-drain-refire-cycle-"@ + dec_text(cycle as nat),
{
    let n = dec(cycle as u64);
    cat("broker-tcp-drain-refire-cycle-", n.as_str())
}

/// A step of a cycle that failed.
pub fn refire_failed(cycle: usize, step: &str, error: &str) -> (r: String)
    ensures
        r@ == "cycle "@ + dec_text(cycle as nat) + " "@ + step@ + ": "@ + error@,
{
    let n = dec(cycle as u64);
    let mut text = cat3("cycle ", n.as_str(), " ");
    text.append(step);
    text.append(": ");
    text.append(error);
    text
}

/// What a read or write on a connection gave.
pub enum StreamEvent {
    Bytes { n: usize },
    WouldBlock,
    Interrupted,
    Failed { error: String },
}

/// Whether a write goes on.
pub enum SendStep {
    /// So many more bytes are written.
    Advance { n: usize },
    /// Try again.
    Again,
    Fail { error: String },
}

/// One write to a connection without waiting. `late` is whether the time is up.
pub fn send_step(ev: StreamEvent, late: bool) -> (r: SendStep)
    ensures
        match ev {
            StreamEvent::Bytes { n } => if n == 0 {
                r matches SendStep::Fail { error } && error@ == "tcp write returned zero"@
            } else {
                r == (SendStep::Advance { n })
            },
            StreamEvent::Failed { error: e } => r == (SendStep::Fail { error: e }),
            _ => if late {
                r matches SendStep::Fail { error } && error@ == "timed out writing to tcp stream"@
            } else {
                r is Again
            },
        },
{
    match ev {
        StreamEvent::Bytes { n } => if n == 0 {
            SendStep::Fail { error: "tcp write returned zero".to_string() }
        } else {
            SendStep::Advance { n }
        },
        StreamEvent::Failed { error } => SendStep::Fail { error },
        _ => if late {
            SendStep::Fail { error: "timed out writing to tcp stream".to_string() }
        } else {
            SendStep::Again
        },
    }
}

/// Whether draining goes on.
pub enum DrainStep {
    /// Read again; so many bytes are read in all.
    Again { total: usize },
    /// The connection is empty.
    Empty { total: usize },
    Fail { error: String },
}

/// One read while a connection is drained. `total` bytes were read before.
pub fn drain_step(total: usize, ev: StreamEvent) -> (r: DrainStep)
    requires
        ev matches StreamEvent::Bytes { n } ==> total + n <= usize::MAX,
    ensures
        match ev {
            StreamEvent::Bytes { n } => if n == 0 {
                r matches DrainStep::Fail { error } && error@ == "tcp stream closed while draining"@
            } else {
                r == (DrainStep::Again { total: (total + n) as usize })
            },
            StreamEvent::WouldBlock => if total == 0 {
                r matches DrainStep::Fail { error } && error@
                    == "epoll reported readable but drain saw no bytes"@
            } else {
                r == (DrainStep::Empty { total })
            },
            StreamEvent::Interrupted => r == (DrainStep::Again { total }),
            StreamEvent::Failed { error: e } => r == (DrainStep::Fail { error: e }),
        },
{
    match ev {
        StreamEvent::Bytes { n } => if n == 0 {
            DrainStep::Fail { error: "tcp stream closed while draining".to_string() }
        } else {
            DrainStep::Again { total: total + n }
        },
        StreamEvent::WouldBlock => if total == 0 {
            DrainStep::Fail { error: "epoll reported readable but drain saw no bytes".to_string() }
        } else {
            DrainStep::Empty { total }
        },
        StreamEvent::Interrupted => DrainStep::Again { total },
        StreamEvent::Failed { error } => DrainStep::Fail { error },
    }
}

/// Whether the wait for data goes on.
pub enum PeekStep {
    Ready,
    /// Look again after a pause.
    Pause,
    /// Look again at once.
    Again,
    Fail { error: String },
}

/// One look for data on a connection.
pub fn peek_step(ev: StreamEvent, late: bool) -> (r: PeekStep)
    ensures
        match ev {
            StreamEvent::Bytes { n } => if n > 0 {
                r is Ready
            } else {
                r matches PeekStep::Fail { error } && error@ == "socket closed before readability"@
            },
            StreamEvent::WouldBlock => if late {
                r matches PeekStep::Fail { error } && error@
                    == "timed out waiting for socket readability"@
            } else {
                r is Pause
            },
            StreamEvent::Interrupted => r is Again,
            StreamEvent::Failed { error: e } => r == (PeekStep::Fail { error: e }),
        },
{
    match ev {
        StreamEvent::Bytes { n } => if n > 0 {
            PeekStep::Ready
        } else {
            PeekStep::Fail { error: "socket closed before readability".to_string() }
        },
        StreamEvent::WouldBlock => if late {
            PeekStep::Fail { error: "timed out waiting for socket readability".to_string() }
        } else {
            PeekStep::Pause
        },
        StreamEvent::Interrupted => PeekStep::Again,
        StreamEvent::Failed { error } => PeekStep::Fail { error },
    }
}

/// The byte that the sticky probe writes in a round.
pub fn round_byte(round: u64) -> (r: u8)
    ensures
        r == round % 256,
{
    (round % 256) as u8
}

/// Milliseconds in a span of time, as far as they can be counted.
pub open spec fn millis(secs: u64, nanos: u32) -> int {
    let ms = secs * 1000 + nanos / 1_000_000;
    if ms <= u64::MAX {
        ms
    } else {
        u64::MAX as int
    }
}

/// Milliseconds in a span of time given in seconds and nanoseconds.
pub fn elapsed_ms(secs: u64, nanos: u32) -> (r: u64)
    ensures
        r == millis(secs, nanos),
{
    let part: u64 = (nanos / 1_000_000) as u64;
    match secs.checked_mul(1000) {
        Some(whole) => match whole.checked_add(part) {
            Some(ms) => ms,
            None => u64::MAX,
        },
        None => u64::MAX,
    }
}

/// The span of time in the kernel's form, where its seconds fit.
pub fn duration_to_timespec(secs: u64, nanos: u32) -> (r: Result<(i64, i64), String>)
    ensures
        match r {
            Ok(t) => secs <= i64::MAX && t.0 == secs && t.1 == nanos,
            Err(e) => secs > i64::MAX && e@ == "duration seconds exceed time_t"@,
        },
{
    if secs <= i64::MAX as u64 {
        Ok((secs as i64, nanos as i64))
    } else {
        Err("duration seconds exceed time_t".to_string())
    }
}

/// The largest number of the kernel's type that is not above `n`.
pub fn clamp_i32(n: u64) -> (r: i32)
    ensures
        r == if n <= i32::MAX {
            n as int
        } else {
            i32::MAX as int
        },
{
    if n <= i32::MAX as u64 {
        n as i32
    } else {
        i32::MAX
    }
}

/// The bit that says that a descriptor can be read.
pub const EPOLLIN: u32 = 1;

/// The number under which the timer is registered.
pub const TIMER_TOKEN: u64 = 2;

/// The event says that the timer can be read.
pub open spec fn is_timer(ev: (u64, u32)) -> bool {
    ev.0 == TIMER_TOKEN && ev.1 & EPOLLIN != 0
}

/// Whether the timer is among the events, each given by its number and its bits.
pub fn timer_among(events: &[(u64, u32)]) -> (r: bool)
    ensures
        r == exists|k: int| 0 <= k < events@.len() && is_timer(#[trigger] events@[k]),
{
    let mut i: usize = 0;
    while i < events.len()
        invariant
            i <= events.len(),
            forall|k: int| 0 <= k < i ==> !is_timer(#[trigger] events@[k]),
        decreases events.len() - i,
    {
        if events[i].0 == TIMER_TOKEN && events[i].1 & EPOLLIN != 0 {
            assert(is_timer(events@[i as int]));
            return true;
        }
        i = i + 1;
    }
    false
}

/// The exit code of the child that runs the timer probe: whether it has a report, and
/// whether that, or else its complaint, was written whole.
pub fn timer_child_code(reported: bool, written: bool) -> (r: i32)
    ensures
        r == if !written {
            1i32
        } else if reported {
            0
        } else {
            2
        },
{
    if !written {
        1
    } else if reported {
        0
    } else {
        2
    }
}

/// Check the end of the child that ran the timer probe.
pub fn timer_child_end(status: i32, output: &[u8]) -> (r: Result<(), String>)
    ensures
        match r {
            Ok(()) => ended_well(status),
            Err(e) => !ended_well(status) && e@ == "forked timerfd probe child status="@ + hex_text(
                status as u32 as nat,
            ) + " output="@ + lossy_text(output@),
        },
{
    if succeeded(status) {
        Ok(())
    } else {
        let code = hex(#[verifier::truncate] (status as u32) as u64);
        let shown = lossy(output);
        let mut text = cat3("forked timerfd probe child status=", code.as_str(), " output=");
        text.append(shown.as_str());
        Err(text)
    }
}

/// The complaint about a report that cannot be read.
pub fn timer_report_unreadable(error: &str, output: &[u8]) -> (r: String)
    ensures
        r@ == "forked timerfd probe JSON parse: "@ + error@ + "; "@ + lossy_text(output@),
{
    let shown = lossy(output);
    let mut text = cat3("forked timerfd probe JSON parse: ", error, "; ");
    text.append(shown.as_str());
    text
}

/// Whether reading to the end goes on.
#[derive(Clone, Copy, Debug, PartialEq, Eq, Structural)]
pub enum ReadStep {
    /// So many more bytes.
    More { n: usize },
    /// Interrupted: try again.
    Again,
    /// The end, or a failure, which counts as the end.
    End,
}

/// One read that returned `rc`.
pub fn read_step(rc: i64, errno: Option<i32>) -> (r: ReadStep)
    requires
        rc <= usize::MAX,
    ensures
        r == if rc > 0 {
            ReadStep::More { n: rc as usize }
        } else if rc < 0 && errno == Some(EINTR) {
            ReadStep::Again
        } else {
            ReadStep::End
        },
{
    if rc > 0 {
        ReadStep::More { n: rc as usize }
    } else if rc < 0 && errno == Some(EINTR) {
        ReadStep::Again
    } else {
        ReadStep::End
    }
}

/// The waits without an event, and those with the timer, are counted one by one.
pub proof fn law_waits_are_counted(samples: Seq<WaitSample>)
    ensures
        empty_waits(samples) == samples.filter(|s: WaitSample| s.events == 0).len(),
        timer_waits(samples) == samples.filter(|s: WaitSample| s.timer_ready).len(),
    decreases samples.len(),
{
    reveal(Seq::filter);
    if samples.len() > 0 {
        law_waits_are_counted(samples.drop_last());
    }
}

proof fn lemma_none_empty(waits: Seq<WaitSample>)
    ensures
        empty_waits(waits) == 0 <==> forall|k: int|
            0 <= k < waits.len() ==> (#[trigger] waits[k]).events != 0,
        timer_waits(waits) == waits.len() <==> forall|k: int|
            0 <= k < waits.len() ==> (#[trigger] waits[k]).timer_ready,
    decreases waits.len(),
{
    law_counts_bounded(waits);
    if waits.len() > 0 {
        let before = waits.drop_last();
        lemma_none_empty(before);
        law_counts_bounded(before);
        assert(forall|k: int| 0 <= k < before.len() ==> before[k] == waits[k]);
        assert(waits.last() == waits[waits.len() - 1]);
        if empty_waits(before) != 0 {
            let k = choose|k: int| 0 <= k < before.len() && !((#[trigger] before[k]).events != 0);
            assert(waits[k].events == 0);
        }
        if timer_waits(before) != before.len() {
            let k = choose|k: int| 0 <= k < before.len() && !(#[trigger] before[k]).timer_ready;
            assert(!waits[k].timer_ready);
        }
    }
}

/// A report tells of the first wait as it was, of how many followed it, of how many came back
/// empty and, only where the timer is looked for, of how many held it.
pub proof fn law_spin_report(
    style: SpinStyle,
    prefix: Seq<char>,
    waits: Seq<WaitSample>,
    elapsed: u64,
)
    requires
        0 < waits.len() <= u64::MAX,
    ensures
        ({
            let o = spin_report(style, prefix, waits, elapsed);
            &&& o.first_events == waits[0].events
            &&& o.first_elapsed_ms == waits[0].elapsed_ms
            &&& o.iterations == waits.len() - 1
            &&& o.loop_elapsed_ms == elapsed
            &&& o.zero_event_returns == empty_waits(waits)
            &&& style is Timer ==> o.timer_ready == timer_waits(waits)
            &&& !(style is Timer) ==> o.timer_ready == 0
        }),
{
    law_counts_bounded(waits);
}

/// A probe of a timer passes exactly if each of its few waits held the timer, none came back
/// empty, and the first took about a second.
pub proof fn law_timer_means_all_ready(prefix: Seq<char>, waits: Seq<WaitSample>, elapsed: u64)
    requires
        0 < waits.len() <= u64::MAX,
    ensures
        timer_passes(spin_report(SpinStyle::Timer, prefix, waits, elapsed)) <==> {
            &&& waits.len() <= 11
            &&& waits[0].events > 0
            &&& 500 <= waits[0].elapsed_ms <= 1800
            &&& forall|k: int|
                0 <= k < waits.len() ==> (#[trigger] waits[k]).timer_ready && waits[k].events != 0
        },
{
    law_counts_bounded(waits);
    lemma_none_empty(waits);
}

/// A probe of a connection that can always be written to passes exactly if its first wait took
/// the edge and every one of the few short waits after it came back empty.
pub proof fn law_sticky_means_one_edge(prefix: Seq<char>, waits: Seq<WaitSample>, elapsed: u64)
    requires
        0 < waits.len() <= u64::MAX,
    ensures
        sticky_out_passes(spin_report(SpinStyle::Plain, prefix, waits, elapsed)) <==> {
            &&& waits.len() <= 41
            &&& waits[0].events > 0
            &&& forall|k: int| 1 <= k < waits.len() ==> (#[trigger] waits[k]).events == 0
        },
{
    law_counts_bounded(waits);
    let rest = waits.skip(1);
    lemma_all_empty(rest);
    lemma_empty_tail(waits);
    assert(forall|k: int| 0 <= k < rest.len() ==> rest[k] == waits[k + 1]);
    if forall|k: int| 1 <= k < waits.len() ==> (#[trigger] waits[k]).events == 0 {
        assert(forall|k: int| 0 <= k < rest.len() ==> (#[trigger] rest[k]).events == 0);
    }
    if forall|k: int| 0 <= k < rest.len() ==> (#[trigger] rest[k]).events == 0 {
        assert forall|k: int| 1 <= k < waits.len() implies (#[trigger] waits[k]).events == 0 by {
            assert(rest[k - 1].events == 0);
        }
    }
}

proof fn lemma_empty_tail(waits: Seq<WaitSample>)
    requires
        waits.len() > 0,
    ensures
        empty_waits(waits) == empty_waits(waits.skip(1)) + if waits[0].events == 0 {
            1nat
        } else {
            0nat
        },
    decreases waits.len(),
{
    if waits.len() == 1 {
        assert(waits.skip(1).len() == 0);
        assert(waits.drop_last().len() == 0);
        assert(empty_waits(waits.drop_last()) == 0);
    } else {
        let before = waits.drop_last();
        lemma_empty_tail(before);
        assert(waits.skip(1).drop_last() =~= before.skip(1));
        assert(waits.skip(1).last() == waits.last());
    }
}

/// A probe for the level passes exactly if it came round more than a hundred times and no wait
/// came back empty, and one that must not spin exactly if it came round at most ten times; both
/// need an event in the first wait.
pub proof fn law_level_and_edge_counts(prefix: Seq<char>, waits: Seq<WaitSample>, elapsed: u64)
    requires
        0 < waits.len() <= u64::MAX,
    ensures
        level_passes(spin_report(SpinStyle::Level, prefix, waits, elapsed)) <==> waits.len() > 101
            && waits[0].events > 0 && forall|k: int|
            0 <= k < waits.len() ==> (#[trigger] waits[k]).events != 0,
        no_spin_passes(spin_report(SpinStyle::Plain, prefix, waits, elapsed)) <==> waits.len() <= 11
            && waits[0].events > 0,
{
    law_counts_bounded(waits);
    lemma_none_empty(waits);
}

/// The probes that drain again and again pass only with the counts of their cycles: four edges
/// of four, or an edge, one empty wait and an edge.
pub proof fn law_refire_counts(o: SpinView)
    ensures
        refire_passes(o) <==> o.first_events > 0 && o.iterations == 4 && o.timer_ready == 4
            && o.zero_event_returns == 0,
        span_refire_passes(o) <==> o.first_events > 0 && o.timer_ready == 1 && o.zero_event_returns
            == 1,
        CYCLES == 4,
{
}

/// A second has a thousand milliseconds, and a million nanoseconds are one; what cannot be
/// counted is the largest number there is, and a longer time is never counted as shorter.
pub proof fn law_millis(secs: u64, nanos: u32, more: u64)
    ensures
        secs * 1000 + nanos / 1_000_000 <= u64::MAX ==> millis(secs, nanos) == secs * 1000 + nanos
            / 1_000_000,
        millis(secs, nanos) <= u64::MAX,
        secs <= more ==> millis(secs, nanos) <= millis(more, nanos),
{
}

/// Only an event of the timer's own number, and only one that names reading, is the timer's.
pub proof fn law_timer_event(ev: (u64, u32))
    ensures
        is_timer(ev) <==> ev.0 == 2 && ev.1 & 1 != 0,
{
}

/// A check answers well exactly if it passes, and shows the counts either way.
pub proof fn law_answer_tells(r: Result<String, String>, pass: bool, detail: Seq<char>)
    requires
        answered(r, pass, detail),
    ensures
        r is Ok <==> pass,
        r matches Ok(d) ==> d@ == detail,
        r matches Err(e) ==> e@ == detail,
{
}

} // verus!
