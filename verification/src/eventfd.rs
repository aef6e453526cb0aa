//! Event counters: what reads, waits and inherited descriptors must give, the small
//! programs that check it in a fresh process, and the tests over them.

use vstd::prelude::*;
use crate::agents::AgentName;
use crate::epoll::{has_in, has_name, says, says_in, EpollEvent};
use crate::epoll_plans::POLLIN;
use crate::errno::EINTR;
use crate::number::{
    dec, dec_i64, dec_text, hex, hex_text, int_text, law_parse_undoes_print,
    law_parse_undoes_print_i32, parse_i32, parse_i32_text, parse_unsigned, parse_unsigned_text,
};
use crate::registry::{
    binary_at, binary_type, on_agents, plan_alone, plan_on, plan_views, BinaryType, Group, Handler,
    OutcomeView, PlanView, TestOutcome, TestPlan,
};
use crate::spin::EPOLLIN;
use crate::text::{
    bool_text, bool_word, cat, cat3, contains, contains_text, lossy, lossy_text, quote, quoted, same,
    split_text,
};

verus! {

/// What a read of a counter gave.
pub enum CounterRead {
    Value { value: u64 },
    WouldBlock,
    Failed { error: String },
}

/// The complaint about a read that must find the counter empty, if there is one.
pub open spec fn empty_complaint(read: CounterRead) -> Option<Seq<char>> {
    match read {
        CounterRead::WouldBlock => None,
        CounterRead::Failed { error } => Some("expected EAGAIN, got "@ + error@),
        CounterRead::Value { value } => Some(
            "expected EAGAIN, got value "@ + dec_text(value as nat),
        ),
    }
}

fn must_be_empty(read: CounterRead) -> (r: Result<(), String>)
    ensures
        match r {
            Ok(()) => empty_complaint(read) is None,
            Err(e) => empty_complaint(read) == Some(e@),
        },
{
    match read {
        CounterRead::WouldBlock => Ok(()),
        CounterRead::Failed { error } => Err(cat("expected EAGAIN, got ", error.as_str())),
        CounterRead::Value { value } => {
            let n = dec(value);
            Err(cat("expected EAGAIN, got value ", n.as_str()))
        },
    }
}

/// The counter test: three and five add up to eight, and the counter is empty then.
pub fn check_counter(accumulated: u64, again: CounterRead) -> (r: Result<u64, String>)
    ensures
        if accumulated != 8 {
            r matches Err(e) && e@ == "expected accumulated=8 got "@ + dec_text(accumulated as nat)
        } else {
            match empty_complaint(again) {
                Some(c) => r matches Err(e) && e@ == c,
                None => r == Ok::<u64, String>(8),
            }
        },
{
    if accumulated != 8 {
        let n = dec(accumulated);
        return Err(cat("expected accumulated=8 got ", n.as_str()));
    }
    match must_be_empty(again) {
        Ok(()) => Ok(accumulated),
        Err(e) => Err(e),
    }
}

/// The detail of the counter test.
pub fn counter_detail(value: u64) -> (r: String)
    ensures
        r@ == "counter value="@ + dec_text(value as nat),
{
    let n = dec(value);
    cat("counter value=", n.as_str())
}

/// How often the semaphore test reads: as often as the counter began with.
pub const SEMAPHORE_READS: u32 = 5;

/// The complaint about one read of the semaphore test, which must give one.
pub fn semaphore_complaint(i: u32, value: u64) -> (r: Option<String>)
    ensures
        match r {
            None => value == 1,
            Some(c) => value != 1 && c@ == "semaphore read "@ + dec_text(i as nat)
                + ": expected 1 got "@ + dec_text(value as nat),
        },
{
    if value == 1 {
        None
    } else {
        let a = dec(i as u64);
        let b = dec(value);
        let mut text = cat3("semaphore read ", a.as_str(), ": expected 1 got ");
        text.append(b.as_str());
        Some(text)
    }
}

/// The end of the semaphore test: the counter is empty.
pub fn semaphore_end(again: CounterRead) -> (r: Result<u32, String>)
    ensures
        match empty_complaint(again) {
            Some(c) => r matches Err(e) && e@ == c,
            None => r == Ok::<u32, String>(SEMAPHORE_READS),
        },
{
    match must_be_empty(again) {
        Ok(()) => Ok(SEMAPHORE_READS),
        Err(e) => Err(e),
    }
}

/// The detail of the semaphore test.
pub fn semaphore_detail(reads: u32) -> (r: String)
    ensures
        r@ == "semaphore reads="@ + dec_text(reads as nat),
{
    let n = dec(reads as u64);
    cat("semaphore reads=", n.as_str())
}

/// The probe for edges saw one edge, no second, and the sum.
pub open spec fn edge_detail_right(detail: Seq<char>) -> bool {
    contains_text(detail, "first=1"@) && contains_text(detail, "second=0"@) && contains_text(
        detail,
        "value=8"@,
    )
}

/// Check what the probe for edges reports.
pub fn check_edge_detail(detail: String) -> (r: Result<String, String>)
    ensures
        match r {
            Ok(d) => edge_detail_right(detail@) && d == detail,
            Err(e) => !edge_detail_right(detail@) && e@ == "epollet detail mismatch: "@ + detail@,
        },
{
    if contains(detail.as_str(), "first=1") && contains(detail.as_str(), "second=0") && contains(
        detail.as_str(),
        "value=8",
    ) {
        Ok(detail)
    } else {
        Err(cat("epollet detail mismatch: ", detail.as_str()))
    }
}

/// The detail of the edge test.
pub fn edge_test_detail(detail: &str) -> (r: String)
    ensures
        r@ == "epollet "@ + detail@,
{
    cat("epollet ", detail)
}

/// Probes of a set that watches a counter.
#[derive(Clone, Copy, Debug, PartialEq, Eq, Structural)]
pub enum LevelProbe {
    /// A counter at zero is not ready.
    Zero,
    /// A written counter is ready until it is read.
    Drain,
    /// The same where another thread reads it.
    ThreadDrain,
    /// A counter at zero, through a set in a set.
    NestedZero,
    /// A written counter, through a set in a set.
    NestedDrain,
}

impl LevelProbe {
    /// The complaint about a written counter that is not ready.
    pub open spec fn unready_text(self) -> Seq<char> {
        match self {
            LevelProbe::NestedDrain =>
                "outer epoll did not report inner readiness after write: events="@,
            _ => "written eventfd did not report EPOLLIN: events="@,
        }
    }

    /// The complaint about an empty counter that is ready.
    pub open spec fn stale_text(self) -> Seq<char> {
        match self {
            LevelProbe::Zero => "counter=0 eventfd reported ready: events="@,
            LevelProbe::Drain => "drained eventfd still reported ready: events="@,
            LevelProbe::ThreadDrain =>
                "eventfd drained by peer thread still reported ready: events="@,
            LevelProbe::NestedZero =>
                "outer epoll reported inner epoll ready while eventfd counter=0: events="@,
            LevelProbe::NestedDrain =>
                "outer epoll reported stale inner readiness after direct eventfd drain: events="@,
        }
    }

    /// Who reads the counter.
    pub open spec fn reader_text(self) -> Seq<char> {
        match self {
            LevelProbe::ThreadDrain => "reader got "@,
            _ => "eventfd read got "@,
        }
    }

    /// The detail of a probe that found nothing wrong.
    pub open spec fn detail_text(self) -> Seq<char> {
        match self {
            LevelProbe::Zero => "counter=0 EPOLLIN wait timed out"@,
            LevelProbe::Drain => "write produced EPOLLIN and drain cleared readiness"@,
            LevelProbe::ThreadDrain => "peer thread drain cleared eventfd EPOLLIN readiness"@,
            LevelProbe::NestedZero => "nested epoll blocked with counter=0 eventfd"@,
            LevelProbe::NestedDrain =>
                "nested epoll readiness cleared after direct eventfd drain"@,
        }
    }

    /// The detail of a probe that found nothing wrong.
    pub fn detail(self) -> (r: String)
        ensures
            r@ == self.detail_text(),
    {
        match self {
            LevelProbe::Zero => "counter=0 EPOLLIN wait timed out".to_string(),
            LevelProbe::Drain => "write produced EPOLLIN and drain cleared readiness".to_string(),
            LevelProbe::ThreadDrain => "peer thread drain cleared eventfd EPOLLIN readiness".to_string(),
            LevelProbe::NestedZero => "nested epoll blocked with counter=0 eventfd".to_string(),
            LevelProbe::NestedDrain => "nested epoll readiness cleared after direct eventfd drain".to_string(),
        }
    }

    /// Check the wait after the counter was written: there is one event, for reading.
    pub fn check_ready(self, events: &Vec<EpollEvent>, shown: &str) -> (r: Result<(), String>)
        ensures
            match r {
                Ok(()) => is_one_in(events@),
                Err(e) => !is_one_in(events@) && e@ == self.unready_text() + shown@,
            },
    {
        if events.len() == 1 && has_in(&events[0]) {
            Ok(())
        } else {
            let head = match self {
                LevelProbe::NestedDrain => "outer epoll did not report inner readiness after write: events=",
                _ => "written eventfd did not report EPOLLIN: events=",
            };
            Err(cat(head, shown))
        }
    }

    /// Check what the counter held.
    pub fn check_value(self, value: u64) -> (r: Result<(), String>)
        ensures
            match r {
                Ok(()) => value == 1,
                Err(e) => value != 1 && e@ == self.reader_text() + dec_text(value as nat)
                    + ", want 1"@,
            },
    {
        if value == 1 {
            Ok(())
        } else {
            let n = dec(value);
            let head = match self {
                LevelProbe::ThreadDrain => "reader got ",
                _ => "eventfd read got ",
            };
            Err(cat3(head, n.as_str(), ", want 1"))
        }
    }

    /// Check the wait while the counter is empty: nothing is ready.
    pub fn check_quiet(self, events: &Vec<EpollEvent>, shown: &str) -> (r: Result<(), String>)
        ensures
            match r {
                Ok(()) => events@.len() == 0,
                Err(e) => events@.len() > 0 && e@ == self.stale_text() + shown@,
            },
    {
        if events.len() == 0 {
            Ok(())
        } else {
            let head = match self {
                LevelProbe::Zero => "counter=0 eventfd reported ready: events=",
                LevelProbe::Drain => "drained eventfd still reported ready: events=",
                LevelProbe::ThreadDrain => "eventfd drained by peer thread still reported ready: events=",
                LevelProbe::NestedZero => "outer epoll reported inner epoll ready while eventfd counter=0: events=",
                LevelProbe::NestedDrain => "outer epoll reported stale inner readiness after direct eventfd drain: events=",
            };
            Err(cat(head, shown))
        }
    }
}

/// A call of a probe of a counter's readiness, once its sets are made.
#[derive(Clone, Copy, Debug, PartialEq, Eq, Structural)]
pub enum LevelCall {
    /// Write one to the counter.
    Put,
    /// Wait until it is ready.
    WaitReady,
    /// Read the counter: in another thread for the probe of that name.
    Drain,
    /// Wait a little while it is empty.
    WaitQuiet,
}

/// What a call of such a probe gave.
#[allow(inconsistent_fields)]
pub enum LevelEvent {
    /// It failed.
    Failed { error: String },
    /// The reading thread broke off.
    Broken,
    /// The counter was written.
    Written,
    /// The events of a wait, and how they print.
    Events { events: Vec<EpollEvent>, shown: String },
    /// What the counter held.
    Value { value: u64 },
}

/// The event is one of the call.
pub open spec fn level_fits(at: LevelCall, ev: LevelEvent) -> bool {
    match ev {
        LevelEvent::Failed { .. } => true,
        LevelEvent::Broken => at == LevelCall::Drain,
        LevelEvent::Written => at == LevelCall::Put,
        LevelEvent::Events { .. } => at == LevelCall::WaitReady || at == LevelCall::WaitQuiet,
        LevelEvent::Value { .. } => at == LevelCall::Drain,
    }
}

/// What follows a call of such a probe.
pub enum LevelNext {
    Call { call: LevelCall },
    Over { result: Result<String, String> },
}

impl LevelProbe {
    /// The first call: a counter at zero is only waited for.
    pub open spec fn opening(self) -> LevelCall {
        if self == LevelProbe::Zero || self == LevelProbe::NestedZero {
            LevelCall::WaitQuiet
        } else {
            LevelCall::Put
        }
    }

    /// The first call.
    pub fn first_call(self) -> (r: LevelCall)
        ensures
            r == self.opening(),
    {
        match self {
            LevelProbe::Zero | LevelProbe::NestedZero => LevelCall::WaitQuiet,
            _ => LevelCall::Put,
        }
    }

    /// A call, as the complaint about its failure names it.
    pub open spec fn call_text(self, at: LevelCall) -> Seq<char> {
        match (at, self) {
            (LevelCall::Put, _) => "eventfd write"@,
            (LevelCall::WaitReady, LevelProbe::NestedDrain) => "first outer epoll wait"@,
            (LevelCall::WaitReady, _) => "first epoll wait"@,
            (LevelCall::Drain, LevelProbe::ThreadDrain) => "reader eventfd read"@,
            (LevelCall::Drain, _) => "eventfd read"@,
            (LevelCall::WaitQuiet, LevelProbe::Zero) => "epoll wait"@,
            (LevelCall::WaitQuiet, LevelProbe::NestedZero) => "outer epoll wait"@,
            (LevelCall::WaitQuiet, LevelProbe::NestedDrain) => "second outer epoll wait"@,
            (LevelCall::WaitQuiet, _) => "second epoll wait"@,
        }
    }

    fn call_name(self, at: LevelCall) -> (r: &'static str)
        ensures
            r@ == self.call_text(at),
    {
        match (at, self) {
            (LevelCall::Put, _) => "eventfd write",
            (LevelCall::WaitReady, LevelProbe::NestedDrain) => "first outer epoll wait",
            (LevelCall::WaitReady, _) => "first epoll wait",
            (LevelCall::Drain, LevelProbe::ThreadDrain) => "reader eventfd read",
            (LevelCall::Drain, _) => "eventfd read",
            (LevelCall::WaitQuiet, LevelProbe::Zero) => "epoll wait",
            (LevelCall::WaitQuiet, LevelProbe::NestedZero) => "outer epoll wait",
            (LevelCall::WaitQuiet, LevelProbe::NestedDrain) => "second outer epoll wait",
            (LevelCall::WaitQuiet, _) => "second epoll wait",
        }
    }

    /// What is wrong after a call, if anything is.
    pub open spec fn level_complaint(self, at: LevelCall, ev: LevelEvent) -> Option<Seq<char>> {
        match ev {
            LevelEvent::Failed { error } => Some(self.call_text(at) + ": "@ + error@),
            LevelEvent::Broken => Some("reader thread panicked"@),
            LevelEvent::Written => None,
            LevelEvent::Events { events, shown } => if at == LevelCall::WaitReady {
                if is_one_in(events@) {
                    None
                } else {
                    Some(self.unready_text() + shown@)
                }
            } else if events@.len() == 0 {
                None
            } else {
                Some(self.stale_text() + shown@)
            },
            LevelEvent::Value { value } => if value == 1 {
                None
            } else {
                Some(self.reader_text() + dec_text(value as nat) + ", want 1"@)
            },
        }
    }

    fn level_check(self, at: LevelCall, ev: LevelEvent) -> (r: Result<(), String>)
        ensures
            match r {
                Ok(()) => self.level_complaint(at, ev) is None,
                Err(e) => self.level_complaint(at, ev) == Some(e@),
            },
    {
        match ev {
            LevelEvent::Failed { error } => Err(
                cat3(self.call_name(at), ": ", error.as_str()),
            ),
            LevelEvent::Broken => Err("reader thread panicked".to_string()),
            LevelEvent::Written => Ok(()),
            LevelEvent::Events { events, shown } => match at {
                LevelCall::WaitReady => self.check_ready(&events, shown.as_str()),
                _ => self.check_quiet(&events, shown.as_str()),
            },
            LevelEvent::Value { value } => self.check_value(value),
        }
    }

    /// What follows a call: the first complaint ends the probe, and so does the last wait.
    pub fn level_step(self, at: LevelCall, ev: LevelEvent) -> (r: LevelNext)
        requires
            level_fits(at, ev),
        ensures
            match self.level_complaint(at, ev) {
                Some(c) => r matches LevelNext::Over { result: Err(e) } && e@ == c,
                None => match after_level(at) {
                    Some(call) => r == (LevelNext::Call { call }),
                    None => r matches LevelNext::Over { result: Ok(d) } && d@ == self.detail_text(),
                },
            },
    {
        match self.level_check(at, ev) {
            Err(e) => LevelNext::Over { result: Err(e) },
            Ok(()) => match at {
                LevelCall::Put => LevelNext::Call { call: LevelCall::WaitReady },
                LevelCall::WaitReady => LevelNext::Call { call: LevelCall::Drain },
                LevelCall::Drain => LevelNext::Call { call: LevelCall::WaitQuiet },
                LevelCall::WaitQuiet => LevelNext::Over { result: Ok(self.detail()) },
            },
        }
    }
}

/// The call after a call with which nothing was wrong.
pub open spec fn after_level(at: LevelCall) -> Option<LevelCall> {
    match at {
        LevelCall::Put => Some(LevelCall::WaitReady),
        LevelCall::WaitReady => Some(LevelCall::Drain),
        LevelCall::Drain => Some(LevelCall::WaitQuiet),
        LevelCall::WaitQuiet => None,
    }
}

/// The calls that are left from a call on, itself included.
pub open spec fn level_calls(at: LevelCall) -> Seq<LevelCall> {
    match at {
        LevelCall::Put => seq![at, LevelCall::WaitReady, LevelCall::Drain, LevelCall::WaitQuiet],
        LevelCall::WaitReady => seq![at, LevelCall::Drain, LevelCall::WaitQuiet],
        LevelCall::Drain => seq![at, LevelCall::WaitQuiet],
        LevelCall::WaitQuiet => seq![at],
    }
}

/// A probe makes its calls in one order, whatever they give: every probe waits for an empty
/// counter last, and each but those of a counter at zero writes, waits and reads before that.
pub proof fn law_level_order(probe: LevelProbe, at: LevelCall)
    ensures
        level_calls(at)[0] == at,
        match after_level(at) {
            Some(next) => level_calls(at) == seq![at] + level_calls(next),
            None => level_calls(at).len() == 1,
        },
        level_calls(at).last() == LevelCall::WaitQuiet,
        level_calls(probe.opening()).len() == if probe == LevelProbe::Zero || probe
            == LevelProbe::NestedZero {
            1nat
        } else {
            4nat
        },
{
    if let Some(next) = after_level(at) {
        assert(level_calls(at) =~= seq![at] + level_calls(next));
    }
}

/// There is one event, and it is for reading.
pub open spec fn is_one_in(events: Seq<EpollEvent>) -> bool {
    events.len() == 1 && says_in(events[0])
}

/// Check that a set which watches for reading alone reports that alone.
pub fn check_mask(events: &Vec<EpollEvent>, shown: &str) -> (r: Result<String, String>)
    ensures
        if events@.len() != 1 {
            r matches Err(e) && e@ == "written eventfd wait returned "@ + dec_text(events@.len())
                + " events: "@ + shown@
        } else {
            let e0 = events@[0];
            let reads = says_in(e0);
            let writes = says(e0, "out"@);
            if reads && !writes {
                r matches Ok(d) && d@ == "EPOLLIN-only registration returned "@
                    + e0.observed_events@
            } else {
                r matches Err(e) && e@ == "EPOLLIN-only registration returned mask "@ + quoted(
                    e0.observed_events@,
                ) + "; has_in="@ + bool_text(reads) + " has_out="@ + bool_text(writes)
            }
        },
{
    if events.len() != 1 {
        let n = dec(events.len() as u64);
        let mut text = cat3("written eventfd wait returned ", n.as_str(), " events: ");
        text.append(shown);
        return Err(text);
    }
    let e0 = &events[0];
    let reads = has_in(e0);
    let writes = has_name(e0, "out");
    if reads && !writes {
        Ok(cat("EPOLLIN-only registration returned ", e0.observed_events.as_str()))
    } else {
        let mask = quote(e0.observed_events.as_str());
        let mut text = cat3(
            "EPOLLIN-only registration returned mask ",
            mask.as_str(),
            "; has_in=",
        );
        text.append(bool_word(reads));
        text.append(" has_out=");
        text.append(bool_word(writes));
        Err(text)
    }
}

/// The result of the test in which a counter's creator reads for another agent.
pub fn cross_agent_result(reader: &str, value: u64) -> (r: Result<String, String>)
    ensures
        match r {
            Ok(d) => value == 7 && d@ == "cross_agent reader="@ + reader@
                + " forward_via_creator=ok value="@ + dec_text(value as nat),
            Err(e) => value != 7 && e@
                == "reader logical read forwarded through creator: expected 7 got "@ + dec_text(
                value as nat,
            ),
        },
{
    let n = dec(value);
    if value == 7 {
        let mut text = cat3("cross_agent reader=", reader, " forward_via_creator=ok value=");
        text.append(n.as_str());
        Ok(text)
    } else {
        Err(cat("reader logical read forwarded through creator: expected 7 got ", n.as_str()))
    }
}

/// The verdict on that test.
pub fn cross_agent_outcome(creator: AgentName, reader: AgentName, result: Result<String, String>) -> (o:
    TestOutcome)
    ensures
        o@ == (OutcomeView {
            agent: creator.wire() + "->"@ + reader.wire(),
            pass: result is Ok,
            detail: match result {
                Ok(d) => d@,
                Err(e) => "cross_agent handler: "@ + e@,
            },
        }),
{
    let label = cat3(creator.name(), "->", reader.name());
    match result {
        Ok(d) => TestOutcome::new(label.as_str(), true, d),
        Err(e) => TestOutcome::new(
            label.as_str(),
            false,
            cat("cross_agent handler: ", e.as_str()),
        ),
    }
}

/// How a child that inherited a counter ended.
#[derive(Clone, Debug)]
pub struct ForkInheritOut {
    pub exit_code: i32,
    pub stderr: String,
}

/// How a child ended, from its exit code, if it has one, and its error stream.
pub fn inherit_out(code: Option<i32>, stderr: &[u8]) -> (r: ForkInheritOut)
    ensures
        r.exit_code == match code {
            Some(c) => c,
            None => -1i32,
        },
        r.stderr@ == lossy_text(stderr@),
{
    ForkInheritOut {
        exit_code: match code {
            Some(c) => c,
            None => -1,
        },
        stderr: lossy(stderr),
    }
}

/// Tests in which a child inherits a counter.
#[derive(Clone, Copy, Debug, PartialEq, Eq, Structural)]
pub enum Inheritance {
    /// The child reads it.
    Read,
    /// The child waits for it first.
    Poll,
    /// The child watches it while the parent reads it.
    Drain,
}

impl Inheritance {
    pub open spec fn success_text(self) -> Seq<char> {
        match self {
            Inheritance::Read => "child read inherited eventfd, got sentinel"@,
            Inheritance::Poll => "child polled+read inherited eventfd, got sentinel"@,
            Inheritance::Drain => "child epoll blocked after parent drained inherited eventfd"@,
        }
    }

    /// The number that the parent writes.
    pub fn sentinel(self) -> (r: u64)
        ensures
            r == match self {
                Inheritance::Read => 0xA5A5_A5A5_A5A5_A5A5u64,
                Inheritance::Poll => 0x5A5A_5A5A_5A5A_5A5Au64,
                Inheritance::Drain => 1u64,
            },
    {
        match self {
            Inheritance::Read => 0xA5A5_A5A5_A5A5_A5A5,
            Inheritance::Poll => 0x5A5A_5A5A_5A5A_5A5A,
            Inheritance::Drain => 1,
        }
    }

    /// How many milliseconds the child waits.
    pub fn wait_millis(self) -> (r: i32)
        ensures
            r == match self {
                Inheritance::Read => 0i32,
                Inheritance::Poll => 5000i32,
                Inheritance::Drain => 200i32,
            },
    {
        match self {
            Inheritance::Read => 0,
            Inheritance::Poll => 5000,
            Inheritance::Drain => 200,
        }
    }

    /// The verdict on a child that inherited a counter.
    pub fn outcome(self, result: Result<ForkInheritOut, String>) -> (o: TestOutcome)
        ensures
            o@ == match result {
                Ok(out) => if out.exit_code == 0 {
                    OutcomeView { agent: "Dpg1"@, pass: true, detail: self.success_text() }
                } else {
                    OutcomeView {
                        agent: "Dpg1"@,
                        pass: false,
                        detail: "exit_code="@ + int_text(out.exit_code as int) + " stderr="@
                            + quoted(out.stderr@),
                    }
                },
                Err(e) => OutcomeView {
                    agent: "Dpg1"@,
                    pass: false,
                    detail: "handler: "@ + e@,
                },
            },
    {
        match result {
            Ok(out) => if out.exit_code == 0 {
                let text = match self {
                    Inheritance::Read => "child read inherited eventfd, got sentinel",
                    Inheritance::Poll => "child polled+read inherited eventfd, got sentinel",
                    Inheritance::Drain => "child epoll blocked after parent drained inherited eventfd",
                };
                TestOutcome::new("Dpg1", true, text.to_string())
            } else {
                let code = dec_i64(out.exit_code as i64);
                let shown = quote(out.stderr.as_str());
                let mut text = cat3("exit_code=", code.as_str(), " stderr=");
                text.append(shown.as_str());
                TestOutcome::new("Dpg1", false, text)
            },
            Err(e) => TestOutcome::new("Dpg1", false, cat("handler: ", e.as_str())),
        }
    }
}

/// The complaint about what the parent read from the counter, if there is one.
pub fn parent_drain_complaint(value: u64) -> (r: Option<String>)
    ensures
        match r {
            None => value == 1,
            Some(c) => value != 1 && c@ == "parent drain got "@ + dec_text(value as nat)
                + ", want 1"@,
        },
{
    if value == 1 {
        None
    } else {
        let n = dec(value);
        Some(cat3("parent drain got ", n.as_str(), ", want 1"))
    }
}

/// Whether moving one byte goes on.
pub enum ByteStep {
    Done,
    /// Interrupted: try again.
    Again,
    Fail { error: String },
}

/// One read of the parent's one byte.
pub fn read_byte_step(label: &str, n: i64, errno: Option<i32>, error: &str) -> (r: ByteStep)
    ensures
        if n == 1 {
            r is Done
        } else if n == 0 {
            r matches ByteStep::Fail { error: e } && e@ == label@ + ": unexpected EOF"@
        } else if n == -1 {
            if errno == Some(EINTR) {
                r is Again
            } else {
                r matches ByteStep::Fail { error: e } && e@ == label@ + ": read: "@ + error@
            }
        } else {
            r matches ByteStep::Fail { error: e } && e@ == label@ + ": short read "@ + int_text(
                n as int,
            )
        },
{
    if n == 1 {
        ByteStep::Done
    } else if n == 0 {
        ByteStep::Fail { error: cat(label, ": unexpected EOF") }
    } else if n == -1 {
        if errno == Some(EINTR) {
            ByteStep::Again
        } else {
            ByteStep::Fail { error: cat3(label, ": read: ", error) }
        }
    } else {
        let count = dec_i64(n);
        ByteStep::Fail { error: cat3(label, ": short read ", count.as_str()) }
    }
}

/// One write of the parent's one byte.
pub fn write_byte_step(label: &str, n: i64, errno: Option<i32>, error: &str) -> (r: ByteStep)
    ensures
        if n == 1 {
            r is Done
        } else if n == -1 {
            if errno == Some(EINTR) {
                r is Again
            } else {
                r matches ByteStep::Fail { error: e } && e@ == label@ + ": write: "@ + error@
            }
        } else {
            r matches ByteStep::Fail { error: e } && e@ == label@ + ": short write "@ + int_text(
                n as int,
            )
        },
{
    if n == 1 {
        ByteStep::Done
    } else if n == -1 {
        if errno == Some(EINTR) {
            ByteStep::Again
        } else {
            ByteStep::Fail { error: cat3(label, ": write: ", error) }
        }
    } else {
        let count = dec_i64(n);
        ByteStep::Fail { error: cat3(label, ": short write ", count.as_str()) }
    }
}

/// One write of the child's one byte: everything but an interruption ends it.
pub fn child_write_step(label: &str, n: i64, errno: Option<i32>, error: &str) -> (r: ByteStep)
    ensures
        if n == 1 {
            r is Done
        } else if errno == Some(EINTR) {
            r is Again
        } else {
            r matches ByteStep::Fail { error: e } && e@ == "child write "@ + label@ + ": "@ + error@
        },
{
    if n == 1 {
        ByteStep::Done
    } else if errno == Some(EINTR) {
        ByteStep::Again
    } else {
        let mut text = cat3("child write ", label, ": ");
        text.append(error);
        ByteStep::Fail { error: text }
    }
}

/// One read of the child's one byte.
pub fn child_read_step(label: &str, n: i64, errno: Option<i32>, error: &str) -> (r: ByteStep)
    ensures
        if n == 1 {
            r is Done
        } else if n == 0 {
            r matches ByteStep::Fail { error: e } && e@ == "child read "@ + label@ + ": EOF"@
        } else if errno == Some(EINTR) {
            r is Again
        } else {
            r matches ByteStep::Fail { error: e } && e@ == "child read "@ + label@ + ": "@ + error@
        },
{
    if n == 1 {
        ByteStep::Done
    } else if n == 0 {
        ByteStep::Fail { error: cat3("child read ", label, ": EOF") }
    } else if errno == Some(EINTR) {
        ByteStep::Again
    } else {
        let mut text = cat3("child read ", label, ": ");
        text.append(error);
        ByteStep::Fail { error: text }
    }
}

/// The parts of the program that checks counters in a fresh process.
#[derive(Clone, Copy, Debug, PartialEq, Eq, Structural)]
pub enum CounterProgram {
    ReadInherited,
    ReadInheritedPoll,
    DrainChild,
    ReleaseAfterDeregister,
    /// No such part.
    Unknown,
}

/// The name of a part.
pub open spec fn program_name(p: CounterProgram) -> Seq<char> {
    match p {
        CounterProgram::ReadInherited => "read-inherited"@,
        CounterProgram::ReadInheritedPoll => "read-inherited-poll"@,
        CounterProgram::DrainChild => "epoll-fork-drain-clears-child"@,
        CounterProgram::ReleaseAfterDeregister => "tokio-release-after-deregister"@,
        CounterProgram::Unknown => ""@,
    }
}

/// The part that the arguments name; the second argument does, and without one it is `help`.
pub fn counter_program(args: &Vec<String>) -> (r: CounterProgram)
    ensures
        ({
            let sub = if args@.len() > 2 {
                args@[2]@
            } else {
                "help"@
            };
            if r == CounterProgram::Unknown {
                forall|p: CounterProgram|
                    p != CounterProgram::Unknown ==> #[trigger] program_name(p) != sub
            } else {
                program_name(r) == sub
            }
        }),
{
    let sub = if args.len() > 2 {
        args[2].as_str()
    } else {
        "help"
    };
    if same(sub, "read-inherited") {
        CounterProgram::ReadInherited
    } else if same(sub, "read-inherited-poll") {
        CounterProgram::ReadInheritedPoll
    } else if same(sub, "epoll-fork-drain-clears-child") {
        CounterProgram::DrainChild
    } else if same(sub, "tokio-release-after-deregister") {
        CounterProgram::ReleaseAfterDeregister
    } else {
        CounterProgram::Unknown
    }
}

/// A signed number among the arguments, if it is there and can be read.
pub open spec fn int_arg_of(args: Seq<String>, at: int) -> Option<int> {
    if at < args.len() {
        match parse_i32_text(args[at]@) {
            Ok(v) => Some(v),
            Err(_) => None,
        }
    } else {
        None
    }
}

/// A signed number among the arguments.
pub fn int_arg(args: &Vec<String>, at: usize) -> (r: Option<i32>)
    ensures
        match r {
            Some(v) => int_arg_of(args@, at as int) == Some(v as int),
            None => int_arg_of(args@, at as int) is None,
        },
{
    if at < args.len() {
        match parse_i32(args[at].as_str()) {
            Ok(v) => Some(v),
            Err(_) => None,
        }
    } else {
        None
    }
}

/// An unsigned number among the arguments, if it is there and can be read.
pub open spec fn nat_arg_of(args: Seq<String>, at: int) -> Option<nat> {
    if at < args.len() {
        match parse_unsigned_text(args[at]@, u64::MAX as nat) {
            Ok(v) => Some(v),
            Err(_) => None,
        }
    } else {
        None
    }
}

/// An unsigned number among the arguments.
pub fn nat_arg(args: &Vec<String>, at: usize) -> (r: Option<u64>)
    ensures
        match r {
            Some(v) => nat_arg_of(args@, at as int) == Some(v as nat),
            None => nat_arg_of(args@, at as int) is None,
        },
{
    if at < args.len() {
        match parse_unsigned(args[at].as_str(), u64::MAX) {
            Ok(v) => Some(v),
            Err(_) => None,
        }
    } else {
        None
    }
}

/// What the reading part is to do: the descriptor and the number it must find.
pub fn read_args(args: &Vec<String>) -> (r: Result<(i32, u64), String>)
    ensures
        match r {
            Ok((fd, want)) => int_arg_of(args@, 3) == Some(fd as int) && nat_arg_of(args@, 4)
                == Some(want as nat),
            Err(e) => if int_arg_of(args@, 3) is None {
                e@ == "eventfd-test read-inherited: bad fd arg"@
            } else {
                nat_arg_of(args@, 4) is None && e@
                    == "eventfd-test read-inherited: bad expected arg"@
            },
        },
{
    match int_arg(args, 3) {
        None => Err("eventfd-test read-inherited: bad fd arg".to_string()),
        Some(fd) => match nat_arg(args, 4) {
            None => Err("eventfd-test read-inherited: bad expected arg".to_string()),
            Some(want) => Ok((fd, want)),
        },
    }
}

/// What the waiting part is to do: the descriptor, how long to wait, and the number.
pub fn poll_args(args: &Vec<String>) -> (r: Result<(i32, i32, u64), String>)
    ensures
        match r {
            Ok((fd, ms, want)) => int_arg_of(args@, 3) == Some(fd as int) && int_arg_of(args@, 4)
                == Some(ms as int) && nat_arg_of(args@, 5) == Some(want as nat),
            Err(e) => if int_arg_of(args@, 3) is None {
                e@ == "eventfd-test read-inherited-poll: bad fd arg"@
            } else if int_arg_of(args@, 4) is None {
                e@ == "eventfd-test read-inherited-poll: bad timeout_ms arg"@
            } else {
                nat_arg_of(args@, 5) is None && e@
                    == "eventfd-test read-inherited-poll: bad expected arg"@
            },
        },
{
    match int_arg(args, 3) {
        None => Err("eventfd-test read-inherited-poll: bad fd arg".to_string()),
        Some(fd) => match int_arg(args, 4) {
            None => Err("eventfd-test read-inherited-poll: bad timeout_ms arg".to_string()),
            Some(ms) => match nat_arg(args, 5) {
                None => Err("eventfd-test read-inherited-poll: bad expected arg".to_string()),
                Some(want) => Ok((fd, ms, want)),
            },
        },
    }
}

/// What the watching part is to do: the counter, the three pipe ends, and how long to wait.
pub fn parse_child_args(args: &Vec<String>) -> (r: Option<(i32, i32, i32, i32, i32)>)
    ensures
        match r {
            Some((a, b, c, d, e)) => int_arg_of(args@, 3) == Some(a as int) && int_arg_of(args@, 4)
                == Some(b as int) && int_arg_of(args@, 5) == Some(c as int) && int_arg_of(args@, 6)
                == Some(d as int) && int_arg_of(args@, 7) == Some(e as int),
            None => int_arg_of(args@, 3) is None || int_arg_of(args@, 4) is None || int_arg_of(
                args@,
                5,
            ) is None || int_arg_of(args@, 6) is None || int_arg_of(args@, 7) is None,
        },
{
    match (int_arg(args, 3), int_arg(args, 4), int_arg(args, 5), int_arg(args, 6), int_arg(args, 7)) {
        (Some(a), Some(b), Some(c), Some(d), Some(e)) => Some((a, b, c, d, e)),
        _ => None,
    }
}

/// The complaint of a part about the poll, if there is one.
pub fn poll_complaint(rc: i32, revents: i16) -> (r: Option<String>)
    ensures
        match r {
            None => rc > 0 && revents & POLLIN != 0,
            Some(c) => (rc <= 0 || revents & POLLIN == 0) && c@
                == "eventfd-test read-inherited-poll: poll rc="@ + int_text(rc as int)
                + " revents="@ + int_text(revents as int),
        },
{
    if rc <= 0 || revents & POLLIN == 0 {
        let a = dec_i64(rc as i64);
        let b = dec_i64(revents as i64);
        let mut text = cat3(
            "eventfd-test read-inherited-poll: poll rc=",
            a.as_str(),
            " revents=",
        );
        text.append(b.as_str());
        Some(text)
    } else {
        None
    }
}

/// The complaint of a part about the number it read, if there is one.
pub fn value_complaint(part: &str, n: i64, error: &str, value: u64, expected: u64) -> (r: Option<
    String,
>)
    ensures
        match r {
            None => n == 8 && value == expected,
            Some(c) => if n != 8 {
                c@ == "eventfd-test "@ + part@ + ": short read: n="@ + int_text(n as int) + " ("@
                    + error@ + ")"@
            } else {
                value != expected && c@ == "eventfd-test "@ + part@ + ": value mismatch: got "@
                    + hex_text(value as nat) + " expected "@ + hex_text(expected as nat)
            },
        },
{
    if n != 8 {
        let count = dec_i64(n);
        let mut text = cat3("eventfd-test ", part, ": short read: n=");
        text.append(count.as_str());
        text.append(" (");
        text.append(error);
        text.append(")");
        Some(text)
    } else if value != expected {
        let a = hex(value);
        let b = hex(expected);
        let mut text = cat3("eventfd-test ", part, ": value mismatch: got ");
        text.append(a.as_str());
        text.append(" expected ");
        text.append(b.as_str());
        Some(text)
    } else {
        None
    }
}

/// The complaint of the watching part about its first wait, if there is one.
pub fn first_wait_complaint(rc: i32, events: u32) -> (r: Option<String>)
    ensures
        match r {
            None => rc == 1 && events & EPOLLIN != 0,
            Some(c) => (rc != 1 || events & EPOLLIN == 0) && c@ == "child first epoll_wait rc="@
                + int_text(rc as int) + " events="@ + hex_text(events as nat),
        },
{
    if rc != 1 || events & EPOLLIN == 0 {
        let a = dec_i64(rc as i64);
        let b = hex(events as u64);
        let mut text = cat3("child first epoll_wait rc=", a.as_str(), " events=");
        text.append(b.as_str());
        Some(text)
    } else {
        None
    }
}

/// The complaint of the watching part about its second wait, which must be empty.
pub fn second_wait_complaint(rc: i32, events: u32) -> (r: Option<String>)
    ensures
        match r {
            None => rc == 0,
            Some(c) => rc != 0 && c@ == "child second epoll_wait after parent drain returned rc="@
                + int_text(rc as int) + " events="@ + hex_text(events as nat),
        },
{
    if rc != 0 {
        let a = dec_i64(rc as i64);
        let b = hex(events as u64);
        let mut text = cat3(
            "child second epoll_wait after parent drain returned rc=",
            a.as_str(),
            " events=",
        );
        text.append(b.as_str());
        Some(text)
    } else {
        None
    }
}

/// A call of the watching part, in order.
#[derive(Clone, Copy, Debug, PartialEq, Eq, Structural)]
pub enum WatchCall {
    /// Make the set.
    Create,
    /// Put the counter into it.
    Add,
    /// Say that the part is ready.
    TellReady,
    /// Wait until the counter is ready.
    FirstWait,
    /// Say that it was.
    TellFirst,
    /// Wait for word that the counter was read.
    AwaitGo,
    /// Wait a little while it is empty.
    SecondWait,
}

/// What a call of the watching part gave.
#[allow(inconsistent_fields)]
pub enum WatchEvent {
    /// It worked.
    Done,
    /// It failed.
    Failed { error: String },
    /// A wait returned so many events, and the first had this mask.
    Waited { rc: i32, events: u32 },
}

/// The event is one of the call.
pub open spec fn watch_fits(at: WatchCall, ev: WatchEvent) -> bool {
    ev is Waited <==> at == WatchCall::FirstWait || at == WatchCall::SecondWait
}

/// What is wrong after a call of the watching part, if anything is. A byte that could not be
/// moved has a complaint of its own.
pub open spec fn watch_complaint(at: WatchCall, ev: WatchEvent) -> Option<Seq<char>> {
    match ev {
        WatchEvent::Done => None,
        WatchEvent::Failed { error } => Some(
            match at {
                WatchCall::Create => "child epoll_create1: "@ + error@,
                WatchCall::Add => "child epoll_ctl ADD: "@ + error@,
                _ => error@,
            },
        ),
        WatchEvent::Waited { rc, events } => if at == WatchCall::FirstWait {
            if rc == 1 && events & EPOLLIN != 0 {
                None
            } else {
                Some(
                    "child first epoll_wait rc="@ + int_text(rc as int) + " events="@ + hex_text(
                        events as nat,
                    ),
                )
            }
        } else if rc == 0 {
            None
        } else {
            Some(
                "child second epoll_wait after parent drain returned rc="@ + int_text(rc as int)
                    + " events="@ + hex_text(events as nat),
            )
        },
    }
}

/// The call after a call with which nothing was wrong.
pub open spec fn after_watch(at: WatchCall) -> Option<WatchCall> {
    match at {
        WatchCall::Create => Some(WatchCall::Add),
        WatchCall::Add => Some(WatchCall::TellReady),
        WatchCall::TellReady => Some(WatchCall::FirstWait),
        WatchCall::FirstWait => Some(WatchCall::TellFirst),
        WatchCall::TellFirst => Some(WatchCall::AwaitGo),
        WatchCall::AwaitGo => Some(WatchCall::SecondWait),
        WatchCall::SecondWait => None,
    }
}

/// What follows a call of the watching part.
#[allow(inconsistent_fields)]
pub enum WatchNext {
    Call { call: WatchCall },
    /// It is over: what was wrong, if anything.
    Over { complaint: Option<String> },
}

/// What follows a call of the watching part: the first complaint ends it, and so does the
/// last wait.
pub fn watch_step(at: WatchCall, ev: WatchEvent) -> (r: WatchNext)
    requires
        watch_fits(at, ev),
    ensures
        match watch_complaint(at, ev) {
            Some(c) => r matches WatchNext::Over { complaint: Some(e) } && e@ == c,
            None => match after_watch(at) {
                Some(call) => r == (WatchNext::Call { call }),
                None => r == (WatchNext::Over { complaint: None }),
            },
        },
{
    let complaint = match ev {
        WatchEvent::Done => None,
        WatchEvent::Failed { error } => Some(
            match at {
                WatchCall::Create => cat("child epoll_create1: ", error.as_str()),
                WatchCall::Add => cat("child epoll_ctl ADD: ", error.as_str()),
                _ => error,
            },
        ),
        WatchEvent::Waited { rc, events } => match at {
            WatchCall::FirstWait => first_wait_complaint(rc, events),
            _ => second_wait_complaint(rc, events),
        },
    };
    if complaint.is_some() {
        return WatchNext::Over { complaint };
    }
    match at {
        WatchCall::Create => WatchNext::Call { call: WatchCall::Add },
        WatchCall::Add => WatchNext::Call { call: WatchCall::TellReady },
        WatchCall::TellReady => WatchNext::Call { call: WatchCall::FirstWait },
        WatchCall::FirstWait => WatchNext::Call { call: WatchCall::TellFirst },
        WatchCall::TellFirst => WatchNext::Call { call: WatchCall::AwaitGo },
        WatchCall::AwaitGo => WatchNext::Call { call: WatchCall::SecondWait },
        WatchCall::SecondWait => WatchNext::Over { complaint: None },
    }
}

/// The exit code of a part: two for arguments that it cannot read, one for anything else
/// that is wrong.
pub fn part_code(args_read: bool, complaint: &Option<String>) -> (r: i32)
    ensures
        r == part_code_of(args_read, complaint is Some),
{
    if !args_read {
        2
    } else {
        match complaint {
            Some(_) => 1,
            None => 0,
        }
    }
}

/// The exit code of a part.
pub open spec fn part_code_of(args_read: bool, complains: bool) -> i32 {
    if !args_read {
        2
    } else if complains {
        1
    } else {
        0
    }
}

/// The agents of the counter tests.
#[verifier::allow_in_spec]
pub fn ev_agent(k: usize) -> AgentName
    returns
        (if k == 0 {
            AgentName::Dpg1
        } else if k == 1 {
            AgentName::Dpg1Dpg1
        } else if k == 2 {
            AgentName::Dpg2
        } else {
            AgentName::Dpg2Dpg
        }),
{
    if k == 0 {
        AgentName::Dpg1
    } else if k == 1 {
        AgentName::Dpg1Dpg1
    } else if k == 2 {
        AgentName::Dpg2
    } else {
        AgentName::Dpg2Dpg
    }
}

/// Name and handler of a counter test that runs on every agent.
#[verifier::allow_in_spec]
pub fn ev_case(k: usize) -> (&'static str, &'static str)
    returns
        (if k == 0 {
            ("EV.counter.", "eventfd.counter")
        } else if k == 1 {
            ("EV.semaphore.", "eventfd.semaphore")
        } else {
            ("EV.epollet.", "eventfd.epollet")
        }),
{
    if k == 0 {
        ("EV.counter.", "eventfd.counter")
    } else if k == 1 {
        ("EV.semaphore.", "eventfd.semaphore")
    } else {
        ("EV.epollet.", "eventfd.epollet")
    }
}

/// Name and handler of a test of a set that watches a counter.
#[verifier::allow_in_spec]
pub fn level_case(k: usize) -> (&'static str, &'static str)
    returns
        (if k == 0 {
            ("EV.epoll_zero_counter", "eventfd.epoll_zero_counter")
        } else if k == 1 {
            ("EV.epoll_drain_clears", "eventfd.epoll_drain_clears")
        } else if k == 2 {
            ("EV.epoll_masks_events", "eventfd.epoll_masks_events")
        } else if k == 3 {
            ("EV.epoll_nested_zero_counter", "eventfd.epoll_nested_zero_counter")
        } else if k == 4 {
            ("EV.epoll_nested_drain_clears", "eventfd.epoll_nested_drain_clears")
        } else {
            ("EV.epoll_cross_thread_drain_clears", "eventfd.epoll_cross_thread_drain_clears")
        }),
{
    if k == 0 {
        ("EV.epoll_zero_counter", "eventfd.epoll_zero_counter")
    } else if k == 1 {
        ("EV.epoll_drain_clears", "eventfd.epoll_drain_clears")
    } else if k == 2 {
        ("EV.epoll_masks_events", "eventfd.epoll_masks_events")
    } else if k == 3 {
        ("EV.epoll_nested_zero_counter", "eventfd.epoll_nested_zero_counter")
    } else if k == 4 {
        ("EV.epoll_nested_drain_clears", "eventfd.epoll_nested_drain_clears")
    } else {
        ("EV.epoll_cross_thread_drain_clears", "eventfd.epoll_cross_thread_drain_clears")
    }
}

/// Creator and reader of a test across agents.
#[verifier::allow_in_spec]
pub fn cross_case(k: usize) -> (AgentName, AgentName)
    returns
        (if k == 0 {
            (AgentName::Dpg1, AgentName::Dpg2)
        } else if k == 1 {
            (AgentName::Dpg2, AgentName::Dpg1)
        } else if k == 2 {
            (AgentName::Dpg1Dpg1, AgentName::Dpg2Dpg)
        } else {
            (AgentName::Dpg2Dpg, AgentName::Dpg1Dpg1)
        }),
{
    if k == 0 {
        (AgentName::Dpg1, AgentName::Dpg2)
    } else if k == 1 {
        (AgentName::Dpg2, AgentName::Dpg1)
    } else if k == 2 {
        (AgentName::Dpg1Dpg1, AgentName::Dpg2Dpg)
    } else {
        (AgentName::Dpg2Dpg, AgentName::Dpg1Dpg1)
    }
}

/// Name and handler of a test with an inherited counter.
#[verifier::allow_in_spec]
pub fn inherit_case(k: usize) -> (&'static str, &'static str)
    returns
        (if k == 0 {
            ("EV.epoll_fork_drain_clears.", "eventfd.epoll_fork_drain_clears")
        } else if k == 1 {
            ("EV.fork_inherit.", "eventfd.fork_inherit")
        } else {
            ("EV.fork_inherit_poll.", "eventfd.fork_inherit_poll")
        }),
{
    if k == 0 {
        ("EV.epoll_fork_drain_clears.", "eventfd.epoll_fork_drain_clears")
    } else if k == 1 {
        ("EV.fork_inherit.", "eventfd.fork_inherit")
    } else {
        ("EV.fork_inherit_poll.", "eventfd.fork_inherit_poll")
    }
}

/// The group of the counter tests, with a time of its own or the default one.
#[verifier::allow_in_spec]
pub fn ev_group(timeout_secs: Option<u64>) -> Group
    returns
        (Group { suite: "vscode", family: "eventfd", timeout_secs }),
{
    Group { suite: "vscode", family: "eventfd", timeout_secs }
}

/// The test with an inherited counter, of a kind, for a binary type.
pub open spec fn inherit_row(kind: int, bt: int) -> PlanView {
    let c = inherit_case(kind as usize);
    on_agents(
        ev_group(Some(30)),
        c.0@ + binary_at(bt).label_text(),
        Handler::Named(c.1),
        seq![AgentName::Dpg1],
    )
}

fn inherit_plan(kind: usize, bt: usize) -> (r: TestPlan)
    ensures
        r@ == inherit_row(kind as int, bt as int),
{
    let c = inherit_case(kind);
    plan_on(
        ev_group(Some(30)),
        cat(c.0, binary_type(bt).label()),
        Handler::Named(c.1),
        AgentName::Dpg1,
    )
}

/// How many counter tests there are.
pub const EVENTFD_TESTS: usize = 38;

/// The counter test at a position.
pub open spec fn eventfd_row(t: int) -> PlanView {
    if t < 12 {
        let a = ev_agent((t / 3) as usize);
        let c = ev_case((t % 3) as usize);
        on_agents(ev_group(None), c.0@ + a.wire(), Handler::Named(c.1), seq![a])
    } else if t < 18 {
        let c = level_case((t - 12) as usize);
        on_agents(ev_group(None), c.0@, Handler::Named(c.1), seq![AgentName::Dpg1])
    } else if t < 22 {
        let c = cross_case((t - 18) as usize);
        on_agents(
            ev_group(Some(60)),
            "EV.cross_agent_wakeup."@ + c.0.wire() + "_to_"@ + c.1.wire(),
            Handler::Named("eventfd.cross_agent"),
            seq![c.0],
        )
    } else if t < 27 {
        inherit_row(0, t - 22)
    } else if t == 27 {
        on_agents(
            ev_group(Some(30)),
            "EV.tokio_runtime_drop."@ + BinaryType::StaticPieMusl.label_text(),
            Handler::Direct,
            Seq::empty(),
        )
    } else if t < 33 {
        inherit_row(1, t - 28)
    } else {
        inherit_row(2, t - 33)
    }
}

fn eventfd_plan(t: usize) -> (r: TestPlan)
    requires
        t < EVENTFD_TESTS,
    ensures
        r@ == eventfd_row(t as int),
{
    if t < 12 {
        let a = ev_agent(t / 3);
        let c = ev_case(t % 3);
        plan_on(ev_group(None), cat(c.0, a.name()), Handler::Named(c.1), a)
    } else if t < 18 {
        let c = level_case(t - 12);
        plan_on(ev_group(None), c.0.to_string(), Handler::Named(c.1), AgentName::Dpg1)
    } else if t < 22 {
        let c = cross_case(t - 18);
        let mut id = cat3("EV.cross_agent_wakeup.", c.0.name(), "_to_");
        id.append(c.1.name());
        plan_on(ev_group(Some(60)), id, Handler::Named("eventfd.cross_agent"), c.0)
    } else if t < 27 {
        inherit_plan(0, t - 22)
    } else if t == 27 {
        let id = cat("EV.tokio_runtime_drop.", BinaryType::StaticPieMusl.label());
        plan_alone(ev_group(Some(30)), id, Handler::Direct)
    } else if t < 33 {
        inherit_plan(1, t - 28)
    } else {
        inherit_plan(2, t - 33)
    }
}

/// The counter tests, in order.
pub fn register_eventfd_tests() -> (r: Vec<TestPlan>)
    ensures
        plan_views(r@) == Seq::new(EVENTFD_TESTS as nat, |t: int| eventfd_row(t)),
{
    let mut out: Vec<TestPlan> = Vec::new();
    let mut t: usize = 0;
    while t < EVENTFD_TESTS
        invariant
            t <= EVENTFD_TESTS,
            out@.len() == t,
            forall|k: int| 0 <= k < t ==> (#[trigger] out@[k])@ == eventfd_row(k),
        decreases EVENTFD_TESTS - t,
    {
        out.push(eventfd_plan(t));
        t = t + 1;
    }
    assert(plan_views(out@) =~= Seq::new(EVENTFD_TESTS as nat, |t: int| eventfd_row(t)));
    out
}

/// How many tests there are of reading an inherited counter alone.
pub const EVENTFD_FORK_TESTS: usize = 10;

/// The test of reading an inherited counter at a position.
pub open spec fn eventfd_fork_row(t: int) -> PlanView {
    inherit_row(1 + t / 5, t % 5)
}

/// The tests of reading an inherited counter, in order.
pub fn register_eventfd_fork_tests() -> (r: Vec<TestPlan>)
    ensures
        plan_views(r@) == Seq::new(EVENTFD_FORK_TESTS as nat, |t: int| eventfd_fork_row(t)),
{
    let mut out: Vec<TestPlan> = Vec::new();
    let mut t: usize = 0;
    while t < EVENTFD_FORK_TESTS
        invariant
            t <= EVENTFD_FORK_TESTS,
            out@.len() == t,
            forall|k: int| 0 <= k < t ==> (#[trigger] out@[k])@ == eventfd_fork_row(k),
        decreases EVENTFD_FORK_TESTS - t,
    {
        out.push(inherit_plan(1 + t / 5, t % 5));
        t = t + 1;
    }
    assert(plan_views(out@) =~= Seq::new(EVENTFD_FORK_TESTS as nat, |t: int| eventfd_fork_row(t)));
    out
}

/// The counter tests end with the tests of reading an inherited counter.
pub proof fn law_fork_tests_included(t: int)
    requires
        0 <= t < EVENTFD_FORK_TESTS,
    ensures
        eventfd_fork_row(t) == eventfd_row(28 + t),
{
}

/// How a probe ends that goes on from a call and is given these events, the last of which ends
/// it; nothing where they are too few or too many.
pub open spec fn level_end(probe: LevelProbe, at: LevelCall, evs: Seq<LevelEvent>) -> Option<
    Result<Seq<char>, Seq<char>>,
>
    decreases evs.len(),
{
    if evs.len() == 0 {
        None
    } else {
        match (probe.level_complaint(at, evs[0]), after_level(at)) {
            (Some(c), _) => if evs.len() == 1 {
                Some(Err(c))
            } else {
                None
            },
            (None, None) => if evs.len() == 1 {
                Some(Ok(probe.detail_text()))
            } else {
                None
            },
            (None, Some(next)) => level_end(probe, next, evs.skip(1)),
        }
    }
}

/// A probe of a counter at zero finds nothing wrong exactly if its one wait brought no event.
pub proof fn law_zero_counter_must_stay_quiet(probe: LevelProbe, ev: LevelEvent)
    requires
        probe is Zero || probe is NestedZero,
        ev is Events || ev is Failed,
    ensures
        probe.opening() == LevelCall::WaitQuiet,
        ({
            let end = level_end(probe, LevelCall::WaitQuiet, seq![ev]);
            &&& end is Some
            &&& end->Some_0 is Ok <==> (ev matches LevelEvent::Events { events, .. }
                && events@.len() == 0)
            &&& ev matches LevelEvent::Events { events, shown } ==> (events@.len() > 0 ==> (
            end->Some_0 matches Err(c) && c.len() >= shown@.len() && c.skip(c.len() - shown@.len())
                == shown@))
        }),
{
    let evs = seq![ev];
    assert(evs[0] == ev);
    if let LevelEvent::Events { events, shown } = ev {
        if events@.len() > 0 {
            let c = probe.stale_text() + shown@;
            assert(c.skip(c.len() - shown@.len()) =~= shown@);
        }
    }
}

proof fn lemma_drained(probe: LevelProbe, evs: Seq<LevelEvent>)
    requires
        evs.len() == 4,
    ensures
        level_end(probe, LevelCall::Put, evs) is Some && level_end(
            probe,
            LevelCall::Put,
            evs,
        )->Some_0 is Ok <==> probe.level_complaint(LevelCall::Put, evs[0]) is None
            && probe.level_complaint(LevelCall::WaitReady, evs[1]) is None && probe.level_complaint(
            LevelCall::Drain,
            evs[2],
        ) is None && probe.level_complaint(LevelCall::WaitQuiet, evs[3]) is None,
{
    reveal_with_fuel(level_end, 5);
}

/// A probe that writes the counter finds nothing wrong exactly if, after the write, the first
/// wait brought exactly one event and that event is for reading, the read gave one, and the
/// last wait, with the counter empty again, brought no event. It makes all four calls then.
pub proof fn law_drained_counter_must_fall_quiet(probe: LevelProbe, evs: Seq<LevelEvent>)
    requires
        probe is Drain || probe is ThreadDrain || probe is NestedDrain,
        evs.len() == 4,
        evs[0] is Written || evs[0] is Failed,
        evs[1] is Events || evs[1] is Failed,
        evs[2] is Value || evs[2] is Broken || evs[2] is Failed,
        evs[3] is Events || evs[3] is Failed,
    ensures
        probe.opening() == LevelCall::Put,
        (level_end(probe, LevelCall::Put, evs) matches Some(end) && end is Ok) <==> {
            &&& evs[0] is Written
            &&& evs[1] matches LevelEvent::Events { events, .. } && events@.len() == 1
                && split_text(events@[0].observed_events@, '|').contains("in"@)
            &&& evs[2] matches LevelEvent::Value { value } && value == 1
            &&& evs[3] matches LevelEvent::Events { events, .. } && events@.len() == 0
        },
{
    lemma_drained(probe, evs);
}

/// A probe that writes the counter and is ended before its fourth call found something wrong.
pub proof fn law_no_probe_ends_well_early(probe: LevelProbe, evs: Seq<LevelEvent>)
    requires
        probe is Drain || probe is ThreadDrain || probe is NestedDrain,
        evs.len() < 4,
    ensures
        !(level_end(probe, probe.opening(), evs) matches Some(end) && end is Ok),
{
    reveal_with_fuel(level_end, 5);
}

/// A call that failed ends the probe, whichever call it is, and the complaint ends with the
/// error; so does a reading thread that broke off.
pub proof fn law_failed_call_ends_probe(probe: LevelProbe, at: LevelCall, error: String)
    ensures
        probe.level_complaint(at, LevelEvent::Failed { error }) matches Some(c) && c.len()
            >= error@.len() && c.skip(c.len() - error@.len()) == error@,
        probe.level_complaint(at, LevelEvent::Broken) is Some,
{
    let c = probe.call_text(at) + ": "@ + error@;
    assert(c.skip(c.len() - error@.len()) =~= error@);
}

/// The watching part's complaint after these events, the last of which ends it; nothing where
/// they are too few or too many.
pub open spec fn watch_end(at: WatchCall, evs: Seq<WatchEvent>) -> Option<Option<Seq<char>>>
    decreases evs.len(),
{
    if evs.len() == 0 {
        None
    } else {
        match (watch_complaint(at, evs[0]), after_watch(at)) {
            (Some(c), _) => if evs.len() == 1 {
                Some(Some(c))
            } else {
                None
            },
            (None, None) => if evs.len() == 1 {
                Some(None)
            } else {
                None
            },
            (None, Some(next)) => watch_end(next, evs.skip(1)),
        }
    }
}

/// The watching part has nothing to complain of exactly if all its seven calls worked, the
/// first wait returned one event for reading, and the second, after the counter was read, none.
pub proof fn law_watching_part(evs: Seq<WatchEvent>)
    requires
        evs.len() == 7,
        forall|k: int|
            0 <= k < 7 ==> ((#[trigger] evs[k]) is Waited <==> k == 3 || k == 6),
    ensures
        (watch_end(WatchCall::Create, evs) matches Some(end) && end is None) <==> {
            &&& evs[0] is Done
            &&& evs[1] is Done
            &&& evs[2] is Done
            &&& evs[3] matches WatchEvent::Waited { rc, events } && rc == 1 && events & 1 != 0
            &&& evs[4] is Done
            &&& evs[5] is Done
            &&& evs[6] matches WatchEvent::Waited { rc, .. } && rc == 0
        },
{
    reveal_with_fuel(watch_end, 8);
    assert(evs[0] is Waited <==> false);
    assert(evs[1] is Waited <==> false);
    assert(evs[2] is Waited <==> false);
    assert(evs[3] is Waited);
    assert(evs[4] is Waited <==> false);
    assert(evs[5] is Waited <==> false);
    assert(evs[6] is Waited);
}

/// The watching part does not end well before its seventh call.
pub proof fn law_watching_part_never_ends_well_early(evs: Seq<WatchEvent>)
    requires
        evs.len() < 7,
    ensures
        !(watch_end(WatchCall::Create, evs) matches Some(end) && end is None),
{
    reveal_with_fuel(watch_end, 8);
}

/// A counter that must be empty is so exactly if a read of it would block.
pub proof fn law_empty_counter_blocks(read: CounterRead)
    ensures
        empty_complaint(read) is None <==> read is WouldBlock,
        read matches CounterRead::Value { value } ==> empty_complaint(read) == Some(
            "expected EAGAIN, got value "@ + dec_text(value as nat),
        ),
        read matches CounterRead::Failed { error } ==> empty_complaint(read) == Some(
            "expected EAGAIN, got "@ + error@,
        ),
{
}

/// The edge test needs the first edge, no second one, and the sum: a report that lacks one of
/// them is wrong.
pub proof fn law_edge_report(detail: Seq<char>)
    ensures
        edge_detail_right(detail) ==> contains_text(detail, "first=1"@),
        edge_detail_right(detail) ==> contains_text(detail, "second=0"@),
        edge_detail_right(detail) ==> contains_text(detail, "value=8"@),
        !contains_text(detail, "first=1"@) || !contains_text(detail, "second=0"@)
            || !contains_text(detail, "value=8"@) || edge_detail_right(detail),
{
}

/// A part ends with zero exactly if its arguments could be read and it has nothing to complain
/// of; arguments that cannot be read are told apart from everything else.
pub proof fn law_part_codes(args_read: bool, complains: bool)
    ensures
        part_code_of(args_read, complains) == 0 <==> args_read && !complains,
        part_code_of(args_read, complains) == 2 <==> !args_read,
        part_code_of(args_read, complains) == 1 <==> args_read && complains,
{
}

/// The names of the parts are all different, so that a name means one part.
pub proof fn law_part_names_differ(a: CounterProgram, b: CounterProgram)
    requires
        program_name(a) == program_name(b),
    ensures
        a == b,
{
    reveal_strlit("read-inherited");
    reveal_strlit("read-inherited-poll");
    reveal_strlit("epoll-fork-drain-clears-child");
    reveal_strlit("tokio-release-after-deregister");
    reveal_strlit("");
    assert("read-inherited"@.len() == 14);
    assert("read-inherited-poll"@.len() == 19);
    assert("epoll-fork-drain-clears-child"@.len() == 29);
    assert("tokio-release-after-deregister"@.len() == 30);
    assert(""@.len() == 0);
}

/// Every call of a probe can fail; else a write is answered as written, a read with a value or as
/// broken, and a wait with events.
pub proof fn law_level_events(at: LevelCall, ev: LevelEvent)
    ensures
        level_fits(at, ev) <==> match at {
            LevelCall::Put => ev is Failed || ev is Written,
            LevelCall::WaitReady => ev is Failed || ev is Events,
            LevelCall::Drain => ev is Failed || ev is Broken || ev is Value,
            LevelCall::WaitQuiet => ev is Failed || ev is Events,
        },
{
}

/// The complaint of the watching part shows the error or what the wait returned, and a wait
/// complains exactly if it did not return what it had to.
pub proof fn law_watch_complains(at: WatchCall, ev: WatchEvent)
    requires
        watch_fits(at, ev),
    ensures
        ev is Done ==> watch_complaint(at, ev) is None,
        ev is Failed ==> watch_complaint(at, ev) is Some,
        ev matches WatchEvent::Failed { error } ==> (at is Create ==> watch_complaint(at, ev)
            == Some("child epoll_create1: "@ + error@)),
        ev matches WatchEvent::Failed { error } ==> (at is Add ==> watch_complaint(at, ev) == Some(
            "child epoll_ctl ADD: "@ + error@,
        )),
        ev matches WatchEvent::Failed { error } ==> (!(at is Create) && !(at is Add)
            ==> watch_complaint(at, ev) == Some(error@)),
        ev matches WatchEvent::Waited { rc, events } ==> (watch_complaint(at, ev) matches Some(c)
            ==> {
            &&& at is FirstWait ==> c == "child first epoll_wait rc="@ + int_text(rc as int)
                + " events="@ + hex_text(events as nat) && !(rc == 1 && events & 1 != 0)
            &&& at is SecondWait ==> rc != 0 && c
                == "child second epoll_wait after parent drain returned rc="@ + int_text(rc as int)
                + " events="@ + hex_text(events as nat)
        }),
{
}

/// A number among the arguments is read as it was printed, and none is read past their end.
pub proof fn law_number_arguments(args: Seq<String>, at: int, i: i32, n: nat)
    requires
        0 <= at < args.len(),
        n <= u64::MAX,
    ensures
        args[at]@ == int_text(i as int) ==> int_arg_of(args, at) == Some(i as int),
        args[at]@ == dec_text(n) ==> nat_arg_of(args, at) == Some(n),
        int_arg_of(args, args.len() as int) is None,
        nat_arg_of(args, args.len() as int) is None,
{
    law_parse_undoes_print_i32(i);
    law_parse_undoes_print(n, u64::MAX as nat);
}

/// What a probe says of a counter that it finds ready where it must be quiet, and of one that it
/// finds quiet where it must be ready.
pub proof fn law_level_words(p: LevelProbe)
    ensures
        p is Zero ==> p.stale_text() == "counter=0 eventfd reported ready: events="@,
        p is Drain ==> p.stale_text() == "drained eventfd still reported ready: events="@,
        p is ThreadDrain ==> p.stale_text()
            == "eventfd drained by peer thread still reported ready: events="@,
        p is NestedZero ==> p.stale_text()
            == "outer epoll reported inner epoll ready while eventfd counter=0: events="@,
        p is NestedDrain ==> p.stale_text()
            == "outer epoll reported stale inner readiness after direct eventfd drain: events="@,
        p is NestedDrain ==> p.unready_text()
            == "outer epoll did not report inner readiness after write: events="@,
        !(p is NestedDrain) ==> p.unready_text()
            == "written eventfd did not report EPOLLIN: events="@,
        p is ThreadDrain ==> p.reader_text() == "reader got "@,
        !(p is ThreadDrain) ==> p.reader_text() == "eventfd read got "@,
{
}

/// The failure of a call is told by the call, and a nested probe names the outer set.
pub proof fn law_level_call_names(p: LevelProbe)
    ensures
        p.call_text(LevelCall::Put) == "eventfd write"@,
        p.call_text(LevelCall::Drain) == if p is ThreadDrain {
            "reader eventfd read"@
        } else {
            "eventfd read"@
        },
        p.call_text(LevelCall::WaitReady) == if p is NestedDrain {
            "first outer epoll wait"@
        } else {
            "first epoll wait"@
        },
        p is Zero ==> p.call_text(LevelCall::WaitQuiet) == "epoll wait"@,
        p is NestedZero ==> p.call_text(LevelCall::WaitQuiet) == "outer epoll wait"@,
        p is NestedDrain ==> p.call_text(LevelCall::WaitQuiet) == "second outer epoll wait"@,
        p is Drain || p is ThreadDrain ==> p.call_text(LevelCall::WaitQuiet)
            == "second epoll wait"@,
{
}

/// The agents of the counter tests, and the pairs of them that hand a value over.
pub proof fn law_counter_agents()
    ensures
        ev_agent(0) == AgentName::Dpg1,
        ev_agent(1) == AgentName::Dpg1Dpg1,
        ev_agent(2) == AgentName::Dpg2,
        ev_agent(3) == AgentName::Dpg2Dpg,
        cross_case(0) == (AgentName::Dpg1, AgentName::Dpg2),
        cross_case(1) == (AgentName::Dpg2, AgentName::Dpg1),
        cross_case(2) == (AgentName::Dpg1Dpg1, AgentName::Dpg2Dpg),
        cross_case(3) == (AgentName::Dpg2Dpg, AgentName::Dpg1Dpg1),
{
}

/// A level test is called like its handler.
pub proof fn law_level_cases_name_handlers(k: usize)
    requires
        k < 6,
    ensures
        level_case(k).0@ == "EV."@ + level_case(k).1@.skip(8),
        level_case(k).1@.take(8) == "eventfd."@,
{
    reveal_strlit("eventfd.");
    reveal_strlit("EV.");
    if k == 0 {
        reveal_strlit("EV.epoll_zero_counter");
        reveal_strlit("eventfd.epoll_zero_counter");
        assert("EV.epoll_zero_counter"@ =~= "EV."@ + "eventfd.epoll_zero_counter"@.skip(8));
        assert("eventfd.epoll_zero_counter"@.take(8) =~= "eventfd."@);
    }
    if k == 1 {
        reveal_strlit("EV.epoll_drain_clears");
        reveal_strlit("eventfd.epoll_drain_clears");
        assert("EV.epoll_drain_clears"@ =~= "EV."@ + "eventfd.epoll_drain_clears"@.skip(8));
        assert("eventfd.epoll_drain_clears"@.take(8) =~= "eventfd."@);
    }
    if k == 2 {
        reveal_strlit("EV.epoll_masks_events");
        reveal_strlit("eventfd.epoll_masks_events");
        assert("EV.epoll_masks_events"@ =~= "EV."@ + "eventfd.epoll_masks_events"@.skip(8));
        assert("eventfd.epoll_masks_events"@.take(8) =~= "eventfd."@);
    }
    if k == 3 {
        reveal_strlit("EV.epoll_nested_zero_counter");
        reveal_strlit("eventfd.epoll_nested_zero_counter");
        assert("EV.epoll_nested_zero_counter"@ =~= "EV."@ + "eventfd.epoll_nested_zero_counter"@.skip(8));
        assert("eventfd.epoll_nested_zero_counter"@.take(8) =~= "eventfd."@);
    }
    if k == 4 {
        reveal_strlit("EV.epoll_nested_drain_clears");
        reveal_strlit("eventfd.epoll_nested_drain_clears");
        assert("EV.epoll_nested_drain_clears"@ =~= "EV."@ + "eventfd.epoll_nested_drain_clears"@.skip(8));
        assert("eventfd.epoll_nested_drain_clears"@.take(8) =~= "eventfd."@);
    }
    if k == 5 {
        reveal_strlit("EV.epoll_cross_thread_drain_clears");
        reveal_strlit("eventfd.epoll_cross_thread_drain_clears");
        assert("EV.epoll_cross_thread_drain_clears"@ =~= "EV."@ + "eventfd.epoll_cross_thread_drain_clears"@.skip(8));
        assert("eventfd.epoll_cross_thread_drain_clears"@.take(8) =~= "eventfd."@);
    }
}

/// A counter test is called like its handler.
pub proof fn law_counter_cases_name_handlers(k: usize)
    requires
        k < 3,
    ensures
        ev_case(k).0@ == "EV."@ + ev_case(k).1@.skip(8) + "."@,
        ev_case(k).1@.take(8) == "eventfd."@,
{
    reveal_strlit("eventfd.");
    reveal_strlit("EV.");
    reveal_strlit(".");
    if k == 0 {
        reveal_strlit("EV.counter.");
        reveal_strlit("eventfd.counter");
        assert("EV.counter."@ =~= "EV."@ + "eventfd.counter"@.skip(8) + "."@);
        assert("eventfd.counter"@.take(8) =~= "eventfd."@);
    }
    if k == 1 {
        reveal_strlit("EV.semaphore.");
        reveal_strlit("eventfd.semaphore");
        assert("EV.semaphore."@ =~= "EV."@ + "eventfd.semaphore"@.skip(8) + "."@);
        assert("eventfd.semaphore"@.take(8) =~= "eventfd."@);
    }
    if k == 2 {
        reveal_strlit("EV.epollet.");
        reveal_strlit("eventfd.epollet");
        assert("EV.epollet."@ =~= "EV."@ + "eventfd.epollet"@.skip(8) + "."@);
        assert("eventfd.epollet"@.take(8) =~= "eventfd."@);
    }
}

/// A test of an inherited counter is called like its handler.
pub proof fn law_inherit_cases_name_handlers(k: usize)
    requires
        k < 3,
    ensures
        inherit_case(k).0@ == "EV."@ + inherit_case(k).1@.skip(8) + "."@,
        inherit_case(k).1@.take(8) == "eventfd."@,
{
    reveal_strlit("eventfd.");
    reveal_strlit("EV.");
    reveal_strlit(".");
    if k == 0 {
        reveal_strlit("EV.epoll_fork_drain_clears.");
        reveal_strlit("eventfd.epoll_fork_drain_clears");
        assert("EV.epoll_fork_drain_clears."@ =~= "EV."@ + "eventfd.epoll_fork_drain_clears"@.skip(8) + "."@);
        assert("eventfd.epoll_fork_drain_clears"@.take(8) =~= "eventfd."@);
    }
    if k == 1 {
        reveal_strlit("EV.fork_inherit.");
        reveal_strlit("eventfd.fork_inherit");
        assert("EV.fork_inherit."@ =~= "EV."@ + "eventfd.fork_inherit"@.skip(8) + "."@);
        assert("eventfd.fork_inherit"@.take(8) =~= "eventfd."@);
    }
    if k == 2 {
        reveal_strlit("EV.fork_inherit_poll.");
        reveal_strlit("eventfd.fork_inherit_poll");
        assert("EV.fork_inherit_poll."@ =~= "EV."@ + "eventfd.fork_inherit_poll"@.skip(8) + "."@);
        assert("eventfd.fork_inherit_poll"@.take(8) =~= "eventfd."@);
    }
}

/// What is said of an inherited counter that was as it had to be.
pub proof fn law_inherited_counter_words(i: Inheritance)
    ensures
        i is Read ==> i.success_text() == "child read inherited eventfd, got sentinel"@,
        i is Poll ==> i.success_text() == "child polled+read inherited eventfd, got sentinel"@,
        i is Drain ==> i.success_text()
            == "child epoll blocked after parent drained inherited eventfd"@,
{
}

/// Only the two waits of the watching part bring events, and neither brings anything else but
/// them; a test with an inherited counter may take half a minute.
pub proof fn law_watch_events(at: WatchCall, ev: WatchEvent, kind: int, bt: int)
    ensures
        at is FirstWait || at is SecondWait ==> (watch_fits(at, ev) <==> ev is Waited),
        !(at is FirstWait || at is SecondWait) ==> (watch_fits(at, ev) <==> !(ev is Waited)),
        inherit_row(kind, bt).timeout_secs == Some(30u64),
        inherit_row(kind, bt).agents == seq![AgentName::Dpg1],
{
}

} // verus!
