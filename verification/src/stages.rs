//! Short forms for the stages of a script. The agent that a call goes to is the agent
//! that its verdict names.

use vstd::prelude::*;
use crate::script::{Absent, Accept, Call, Detail, Probe, Stage, Verdict};

verus! {

/// Send the call that many times and ignore the answers.
#[verifier::allow_in_spec]
pub fn quiet(target: &'static str, call: Call, times: u64) -> Stage
    returns
        (Stage::Quiet { probe: Probe { target, call }, times }),
{
    Stage::Quiet { probe: Probe { target, call }, times }
}

/// Wait.
#[verifier::allow_in_spec]
pub fn pause(millis: u64) -> Stage
    returns
        (Stage::Pause { millis }),
{
    Stage::Pause { millis }
}

/// Send the call and record the verdict.
#[verifier::allow_in_spec]
pub fn single(target: &'static str, call: Call, id: &'static str, accept: Accept, detail: Detail) -> Stage
    returns
        (Stage::Single { probe: Probe { target, call }, verdict: Verdict { id, agent: target, accept, detail: detail, excuse: None, skipped: "" } }),
{
    Stage::Single { probe: Probe { target, call }, verdict: Verdict { id, agent: target, accept, detail: detail, excuse: None, skipped: "" } }
}

/// As `single`, with the reason why a failure is expected, where there is one.
#[verifier::allow_in_spec]
pub fn excused(target: &'static str, call: Call, id: &'static str, accept: Accept, excuse: Option<&'static str>) -> Stage
    returns
        (Stage::Single { probe: Probe { target, call }, verdict: Verdict { id, agent: target, accept, detail: Detail::Plain, excuse: excuse, skipped: "" } }),
{
    Stage::Single { probe: Probe { target, call }, verdict: Verdict { id, agent: target, accept, detail: Detail::Plain, excuse: excuse, skipped: "" } }
}

/// As `single`, with the detail to record when a guard before it skips it.
#[verifier::allow_in_spec]
pub fn skippable(target: &'static str, call: Call, id: &'static str, accept: Accept, skipped: &'static str) -> Stage
    returns
        (Stage::Single { probe: Probe { target, call }, verdict: Verdict { id, agent: target, accept, detail: Detail::Plain, excuse: None, skipped: skipped } }),
{
    Stage::Single { probe: Probe { target, call }, verdict: Verdict { id, agent: target, accept, detail: Detail::Plain, excuse: None, skipped: skipped } }
}

/// Send the call; skip this test and the next `span` stages where it cannot be tried.
#[verifier::allow_in_spec]
pub fn guard(target: &'static str, call: Call, absent: Absent, id: &'static str, accept: Accept, skipped: &'static str, span: usize) -> Stage
    returns
        (Stage::Guard { probe: Probe { target, call }, absent, verdict: Some(Verdict { id, agent: target, accept, detail: Detail::Plain, excuse: None, skipped: skipped }), span }),
{
    Stage::Guard { probe: Probe { target, call }, absent, verdict: Some(Verdict { id, agent: target, accept, detail: Detail::Plain, excuse: None, skipped: skipped }), span }
}

/// As `guard`, without a verdict of its own.
#[verifier::allow_in_spec]
pub fn bare_guard(target: &'static str, call: Call, absent: Absent, span: usize) -> Stage
    returns
        (Stage::Guard { probe: Probe { target, call }, absent, verdict: None, span }),
{
    Stage::Guard { probe: Probe { target, call }, absent, verdict: None, span }
}

/// Send the call and record the verdict; pass over the next `span` stages where it failed.
#[verifier::allow_in_spec]
pub fn gate(target: &'static str, call: Call, id: &'static str, accept: Accept, span: usize) -> Stage
    returns
        (Stage::Gate { probe: Probe { target, call }, verdict: Verdict { id, agent: target, accept, detail: Detail::Plain, excuse: None, skipped: "" }, span }),
{
    Stage::Gate { probe: Probe { target, call }, verdict: Verdict { id, agent: target, accept, detail: Detail::Plain, excuse: None, skipped: "" }, span }
}

/// Send the call that many times, up to the first answer that fails.
#[verifier::allow_in_spec]
pub fn repeat(target: &'static str, call: Call, accept: Accept, id: &'static str, times: u64, all_ok: &'static str, skipped: &'static str) -> Stage
    returns
        (Stage::Repeat { probe: Probe { target, call }, accept, id, agent: target, times, all_ok, skipped }),
{
    Stage::Repeat { probe: Probe { target, call }, accept, id, agent: target, times, all_ok, skipped }
}

/// Send two calls in turn to one agent and judge all answers together.
#[verifier::allow_in_spec]
pub fn series(id: &'static str, target: &'static str, first: Call, first_ok: Accept, second: Call, second_ok: Accept, rounds: u64, skipped: &'static str) -> Stage
    returns
        (Stage::Series { id, agent: target, first: Probe { target, call: first }, first_ok, second: Probe { target, call: second }, second_ok, rounds, skipped }),
{
    Stage::Series { id, agent: target, first: Probe { target, call: first }, first_ok, second: Probe { target, call: second }, second_ok, rounds, skipped }
}

} // verus!
