//! The counter tests as they run: what each asks, and how its answer is judged.

use vstd::prelude::*;
use crate::asks::{Ask, AskView, Paths, PathsView};
use crate::eventfd::{cross_case, eventfd_row, inherit_case, Inheritance, EVENTFD_TESTS};
use crate::registry::{binary_at, binary_type, BinaryType, Handler};
use crate::text::texts;

verus! {

/// The test whose program the coordinator runs itself.
pub const RUNTIME_DROP_TEST: usize = 27;

/// The tests whose child inherits the counter.
pub open spec fn inherits(t: int) -> bool {
    t >= 22 && t != RUNTIME_DROP_TEST
}

/// How the child of a test uses the counter that it inherits.
pub open spec fn inheritance_of(t: int) -> Inheritance {
    if t < 27 {
        Inheritance::Drain
    } else if t < 33 {
        Inheritance::Read
    } else {
        Inheritance::Poll
    }
}

/// How the child of a test uses the counter that it inherits.
pub fn inheritance(t: usize) -> (r: Inheritance)
    requires
        t < EVENTFD_TESTS,
        inherits(t as int),
    ensures
        r == inheritance_of(t as int),
{
    if t < 27 {
        Inheritance::Drain
    } else if t < 33 {
        Inheritance::Read
    } else {
        Inheritance::Poll
    }
}

/// What the answer of a counter test is.
#[derive(Clone, Copy, Debug, PartialEq, Eq, Structural)]
pub enum CounterAnswer {
    /// A number that was read.
    Value,
    /// How often something was read.
    Reads,
    /// A detail of the probe for edges.
    Edge,
    /// A detail.
    Detail,
    /// A detail of a value that is for another agent.
    Cross,
    /// How a child ended that inherited the counter.
    Child,
    /// What a program printed.
    Program,
}

/// What the answer of a counter test is: each agent has three tests, of the sum, of the
/// single steps and of the edges; the others follow in groups.
pub fn counter_answer(t: usize) -> (r: CounterAnswer)
    requires
        t < EVENTFD_TESTS,
    ensures
        r == if t < 12 {
            if t % 3 == 0 {
                CounterAnswer::Value
            } else if t % 3 == 1 {
                CounterAnswer::Reads
            } else {
                CounterAnswer::Edge
            }
        } else if t < 18 {
            CounterAnswer::Detail
        } else if t < 22 {
            CounterAnswer::Cross
        } else if t == RUNTIME_DROP_TEST {
            CounterAnswer::Program
        } else {
            CounterAnswer::Child
        },
{
    if t < 12 {
        if t % 3 == 0 {
            CounterAnswer::Value
        } else if t % 3 == 1 {
            CounterAnswer::Reads
        } else {
            CounterAnswer::Edge
        }
    } else if t < 18 {
        CounterAnswer::Detail
    } else if t < 22 {
        CounterAnswer::Cross
    } else if t == RUNTIME_DROP_TEST {
        CounterAnswer::Program
    } else {
        CounterAnswer::Child
    }
}

/// What a test asks whose child inherits the counter.
pub open spec fn inherit_ask_of(kind: Inheritance, target: Seq<char>) -> AskView {
    match kind {
        Inheritance::Read => AskView::Inherit {
            child_binary: target,
            sentinel: 0xA5A5_A5A5_A5A5_A5A5,
        },
        Inheritance::Poll => AskView::InheritPoll {
            child_binary: target,
            sentinel: 0x5A5A_5A5A_5A5A_5A5A,
            timeout_ms: 5000,
        },
        Inheritance::Drain => AskView::InheritDrain { child_binary: target, timeout_ms: 200 },
    }
}

fn inherit_ask(kind: Inheritance, target: &str) -> (r: Ask)
    ensures
        r@ == inherit_ask_of(kind, target@),
{
    let child_binary = target.to_string();
    match kind {
        Inheritance::Read => Ask::Inherit { child_binary, sentinel: kind.sentinel() },
        Inheritance::Poll => Ask::InheritPoll {
            child_binary,
            sentinel: kind.sentinel(),
            timeout_ms: kind.wait_millis(),
        },
        Inheritance::Drain => Ask::InheritDrain { child_binary, timeout_ms: kind.wait_millis() },
    }
}

/// What a counter test asks.
pub open spec fn counter_ask_of(t: int, p: PathsView) -> AskView {
    if t < 18 {
        AskView::Nothing
    } else if t < 22 {
        AskView::Reader { reader_name: cross_case((t - 18) as usize).1.wire() }
    } else if t < 27 {
        inherit_ask_of(Inheritance::Drain, p.target(binary_at(t - 22)))
    } else if t < 33 {
        inherit_ask_of(Inheritance::Read, p.target(binary_at(t - 28)))
    } else {
        inherit_ask_of(Inheritance::Poll, p.target(binary_at(t - 33)))
    }
}

/// What a counter test asks.
pub fn counter_ask(t: usize, p: &Paths) -> (r: Ask)
    requires
        t < EVENTFD_TESTS,
        t != RUNTIME_DROP_TEST,
        p@.wf(),
    ensures
        r@ == counter_ask_of(t as int, p@),
{
    if t < 18 {
        Ask::Nothing
    } else if t < 22 {
        Ask::Reader { reader_name: cross_case(t - 18).1.name() }
    } else if t < 27 {
        inherit_ask(Inheritance::Drain, p.target(binary_type(t - 22)))
    } else if t < 33 {
        inherit_ask(Inheritance::Read, p.target(binary_type(t - 28)))
    } else {
        inherit_ask(Inheritance::Poll, p.target(binary_type(t - 33)))
    }
}

/// The program that the coordinator runs itself, and its arguments.
pub fn runtime_drop_argv(p: &Paths) -> (r: (String, Vec<String>))
    requires
        p@.wf(),
    ensures
        r.0@ == p@.target(BinaryType::StaticPieMusl),
        texts(r.1@) == seq!["eventfd-test"@, "tokio-release-after-deregister"@],
{
    let args = vec!["eventfd-test".to_string(), "tokio-release-after-deregister".to_string()];
    assert(texts(args@) =~= seq!["eventfd-test"@, "tokio-release-after-deregister"@]);
    (p.target(BinaryType::StaticPieMusl).to_string(), args)
}

/// The arguments are those that the handler takes.
pub open spec fn counter_handler_takes(h: Handler, a: AskView) -> bool {
    match a {
        AskView::Reader { reader_name } => h == Handler::Named("eventfd.cross_agent"),
        AskView::Inherit { child_binary, sentinel } => h == Handler::Named(inherit_case(1).1),
        AskView::InheritPoll { child_binary, sentinel, timeout_ms } => h == Handler::Named(
            inherit_case(2).1,
        ),
        AskView::InheritDrain { child_binary, timeout_ms } => h == Handler::Named(
            inherit_case(0).1,
        ),
        _ => true,
    }
}

/// Each counter test asks its plan's handler for what that handler does.
pub proof fn law_counter_asks_fit(t: int, p: PathsView)
    requires
        0 <= t < EVENTFD_TESTS,
        t != RUNTIME_DROP_TEST,
        p.wf(),
    ensures
        counter_handler_takes(eventfd_row(t).handler, counter_ask_of(t, p)),
        inherits(t) ==> counter_ask_of(t, p) == inherit_ask_of(
            inheritance_of(t),
            p.target(
                binary_at(
                    if t < 27 {
                        t - 22
                    } else if t < 33 {
                        t - 28
                    } else {
                        t - 33
                    },
                ),
            ),
        ),
{
}

/// A child that inherits the counter is of the test's own binary type, and is handed the number
/// that it must find, or the time for which the counter must stay empty.
pub proof fn law_inherit_asks(target: Seq<char>)
    ensures
        inherit_ask_of(Inheritance::Read, target) matches AskView::Inherit {
            child_binary,
            sentinel,
        } && child_binary == target && sentinel == 0xA5A5_A5A5_A5A5_A5A5,
        inherit_ask_of(Inheritance::Poll, target) matches AskView::InheritPoll {
            child_binary,
            sentinel,
            timeout_ms,
        } && child_binary == target && sentinel == 0x5A5A_5A5A_5A5A_5A5A && timeout_ms == 5000,
        inherit_ask_of(Inheritance::Drain, target) matches AskView::InheritDrain {
            child_binary,
            timeout_ms,
        } && child_binary == target && timeout_ms == 200,
{
}

/// Each way to use an inherited counter is tested for each binary type, and a value that is for
/// another agent is asked of the agent that made it, under the other's name.
pub proof fn law_counter_tests_cover(b: int, k: int, p: PathsView)
    requires
        0 <= b < 5,
        0 <= k < 4,
        p.wf(),
    ensures
        inheritance_of(22 + b) is Drain && inherits(22 + b),
        inheritance_of(28 + b) is Read && inherits(28 + b),
        inheritance_of(33 + b) is Poll && inherits(33 + b),
        !inherits(27),
        forall|t: int| t < 22 ==> !#[trigger] inherits(t),
        counter_ask_of(22 + b, p) == inherit_ask_of(Inheritance::Drain, p.target(binary_at(b))),
        counter_ask_of(28 + b, p) == inherit_ask_of(Inheritance::Read, p.target(binary_at(b))),
        counter_ask_of(33 + b, p) == inherit_ask_of(Inheritance::Poll, p.target(binary_at(b))),
        counter_ask_of(18 + k, p) == (AskView::Reader {
            reader_name: cross_case(k as usize).1.wire(),
        }),
        eventfd_row(18 + k).agents == seq![cross_case(k as usize).0],
        cross_case(k as usize).0 != cross_case(k as usize).1,
{
}

} // verus!
