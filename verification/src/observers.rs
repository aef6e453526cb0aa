//! The processes that the readiness tests run on, and the plans of those tests.
//!
//! Most of them are agents of the tree. Three stand a level below a non-PIE or a static agent;
//! the tree does not hold them, so they are named here and have no agent handle.

use vstd::prelude::*;
use crate::agents::AgentName;
use crate::registry::{
    on_agents, on_leaf, plan_alone, plan_on, plan_on_leaf, plan_on_two, Group, Handler, PlanView,
    TestPlan,
};

verus! {

/// A process that a readiness test runs on.
#[derive(Copy, Clone, Debug, PartialEq, Eq, Structural)]
pub enum Observer {
    /// An agent of the tree.
    Tree(AgentName),
    /// A non-PIE child of `Dpg1Dng`: a shell that a shell started. Not in the tree.
    DngDng,
    /// A static-PIE-musl child of `Dpg1Dng`: a command line tool that a shell started. Not in
    /// the tree.
    DngSpm,
    /// A non-PIE child of `Dpg1Spm`: a node that the command line tool started. Not in the
    /// tree.
    SpmDng,
}

impl Observer {
    /// The name in test ids, as text.
    pub open spec fn wire(self) -> Seq<char> {
        match self {
            Observer::Tree(a) => a.wire(),
            Observer::DngDng => "dpg1_dng_dng"@,
            Observer::DngSpm => "dpg1_dng_spm"@,
            Observer::SpmDng => "dpg1_spm_dng"@,
        }
    }

    /// The name in test ids.
    pub fn name(self) -> (r: &'static str)
        ensures
            r@ == self.wire(),
    {
        match self {
            Observer::Tree(a) => a.name(),
            Observer::DngDng => "dpg1_dng_dng",
            Observer::DngSpm => "dpg1_dng_spm",
            Observer::SpmDng => "dpg1_spm_dng",
        }
    }

    /// The agents of the tree that it is: itself or none.
    pub open spec fn in_tree(self) -> Seq<AgentName> {
        match self {
            Observer::Tree(a) => seq![a],
            _ => Seq::empty(),
        }
    }
}

/// The three that are not in the tree have names of their own.
pub proof fn law_observers_outside_are_no_agents(o: Observer)
    requires
        o.in_tree().len() == 0,
    ensures
        forall|a: AgentName| #[trigger] a.wire() != o.wire(),
{
    reveal_strlit("dpg1_dng_dng");
    reveal_strlit("dpg1_dng_spm");
    reveal_strlit("dpg1_spm_dng");
    reveal_strlit("init");
    reveal_strlit("dpg1");
    reveal_strlit("dpg1_dpg1");
    reveal_strlit("dpg1_dpg2");
    reveal_strlit("dpg1_dpg1_dpg1");
    reveal_strlit("dpg1_dpg1_dpg2");
    reveal_strlit("dpg2");
    reveal_strlit("dpg2_dpg");
    reveal_strlit("dpg1_dng");
    reveal_strlit("dpg1_dng_dpg");
    reveal_strlit("dpg1_spg");
    reveal_strlit("dpg1_spm");
    reveal_strlit("dpg1_snm");
    reveal_strlit("dpg3");
    reveal_strlit("dpg3_dpg");
    reveal_strlit("vscode_sshd_pty");
    reveal_strlit("vscode_login_bash");
    reveal_strlit("vscode_piped_sh");
    reveal_strlit("vscode_launcher_bash");
    reveal_strlit("vscode_cli");
    reveal_strlit("vscode_node");
    assert forall|a: AgentName| #[trigger] a.wire() != o.wire() by {
        if a.wire() == o.wire() {
            assert(a.wire().len() == 12);
            assert(a.wire()[9] == o.wire()[9]);
            assert(a.wire()[10] == o.wire()[10]);
        }
    }
}

/// A registered readiness test: where it runs, what that process forks for it, and the plan,
/// which declares the agents of the tree that it speaks to.
pub struct ReadinessPlan {
    pub observer: Observer,
    /// The label of the child that the observer forks, where the test runs in one.
    pub leaf: Option<String>,
    pub plan: TestPlan,
}

/// A registered readiness test, in contracts.
pub struct ReadinessView {
    pub observer: Observer,
    pub leaf: Option<Seq<char>>,
    pub plan: PlanView,
}

impl View for ReadinessPlan {
    type V = ReadinessView;

    open spec fn view(&self) -> ReadinessView {
        ReadinessView {
            observer: self.observer,
            leaf: match self.leaf {
                Some(l) => Some(l@),
                None => None,
            },
            plan: self.plan@,
        }
    }
}

pub open spec fn readiness_views(list: Seq<ReadinessPlan>) -> Seq<ReadinessView> {
    list.map_values(|p: ReadinessPlan| p@)
}

/// A test that runs on an observer itself, beside a peer where it has one.
pub open spec fn on_observer(
    g: Group,
    id: Seq<char>,
    handler: Handler,
    observer: Observer,
    peer: Option<AgentName>,
) -> ReadinessView {
    ReadinessView {
        observer,
        leaf: None,
        plan: on_agents(
            g,
            id,
            handler,
            observer.in_tree() + match peer {
                Some(p) => seq![p],
                None => Seq::empty(),
            },
        ),
    }
}

/// A test that runs on an observer itself, beside a peer where it has one.
pub fn plan_on_observer(
    g: Group,
    id: String,
    handler: Handler,
    observer: Observer,
    peer: Option<AgentName>,
) -> (r: ReadinessPlan)
    ensures
        r@ == on_observer(g, id@, handler, observer, peer),
{
    let ghost text = id@;
    let plan = match (observer, peer) {
        (Observer::Tree(a), Some(p)) => plan_on_two(g, id, handler, a, p),
        (Observer::Tree(a), None) => plan_on(g, id, handler, a),
        (_, Some(p)) => plan_on(g, id, handler, p),
        (_, None) => plan_alone(g, id, handler),
    };
    assert(plan@.agents =~= on_observer(g, text, handler, observer, peer).plan.agents);
    ReadinessPlan { observer, leaf: None, plan }
}

/// A test that runs in a child that an observer forks from its own binary.
pub open spec fn in_child_of(
    g: Group,
    id: Seq<char>,
    handler: Handler,
    observer: Observer,
    label: Seq<char>,
) -> ReadinessView {
    ReadinessView {
        observer,
        leaf: Some(label),
        plan: match observer {
            Observer::Tree(a) => on_leaf(g, id, handler, a, label, "self"),
            _ => on_agents(g, id, handler, Seq::empty()),
        },
    }
}

/// A test that runs in a child that an observer forks from its own binary.
pub fn plan_in_child_of(g: Group, id: String, handler: Handler, observer: Observer, label: String) -> (r:
    ReadinessPlan)
    ensures
        r@ == in_child_of(g, id@, handler, observer, label@),
{
    let plan = match observer {
        Observer::Tree(a) => plan_on_leaf(g, id, handler, a, label.as_str(), "self"),
        _ => plan_alone(g, id, handler),
    };
    ReadinessPlan { observer, leaf: Some(label), plan }
}

/// A test on an observer runs on the observer itself and speaks to the observer, where the tree
/// holds it, and to the peer, where there is one.
pub proof fn law_on_observer(
    g: Group,
    id: Seq<char>,
    handler: Handler,
    observer: Observer,
    peer: Option<AgentName>,
)
    ensures
        ({
            let v = on_observer(g, id, handler, observer, peer);
            &&& v.observer == observer
            &&& v.leaf is None
            &&& v.plan.id == id && v.plan.handler == handler && v.plan.timeout_secs
                == g.timeout_secs
            &&& v.plan.leaves.len() == 0
            &&& observer matches Observer::Tree(a) ==> v.plan.agents[0] == a
            &&& peer matches Some(p) ==> v.plan.agents.last() == p
            &&& v.plan.agents.len() == (if observer is Tree {
                1int
            } else {
                0int
            }) + if peer is Some {
                1int
            } else {
                0int
            }
        }),
{
}

/// A test in a child has the child's label, and declares the child under its observer exactly
/// where the tree holds the observer; the child is of the observer's own binary.
pub proof fn law_in_child_of(
    g: Group,
    id: Seq<char>,
    handler: Handler,
    observer: Observer,
    label: Seq<char>,
)
    ensures
        ({
            let v = in_child_of(g, id, handler, observer, label);
            &&& v.observer == observer
            &&& v.leaf == Some(label)
            &&& v.plan.id == id && v.plan.handler == handler && v.plan.timeout_secs
                == g.timeout_secs
            &&& v.plan.agents.len() == 0
            &&& !(observer is Tree) ==> v.plan.leaves.len() == 0
            &&& observer matches Observer::Tree(a) ==> v.plan.leaves.len() == 1
                && v.plan.leaves[0].parent == a && v.plan.leaves[0].label == label
                && v.plan.leaves[0].kind == (crate::registry::KindView::Fork {
                binary: "self",
                ports: Seq::empty(),
            })
        }),
{
}

} // verus!
