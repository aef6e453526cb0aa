//! Test plans: what a test is called, how long it may take, which handler it runs,
//! and which agents it may speak to.

use vstd::prelude::*;
use crate::agents::{AgentHandle, AgentName, EphemeralHandle, SpawnKind};

verus! {

/// Binary types that programs and agents come in.
#[derive(Clone, Copy, Debug, PartialEq, Eq, Structural)]
pub enum BinaryType {
    PieGlibc,
    NonPieGlibc,
    StaticPieGlibc,
    StaticPieMusl,
    NonPieStaticMusl,
}

/// How many binary types there are.
pub const BINARY_TYPES: usize = 5;

/// The binary type at a position of the canonical order.
pub open spec fn binary_at(k: int) -> BinaryType {
    if k == 0 {
        BinaryType::PieGlibc
    } else if k == 1 {
        BinaryType::NonPieGlibc
    } else if k == 2 {
        BinaryType::StaticPieGlibc
    } else if k == 3 {
        BinaryType::StaticPieMusl
    } else {
        BinaryType::NonPieStaticMusl
    }
}

/// The binary type at a position of the canonical order.
pub fn binary_type(k: usize) -> (r: BinaryType)
    ensures
        r == binary_at(k as int),
{
    if k == 0 {
        BinaryType::PieGlibc
    } else if k == 1 {
        BinaryType::NonPieGlibc
    } else if k == 2 {
        BinaryType::StaticPieGlibc
    } else if k == 3 {
        BinaryType::StaticPieMusl
    } else {
        BinaryType::NonPieStaticMusl
    }
}

impl BinaryType {
    pub open spec fn label_text(self) -> Seq<char> {
        match self {
            BinaryType::PieGlibc => "pie-glibc"@,
            BinaryType::NonPieGlibc => "nonpie-glibc"@,
            BinaryType::StaticPieGlibc => "static-pie-glibc"@,
            BinaryType::StaticPieMusl => "static-pie-musl"@,
            BinaryType::NonPieStaticMusl => "non-pie-static-musl"@,
        }
    }

    /// The name in test ids.
    pub fn label(self) -> (r: &'static str)
        ensures
            r@ == self.label_text(),
    {
        match self {
            BinaryType::PieGlibc => "pie-glibc",
            BinaryType::NonPieGlibc => "nonpie-glibc",
            BinaryType::StaticPieGlibc => "static-pie-glibc",
            BinaryType::StaticPieMusl => "static-pie-musl",
            BinaryType::NonPieStaticMusl => "non-pie-static-musl",
        }
    }

    pub open spec fn short_text(self) -> Seq<char> {
        match self {
            BinaryType::PieGlibc => "dpg"@,
            BinaryType::NonPieGlibc => "dng"@,
            BinaryType::StaticPieGlibc => "spg"@,
            BinaryType::StaticPieMusl => "spm"@,
            BinaryType::NonPieStaticMusl => "snm"@,
        }
    }

    /// The name in agent labels.
    pub fn short_label(self) -> (r: &'static str)
        ensures
            r@ == self.short_text(),
    {
        match self {
            BinaryType::PieGlibc => "dpg",
            BinaryType::NonPieGlibc => "dng",
            BinaryType::StaticPieGlibc => "spg",
            BinaryType::StaticPieMusl => "spm",
            BinaryType::NonPieStaticMusl => "snm",
        }
    }

    /// The label in a fork command.
    pub open spec fn fork_text(self) -> &'static str {
        match self {
            BinaryType::PieGlibc => "self",
            BinaryType::NonPieGlibc => "nonpie",
            BinaryType::StaticPieGlibc => "static-pie-glibc",
            BinaryType::StaticPieMusl => "static-pie-musl",
            BinaryType::NonPieStaticMusl => "non-pie-static-musl",
        }
    }
}

/// The label of a binary type in a fork command.
pub fn fork_binary_label(bt: BinaryType) -> (r: &'static str)
    ensures
        r == bt.fork_text(),
{
    match bt {
        BinaryType::PieGlibc => "self",
        BinaryType::NonPieGlibc => "nonpie",
        BinaryType::StaticPieGlibc => "static-pie-glibc",
        BinaryType::StaticPieMusl => "static-pie-musl",
        BinaryType::NonPieStaticMusl => "non-pie-static-musl",
    }
}

/// How an ephemeral child comes to life, in contracts.
pub enum KindView {
    Pie,
    NonPie,
    Fork { binary: &'static str, ports: Seq<u16> },
}

pub open spec fn kind_view(k: SpawnKind) -> KindView {
    match k {
        SpawnKind::Pie => KindView::Pie,
        SpawnKind::NonPie => KindView::NonPie,
        SpawnKind::Fork { binary, inherit_listen_ports } => KindView::Fork {
            binary,
            ports: inherit_listen_ports@,
        },
    }
}

/// An ephemeral child, in contracts.
pub struct LeafView {
    pub parent: AgentName,
    pub label: Seq<char>,
    pub kind: KindView,
}

pub open spec fn leaf_view(h: EphemeralHandle) -> LeafView {
    LeafView { parent: h.parent_agent(), label: h.label_text(), kind: kind_view(h.spawn_kind()) }
}

pub open spec fn leaf_views(list: Seq<EphemeralHandle>) -> Seq<LeafView> {
    list.map_values(|h: EphemeralHandle| leaf_view(h))
}

/// What a test declares while it is registered. A handle for an agent comes only
/// from here, so a test cannot speak to an agent that it did not declare.
pub struct RegistrationContext {
    agents: Vec<AgentName>,
    leaves: Vec<EphemeralHandle>,
}

impl RegistrationContext {
    /// The agents declared so far.
    pub closed spec fn required(self) -> Seq<AgentName> {
        self.agents@
    }

    /// The ephemeral children declared so far.
    pub closed spec fn ephemerals(self) -> Seq<LeafView> {
        leaf_views(self.leaves@)
    }

    /// A context without declarations.
    pub fn new() -> (r: Self)
        ensures
            r.required() == Seq::<AgentName>::empty(),
            r.ephemerals() == Seq::<LeafView>::empty(),
    {
        let r = RegistrationContext { agents: Vec::new(), leaves: Vec::new() };
        assert(leaf_views(r.leaves@) =~= Seq::<LeafView>::empty());
        r
    }

    /// Declare an agent and get its handle.
    pub fn require(&mut self, agent: AgentName) -> (r: AgentHandle)
        ensures
            r.agent() == agent,
            final(self).required() == old(self).required().push(agent),
            final(self).ephemerals() == old(self).ephemerals(),
    {
        self.agents.push(agent);
        AgentHandle::of(agent)
    }

    /// The handle of the agent declared at a position. There is none for any other agent.
    pub fn handle(&self, k: usize) -> (r: AgentHandle)
        requires
            k < self.required().len(),
        ensures
            r.agent() == self.required()[k as int],
    {
        AgentHandle::of(self.agents[k])
    }

    /// The agents declared so far, in order.
    pub fn agents(&self) -> (r: &Vec<AgentName>)
        ensures
            r@ == self.required(),
    {
        &self.agents
    }

    /// The ephemeral children declared so far, in order.
    pub fn leaves(&self) -> (r: &Vec<EphemeralHandle>)
        ensures
            leaf_views(r@) == self.ephemerals(),
    {
        &self.leaves
    }

    /// Declare an ephemeral child under a static parent and get its handle.
    pub fn declare_ephemeral(&mut self, parent: AgentName, label: &str, kind: SpawnKind) -> (r:
        EphemeralHandle)
        ensures
            leaf_view(r) == (LeafView { parent, label: label@, kind: kind_view(kind) }),
            final(self).required() == old(self).required(),
            final(self).ephemerals() == old(self).ephemerals().push(leaf_view(r)),
    {
        let again = copy_kind(&kind);
        let ghost before = self.leaves@;
        self.leaves.push(EphemeralHandle::of(parent, label, again));
        let r = EphemeralHandle::of(parent, label, kind);
        assert(leaf_views(self.leaves@) =~= leaf_views(before).push(leaf_view(r)));
        r
    }
}

fn copy_kind(k: &SpawnKind) -> (r: SpawnKind)
    ensures
        kind_view(r) == kind_view(*k),
{
    match k {
        SpawnKind::Pie => SpawnKind::Pie,
        SpawnKind::NonPie => SpawnKind::NonPie,
        SpawnKind::Fork { binary, inherit_listen_ports } => {
            let mut ports: Vec<u16> = Vec::new();
            let mut i: usize = 0;
            while i < inherit_listen_ports.len()
                invariant
                    i <= inherit_listen_ports.len(),
                    ports@ == inherit_listen_ports@.take(i as int),
                decreases inherit_listen_ports.len() - i,
            {
                ports.push(inherit_listen_ports[i]);
                assert(ports@ =~= inherit_listen_ports@.take(i + 1));
                i = i + 1;
            }
            assert(ports@ =~= inherit_listen_ports@);
            SpawnKind::Fork { binary: *binary, inherit_listen_ports: ports }
        },
    }
}

/// What carries a test out.
#[derive(Clone, Copy, Debug, PartialEq, Eq)]
pub enum Handler {
    /// The registered handler of that name.
    Named(&'static str),
    /// The handler that runs one program.
    RunProgram,
    /// The coordinator itself, without a handler.
    Direct,
}

/// A registered test.
pub struct TestPlan {
    pub suite: &'static str,
    pub family: &'static str,
    pub id: String,
    /// Seconds the test may take; the default where there are none.
    pub timeout_secs: Option<u64>,
    /// What carries it out.
    pub handler: Handler,
    /// What it declared.
    pub cx: RegistrationContext,
}

/// A registered test, in contracts.
pub struct PlanView {
    pub suite: &'static str,
    pub family: &'static str,
    pub id: Seq<char>,
    pub timeout_secs: Option<u64>,
    pub handler: Handler,
    pub agents: Seq<AgentName>,
    pub leaves: Seq<LeafView>,
}

impl View for TestPlan {
    type V = PlanView;

    open spec fn view(&self) -> PlanView {
        PlanView {
            suite: self.suite,
            family: self.family,
            id: self.id@,
            timeout_secs: self.timeout_secs,
            handler: self.handler,
            agents: self.cx.required(),
            leaves: self.cx.ephemerals(),
        }
    }
}

pub open spec fn plan_views(list: Seq<TestPlan>) -> Seq<PlanView> {
    list.map_values(|p: TestPlan| p@)
}

/// The name under which a group of tests is registered.
#[derive(Clone, Copy)]
pub struct Group {
    pub suite: &'static str,
    pub family: &'static str,
    pub timeout_secs: Option<u64>,
}

/// A test on the given static agents.
pub open spec fn on_agents(g: Group, id: Seq<char>, handler: Handler, agents: Seq<AgentName>) -> PlanView {
    PlanView {
        suite: g.suite,
        family: g.family,
        id,
        timeout_secs: g.timeout_secs,
        handler,
        agents,
        leaves: Seq::empty(),
    }
}

/// A test on one static agent.
pub fn plan_on(g: Group, id: String, handler: Handler, agent: AgentName) -> (r: TestPlan)
    ensures
        r@ == on_agents(g, id@, handler, seq![agent]),
{
    let mut cx = RegistrationContext::new();
    let _ = cx.require(agent);
    assert(cx.required() =~= seq![agent]);
    TestPlan { suite: g.suite, family: g.family, id, timeout_secs: g.timeout_secs, handler, cx }
}

/// A test on two static agents.
pub fn plan_on_two(g: Group, id: String, handler: Handler, first: AgentName, second: AgentName) -> (r:
    TestPlan)
    ensures
        r@ == on_agents(g, id@, handler, seq![first, second]),
{
    let mut cx = RegistrationContext::new();
    let _ = cx.require(first);
    let _ = cx.require(second);
    assert(cx.required() =~= seq![first, second]);
    TestPlan { suite: g.suite, family: g.family, id, timeout_secs: g.timeout_secs, handler, cx }
}

/// A test that needs no agent.
pub fn plan_alone(g: Group, id: String, handler: Handler) -> (r: TestPlan)
    ensures
        r@ == on_agents(g, id@, handler, Seq::empty()),
{
    let cx = RegistrationContext::new();
    TestPlan { suite: g.suite, family: g.family, id, timeout_secs: g.timeout_secs, handler, cx }
}

/// A test on an ephemeral child that a static agent forks.
pub open spec fn on_leaf(
    g: Group,
    id: Seq<char>,
    handler: Handler,
    parent: AgentName,
    label: Seq<char>,
    binary: &'static str,
) -> PlanView {
    PlanView {
        suite: g.suite,
        family: g.family,
        id,
        timeout_secs: g.timeout_secs,
        handler,
        agents: Seq::empty(),
        leaves: seq![
            LeafView { parent, label, kind: KindView::Fork { binary, ports: Seq::empty() } },
        ],
    }
}

/// A test on an ephemeral child that a static agent forks.
pub fn plan_on_leaf(
    g: Group,
    id: String,
    handler: Handler,
    parent: AgentName,
    label: &str,
    binary: &'static str,
) -> (r: TestPlan)
    ensures
        r@ == on_leaf(g, id@, handler, parent, label@, binary),
{
    let mut cx = RegistrationContext::new();
    let ports: Vec<u16> = Vec::new();
    assert(ports@ =~= Seq::<u16>::empty());
    let _ = cx.declare_ephemeral(
        parent,
        label,
        SpawnKind::Fork { binary, inherit_listen_ports: ports },
    );
    assert(cx.ephemerals() =~= seq![
        LeafView { parent, label: label@, kind: KindView::Fork { binary, ports: Seq::empty() } },
    ]);
    TestPlan { suite: g.suite, family: g.family, id, timeout_secs: g.timeout_secs, handler, cx }
}

/// What a test came to.
#[derive(Clone, Debug)]
pub struct TestOutcome {
    pub agent: String,
    pub pass: bool,
    pub detail: String,
}

/// What a test came to, in contracts.
pub struct OutcomeView {
    pub agent: Seq<char>,
    pub pass: bool,
    pub detail: Seq<char>,
}

impl View for TestOutcome {
    type V = OutcomeView;

    open spec fn view(&self) -> OutcomeView {
        OutcomeView { agent: self.agent@, pass: self.pass, detail: self.detail@ }
    }
}

impl TestOutcome {
    /// An outcome with its agent, verdict and detail.
    pub fn new(agent: &str, pass: bool, detail: String) -> (r: Self)
        ensures
            r@ == (OutcomeView { agent: agent@, pass, detail: detail@ }),
    {
        TestOutcome { agent: agent.to_string(), pass, detail }
    }
}

/// The five binary types stand in one order, and each has labels of its own in test ids, in agent
/// names and in fork commands.
pub proof fn law_binary_labels(a: BinaryType, b: BinaryType)
    ensures
        a.label_text() == b.label_text() ==> a == b,
        a.short_text() == b.short_text() ==> a == b,
        a.fork_text()@ == b.fork_text()@ ==> a == b,
{
    reveal_strlit("pie-glibc");
    reveal_strlit("nonpie-glibc");
    reveal_strlit("static-pie-glibc");
    reveal_strlit("static-pie-musl");
    reveal_strlit("non-pie-static-musl");
    reveal_strlit("dpg");
    reveal_strlit("dng");
    reveal_strlit("spg");
    reveal_strlit("spm");
    reveal_strlit("snm");
    reveal_strlit("self");
    reveal_strlit("nonpie");
    assert("pie-glibc"@.len() == 9 && "nonpie-glibc"@.len() == 12 && "static-pie-glibc"@.len() == 16
        && "static-pie-musl"@.len() == 15 && "non-pie-static-musl"@.len() == 19);
    assert("self"@.len() == 4 && "nonpie"@.len() == 6);
    assert("dpg"@[0] == 'd' && "dpg"@[1] == 'p');
    assert("dng"@[0] == 'd' && "dng"@[1] == 'n');
    assert("spg"@[0] == 's' && "spg"@[1] == 'p' && "spg"@[2] == 'g');
    assert("spm"@[0] == 's' && "spm"@[1] == 'p' && "spm"@[2] == 'm');
    assert("snm"@[0] == 's' && "snm"@[1] == 'n');
}

/// The order of the binary types: each stands once.
pub proof fn law_binary_order(i: int, j: int)
    requires
        0 <= i < 5,
        0 <= j < 5,
        binary_at(i) == binary_at(j),
    ensures
        i == j,
        binary_at(0) is PieGlibc,
        binary_at(1) is NonPieGlibc,
        binary_at(2) is StaticPieGlibc,
        binary_at(3) is StaticPieMusl,
        binary_at(4) is NonPieStaticMusl,
{
}

/// A test on agents declares these agents and nothing else, and a test on a leaf declares the leaf
/// under its parent and no agent; both keep their group, id and handler.
pub proof fn law_plans(
    g: Group,
    id: Seq<char>,
    handler: Handler,
    agents: Seq<AgentName>,
    parent: AgentName,
    label: Seq<char>,
    binary: &'static str,
)
    ensures
        ({
            let p = on_agents(g, id, handler, agents);
            &&& p.suite == g.suite && p.family == g.family && p.timeout_secs == g.timeout_secs
            &&& p.id == id && p.handler == handler
            &&& p.agents == agents && p.leaves.len() == 0
        }),
        ({
            let p = on_leaf(g, id, handler, parent, label, binary);
            &&& p.suite == g.suite && p.family == g.family && p.timeout_secs == g.timeout_secs
            &&& p.id == id && p.handler == handler
            &&& p.agents.len() == 0 && p.leaves.len() == 1
            &&& p.leaves[0].parent == parent && p.leaves[0].label == label
            &&& p.leaves[0].kind == (KindView::Fork { binary, ports: Seq::empty() })
        }),
{
}

} // verus!
