//! Typed agent identifiers, the tree they are spawned in, and capability handles.
//!
//! Agent names encode the binary type at every hop (`dpg` = dynamic PIE glibc,
//! `dng` = dynamic non-PIE glibc, `spg`/`spm` = static PIE glibc/musl, `snm` =
//! non-PIE static musl) plus an ordinal where siblings share a binary type.

use vstd::prelude::*;
use crate::text::same;

verus! {

/// All agents the coordinator may spawn. Each variant has one wire-level name,
/// used in test ids and as the target of forwarded commands.
#[derive(Copy, Clone, Debug, PartialEq, Eq, Hash, PartialOrd, Ord, Structural)]
pub enum AgentName {
    /// The coordinator process itself (the local `init` target).
    Init,
    Dpg1,
    Dpg1Dpg1,
    Dpg1Dpg2,
    Dpg1Dpg1Dpg1,
    Dpg1Dpg1Dpg2,
    Dpg2,
    Dpg2Dpg,
    Dpg1Dng,
    Dpg1DngDpg,
    /// Static-PIE-glibc child of `Dpg1`: a long-lived forking parent of that binary type.
    Dpg1Spg,
    /// Static-PIE-musl child of `Dpg1`: a long-lived forking parent of that binary type.
    Dpg1Spm,
    /// Non-PIE static-musl child of `Dpg1`: a long-lived forking parent of that binary type.
    Dpg1Snm,
    /// Root of a disposable subtree that subtree-kill tests end with a signal.
    Dpg3,
    /// Direct child of `Dpg3`, for descendants two levels deep.
    Dpg3Dpg,
    VsCodeSshdPty,
    VsCodeLoginBash,
    VsCodePipedSh,
    VsCodeLauncherBash,
    VsCodeCli,
    VsCodeNode,
}

impl AgentName {
    /// The wire-level name, as text.
    pub open spec fn wire(self) -> Seq<char> {
        match self {
            AgentName::Init => "init"@,
            AgentName::Dpg1 => "dpg1"@,
            AgentName::Dpg1Dpg1 => "dpg1_dpg1"@,
            AgentName::Dpg1Dpg2 => "dpg1_dpg2"@,
            AgentName::Dpg1Dpg1Dpg1 => "dpg1_dpg1_dpg1"@,
            AgentName::Dpg1Dpg1Dpg2 => "dpg1_dpg1_dpg2"@,
            AgentName::Dpg2 => "dpg2"@,
            AgentName::Dpg2Dpg => "dpg2_dpg"@,
            AgentName::Dpg1Dng => "dpg1_dng"@,
            AgentName::Dpg1DngDpg => "dpg1_dng_dpg"@,
            AgentName::Dpg1Spg => "dpg1_spg"@,
            AgentName::Dpg1Spm => "dpg1_spm"@,
            AgentName::Dpg1Snm => "dpg1_snm"@,
            AgentName::Dpg3 => "dpg3"@,
            AgentName::Dpg3Dpg => "dpg3_dpg"@,
            AgentName::VsCodeSshdPty => "vscode_sshd_pty"@,
            AgentName::VsCodeLoginBash => "vscode_login_bash"@,
            AgentName::VsCodePipedSh => "vscode_piped_sh"@,
            AgentName::VsCodeLauncherBash => "vscode_launcher_bash"@,
            AgentName::VsCodeCli => "vscode_cli"@,
            AgentName::VsCodeNode => "vscode_node"@,
        }
    }

    /// The direct parent in the spawn tree.
    pub open spec fn parent_of(self) -> Option<AgentName> {
        match self {
            AgentName::Init => None,
            AgentName::Dpg1 => None,
            AgentName::Dpg1Dpg1 => Some(AgentName::Dpg1),
            AgentName::Dpg1Dpg2 => Some(AgentName::Dpg1),
            AgentName::Dpg1Dpg1Dpg1 => Some(AgentName::Dpg1Dpg1),
            AgentName::Dpg1Dpg1Dpg2 => Some(AgentName::Dpg1Dpg1),
            AgentName::Dpg2 => None,
            AgentName::Dpg2Dpg => Some(AgentName::Dpg2),
            AgentName::Dpg1Dng => Some(AgentName::Dpg1),
            AgentName::Dpg1DngDpg => Some(AgentName::Dpg1Dng),
            AgentName::Dpg1Spg => Some(AgentName::Dpg1),
            AgentName::Dpg1Spm => Some(AgentName::Dpg1),
            AgentName::Dpg1Snm => Some(AgentName::Dpg1),
            AgentName::Dpg3 => None,
            AgentName::Dpg3Dpg => Some(AgentName::Dpg3),
            AgentName::VsCodeSshdPty => None,
            AgentName::VsCodeLoginBash => Some(AgentName::VsCodeSshdPty),
            AgentName::VsCodePipedSh => Some(AgentName::VsCodeLoginBash),
            AgentName::VsCodeLauncherBash => Some(AgentName::VsCodePipedSh),
            AgentName::VsCodeCli => Some(AgentName::VsCodeLauncherBash),
            AgentName::VsCodeNode => Some(AgentName::VsCodeCli),
        }
    }

    /// How many agents stand above this one.
    pub open spec fn depth(self) -> nat {
        match self {
            AgentName::Init => 0,
            AgentName::Dpg1 => 0,
            AgentName::Dpg1Dpg1 => 1,
            AgentName::Dpg1Dpg2 => 1,
            AgentName::Dpg1Dpg1Dpg1 => 2,
            AgentName::Dpg1Dpg1Dpg2 => 2,
            AgentName::Dpg2 => 0,
            AgentName::Dpg2Dpg => 1,
            AgentName::Dpg1Dng => 1,
            AgentName::Dpg1DngDpg => 2,
            AgentName::Dpg1Spg => 1,
            AgentName::Dpg1Spm => 1,
            AgentName::Dpg1Snm => 1,
            AgentName::Dpg3 => 0,
            AgentName::Dpg3Dpg => 1,
            AgentName::VsCodeSshdPty => 0,
            AgentName::VsCodeLoginBash => 1,
            AgentName::VsCodePipedSh => 2,
            AgentName::VsCodeLauncherBash => 3,
            AgentName::VsCodeCli => 4,
            AgentName::VsCodeNode => 5,
        }
    }

    /// The agents above this one, from the top of the tree down to the parent.
    pub open spec fn chain(self) -> Seq<AgentName>
        decreases self.depth(),
    {
        match self.parent_of() {
            None => Seq::<AgentName>::empty(),
            Some(p) => p.chain().push(p),
        }
    }

    /// Wire-level name used in protocol commands.
    pub fn name(self) -> (r: &'static str)
        ensures
            r@ == self.wire(),
    {
        match self {
            AgentName::Init => "init",
            AgentName::Dpg1 => "dpg1",
            AgentName::Dpg1Dpg1 => "dpg1_dpg1",
            AgentName::Dpg1Dpg2 => "dpg1_dpg2",
            AgentName::Dpg1Dpg1Dpg1 => "dpg1_dpg1_dpg1",
            AgentName::Dpg1Dpg1Dpg2 => "dpg1_dpg1_dpg2",
            AgentName::Dpg2 => "dpg2",
            AgentName::Dpg2Dpg => "dpg2_dpg",
            AgentName::Dpg1Dng => "dpg1_dng",
            AgentName::Dpg1DngDpg => "dpg1_dng_dpg",
            AgentName::Dpg1Spg => "dpg1_spg",
            AgentName::Dpg1Spm => "dpg1_spm",
            AgentName::Dpg1Snm => "dpg1_snm",
            AgentName::Dpg3 => "dpg3",
            AgentName::Dpg3Dpg => "dpg3_dpg",
            AgentName::VsCodeSshdPty => "vscode_sshd_pty",
            AgentName::VsCodeLoginBash => "vscode_login_bash",
            AgentName::VsCodePipedSh => "vscode_piped_sh",
            AgentName::VsCodeLauncherBash => "vscode_launcher_bash",
            AgentName::VsCodeCli => "vscode_cli",
            AgentName::VsCodeNode => "vscode_node",
        }
    }

    /// Looks up an agent by its wire-level name. `None` for a name that no agent
    /// has (such as the label of an ephemeral child).
    pub fn from_wire(name: &str) -> (r: Option<Self>)
        ensures
            match r {
                Some(a) => a.wire() == name@,
                None => forall|a: AgentName| #[trigger] a.wire() != name@,
            },
    {
        if same(name, "init") {
            Some(AgentName::Init)
        } else if same(name, "dpg1") {
            Some(AgentName::Dpg1)
        } else if same(name, "dpg1_dpg1") {
            Some(AgentName::Dpg1Dpg1)
        } else if same(name, "dpg1_dpg2") {
            Some(AgentName::Dpg1Dpg2)
        } else if same(name, "dpg1_dpg1_dpg1") {
            Some(AgentName::Dpg1Dpg1Dpg1)
        } else if same(name, "dpg1_dpg1_dpg2") {
            Some(AgentName::Dpg1Dpg1Dpg2)
        } else if same(name, "dpg2") {
            Some(AgentName::Dpg2)
        } else if same(name, "dpg2_dpg") {
            Some(AgentName::Dpg2Dpg)
        } else if same(name, "dpg1_dng") {
            Some(AgentName::Dpg1Dng)
        } else if same(name, "dpg1_dng_dpg") {
            Some(AgentName::Dpg1DngDpg)
        } else if same(name, "dpg1_spg") {
            Some(AgentName::Dpg1Spg)
        } else if same(name, "dpg1_spm") {
            Some(AgentName::Dpg1Spm)
        } else if same(name, "dpg1_snm") {
            Some(AgentName::Dpg1Snm)
        } else if same(name, "dpg3") {
            Some(AgentName::Dpg3)
        } else if same(name, "dpg3_dpg") {
            Some(AgentName::Dpg3Dpg)
        } else if same(name, "vscode_sshd_pty") {
            Some(AgentName::VsCodeSshdPty)
        } else if same(name, "vscode_login_bash") {
            Some(AgentName::VsCodeLoginBash)
        } else if same(name, "vscode_piped_sh") {
            Some(AgentName::VsCodePipedSh)
        } else if same(name, "vscode_launcher_bash") {
            Some(AgentName::VsCodeLauncherBash)
        } else if same(name, "vscode_cli") {
            Some(AgentName::VsCodeCli)
        } else if same(name, "vscode_node") {
            Some(AgentName::VsCodeNode)
        } else {
            None
        }
    }

    /// The chain of agents that must already exist for `self` to be reachable.
    pub fn ancestors(self) -> (r: &'static [AgentName])
        ensures
            r@ == self.chain(),
    {
        proof {
            reveal_with_fuel(AgentName::chain, 6);
        }
        match self {
            AgentName::Init => &[],
            AgentName::Dpg1 => &[],
            AgentName::Dpg1Dpg1 => &[AgentName::Dpg1],
            AgentName::Dpg1Dpg2 => &[AgentName::Dpg1],
            AgentName::Dpg1Dpg1Dpg1 => &[AgentName::Dpg1, AgentName::Dpg1Dpg1],
            AgentName::Dpg1Dpg1Dpg2 => &[AgentName::Dpg1, AgentName::Dpg1Dpg1],
            AgentName::Dpg2 => &[],
            AgentName::Dpg2Dpg => &[AgentName::Dpg2],
            AgentName::Dpg1Dng => &[AgentName::Dpg1],
            AgentName::Dpg1DngDpg => &[AgentName::Dpg1, AgentName::Dpg1Dng],
            AgentName::Dpg1Spg => &[AgentName::Dpg1],
            AgentName::Dpg1Spm => &[AgentName::Dpg1],
            AgentName::Dpg1Snm => &[AgentName::Dpg1],
            AgentName::Dpg3 => &[],
            AgentName::Dpg3Dpg => &[AgentName::Dpg3],
            AgentName::VsCodeSshdPty => &[],
            AgentName::VsCodeLoginBash => &[AgentName::VsCodeSshdPty],
            AgentName::VsCodePipedSh => &[AgentName::VsCodeSshdPty, AgentName::VsCodeLoginBash],
            AgentName::VsCodeLauncherBash => &[AgentName::VsCodeSshdPty, AgentName::VsCodeLoginBash, AgentName::VsCodePipedSh],
            AgentName::VsCodeCli => &[AgentName::VsCodeSshdPty, AgentName::VsCodeLoginBash, AgentName::VsCodePipedSh, AgentName::VsCodeLauncherBash],
            AgentName::VsCodeNode => &[AgentName::VsCodeSshdPty, AgentName::VsCodeLoginBash, AgentName::VsCodePipedSh, AgentName::VsCodeLauncherBash, AgentName::VsCodeCli],
        }
    }

    /// Direct parent in the spawn tree, or `None` for a direct child of the coordinator.
    pub fn parent(self) -> (r: Option<AgentName>)
        ensures
            r == self.parent_of(),
    {
        match self {
            AgentName::Init => None,
            AgentName::Dpg1 => None,
            AgentName::Dpg1Dpg1 => Some(AgentName::Dpg1),
            AgentName::Dpg1Dpg2 => Some(AgentName::Dpg1),
            AgentName::Dpg1Dpg1Dpg1 => Some(AgentName::Dpg1Dpg1),
            AgentName::Dpg1Dpg1Dpg2 => Some(AgentName::Dpg1Dpg1),
            AgentName::Dpg2 => None,
            AgentName::Dpg2Dpg => Some(AgentName::Dpg2),
            AgentName::Dpg1Dng => Some(AgentName::Dpg1),
            AgentName::Dpg1DngDpg => Some(AgentName::Dpg1Dng),
            AgentName::Dpg1Spg => Some(AgentName::Dpg1),
            AgentName::Dpg1Spm => Some(AgentName::Dpg1),
            AgentName::Dpg1Snm => Some(AgentName::Dpg1),
            AgentName::Dpg3 => None,
            AgentName::Dpg3Dpg => Some(AgentName::Dpg3),
            AgentName::VsCodeSshdPty => None,
            AgentName::VsCodeLoginBash => Some(AgentName::VsCodeSshdPty),
            AgentName::VsCodePipedSh => Some(AgentName::VsCodeLoginBash),
            AgentName::VsCodeLauncherBash => Some(AgentName::VsCodePipedSh),
            AgentName::VsCodeCli => Some(AgentName::VsCodeLauncherBash),
            AgentName::VsCodeNode => Some(AgentName::VsCodeCli),
        }
    }
}

/// No two agents share a wire-level name.
pub proof fn law_names_distinct(a: AgentName, b: AgentName)
    requires
        a.wire() == b.wire(),
    ensures
        a == b,
{
    reveal_strlit("init");
    reveal_strlit("dpg1");
    reveal_strlit("dpg1_dpg1");
    reveal_strlit("dpg1_dpg2");
    reveal_strlit("dpg1_dpg1_dpg1");
    reveal_strlit("dpg1_dpg1_dpg2");
    reveal_strlit("dpg2");
    reveal_strlit("dpg2_dpg");
    reveal_strlit("dpg1_dng");
    reveal_strlit("dpg1_dng_dpg");
    reveal_strlit("dpg1_spg");
    reveal_strlit("dpg1_spm");
    reveal_strlit("dpg1_snm");
    reveal_strlit("dpg3");
    reveal_strlit("dpg3_dpg");
    reveal_strlit("vscode_sshd_pty");
    reveal_strlit("vscode_login_bash");
    reveal_strlit("vscode_piped_sh");
    reveal_strlit("vscode_launcher_bash");
    reveal_strlit("vscode_cli");
    reveal_strlit("vscode_node");
    let (s, t) = (a.wire(), b.wire());
    assert(s.len() == t.len());
    assert(s.len() > 0 ==> s[0] == t[0]);
    assert(s.len() > 1 ==> s[1] == t[1]);
    assert(s.len() > 3 ==> s[3] == t[3]);
    assert(s.len() > 5 ==> s[5] == t[5]);
    assert(s.len() > 6 ==> s[6] == t[6]);
    assert(s.len() > 7 ==> s[7] == t[7]);
    assert(s.len() > 8 ==> s[8] == t[8]);
    assert(s.len() > 9 ==> s[9] == t[9]);
    assert(s.len() > 10 ==> s[10] == t[10]);
    assert(s.len() > 13 ==> s[13] == t[13]);
}

/// The parent is the last of the ancestors; an agent without ancestors has no parent.
pub proof fn law_parent_is_last_ancestor(a: AgentName)
    ensures
        a.chain().len() == a.depth(),
        a.parent_of() is None <==> a.chain().len() == 0,
        a.parent_of() matches Some(p) ==> a.chain().last() == p && p.chain() == a.chain().drop_last(),
    decreases a.depth(),
{
    if let Some(p) = a.parent_of() {
        law_parent_is_last_ancestor(p);
        assert(a.chain().drop_last() =~= p.chain());
    }
}

/// No agent is among its own ancestors.
pub proof fn law_no_cycles(a: AgentName)
    ensures
        !a.chain().contains(a),
{
    lemma_chain_depths(a);
    if a.chain().contains(a) {
        let k = choose|k: int| 0 <= k < a.chain().len() && a.chain()[k] == a;
        assert(a.chain()[k].depth() == k);
        law_parent_is_last_ancestor(a);
    }
}

/// The ancestors stand one below the other, from depth zero down.
proof fn lemma_chain_depths(a: AgentName)
    ensures
        forall|k: int| 0 <= k < a.chain().len() ==> (#[trigger] a.chain()[k]).depth() == k,
    decreases a.depth(),
{
    if let Some(p) = a.parent_of() {
        lemma_chain_depths(p);
        law_parent_is_last_ancestor(p);
    }
}

/// The ancestors are closed upwards: the ancestors of each ancestor stand before it.
pub proof fn law_ancestors_closed(a: AgentName, k: int)
    requires
        0 <= k < a.chain().len(),
    ensures
        a.chain()[k].chain() == a.chain().take(k),
    decreases a.depth(),
{
    if let Some(p) = a.parent_of() {
        law_parent_is_last_ancestor(a);
        if k < p.chain().len() {
            law_ancestors_closed(p, k);
            assert(p.chain().take(k) =~= a.chain().take(k));
        } else {
            assert(a.chain().take(k) =~= p.chain());
        }
    }
}

/// Whether an agent is expected to live for the whole run, or belongs to a
/// subtree whose sudden end is part of a test.
#[derive(Copy, Clone, Debug, PartialEq, Eq, Structural)]
pub enum IsolationKind {
    Standard,
    DisposableSubtree,
}

/// Binary type a spawned agent runs as.
#[derive(Copy, Clone, Debug, PartialEq, Eq, Structural)]
pub enum AgentBinary {
    Pie,
    NonPie,
    StaticPieGlibc,
    StaticPieMusl,
    NonPieStaticMusl,
}

impl AgentBinary {
    /// The label of the binary in a fork command.
    pub open spec fn fork_label(self) -> Seq<char> {
        match self {
            AgentBinary::Pie => "self"@,
            AgentBinary::NonPie => "nonpie"@,
            AgentBinary::StaticPieGlibc => "static-pie-glibc"@,
            AgentBinary::StaticPieMusl => "static-pie-musl"@,
            AgentBinary::NonPieStaticMusl => "non-pie-static-musl"@,
        }
    }

    /// Whether the agent runs another binary than the harness itself.
    pub fn needs_companion_binary(self) -> (r: bool)
        ensures
            r == (self != AgentBinary::Pie),
    {
        !matches!(self, AgentBinary::Pie)
    }

    /// The label of the binary in a fork command.
    pub fn fork_binary_label(self) -> (r: &'static str)
        ensures
            r@ == self.fork_label(),
    {
        match self {
            AgentBinary::Pie => "self",
            AgentBinary::NonPie => "nonpie",
            AgentBinary::StaticPieGlibc => "static-pie-glibc",
            AgentBinary::StaticPieMusl => "static-pie-musl",
            AgentBinary::NonPieStaticMusl => "non-pie-static-musl",
        }
    }
}

/// Declarative spec for one agent in the spawn tree.
#[derive(Copy, Clone, Debug, PartialEq, Eq, Structural)]
pub struct AgentSpec {
    pub name: AgentName,
    pub parent: Option<AgentName>,
    pub binary: AgentBinary,
    pub isolation: IsolationKind,
}

/// One row of the tree: the parent is the agent's own.
pub open spec fn row(name: AgentName, binary: AgentBinary, isolation: IsolationKind) -> AgentSpec {
    AgentSpec { name, parent: name.parent_of(), binary, isolation }
}

/// The agents of the tree that do not belong to the VS Code shape.
#[verifier::opaque]
pub open spec fn core_tree() -> Seq<AgentSpec> {
    seq![
        row(AgentName::Dpg1, AgentBinary::Pie, IsolationKind::Standard),
        row(AgentName::Dpg2, AgentBinary::Pie, IsolationKind::Standard),
        row(AgentName::Dpg3, AgentBinary::Pie, IsolationKind::DisposableSubtree),
        row(AgentName::Dpg1Dpg1, AgentBinary::Pie, IsolationKind::Standard),
        row(AgentName::Dpg1Dpg2, AgentBinary::Pie, IsolationKind::Standard),
        row(AgentName::Dpg1Dng, AgentBinary::NonPie, IsolationKind::Standard),
        row(AgentName::Dpg1Dpg1Dpg1, AgentBinary::Pie, IsolationKind::Standard),
        row(AgentName::Dpg1Dpg1Dpg2, AgentBinary::Pie, IsolationKind::Standard),
        row(AgentName::Dpg1DngDpg, AgentBinary::Pie, IsolationKind::Standard),
        row(AgentName::Dpg1Spg, AgentBinary::StaticPieGlibc, IsolationKind::Standard),
        row(AgentName::Dpg1Spm, AgentBinary::StaticPieMusl, IsolationKind::Standard),
        row(AgentName::Dpg1Snm, AgentBinary::NonPieStaticMusl, IsolationKind::Standard),
        row(AgentName::Dpg2Dpg, AgentBinary::Pie, IsolationKind::Standard),
        row(AgentName::Dpg3Dpg, AgentBinary::Pie, IsolationKind::DisposableSubtree),
    ]
}

fn row_of(name: AgentName, binary: AgentBinary, isolation: IsolationKind) -> (r: AgentSpec)
    ensures
        r == row(name, binary, isolation),
{
    AgentSpec { name, parent: name.parent(), binary, isolation }
}

/// The default agent tree the coordinator can spawn from: the core agents, then
/// the agents of the VS Code shape in the order given.
#[must_use]
pub fn default_tree(vscode_specs: Vec<AgentSpec>) -> (r: Vec<AgentSpec>)
    ensures
        r@ == core_tree() + vscode_specs@,
{
    let mut specs: Vec<AgentSpec> = vec![
        row_of(AgentName::Dpg1, AgentBinary::Pie, IsolationKind::Standard),
        row_of(AgentName::Dpg2, AgentBinary::Pie, IsolationKind::Standard),
        row_of(AgentName::Dpg3, AgentBinary::Pie, IsolationKind::DisposableSubtree),
        row_of(AgentName::Dpg1Dpg1, AgentBinary::Pie, IsolationKind::Standard),
        row_of(AgentName::Dpg1Dpg2, AgentBinary::Pie, IsolationKind::Standard),
        row_of(AgentName::Dpg1Dng, AgentBinary::NonPie, IsolationKind::Standard),
        row_of(AgentName::Dpg1Dpg1Dpg1, AgentBinary::Pie, IsolationKind::Standard),
        row_of(AgentName::Dpg1Dpg1Dpg2, AgentBinary::Pie, IsolationKind::Standard),
        row_of(AgentName::Dpg1DngDpg, AgentBinary::Pie, IsolationKind::Standard),
        row_of(AgentName::Dpg1Spg, AgentBinary::StaticPieGlibc, IsolationKind::Standard),
        row_of(AgentName::Dpg1Spm, AgentBinary::StaticPieMusl, IsolationKind::Standard),
        row_of(AgentName::Dpg1Snm, AgentBinary::NonPieStaticMusl, IsolationKind::Standard),
        row_of(AgentName::Dpg2Dpg, AgentBinary::Pie, IsolationKind::Standard),
        row_of(AgentName::Dpg3Dpg, AgentBinary::Pie, IsolationKind::DisposableSubtree),
    ];
    let mut tail = vscode_specs;
    proof {
        reveal(core_tree);
    }
    assert(specs@ =~= core_tree());
    specs.append(&mut tail);
    specs
}

/// The first spec in `tree` that has the name.
pub open spec fn lookup(tree: Seq<AgentSpec>, name: AgentName) -> Option<AgentSpec>
    decreases tree.len(),
{
    if tree.len() == 0 {
        None
    } else if tree[0].name == name {
        Some(tree[0])
    } else {
        lookup(tree.skip(1), name)
    }
}

/// The spec with the given name in the default tree: the first one that has it.
/// `None` for an agent that no spec names, such as `Init`.
#[must_use]
pub fn agent_spec(name: AgentName, vscode_specs: Vec<AgentSpec>) -> (r: Option<AgentSpec>)
    ensures
        r == lookup(core_tree() + vscode_specs@, name),
{
    let ghost whole = core_tree() + vscode_specs@;
    let tree = default_tree(vscode_specs);
    let mut i: usize = 0;
    assert(tree@.skip(0) =~= tree@);
    while i < tree.len()
        invariant
            i <= tree.len(),
            whole == core_tree() + vscode_specs@,
            tree@ == whole,
            lookup(whole, name) == lookup(tree@.skip(i as int), name),
        decreases tree.len() - i,
    {
        if tree[i].name == name {
            return Some(tree[i]);
        }
        assert(tree@.skip(i as int).skip(1) =~= tree@.skip(i + 1));
        i = i + 1;
    }
    None
}

/// The coordinator itself is not spawned: unless the VS Code shape names it, `Init` has no spec.
pub proof fn law_init_has_no_spec(vscode_specs: Seq<AgentSpec>)
    requires
        forall|k: int| 0 <= k < vscode_specs.len() ==> (#[trigger] vscode_specs[k]).name
            != AgentName::Init,
    ensures
        lookup(core_tree() + vscode_specs, AgentName::Init) is None,
{
    let all = core_tree() + vscode_specs;
    assert forall|k: int| 0 <= k < all.len() implies (#[trigger] all[k]).name != AgentName::Init by {
        if k >= core_tree().len() {
            assert(all[k] == vscode_specs[k - core_tree().len()]);
        } else {
            lemma_core_row(k);
        }
    }
    lemma_lookup_none(all, AgentName::Init);
}

proof fn lemma_lookup_none(tree: Seq<AgentSpec>, name: AgentName)
    requires
        forall|k: int| 0 <= k < tree.len() ==> (#[trigger] tree[k]).name != name,
    ensures
        lookup(tree, name) is None,
    decreases tree.len(),
{
    if tree.len() > 0 {
        let rest = tree.skip(1);
        assert forall|k: int| 0 <= k < rest.len() implies (#[trigger] rest[k]).name != name by {
            assert(rest[k] == tree[k + 1]);
        }
        lemma_lookup_none(rest, name);
    }
}

/// The parent of the spec at `k`, where it has one, stands before it.
pub open spec fn parent_before(tree: Seq<AgentSpec>, k: int) -> bool {
    tree[k].parent matches Some(p) ==> exists|j: int| 0 <= j < k && (#[trigger] tree[j]).name == p
}

/// Specs stand in spawn order: parents before children.
pub open spec fn parents_first(tree: Seq<AgentSpec>) -> bool {
    forall|k: int| 0 <= k < tree.len() ==> #[trigger] parent_before(tree, k)
}

/// Each spec has the parent that its name has.
pub open spec fn parents_agree(tree: Seq<AgentSpec>) -> bool {
    forall|k: int| 0 <= k < tree.len() ==> (#[trigger] tree[k]).parent == tree[k].name.parent_of()
}

/// No name occurs twice.
pub open spec fn names_once(tree: Seq<AgentSpec>) -> bool {
    forall|i: int, j: int| 0 <= i < j < tree.len() ==> (#[trigger] tree[i]).name != (#[trigger] tree[j]).name
}

/// Where an agent stands in the core tree.
spec fn core_position(name: AgentName) -> int {
    match name {
        AgentName::Dpg1 => 0,
        AgentName::Dpg2 => 1,
        AgentName::Dpg3 => 2,
        AgentName::Dpg1Dpg1 => 3,
        AgentName::Dpg1Dpg2 => 4,
        AgentName::Dpg1Dng => 5,
        AgentName::Dpg1Dpg1Dpg1 => 6,
        AgentName::Dpg1Dpg1Dpg2 => 7,
        AgentName::Dpg1DngDpg => 8,
        AgentName::Dpg1Spg => 9,
        AgentName::Dpg1Spm => 10,
        AgentName::Dpg1Snm => 11,
        AgentName::Dpg2Dpg => 12,
        AgentName::Dpg3Dpg => 13,
        _ => -1,
    }
}

proof fn lemma_core_row(k: int)
    requires
        0 <= k < core_tree().len(),
    ensures
        core_position(core_tree()[k].name) == k,
        core_tree()[k].name != AgentName::Init,
        core_tree()[k].parent == core_tree()[k].name.parent_of(),
        core_tree()[k].parent matches Some(p) ==> 0 <= core_position(p) < k,
{
    reveal(core_tree);
}

proof fn lemma_core_at(name: AgentName)
    requires
        core_position(name) >= 0,
    ensures
        core_position(name) < core_tree().len(),
        core_tree()[core_position(name)].name == name,
{
    reveal(core_tree);
}

/// The core tree is in spawn order, agrees with the names' own parents, and names each agent once.
pub proof fn law_core_tree()
    ensures
        parents_first(core_tree()),
        parents_agree(core_tree()),
        names_once(core_tree()),
{
    let t = core_tree();
    assert forall|k: int| 0 <= k < t.len() implies #[trigger] parent_before(t, k) by {
        lemma_core_row(k);
        if let Some(p) = t[k].parent {
            lemma_core_at(p);
            assert(t[core_position(p)].name == p);
        }
    }
    assert forall|k: int| 0 <= k < t.len() implies (#[trigger] t[k]).parent
        == t[k].name.parent_of() by {
        lemma_core_row(k);
    }
    assert forall|i: int, j: int| 0 <= i < j < t.len() implies (#[trigger] t[i]).name != (
    #[trigger] t[j]).name by {
        lemma_core_row(i);
        lemma_core_row(j);
    }
}

/// The agent belongs to the VS Code shape.
pub open spec fn in_vscode(name: AgentName) -> bool {
    match name {
        AgentName::VsCodeSshdPty => true,
        AgentName::VsCodeLoginBash => true,
        AgentName::VsCodePipedSh => true,
        AgentName::VsCodeLauncherBash => true,
        AgentName::VsCodeCli => true,
        AgentName::VsCodeNode => true,
        _ => false,
    }
}

/// The core tree has fourteen rows, and they name exactly the agents that are neither the
/// coordinator nor of the VS Code shape, each once.
pub proof fn law_core_tree_complete(name: AgentName)
    ensures
        core_tree().len() == 14,
        (exists|k: int| 0 <= k < core_tree().len() && (#[trigger] core_tree()[k]).name == name)
            <==> name != AgentName::Init && !in_vscode(name),
        names_once(core_tree()),
{
    law_core_tree();
    if name != AgentName::Init && !in_vscode(name) {
        lemma_core_at(name);
    }
    assert forall|k: int| 0 <= k < core_tree().len() implies !in_vscode(
        (#[trigger] core_tree()[k]).name,
    ) by {
        lemma_core_row(k);
    }
    assert forall|k: int| 0 <= k < core_tree().len() implies (#[trigger] core_tree()[k]).name
        != AgentName::Init by {
        lemma_core_row(k);
    }
    reveal(core_tree);
}

/// The word for a binary type in agent names.
pub open spec fn binary_word(binary: AgentBinary) -> Seq<char> {
    match binary {
        AgentBinary::Pie => "dpg"@,
        AgentBinary::NonPie => "dng"@,
        AgentBinary::StaticPieGlibc => "spg"@,
        AgentBinary::StaticPieMusl => "spm"@,
        AgentBinary::NonPieStaticMusl => "snm"@,
    }
}

/// The number at the end of a name, where it has one.
pub open spec fn ordinal(name: AgentName) -> Seq<char> {
    match name {
        AgentName::Dpg1 => "1"@,
        AgentName::Dpg2 => "2"@,
        AgentName::Dpg3 => "3"@,
        AgentName::Dpg1Dpg1 => "1"@,
        AgentName::Dpg1Dpg2 => "2"@,
        AgentName::Dpg1Dpg1Dpg1 => "1"@,
        AgentName::Dpg1Dpg1Dpg2 => "2"@,
        _ => ""@,
    }
}

/// The rows have the same parent and the same binary type.
pub open spec fn same_kind(a: AgentSpec, b: AgentSpec) -> bool {
    a.parent == b.parent && a.binary == b.binary
}

/// The name of an agent of the core tree is its parent's name and an underscore, where it has
/// a parent, then the word for its binary type, and then a number exactly if a sibling has
/// the same binary type.
pub proof fn law_names_encode_tree(k: int)
    requires
        0 <= k < core_tree().len(),
    ensures
        ({
            let s = core_tree()[k];
            &&& s.name.wire() == (match s.parent {
                Some(p) => p.wire() + "_"@,
                None => Seq::empty(),
            }) + binary_word(s.binary) + ordinal(s.name)
            &&& ordinal(s.name).len() > 0 <==> exists|j: int|
                0 <= j < core_tree().len() && j != k && same_kind(#[trigger] core_tree()[j], s)
        }),
{
    let t = core_tree();
    let s = t[k];
    assert(s.name.wire() =~= (match s.parent {
        Some(p) => p.wire() + "_"@,
        None => Seq::empty(),
    }) + binary_word(s.binary) + ordinal(s.name)) by {
        lemma_name_in_parts(k);
    }
    reveal(core_tree);
    reveal_strlit("");
    reveal_strlit("1");
    reveal_strlit("2");
    reveal_strlit("3");
    if ordinal(s.name).len() > 0 {
        let j = if k == 0 {
            1int
        } else if k <= 2 {
            0
        } else if k == 3 {
            4
        } else if k == 4 {
            3
        } else if k == 6 {
            7
        } else {
            6
        };
        assert(same_kind(t[j], s));
    }
}

proof fn lemma_name_in_parts(k: int)
    requires
        0 <= k < core_tree().len(),
    ensures
        ({
            let s = core_tree()[k];
            s.name.wire() =~= (match s.parent {
                Some(p) => p.wire() + "_"@,
                None => Seq::empty(),
            }) + binary_word(s.binary) + ordinal(s.name)
        }),
{
    reveal(core_tree);
    reveal_strlit("dpg1");
    reveal_strlit("dpg1_dpg1");
    reveal_strlit("dpg1_dpg2");
    reveal_strlit("dpg1_dpg1_dpg1");
    reveal_strlit("dpg1_dpg1_dpg2");
    reveal_strlit("dpg2");
    reveal_strlit("dpg2_dpg");
    reveal_strlit("dpg1_dng");
    reveal_strlit("dpg1_dng_dpg");
    reveal_strlit("dpg1_spg");
    reveal_strlit("dpg1_spm");
    reveal_strlit("dpg1_snm");
    reveal_strlit("dpg3");
    reveal_strlit("dpg3_dpg");
    reveal_strlit("_");
    reveal_strlit("dpg");
    reveal_strlit("dng");
    reveal_strlit("spg");
    reveal_strlit("spm");
    reveal_strlit("snm");
    reveal_strlit("");
    reveal_strlit("1");
    reveal_strlit("2");
    reveal_strlit("3");
}

/// A VS Code shape in spawn order keeps the whole tree in spawn order.
pub proof fn law_tree_parents_first(vscode_specs: Seq<AgentSpec>)
    requires
        parents_first(vscode_specs),
    ensures
        parents_first(core_tree() + vscode_specs),
{
    law_core_tree();
    let (core, all) = (core_tree(), core_tree() + vscode_specs);
    assert forall|k: int| 0 <= k < all.len() implies #[trigger] parent_before(all, k) by {
        if let Some(p) = all[k].parent {
            if k < core.len() {
                assert(all[k] == core[k]);
                assert(parent_before(core, k));
                let j = choose|j: int| 0 <= j < k && (#[trigger] core[j]).name == p;
                assert(all[j] == core[j]);
            } else {
                let m = k - core.len();
                assert(all[k] == vscode_specs[m]);
                assert(parent_before(vscode_specs, m));
                let j = choose|j: int| 0 <= j < m && (#[trigger] vscode_specs[j]).name == p;
                assert(all[j + core.len()] == vscode_specs[j]);
            }
        }
    }
}

/// Capability to send commands to a specific agent. Only a registration context
/// makes one, and it notes the agent as required when it does.
#[derive(Clone, Copy, Debug)]
pub struct AgentHandle {
    name: AgentName,
}

impl AgentHandle {
    /// The agent the handle speaks to.
    pub closed spec fn agent(self) -> AgentName {
        self.name
    }

    pub(crate) fn of(name: AgentName) -> (r: Self)
        ensures
            r.agent() == name,
    {
        AgentHandle { name }
    }

    /// The agent the handle speaks to.
    pub fn name(&self) -> (r: AgentName)
        ensures
            r == self.agent(),
    {
        self.name
    }
}

/// How an ephemeral child agent is brought to life.
#[derive(Clone, Debug, PartialEq, Eq)]
pub enum SpawnKind {
    /// PIE child, by a spawn command.
    Pie,
    /// Non-PIE child, by a remote spawn command.
    NonPie,
    /// By a fork command with the binary's label and the listen ports to hand down.
    Fork { binary: &'static str, inherit_listen_ports: Vec<u16> },
}

impl SpawnKind {
    /// Whether this kind needs the non-PIE subtree up front.
    pub fn needs_nonpie(&self) -> (r: bool)
        ensures
            r == match *self {
                SpawnKind::Pie => false,
                SpawnKind::NonPie => true,
                SpawnKind::Fork { binary, .. } => binary@ == "nonpie"@,
            },
    {
        match self {
            SpawnKind::Pie => false,
            SpawnKind::NonPie => true,
            SpawnKind::Fork { binary, .. } => same(binary, "nonpie"),
        }
    }
}

/// Capability to send commands to an ephemeral child agent that a test spawns
/// under a static parent.
#[derive(Clone, Debug)]
pub struct EphemeralHandle {
    parent: AgentName,
    label: String,
    kind: SpawnKind,
}

impl EphemeralHandle {
    pub closed spec fn parent_agent(self) -> AgentName {
        self.parent
    }

    pub closed spec fn label_text(self) -> Seq<char> {
        self.label@
    }

    pub closed spec fn spawn_kind(self) -> SpawnKind {
        self.kind
    }

    pub(crate) fn of(parent: AgentName, label: &str, kind: SpawnKind) -> (r: Self)
        ensures
            r.parent_agent() == parent,
            r.label_text() == label@,
            r.spawn_kind() == kind,
    {
        EphemeralHandle { parent, label: label.to_string(), kind }
    }

    /// The static agent that spawns the child.
    pub fn parent(&self) -> (r: AgentName)
        ensures
            r == self.parent_agent(),
    {
        self.parent
    }

    /// The child's wire-level label.
    pub fn label(&self) -> (r: &str)
        ensures
            r@ == self.label_text(),
    {
        self.label.as_str()
    }

    /// How the child is brought to life.
    pub fn kind(&self) -> (r: &SpawnKind)
        ensures
            *r == self.spawn_kind(),
    {
        &self.kind
    }
}

/// The subtree that tests end with a signal is the third root and its child, and no other agent
/// is disposable.
pub proof fn law_disposable_subtree(k: int)
    requires
        0 <= k < core_tree().len(),
    ensures
        core_tree()[k].isolation is DisposableSubtree <==> core_tree()[k].name is Dpg3
            || core_tree()[k].name is Dpg3Dpg,
{
    reveal(core_tree);
}

/// An agent is found by its name, and the first of that name is; an agent that no row names is not
/// found.
pub proof fn law_lookup_finds_first(tree: Seq<AgentSpec>, name: AgentName)
    ensures
        match lookup(tree, name) {
            Some(s) => exists|k: int|
                0 <= k < tree.len() && #[trigger] tree[k] == s && s.name == name && forall|j: int|
                    0 <= j < k ==> (#[trigger] tree[j]).name != name,
            None => forall|k: int| 0 <= k < tree.len() ==> (#[trigger] tree[k]).name != name,
        },
    decreases tree.len(),
{
    if tree.len() > 0 && tree[0].name != name {
        let rest = tree.skip(1);
        law_lookup_finds_first(rest, name);
        assert(forall|k: int| 0 <= k < rest.len() ==> rest[k] == tree[k + 1]);
        match lookup(rest, name) {
            Some(s) => {
                let k = choose|k: int|
                    0 <= k < rest.len() && #[trigger] rest[k] == s && s.name == name && forall|j: int|
                        0 <= j < k ==> (#[trigger] rest[j]).name != name;
                assert(tree[k + 1] == s);
                assert forall|j: int| 0 <= j < k + 1 implies (#[trigger] tree[j]).name != name by {
                    if j > 0 {
                        assert(rest[j - 1].name != name);
                    }
                }
            },
            None => {
                assert forall|k: int| 0 <= k < tree.len() implies (#[trigger] tree[k]).name != name by {
                    if k > 0 {
                        assert(rest[k - 1].name != name);
                    }
                }
            },
        }
    } else if tree.len() > 0 {
        assert(tree[0] == tree[0]);
    }
}

/// The labels of binaries in fork commands are all different.
pub proof fn law_fork_labels_differ(a: AgentBinary, b: AgentBinary)
    requires
        a.fork_label() == b.fork_label(),
    ensures
        a == b,
{
    reveal_strlit("self");
    reveal_strlit("nonpie");
    reveal_strlit("static-pie-glibc");
    reveal_strlit("static-pie-musl");
    reveal_strlit("non-pie-static-musl");
    assert("self"@.len() == 4 && "nonpie"@.len() == 6 && "static-pie-glibc"@.len() == 16
        && "static-pie-musl"@.len() == 15 && "non-pie-static-musl"@.len() == 19);
}

/// The agents of the VS Code shape hang below one another: each but the first has the one before
/// it as its parent.
pub proof fn law_vscode_line()
    ensures
        AgentName::VsCodeSshdPty.parent_of() is None,
        AgentName::VsCodeNode.parent_of() == Some(AgentName::VsCodeCli),
        AgentName::VsCodeCli.parent_of() == Some(AgentName::VsCodeLauncherBash),
        AgentName::VsCodeLauncherBash.parent_of() == Some(AgentName::VsCodePipedSh),
        AgentName::VsCodePipedSh.parent_of() == Some(AgentName::VsCodeLoginBash),
        AgentName::VsCodeLoginBash.parent_of() == Some(AgentName::VsCodeSshdPty),
        AgentName::Init.parent_of() is None,
{
}

/// Only the three roots of the core tree, the root of the VS Code shape and the coordinator have
/// no parent, and an agent stands one deeper than its parent.
pub proof fn law_roots(a: AgentName)
    ensures
        a.parent_of() is None <==> a is Init || a is Dpg1 || a is Dpg2 || a is Dpg3 || a
            is VsCodeSshdPty,
        a.parent_of() matches Some(p) ==> a.depth() == p.depth() + 1,
        a.parent_of() is None ==> a.depth() == 0,
{
}

} // verus!
