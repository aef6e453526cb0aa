//! What a test asks of an agent: the arguments that go with a handler's name.

use vstd::prelude::*;
use crate::clone3::DropbearSessionStage;
use crate::registry::BinaryType;
use crate::text::texts;

verus! {

/// Where the harness's programs are: the running one, the non-PIE one, and one for each
/// binary type in the canonical order.
#[derive(Clone, Debug)]
pub struct Paths {
    pub own: String,
    pub nonpie: String,
    pub targets: Vec<String>,
}

/// Where the programs are, in contracts.
pub struct PathsView {
    pub own: Seq<char>,
    pub nonpie: Seq<char>,
    pub targets: Seq<Seq<char>>,
}

impl View for Paths {
    type V = PathsView;

    open spec fn view(&self) -> PathsView {
        PathsView { own: self.own@, nonpie: self.nonpie@, targets: texts(self.targets@) }
    }
}

/// The position of a binary type in the canonical order.
pub open spec fn binary_index(bt: BinaryType) -> int {
    match bt {
        BinaryType::PieGlibc => 0,
        BinaryType::NonPieGlibc => 1,
        BinaryType::StaticPieGlibc => 2,
        BinaryType::StaticPieMusl => 3,
        BinaryType::NonPieStaticMusl => 4,
    }
}

impl PathsView {
    /// There is a program for each binary type.
    pub open spec fn wf(self) -> bool {
        self.targets.len() == 5
    }

    /// The program of a binary type.
    pub open spec fn target(self, bt: BinaryType) -> Seq<char> {
        self.targets[binary_index(bt)]
    }
}

impl Paths {
    /// The program of a binary type.
    pub fn target(&self, bt: BinaryType) -> (r: &str)
        requires
            self@.wf(),
        ensures
            r@ == self@.target(bt),
    {
        let k: usize = match bt {
            BinaryType::PieGlibc => 0,
            BinaryType::NonPieGlibc => 1,
            BinaryType::StaticPieGlibc => 2,
            BinaryType::StaticPieMusl => 3,
            BinaryType::NonPieStaticMusl => 4,
        };
        self.targets[k].as_str()
    }
}

/// The arguments of a handler.
#[derive(Clone, Debug)]
#[allow(inconsistent_fields)]
pub enum Ask {
    /// None.
    Nothing,
    /// A command line for bash, under a limit in milliseconds.
    Bash { cmd: String, timeout_ms: Option<u64> },
    /// A command line for bash, under a limit in seconds.
    Shell { cmd: String, timeout_secs: Option<u64> },
    /// A program and its arguments, under a limit in seconds.
    Program { argv: Vec<String>, timeout_secs: Option<u64> },
    /// A program to run after something that puts the fork off.
    Delayed { cmd: String, args: Vec<String> },
    /// A program that inherits a resource.
    Child { child_target: String },
    /// A number of programs one after another.
    Stress { count: u64, mode: &'static str, use_tokio: bool },
    /// A program for a new process.
    Target { exec_target: String },
    /// A stage of a session's set-up.
    Session { stage: DropbearSessionStage },
    /// The address of a peer.
    Peer { peer_addr: String },
    /// A program that waits, and the address of a peer.
    PidfdExit { target: String, peer_addr: String },
    /// A port, and how it is watched.
    Socket { port: u16, variant: &'static str },
    /// A limit for a poll.
    Poll { timeout_ms: u32 },
    /// The agent that a value is for.
    Reader { reader_name: &'static str },
    /// A program that reads a value from an inherited counter.
    Inherit { child_binary: String, sentinel: u64 },
    /// A program that waits for a value from an inherited counter.
    InheritPoll { child_binary: String, sentinel: u64, timeout_ms: i32 },
    /// A program that watches an inherited counter become empty.
    InheritDrain { child_binary: String, timeout_ms: i32 },
    /// A port, a file, and what is written to it.
    File { port: u16, path: &'static str, data: &'static str },
    /// A port, a file, what is written to it first, and what must be read from it; nothing
    /// for anything at all.
    ListenRead {
        port: u16,
        path: &'static str,
        prewrite: Option<&'static str>,
        expected: Option<&'static str>,
    },
    /// A port.
    Port { port: u16 },
    /// A port, how much to send to it, and a file to read meanwhile.
    Send { port: u16, size: u32, path: String },
    /// A port, and how many rounds to go over it.
    Cycles { port: u16, count: u32 },
    /// A file to write before serving.
    Serve { path: String, data: String },
    /// A file to delete.
    Delete { path: String },
    /// How many children to fork.
    Openers { n: u32 },
    /// What a parent has open, and the program that it starts.
    Parent { fd_class: &'static str, child_cmd: String, child_args: Vec<String> },
}

/// The arguments of a handler, in contracts.
#[allow(inconsistent_fields)]
pub enum AskView {
    Nothing,
    Bash { cmd: Seq<char>, timeout_ms: Option<u64> },
    Shell { cmd: Seq<char>, timeout_secs: Option<u64> },
    Program { argv: Seq<Seq<char>>, timeout_secs: Option<u64> },
    Delayed { cmd: Seq<char>, args: Seq<Seq<char>> },
    Child { child_target: Seq<char> },
    Stress { count: u64, mode: &'static str, use_tokio: bool },
    Target { exec_target: Seq<char> },
    Session { stage: DropbearSessionStage },
    Peer { peer_addr: Seq<char> },
    PidfdExit { target: Seq<char>, peer_addr: Seq<char> },
    Socket { port: u16, variant: Seq<char> },
    Poll { timeout_ms: u32 },
    Reader { reader_name: Seq<char> },
    Inherit { child_binary: Seq<char>, sentinel: u64 },
    InheritPoll { child_binary: Seq<char>, sentinel: u64, timeout_ms: i32 },
    InheritDrain { child_binary: Seq<char>, timeout_ms: i32 },
    File { port: u16, path: &'static str, data: &'static str },
    ListenRead {
        port: u16,
        path: &'static str,
        prewrite: Option<&'static str>,
        expected: Option<&'static str>,
    },
    Port { port: u16 },
    Send { port: u16, size: u32, path: Seq<char> },
    Cycles { port: u16, count: u32 },
    Serve { path: Seq<char>, data: Seq<char> },
    Delete { path: Seq<char> },
    Openers { n: u32 },
    Parent { fd_class: Seq<char>, child_cmd: Seq<char>, child_args: Seq<Seq<char>> },
}

impl View for Ask {
    type V = AskView;

    open spec fn view(&self) -> AskView {
        match *self {
            Ask::Nothing => AskView::Nothing,
            Ask::Bash { cmd, timeout_ms } => AskView::Bash { cmd: cmd@, timeout_ms },
            Ask::Shell { cmd, timeout_secs } => AskView::Shell { cmd: cmd@, timeout_secs },
            Ask::Program { argv, timeout_secs } => AskView::Program {
                argv: texts(argv@),
                timeout_secs,
            },
            Ask::Delayed { cmd, args } => AskView::Delayed { cmd: cmd@, args: texts(args@) },
            Ask::Child { child_target } => AskView::Child { child_target: child_target@ },
            Ask::Stress { count, mode, use_tokio } => AskView::Stress { count, mode, use_tokio },
            Ask::Target { exec_target } => AskView::Target { exec_target: exec_target@ },
            Ask::Session { stage } => AskView::Session { stage },
            Ask::Peer { peer_addr } => AskView::Peer { peer_addr: peer_addr@ },
            Ask::PidfdExit { target, peer_addr } => AskView::PidfdExit {
                target: target@,
                peer_addr: peer_addr@,
            },
            Ask::Socket { port, variant } => AskView::Socket { port, variant: variant@ },
            Ask::Poll { timeout_ms } => AskView::Poll { timeout_ms },
            Ask::Reader { reader_name } => AskView::Reader { reader_name: reader_name@ },
            Ask::Inherit { child_binary, sentinel } => AskView::Inherit {
                child_binary: child_binary@,
                sentinel,
            },
            Ask::InheritPoll { child_binary, sentinel, timeout_ms } => AskView::InheritPoll {
                child_binary: child_binary@,
                sentinel,
                timeout_ms,
            },
            Ask::InheritDrain { child_binary, timeout_ms } => AskView::InheritDrain {
                child_binary: child_binary@,
                timeout_ms,
            },
            Ask::File { port, path, data } => AskView::File { port, path, data },
            Ask::ListenRead { port, path, prewrite, expected } => AskView::ListenRead {
                port,
                path,
                prewrite,
                expected,
            },
            Ask::Port { port } => AskView::Port { port },
            Ask::Send { port, size, path } => AskView::Send { port, size, path: path@ },
            Ask::Cycles { port, count } => AskView::Cycles { port, count },
            Ask::Serve { path, data } => AskView::Serve { path: path@, data: data@ },
            Ask::Delete { path } => AskView::Delete { path: path@ },
            Ask::Openers { n } => AskView::Openers { n },
            Ask::Parent { fd_class, child_cmd, child_args } => AskView::Parent {
                fd_class: fd_class@,
                child_cmd: child_cmd@,
                child_args: texts(child_args@),
            },
        }
    }
}

/// The arguments that name a program and its one argument.
pub fn two_words(program: &str, arg: &str) -> (r: Vec<String>)
    ensures
        texts(r@) == seq![program@, arg@],
{
    let r = vec![program.to_string(), arg.to_string()];
    assert(texts(r@) =~= seq![program@, arg@]);
    r
}

/// The program of the binary type at a position is the one at that position.
pub proof fn law_targets_in_order(p: PathsView, k: int)
    requires
        p.wf(),
        0 <= k < 5,
    ensures
        p.target(crate::registry::binary_at(k)) == p.targets[k],
        binary_index(crate::registry::binary_at(k)) == k,
{
}

} // verus!
