//! The decisions of an agent: what a command asks for, and what is answered once
//! the outside work is done.
//!
//! An agent reads commands line by line. Each command becomes one action; the
//! caller performs it and hands the outcome back. The book keeps which children,
//! background processes and listeners the agent has.

use vstd::prelude::*;
use crate::number::{dec, dec_text};
use crate::protocol::{
    error_response, exec_result, exec_result_view, exec_timed_out, timed_out_text, Command, Response,
    ResponseView,
};
use crate::registry::BinaryType;
use crate::text::{
    cat, cat3, contains, contains_text, lossy, lossy_text, quote, quoted, same, texts, trim,
    trim_text,
};

verus! {

/// Seconds a program may run where the command sets no time.
pub const EXEC_DEFAULT_SECS: u64 = 10;

/// Seconds to wait for a ready marker where the command sets no time.
pub const READY_DEFAULT_SECS: u64 = 30;

/// Whether output of stream `actual` is searched when `configured` is asked for.
pub open spec fn stream_matches(configured: Seq<char>, actual: Seq<char>) -> bool {
    configured == "either"@ || configured == actual
}

/// Whether output of stream `actual` is searched when `configured` is asked for.
pub fn marker_stream_matches(configured: &str, actual: &str) -> (r: bool)
    ensures
        r == stream_matches(configured@, actual@),
{
    same(configured, "either") || same(configured, actual)
}

/// Whether a line of output of stream `actual` shows the ready marker.
pub fn marker_in_line(configured: &str, actual: &str, line: &[u8], marker: &str) -> (r: bool)
    ensures
        r == (stream_matches(configured@, actual@) && contains_text(lossy_text(line@), marker@)),
{
    if marker_stream_matches(configured, actual) {
        let text = lossy(line);
        contains(text.as_str(), marker)
    } else {
        false
    }
}

/// What to do with a line read from standard input.
pub enum LineStep {
    /// Nothing stands on it.
    Blank,
    /// The text to read as a command.
    Parse { text: String },
}

/// White space around a line does not count, and a line of nothing else is skipped.
pub fn line_step(line: &str) -> (r: LineStep)
    ensures
        match r {
            LineStep::Blank => trim_text(line@).len() == 0,
            LineStep::Parse { text } => trim_text(line@).len() > 0 && text@ == trim_text(line@),
        },
{
    let t = trim(line);
    if t.is_empty() {
        LineStep::Blank
    } else {
        LineStep::Parse { text: t.to_string() }
    }
}

/// The answer to a line that is no command.
pub fn bad_command(error: &str) -> (r: Response)
    ensures
        r@ == (ResponseView::Error { error: "parse error: "@ + error@ }),
{
    Response::Error { error: cat("parse error: ", error) }
}

/// The binary a fork command starts.
#[derive(Clone, Copy, Debug, PartialEq, Eq, Structural)]
pub enum ForkExe {
    /// The agent's own binary.
    Own,
    NonPie,
    StaticPieGlibc,
    StaticPieMusl,
    NonPieStaticMusl,
}

/// The binary for a label; any label that names no other binary means the own one.
pub open spec fn exe_for(label: Seq<char>) -> ForkExe {
    if label == "nonpie"@ {
        ForkExe::NonPie
    } else if label == "static-pie-glibc"@ {
        ForkExe::StaticPieGlibc
    } else if label == "static-pie-musl"@ {
        ForkExe::StaticPieMusl
    } else if label == "non-pie-static-musl"@ {
        ForkExe::NonPieStaticMusl
    } else {
        ForkExe::Own
    }
}

/// The binary for a label.
pub fn fork_exe(label: &str) -> (r: ForkExe)
    ensures
        r == exe_for(label@),
{
    if same(label, "nonpie") {
        ForkExe::NonPie
    } else if same(label, "static-pie-glibc") {
        ForkExe::StaticPieGlibc
    } else if same(label, "static-pie-musl") {
        ForkExe::StaticPieMusl
    } else if same(label, "non-pie-static-musl") {
        ForkExe::NonPieStaticMusl
    } else {
        ForkExe::Own
    }
}

/// The children, background processes and listeners of an agent.
pub struct AgentBook {
    children: Vec<String>,
    background: Vec<u32>,
    listeners: Vec<u16>,
}

/// The children, background processes and listeners of an agent: names, process numbers,
/// and the port of each listener, in the order in which they were noted. A port may have
/// several listeners.
#[verifier::ext_equal]
pub struct BookView {
    pub children: Set<Seq<char>>,
    pub background: Set<u32>,
    pub listeners: Seq<u16>,
}

impl BookView {
    /// No children, no background processes and no listeners.
    pub open spec fn empty() -> BookView {
        BookView { children: Set::empty(), background: Set::empty(), listeners: Seq::empty() }
    }
}

/// The listeners that are left once those on the port are gone.
pub open spec fn without_port(listeners: Seq<u16>, port: u16) -> Seq<u16>
    decreases listeners.len(),
{
    if listeners.len() == 0 {
        Seq::empty()
    } else if listeners.last() == port {
        without_port(listeners.drop_last(), port)
    } else {
        without_port(listeners.drop_last(), port).push(listeners.last())
    }
}

/// No listener on the port is left, and each of the others is.
pub proof fn law_without_port(listeners: Seq<u16>, port: u16, other: u16)
    ensures
        without_port(listeners, port).contains(other) <==> other != port && listeners.contains(other),
    decreases listeners.len(),
{
    if listeners.len() > 0 {
        let before = listeners.drop_last();
        let rest = without_port(before, port);
        law_without_port(before, port, other);
        assert(listeners =~= before.push(listeners.last()));
        assert(listeners.contains(other) <==> before.contains(other) || other == listeners.last()) by {
            if before.contains(other) {
                let k = choose|k: int| 0 <= k < before.len() && before[k] == other;
                assert(listeners[k] == other);
            }
            if other == listeners.last() {
                assert(listeners[listeners.len() - 1] == other);
            }
        }
        if listeners.last() != port {
            let all = rest.push(listeners.last());
            assert(all.contains(other) <==> rest.contains(other) || other == listeners.last()) by {
                if rest.contains(other) {
                    let k = choose|k: int| 0 <= k < rest.len() && rest[k] == other;
                    assert(all[k] == other);
                }
                if other == listeners.last() {
                    assert(all[rest.len() as int] == other);
                }
            }
        }
    }
}

impl View for AgentBook {
    type V = BookView;

    closed spec fn view(&self) -> BookView {
        BookView {
            children: texts(self.children@).to_set(),
            background: self.background@.to_set(),
            listeners: self.listeners@,
        }
    }
}

/// The lists hand out each entry of the book once, and nothing else.
pub open spec fn handed_out(
    book: BookView,
    pids: Seq<u32>,
    names: Seq<Seq<char>>,
    ports: Seq<u16>,
) -> bool {
    &&& pids.no_duplicates()
    &&& pids.to_set() == book.background
    &&& names.no_duplicates()
    &&& names.to_set() == book.children
    &&& ports == book.listeners
}

impl AgentBook {

    /// No child and no background process is listed twice.
    pub closed spec fn wf(self) -> bool {
        texts(self.children@).no_duplicates() && self.background@.no_duplicates()
    }

    /// A book without entries.
    pub fn new() -> (r: Self)
        ensures
            r.wf(),
            r@ == BookView::empty(),
    {
        let r = AgentBook {
            children: Vec::new(),
            background: Vec::new(),
            listeners: Vec::new(),
        };
        assert(r@ =~= BookView::empty());
        r
    }

    /// Whether the agent has a child of that name.
    pub fn has_child(&self, name: &str) -> (r: bool)
        ensures
            r == self@.children.contains(name@),
    {
        let mut i: usize = 0;
        while i < self.children.len()
            invariant
                i <= self.children.len(),
                forall|k: int| 0 <= k < i ==> (#[trigger] self.children@[k])@ != name@,
            decreases self.children.len() - i,
        {
            if same(self.children[i].as_str(), name) {
                assert(texts(self.children@)[i as int] == name@);
                return true;
            }
            i = i + 1;
        }
        false
    }

    /// Note a child. A child of the same name is replaced.
    pub fn add_child(&mut self, name: &str)
        requires
            old(self).wf(),
        ensures
            final(self).wf(),
            final(self)@ == (BookView {
                children: old(self)@.children.insert(name@),
                ..old(self)@
            }),
    {
        if self.has_child(name) {
            assert(self@ =~= (BookView { children: self@.children.insert(name@), ..self@ }));
        } else {
            let ghost before = texts(self.children@);
            self.children.push(name.to_string());
            let ghost after = texts(self.children@);
            proof {
                assert(after =~= before.push(name@));
                assert forall|n: Seq<char>| after.contains(n) <==> before.contains(n) || n == name@ by {
                    if before.contains(n) {
                        let k = choose|k: int| 0 <= k < before.len() && before[k] == n;
                        assert(after[k] == n);
                    }
                    if n == name@ {
                        assert(after[before.len() as int] == n);
                    }
                    if after.contains(n) {
                        let k = choose|k: int| 0 <= k < after.len() && after[k] == n;
                        if k < before.len() {
                            assert(before[k] == n);
                        }
                    }
                }
                assert forall|i: int, j: int|
                    0 <= i < after.len() && 0 <= j < after.len() && i != j implies after[i]
                    != after[j] by {
                    if i == before.len() {
                        assert(before[j] == after[j]);
                    } else if j == before.len() {
                        assert(before[i] == after[i]);
                    }
                }
                assert(after.to_set() =~= before.to_set().insert(name@));
            }
        }
    }

    /// Note a background process. One of the same number is replaced.
    pub fn add_background(&mut self, pid: u32)
        requires
            old(self).wf(),
        ensures
            final(self).wf(),
            final(self)@ == (BookView {
                background: old(self)@.background.insert(pid),
                ..old(self)@
            }),
    {
        let ghost before = self.background@;
        let mut i: usize = 0;
        while i < self.background.len()
            invariant
                *self == *old(self),
                self.wf(),
                self.background@ == before,
                i <= before.len(),
                forall|k: int| 0 <= k < i ==> before[k] != pid,
            decreases before.len() - i,
        {
            if self.background[i] == pid {
                assert(before.to_set().contains(before[i as int]));
                assert(before.to_set() =~= before.to_set().insert(pid));
                return;
            }
            i = i + 1;
        }
        self.background.push(pid);
        assert(self.background@.to_set() =~= before.to_set().insert(pid)) by {
            let after = self.background@;
            assert forall|p: u32| after.to_set().contains(p) <==> before.to_set().insert(pid).contains(
                p,
            ) by {
                if before.contains(p) {
                    let k = choose|k: int| 0 <= k < before.len() && before[k] == p;
                    assert(after[k] == p);
                }
                assert(after[before.len() as int] == pid);
                if after.contains(p) && p != pid {
                    let k = choose|k: int| 0 <= k < after.len() && after[k] == p;
                    assert(before[k] == p);
                }
            }
        }
    }

    /// Note a listener.
    pub fn add_listener(&mut self, port: u16)
        requires
            old(self).wf(),
        ensures
            final(self).wf(),
            final(self)@ == (BookView {
                listeners: old(self)@.listeners.push(port),
                ..old(self)@
            }),
    {
        self.listeners.push(port);
    }

    /// Strike out the listeners on a port.
    pub fn drop_listeners(&mut self, port: u16)
        requires
            old(self).wf(),
        ensures
            final(self).wf(),
            final(self)@ == (BookView {
                listeners: without_port(old(self)@.listeners, port),
                ..old(self)@
            }),
    {
        let ghost all = self.listeners@;
        let mut left: Vec<u16> = Vec::new();
        let mut i: usize = 0;
        while i < self.listeners.len()
            invariant
                *self == *old(self),
                self.listeners@ == all,
                i <= all.len(),
                left@ == without_port(all.take(i as int), port),
            decreases all.len() - i,
        {
            assert(all.take(i + 1).drop_last() =~= all.take(i as int));
            if self.listeners[i] != port {
                left.push(self.listeners[i]);
            }
            i = i + 1;
        }
        assert(all.take(all.len() as int) =~= all);
        self.listeners = left;
    }

    /// Empty the book and hand out what has to be ended: the background processes, the
    /// children, and the listeners by their ports.
    pub fn shutdown(&mut self) -> (r: (Vec<u32>, Vec<String>, Vec<u16>))
        requires
            old(self).wf(),
        ensures
            final(self).wf(),
            final(self)@ == BookView::empty(),
            handed_out(old(self)@, r.0@, texts(r.1@), r.2@),
    {
        let mut pids: Vec<u32> = Vec::new();
        let mut names: Vec<String> = Vec::new();
        pids.append(&mut self.background);
        names.append(&mut self.children);
        let mut ports: Vec<u16> = Vec::new();
        ports.append(&mut self.listeners);
        assert(ports@ =~= old(self).listeners@);
        assert(pids@ =~= old(self).background@);
        assert(names@ =~= old(self).children@);
        assert(self@ =~= BookView::empty());
        (pids, names, ports)
    }
}

/// What the agent does for a command.
#[allow(inconsistent_fields)]
pub enum Action {
    /// Answer at once.
    Reply { response: Response },
    /// Start child agents: of the non-PIE binary where `remote`, else of the own one.
    SpawnAll { names: Vec<String>, remote: bool },
    /// Start one child agent with inherited listeners.
    Fork { name: String, binary: String, exe: ForkExe, ports: Vec<u16> },
    /// Send the inner command to a child and answer what it answers.
    Forward { target: String, inner: Box<Command> },
    /// Run a handler and answer what it gives.
    RunHandler { handler: String, args: String },
    /// Run a program to its end.
    Exec { args: Vec<String>, stdin: Option<String>, env: Vec<(String, String)>, secs: u64 },
    /// Start a program and leave it running.
    ExecBackground { args: Vec<String>, stdin: Option<String>, env: Vec<(String, String)> },
    /// Start a program and wait for its marker.
    ExecReady {
        args: Vec<String>,
        ready_marker: String,
        stdin: Option<String>,
        stream: String,
        secs: u64,
    },
    /// Listen on a port and echo what comes.
    Listen { port: u16 },
    /// End the listeners on a port.
    Unlisten { port: u16 },
    /// A primitive on files, sockets or the environment.
    Primitive { command: Command },
    /// End everything and stop.
    Shutdown,
}

/// The complaint about a marker stream.
pub open spec fn bad_stream_text(stream: Seq<char>) -> Seq<char> {
    "invalid marker stream "@ + quoted(stream) + "; expected stdout, stderr, or either"@
}

/// Whether `action` is what the agent does for `cmd`, with the children in `book`.
pub open spec fn decided(book: BookView, cmd: Command, action: Action) -> bool {
    match cmd {
        Command::Spawn { children } => action == (Action::SpawnAll { names: children, remote: false }),
        Command::SpawnRemote { children } => action == (Action::SpawnAll {
            names: children,
            remote: true,
        }),
        Command::Fork { name, binary, inherit_listen_ports } => action == (Action::Fork {
            name,
            binary,
            exe: exe_for(binary@),
            ports: inherit_listen_ports,
        }),
        Command::Forward { target, inner } => if book.children.contains(target@) {
            action == (Action::Forward { target, inner })
        } else {
            replies(action, "unknown child: "@ + target@)
        },
        Command::Run { handler, args, .. } => action == (Action::RunHandler { handler, args }),
        Command::Resume { tag } => replies(
            action,
            "Resume { tag: "@ + tag@ + " } received outside handler context"@,
        ),
        Command::Exec { args, timeout_secs, stdin, background, env } => if args@.len() == 0 {
            replies(action, "exec requires args"@)
        } else if background {
            action == (Action::ExecBackground { args, stdin, env })
        } else {
            action == (Action::Exec {
                args,
                stdin,
                env,
                secs: match timeout_secs {
                    Some(t) => t,
                    None => EXEC_DEFAULT_SECS,
                },
            })
        },
        Command::ExecReady { args, ready_marker, timeout_secs, stdin, stream } => if args@.len()
            == 0 {
            replies(action, "exec_ready requires args"@)
        } else if stream@ != "stdout"@ && stream@ != "stderr"@ && stream@ != "either"@ {
            replies(action, bad_stream_text(stream@))
        } else {
            action == (Action::ExecReady {
                args,
                ready_marker,
                stdin,
                stream,
                secs: match timeout_secs {
                    Some(t) => t,
                    None => READY_DEFAULT_SECS,
                },
            })
        },
        Command::NetListen { port } => action == (Action::Listen { port }),
        Command::NetUnlisten { port } => action == (Action::Unlisten { port }),
        Command::Exit => action == Action::Shutdown,
        _ => action == (Action::Primitive { command: cmd }),
    }
}

/// The action is to answer with the error.
pub open spec fn replies(action: Action, error: Seq<char>) -> bool {
    match action {
        Action::Reply { response } => response@ == (ResponseView::Error { error }),
        _ => false,
    }
}

/// What the agent does for a command.
pub fn decide(book: &AgentBook, cmd: Command) -> (r: Action)
    ensures
        decided(book@, cmd, r),
{
    match cmd {
        Command::Spawn { children } => Action::SpawnAll { names: children, remote: false },
        Command::SpawnRemote { children } => Action::SpawnAll { names: children, remote: true },
        Command::Fork { name, binary, inherit_listen_ports } => {
            let exe = fork_exe(binary.as_str());
            Action::Fork { name, binary, exe, ports: inherit_listen_ports }
        },
        Command::Forward { target, inner } => if book.has_child(target.as_str()) {
            Action::Forward { target, inner }
        } else {
            Action::Reply {
                response: Response::Error { error: cat("unknown child: ", target.as_str()) },
            }
        },
        Command::Run { handler, args, timeout_secs: _ } => Action::RunHandler { handler, args },
        Command::Resume { tag } => Action::Reply {
            response: Response::Error {
                error: cat3("Resume { tag: ", tag.as_str(), " } received outside handler context"),
            },
        },
        Command::Exec { args, timeout_secs, stdin, background, env } => if args.len() == 0 {
            Action::Reply { response: error_response("exec requires args") }
        } else if background {
            Action::ExecBackground { args, stdin, env }
        } else {
            let secs: u64 = match timeout_secs {
                Some(t) => t,
                None => EXEC_DEFAULT_SECS,
            };
            Action::Exec { args, stdin, env, secs }
        },
        Command::ExecReady { args, ready_marker, timeout_secs, stdin, stream } => if args.len()
            == 0 {
            Action::Reply { response: error_response("exec_ready requires args") }
        } else if !same(stream.as_str(), "stdout") && !same(stream.as_str(), "stderr") && !same(
            stream.as_str(),
            "either",
        ) {
            let q = quote(stream.as_str());
            Action::Reply {
                response: Response::Error {
                    error: cat3(
                        "invalid marker stream ",
                        q.as_str(),
                        "; expected stdout, stderr, or either",
                    ),
                },
            }
        } else {
            let secs: u64 = match timeout_secs {
                Some(t) => t,
                None => READY_DEFAULT_SECS,
            };
            Action::ExecReady { args, ready_marker, stdin, stream, secs }
        },
        Command::NetListen { port } => Action::Listen { port },
        Command::NetUnlisten { port } => Action::Unlisten { port },
        Command::Exit => Action::Shutdown,
        other => Action::Primitive { command: other },
    }
}

/// The complaints about children that did not start, in order.
pub open spec fn spawn_complaints(
    names: Seq<Seq<char>>,
    errors: Seq<Option<String>>,
    remote: bool,
) -> Seq<ResponseView>
    decreases names.len(),
{
    if names.len() == 0 || errors.len() != names.len() {
        Seq::empty()
    } else {
        let before = spawn_complaints(names.drop_last(), errors.drop_last(), remote);
        match errors.last() {
            None => before,
            Some(e) => before.push(
                ResponseView::Error {
                    error: (if remote {
                        "spawn_remote "@
                    } else {
                        "spawn "@
                    }) + names.last() + ": "@ + e@,
                },
            ),
        }
    }
}

/// The answer that closes a spawn command.
pub open spec fn spawn_done_text(count: nat, remote: bool) -> Seq<char> {
    dec_text(count) + if remote {
        " remote children spawned"@
    } else {
        " children spawned"@
    }
}

/// The responses, as views.
pub open spec fn views(list: Seq<Response>) -> Seq<ResponseView> {
    list.map_values(|r: Response| r@)
}

/// The children known when those of `names` that started have been noted.
pub open spec fn with_started(
    known: Set<Seq<char>>,
    names: Seq<Seq<char>>,
    errors: Seq<Option<String>>,
) -> Set<Seq<char>>
    decreases names.len(),
{
    if names.len() == 0 || errors.len() != names.len() {
        known
    } else {
        let before = with_started(known, names.drop_last(), errors.drop_last());
        match errors.last() {
            None => before.insert(names.last()),
            Some(_) => before,
        }
    }
}

/// A child is known afterwards exactly if it was known before or is among the names that
/// started.
pub proof fn law_started_are_known(
    known: Set<Seq<char>>,
    names: Seq<Seq<char>>,
    errors: Seq<Option<String>>,
    n: Seq<char>,
)
    requires
        names.len() == errors.len(),
    ensures
        with_started(known, names, errors).contains(n) <==> known.contains(n) || exists|k: int|
            0 <= k < names.len() && names[k] == n && (#[trigger] errors[k]) is None,
    decreases names.len(),
{
    if names.len() > 0 {
        let (na, ea) = (names.drop_last(), errors.drop_last());
        law_started_are_known(known, na, ea, n);
        if exists|k: int| 0 <= k < na.len() && na[k] == n && (#[trigger] ea[k]) is None {
            let k = choose|k: int| 0 <= k < na.len() && na[k] == n && (#[trigger] ea[k]) is None;
            assert(names[k] == n && errors[k] is None);
        }
        if exists|k: int| 0 <= k < names.len() && names[k] == n && (#[trigger] errors[k]) is None {
            let k = choose|k: int|
                0 <= k < names.len() && names[k] == n && (#[trigger] errors[k]) is None;
            if k < na.len() {
                assert(na[k] == n && ea[k] is None);
            }
        }
    }
}

/// Note the children that started, and give the answers: a complaint for each
/// that did not, then how many names the command had.
pub fn spawned(
    book: &mut AgentBook,
    names: &Vec<String>,
    errors: &Vec<Option<String>>,
    remote: bool,
) -> (r: Vec<Response>)
    requires
        old(book).wf(),
        names.len() == errors.len(),
    ensures
        final(book).wf(),
        final(book)@ == (BookView {
            children: with_started(old(book)@.children, texts(names@), errors@),
            ..old(book)@
        }),
        views(r@) == spawn_complaints(texts(names@), errors@, remote).push(
            ResponseView::Done { data: Some(spawn_done_text(names@.len(), remote)) },
        ),
{
    let ghost all = texts(names@);
    let mut out: Vec<Response> = Vec::new();
    let mut i: usize = 0;
    assert(views(out@) =~= Seq::empty());
    while i < names.len()
        invariant
            names.len() == errors.len(),
            all == texts(names@),
            i <= names.len(),
            book.wf(),
            book@ == (BookView {
                children: with_started(
                    old(book)@.children,
                    all.take(i as int),
                    errors@.take(i as int),
                ),
                ..old(book)@
            }),
            views(out@) == spawn_complaints(all.take(i as int), errors@.take(i as int), remote),
        decreases names.len() - i,
    {
        let ghost (na, ea) = (all.take(i as int), errors@.take(i as int));
        let ghost (nb, eb) = (all.take(i + 1), errors@.take(i + 1));
        assert(nb.drop_last() =~= na);
        assert(eb.drop_last() =~= ea);
        match &errors[i] {
            None => {
                book.add_child(names[i].as_str());
            },
            Some(e) => {
                let head = if remote {
                    "spawn_remote "
                } else {
                    "spawn "
                };
                let mut text = cat3(head, names[i].as_str(), ": ");
                text.append(e.as_str());
                let ghost before = out@;
                out.push(Response::Error { error: text });
                assert(views(out@) =~= views(before).push(out@.last()@));
            },
        }
        i = i + 1;
    }
    assert(all.take(names@.len() as int) =~= all);
    assert(errors@.take(names@.len() as int) =~= errors@);
    let n = dec(names.len() as u64);
    let tail = if remote {
        " remote children spawned"
    } else {
        " children spawned"
    };
    let ghost before = out@;
    out.push(Response::Done { data: Some(cat(n.as_str(), tail)) });
    assert(views(out@) =~= views(before).push(out@.last()@));
    out
}

/// Note a forked child if it started, and give the answer.
pub fn forked(book: &mut AgentBook, name: &str, binary: &str, error: Option<&str>) -> (r: Response)
    requires
        old(book).wf(),
    ensures
        final(book).wf(),
        final(book)@ == match error {
            None => BookView { children: old(book)@.children.insert(name@), ..old(book)@ },
            Some(_) => old(book)@,
        },
        r@ == match error {
            None => ResponseView::Done {
                data: Some("forked "@ + name@ + " (binary="@ + binary@ + ")"@),
            },
            Some(e) => ResponseView::Error { error: "fork "@ + name@ + ": "@ + e@ },
        },
{
    match error {
        None => {
            book.add_child(name);
            let mut text = cat3("forked ", name, " (binary=");
            text.append(binary);
            text.append(")");
            Response::Done { data: Some(text) }
        },
        Some(e) => {
            let mut text = cat3("fork ", name, ": ");
            text.append(e);
            Response::Error { error: text }
        },
    }
}

/// What came of running a program.
#[allow(inconsistent_fields)]
pub enum ExecEvent {
    /// It did not start.
    SpawnFailed { error: String },
    /// It ended; the code is missing where a signal ended it.
    Ended { code: Option<i32>, out: Vec<u8>, err: Vec<u8> },
    /// Waiting for it failed.
    WaitFailed { error: String },
    /// It outlived its time.
    TimedOut { secs: u64 },
}

pub open spec fn exec_reply_view(ev: ExecEvent) -> ResponseView {
    match ev {
        ExecEvent::SpawnFailed { error } => ResponseView::Error { error: "exec spawn: "@ + error@ },
        ExecEvent::Ended { code, out, err } => exec_result_view(code, out@, err@),
        ExecEvent::WaitFailed { error } => ResponseView::Error { error: "exec wait: "@ + error@ },
        ExecEvent::TimedOut { secs } => ResponseView::ExecTimeout { stderr: timed_out_text(secs) },
    }
}

/// The answer to an exec command.
pub fn exec_reply(ev: ExecEvent) -> (r: Response)
    ensures
        r@ == exec_reply_view(ev),
{
    match ev {
        ExecEvent::SpawnFailed { error } => Response::Error {
            error: cat("exec spawn: ", error.as_str()),
        },
        ExecEvent::Ended { code, out, err } => exec_result(code, out.as_slice(), err.as_slice()),
        ExecEvent::WaitFailed { error } => Response::Error {
            error: cat("exec wait: ", error.as_str()),
        },
        ExecEvent::TimedOut { secs } => exec_timed_out(secs),
    }
}

/// The book with the process noted, where there is one.
pub open spec fn with_process(book: BookView, pid: Option<u32>) -> BookView {
    match pid {
        Some(p) => BookView { background: book.background.insert(p), ..book },
        None => book,
    }
}

/// The answer to a command that starts a program and leaves it running.
pub open spec fn background_reply_view(started: Result<u32, String>) -> ResponseView {
    match started {
        Ok(pid) => ResponseView::Background { pid },
        Err(e) => ResponseView::Error { error: "exec spawn: "@ + e@ },
    }
}

/// Note a background process if it started, and give the answer.
pub fn background_reply(book: &mut AgentBook, started: Result<u32, String>) -> (r: Response)
    requires
        old(book).wf(),
    ensures
        final(book).wf(),
        final(book)@ == with_process(
            old(book)@,
            match started {
                Ok(pid) => Some(pid),
                Err(_) => None,
            },
        ),
        r@ == background_reply_view(started),
{
    match started {
        Ok(pid) => {
            book.add_background(pid);
            Response::Background { pid }
        },
        Err(e) => Response::Error { error: cat("exec spawn: ", e.as_str()) },
    }
}

/// The answer to a command to listen.
pub open spec fn listen_reply_view(port: u16, error: Option<String>) -> ResponseView {
    match error {
        None => ResponseView::Listening { port },
        Some(e) => ResponseView::Error { error: e@ },
    }
}

/// Note a listener if it was opened, and give the answer.
pub fn listen_reply(book: &mut AgentBook, port: u16, error: Option<String>) -> (r: Response)
    requires
        old(book).wf(),
    ensures
        final(book).wf(),
        final(book)@ == match error {
            None => BookView { listeners: old(book)@.listeners.push(port), ..old(book)@ },
            Some(_) => old(book)@,
        },
        r@ == listen_reply_view(port, error),
{
    match error {
        None => {
            book.add_listener(port);
            Response::Listening { port }
        },
        Some(error) => Response::Error { error },
    }
}

/// Strike out the listeners on a port, and give the answer.
pub fn unlisten_reply(book: &mut AgentBook, port: u16) -> (r: Response)
    requires
        old(book).wf(),
    ensures
        final(book).wf(),
        final(book)@ == (BookView {
            listeners: without_port(old(book)@.listeners, port),
            ..old(book)@
        }),
        r@ == (ResponseView::Done { data: None }),
{
    book.drop_listeners(port);
    Response::Done { data: None }
}

/// What asking after a started program shows.
pub enum PollWait {
    /// It still runs.
    Running,
    /// It ended with the status.
    Exited { status: String },
    /// Asking failed.
    Failed { error: String },
}

/// Whether the wait for a marker goes on.
pub enum ReadyStep {
    Again,
    Ready,
    Failed { error: String },
}

/// One round of the wait for a marker. `seen` is whether the marker was seen before
/// asking after the program, `seen_after` whether it was seen after.
pub fn ready_step(seen: bool, wait: PollWait, seen_after: bool) -> (r: ReadyStep)
    ensures
        match r {
            ReadyStep::Ready => seen || (wait is Exited && seen_after),
            ReadyStep::Again => !seen && wait is Running,
            ReadyStep::Failed { error } => !seen && match wait {
                PollWait::Running => false,
                PollWait::Exited { status } => !seen_after && error@
                    == "process exited before ready_marker (status="@ + status@ + ")"@,
                PollWait::Failed { error: e } => error@ == "exec_ready poll: "@ + e@,
            },
        },
{
    if seen {
        return ReadyStep::Ready;
    }
    match wait {
        PollWait::Running => ReadyStep::Again,
        PollWait::Exited { status } => if seen_after {
            ReadyStep::Ready
        } else {
            ReadyStep::Failed {
                error: cat3(
                    "process exited before ready_marker (status=",
                    status.as_str(),
                    ")",
                ),
            }
        },
        PollWait::Failed { error } => ReadyStep::Failed {
            error: cat("exec_ready poll: ", error.as_str()),
        },
    }
}

/// How the wait for a marker ended.
#[allow(inconsistent_fields)]
pub enum ReadyEvent {
    SpawnFailed { error: String },
    /// The program has no pipe for its standard output or standard error.
    PipeMissing { stdout: bool },
    /// The marker came.
    Seen { pid: u32 },
    /// The wait ended with an error.
    Failed { error: String },
    /// The time ran out.
    TimedOut { secs: u64 },
}

pub open spec fn ready_reply_view(ev: ReadyEvent) -> ResponseView {
    match ev {
        ReadyEvent::SpawnFailed { error } => ResponseView::Error {
            error: "exec_ready spawn: "@ + error@,
        },
        ReadyEvent::PipeMissing { stdout } => ResponseView::Error {
            error: if stdout {
                "exec_ready: stdout pipe missing"@
            } else {
                "exec_ready: stderr pipe missing"@
            },
        },
        ReadyEvent::Seen { pid } => ResponseView::BackgroundReady { pid },
        ReadyEvent::Failed { error } => ResponseView::Error { error: error@ },
        ReadyEvent::TimedOut { secs } => ResponseView::Error {
            error: "ready_marker not observed within "@ + dec_text(secs as nat) + "s"@,
        },
    }
}

/// Note the process if its marker came, and give the answer. Whether a process that
/// was started must be killed is `ev is Failed || ev is TimedOut`.
pub fn ready_reply(book: &mut AgentBook, ev: ReadyEvent) -> (r: Response)
    requires
        old(book).wf(),
    ensures
        final(book).wf(),
        final(book)@ == with_process(
            old(book)@,
            match ev {
                ReadyEvent::Seen { pid } => Some(pid),
                _ => None,
            },
        ),
        r@ == ready_reply_view(ev),
{
    match ev {
        ReadyEvent::SpawnFailed { error } => Response::Error {
            error: cat("exec_ready spawn: ", error.as_str()),
        },
        ReadyEvent::PipeMissing { stdout } => if stdout {
            error_response("exec_ready: stdout pipe missing")
        } else {
            error_response("exec_ready: stderr pipe missing")
        },
        ReadyEvent::Seen { pid } => {
            book.add_background(pid);
            Response::BackgroundReady { pid }
        },
        ReadyEvent::Failed { error } => Response::Error { error },
        ReadyEvent::TimedOut { secs } => {
            let n = dec(secs);
            Response::Error { error: cat3("ready_marker not observed within ", n.as_str(), "s") }
        },
    }
}

/// A command is forwarded exactly to children that the agent has; any other target
/// is answered with an error.
pub proof fn law_forward_only_to_children(book: BookView, target: String, inner: Box<Command>, action: Action)
    requires
        decided(book, Command::Forward { target, inner }, action),
    ensures
        action is Forward <==> book.children.contains(target@),
        !book.children.contains(target@) ==> replies(action, "unknown child: "@ + target@),
{
}

/// An action that starts a program carries the program of the command and nothing else: the
/// command's arguments, its input and its environment. It comes of no other command, and the
/// program is left running exactly where the command asks for that. Its time is the command's,
/// or ten seconds, and thirty for a marker, where the command sets none.
pub proof fn law_started_program_is_the_commands(book: BookView, cmd: Command, action: Action)
    requires
        decided(book, cmd, action),
    ensures
        action matches Action::Exec { args, stdin, env, secs } ==> (cmd matches Command::Exec {
            args: a,
            timeout_secs: t,
            stdin: i,
            background: b,
            env: e,
        } && {
            &&& args == a && args@.len() > 0
            &&& stdin == i
            &&& env == e
            &&& !b
            &&& t matches Some(n) ==> secs == n
            &&& t is None ==> secs == 10
        }),
        action matches Action::ExecBackground { args, stdin, env } ==> (
        cmd matches Command::Exec { args: a, stdin: i, background: b, env: e, .. } && {
            &&& args == a && args@.len() > 0
            &&& stdin == i
            &&& env == e
            &&& b
        }),
        action matches Action::ExecReady { args, ready_marker, stdin, stream, secs } ==> (
        cmd matches Command::ExecReady {
            args: a,
            ready_marker: m,
            timeout_secs: t,
            stdin: i,
            stream: s,
        } && {
            &&& args == a && args@.len() > 0
            &&& ready_marker == m
            &&& stdin == i
            &&& stream == s
            &&& stream@ == "stdout"@ || stream@ == "stderr"@ || stream@ == "either"@
            &&& t matches Some(n) ==> secs == n
            &&& t is None ==> secs == 30
        }),
{
}

/// A command to run a program starts it whenever it has arguments, and for a marker whenever
/// the stream is one of the three; else it is answered with an error that says what is wrong,
/// and nothing is started.
pub proof fn law_program_starts_unless_refused(book: BookView, cmd: Command, action: Action)
    requires
        decided(book, cmd, action),
    ensures
        cmd matches Command::Exec { args, background, .. } ==> {
            &&& args@.len() > 0 && background ==> action is ExecBackground
            &&& args@.len() > 0 && !background ==> action is Exec
            &&& args@.len() == 0 ==> (action matches Action::Reply { response } && response@ == (
            ResponseView::Error { error: "exec requires args"@ }))
        },
        cmd matches Command::ExecReady { args, stream, .. } ==> {
            let known = stream@ == "stdout"@ || stream@ == "stderr"@ || stream@ == "either"@;
            &&& args@.len() > 0 && known ==> action is ExecReady
            &&& args@.len() == 0 ==> (action matches Action::Reply { response } && response@ == (
            ResponseView::Error { error: "exec_ready requires args"@ }))
            &&& args@.len() > 0 && !known ==> (action matches Action::Reply { response }
                && response@ == (ResponseView::Error {
                error: "invalid marker stream "@ + quoted(stream@)
                    + "; expected stdout, stderr, or either"@,
            }))
        },
{
}

/// An action that starts child agents carries the names, the binary and the ports of the
/// command, and the children are of the other binary exactly where the command says remote.
/// Every command to start children gets such an action.
pub proof fn law_started_children_are_the_commands(book: BookView, cmd: Command, action: Action)
    requires
        decided(book, cmd, action),
    ensures
        action matches Action::SpawnAll { names, remote } ==> {
            ||| remote && (cmd matches Command::SpawnRemote { children } && names == children)
            ||| !remote && (cmd matches Command::Spawn { children } && names == children)
        },
        cmd is Spawn || cmd is SpawnRemote <==> action is SpawnAll,
        action matches Action::Fork { name, binary, exe, ports } ==> (cmd matches Command::Fork {
            name: n,
            binary: b,
            inherit_listen_ports: p,
        } && {
            &&& name == n
            &&& binary == b
            &&& ports == p
            &&& exe == exe_for(b@)
        }),
        cmd is Fork <==> action is Fork,
{
}

/// Each label of a binary has its own binary, and every other label means the own one.
pub proof fn law_fork_labels(label: Seq<char>)
    ensures
        exe_for(label) is NonPie <==> label == "nonpie"@,
        exe_for(label) is StaticPieGlibc <==> label == "static-pie-glibc"@,
        exe_for(label) is StaticPieMusl <==> label == "static-pie-musl"@,
        exe_for(label) is NonPieStaticMusl <==> label == "non-pie-static-musl"@,
        exe_for(label) is Own <==> label != "nonpie"@ && label != "static-pie-glibc"@ && label
            != "static-pie-musl"@ && label != "non-pie-static-musl"@,
{
    reveal_strlit("nonpie");
    reveal_strlit("static-pie-glibc");
    reveal_strlit("static-pie-musl");
    reveal_strlit("non-pie-static-musl");
    assert("static-pie-glibc"@.len() != "static-pie-musl"@.len());
    assert("nonpie"@.len() != "static-pie-glibc"@.len());
    assert("nonpie"@.len() != "static-pie-musl"@.len());
    assert("nonpie"@.len() != "non-pie-static-musl"@.len());
    assert("non-pie-static-musl"@.len() != "static-pie-glibc"@.len());
    assert("non-pie-static-musl"@.len() != "static-pie-musl"@.len());
}

/// What is handed on is handed on whole: the inner command to a child that the agent has, the
/// arguments to the handler, the port to the listener, and a primitive as it came. Only the
/// command to leave ends the agent, and a wake-up outside a handler is refused.
pub proof fn law_commands_are_handed_on_whole(book: BookView, cmd: Command, action: Action)
    requires
        decided(book, cmd, action),
    ensures
        action matches Action::Forward { target, inner } ==> (cmd matches Command::Forward {
            target: t,
            inner: i,
        } && target == t && inner == i && book.children.contains(t@)),
        cmd matches Command::Forward { target, .. } ==> {
            &&& book.children.contains(target@) ==> action is Forward
            &&& !book.children.contains(target@) ==> (action matches Action::Reply { response }
                && response@ == (ResponseView::Error { error: "unknown child: "@ + target@ }))
        },
        action matches Action::RunHandler { handler, args } ==> (cmd matches Command::Run {
            handler: h,
            args: a,
            ..
        } && handler == h && args == a),
        cmd is Run <==> action is RunHandler,
        action matches Action::Listen { port } ==> (cmd matches Command::NetListen { port: p }
            && port == p),
        cmd is NetListen <==> action is Listen,
        action matches Action::Unlisten { port } ==> (cmd matches Command::NetUnlisten { port: p }
            && port == p),
        cmd is NetUnlisten <==> action is Unlisten,
        action is Shutdown <==> cmd is Exit,
        action matches Action::Primitive { command } ==> command == cmd,
        action is Primitive <==> cmd is FsRead || cmd is FsWrite || cmd is FsDelete || cmd
            is NetConnect || cmd is EnvGet || cmd is CwdGet || cmd is UnixSocketTest,
        cmd matches Command::Resume { tag } ==> (action matches Action::Reply { response }
            && response@ == (ResponseView::Error {
            error: "Resume { tag: "@ + tag@ + " } received outside handler context"@,
        })),
{
}

/// A line is searched for the marker where its stream is the one asked for, and on every
/// stream where either is asked for.
pub proof fn law_marker_streams(configured: Seq<char>, actual: Seq<char>)
    ensures
        stream_matches("either"@, actual),
        configured == actual ==> stream_matches(configured, actual),
        configured != actual && configured != "either"@ ==> !stream_matches(configured, actual),
        !stream_matches("stdout"@, "stderr"@),
        !stream_matches("stderr"@, "stdout"@),
{
    reveal_strlit("stdout");
    reveal_strlit("stderr");
    reveal_strlit("either");
    assert("stdout"@[3] == 'o' && "stderr"@[3] == 'e');
    assert("either"@[0] == 'e');
    assert("stdout"@[0] == 's' && "stderr"@[0] == 's');
}

/// The listeners that are left are those on other ports, in their order and as often as before.
pub proof fn law_other_ports_keep_their_listeners(listeners: Seq<u16>, port: u16)
    ensures
        without_port(listeners, port) == listeners.filter(|p: u16| p != port),
    decreases listeners.len(),
{
    reveal(Seq::filter);
    if listeners.len() > 0 {
        law_other_ports_keep_their_listeners(listeners.drop_last(), port);
    }
}

/// One complaint is made for each child that did not start, and none for the others; it holds
/// the child's name and the error.
pub proof fn law_each_failed_spawn_is_complained_of(
    names: Seq<Seq<char>>,
    errors: Seq<Option<String>>,
    remote: bool,
)
    requires
        names.len() == errors.len(),
    ensures
        spawn_complaints(names, errors, remote).len() == errors.filter(
            |e: Option<String>| e is Some,
        ).len(),
        forall|k: int|
            0 <= k < names.len() && (#[trigger] errors[k]) is Some ==> spawn_complaints(
                names,
                errors,
                remote,
            ).contains(
                ResponseView::Error {
                    error: (if remote {
                        "spawn_remote "@
                    } else {
                        "spawn "@
                    }) + names[k] + ": "@ + errors[k]->Some_0@,
                },
            ),
    decreases names.len(),
{
    reveal(Seq::filter);
    if names.len() > 0 {
        let (na, ea) = (names.drop_last(), errors.drop_last());
        law_each_failed_spawn_is_complained_of(na, ea, remote);
        let before = spawn_complaints(na, ea, remote);
        let all = spawn_complaints(names, errors, remote);
        assert forall|k: int| 0 <= k < names.len() && (#[trigger] errors[k]) is Some implies all.contains(
            ResponseView::Error {
                error: (if remote {
                    "spawn_remote "@
                } else {
                    "spawn "@
                }) + names[k] + ": "@ + errors[k]->Some_0@,
            },
        ) by {
            let c = ResponseView::Error {
                error: (if remote {
                    "spawn_remote "@
                } else {
                    "spawn "@
                }) + names[k] + ": "@ + errors[k]->Some_0@,
            };
            if k < na.len() {
                assert(ea[k] is Some);
                assert(before.contains(c));
                let j = choose|j: int| 0 <= j < before.len() && before[j] == c;
                assert(all[j] == c);
            } else {
                assert(all[before.len() as int] == c);
            }
        }
    }
}

/// The complaints come in the order of the names: those of the first names, then those of the
/// rest.
pub proof fn law_spawn_complaints_in_order(
    names: Seq<Seq<char>>,
    errors: Seq<Option<String>>,
    more: Seq<Seq<char>>,
    later: Seq<Option<String>>,
    remote: bool,
)
    requires
        names.len() == errors.len(),
        more.len() == later.len(),
    ensures
        spawn_complaints(names + more, errors + later, remote) == spawn_complaints(
            names,
            errors,
            remote,
        ) + spawn_complaints(more, later, remote),
    decreases more.len(),
{
    if more.len() == 0 {
        assert(names + more =~= names);
        assert(errors + later =~= errors);
        assert(spawn_complaints(names, errors, remote) + spawn_complaints(more, later, remote)
            =~= spawn_complaints(names, errors, remote));
    } else {
        assert((names + more).drop_last() =~= names + more.drop_last());
        assert((errors + later).drop_last() =~= errors + later.drop_last());
        law_spawn_complaints_in_order(names, errors, more.drop_last(), later.drop_last(), remote);
        assert(spawn_complaints(names + more, errors + later, remote) =~= spawn_complaints(
            names,
            errors,
            remote,
        ) + spawn_complaints(more, later, remote));
    }
}

/// A program that ended is answered with its code and what it printed, each stream in its own
/// place; one that a signal ended has the code minus one. Only a program that outlived its time
/// is answered with a time-out, which names the seconds, and one that did not start or could
/// not be waited for is an error that says so.
pub proof fn law_exec_answers(ev: ExecEvent)
    ensures
        ev matches ExecEvent::Ended { code, out, err } ==> {
            &&& exec_reply_view(ev) matches ResponseView::ExecResult { exit_code, stdout, stderr }
            &&& code matches Some(c) ==> exit_code == c
            &&& code is None ==> exit_code == -1
            &&& stdout == lossy_text(out@)
            &&& stderr == lossy_text(err@)
        },
        exec_reply_view(ev) is ExecResult <==> ev is Ended,
        exec_reply_view(ev) is ExecTimeout <==> ev is TimedOut,
        ev matches ExecEvent::TimedOut { secs } ==> exec_reply_view(ev) == (
        ResponseView::ExecTimeout {
            stderr: "process timed out after "@ + dec_text(secs as nat) + "s (likely deadlocked)"@,
        }),
        ev matches ExecEvent::SpawnFailed { error } ==> exec_reply_view(ev) == (
        ResponseView::Error { error: "exec spawn: "@ + error@ }),
        ev matches ExecEvent::WaitFailed { error } ==> exec_reply_view(ev) == (
        ResponseView::Error { error: "exec wait: "@ + error@ }),
{
}

/// A program that was left running is noted exactly if it started, and answered with its own
/// number; and a program with a marker exactly if the marker came. Nothing else in the book
/// changes, and what was noted before stays.
pub proof fn law_running_programs_are_noted(book: BookView, pid: u32, other: u32, error: String)
    ensures
        with_process(book, Some(pid)).background.contains(other) <==> other == pid
            || book.background.contains(other),
        with_process(book, Some(pid)).children == book.children,
        with_process(book, Some(pid)).listeners == book.listeners,
        with_process(book, None) == book,
        background_reply_view(Ok(pid)) == (ResponseView::Background { pid }),
        background_reply_view(Err(error)) == (ResponseView::Error {
            error: "exec spawn: "@ + error@,
        }),
{
}

/// The wait for a marker is answered with the program's number exactly if the marker came, and
/// else with an error that says why not.
pub proof fn law_ready_answers(ev: ReadyEvent)
    ensures
        ready_reply_view(ev) is BackgroundReady <==> ev is Seen,
        ev matches ReadyEvent::Seen { pid } ==> ready_reply_view(ev) == (
        ResponseView::BackgroundReady { pid }),
        !(ev is Seen) ==> ready_reply_view(ev) is Error,
        ev matches ReadyEvent::SpawnFailed { error } ==> ready_reply_view(ev) == (
        ResponseView::Error { error: "exec_ready spawn: "@ + error@ }),
        ev matches ReadyEvent::Failed { error } ==> ready_reply_view(ev) == (ResponseView::Error {
            error: error@,
        }),
        ev matches ReadyEvent::TimedOut { secs } ==> ready_reply_view(ev) == (
        ResponseView::Error {
            error: "ready_marker not observed within "@ + dec_text(secs as nat) + "s"@,
        }),
        ev matches ReadyEvent::PipeMissing { stdout } ==> ready_reply_view(ev) == (
        ResponseView::Error {
            error: if stdout {
                "exec_ready: stdout pipe missing"@
            } else {
                "exec_ready: stderr pipe missing"@
            },
        }),
{
}

/// A port is answered as listened on exactly if nothing went wrong, and then by its own number.
pub proof fn law_listen_answers(port: u16, error: Option<String>)
    ensures
        error is None ==> listen_reply_view(port, error) == (ResponseView::Listening { port }),
        error matches Some(e) ==> listen_reply_view(port, error) == (ResponseView::Error {
            error: e@,
        }),
{
}

/// The answer that closes a spawn counts the names of the command, whether they started or not,
/// and says whether they are remote.
pub proof fn law_spawn_closing_answer(count: nat)
    ensures
        spawn_done_text(count, false) == dec_text(count) + " children spawned"@,
        spawn_done_text(count, true) == dec_text(count) + " remote children spawned"@,
{
}

/// The label of each binary type in a fork command means that binary: the harness's own for the
/// first type, and one of the four others for the rest.
pub proof fn law_binary_types_fork_their_binary(bt: BinaryType)
    ensures
        exe_for(bt.fork_text()@) == (match bt {
            BinaryType::PieGlibc => ForkExe::Own,
            BinaryType::NonPieGlibc => ForkExe::NonPie,
            BinaryType::StaticPieGlibc => ForkExe::StaticPieGlibc,
            BinaryType::StaticPieMusl => ForkExe::StaticPieMusl,
            BinaryType::NonPieStaticMusl => ForkExe::NonPieStaticMusl,
        }),
{
    law_fork_labels(bt.fork_text()@);
    reveal_strlit("self");
    reveal_strlit("nonpie");
    reveal_strlit("static-pie-glibc");
    reveal_strlit("static-pie-musl");
    reveal_strlit("non-pie-static-musl");
    assert("self"@.len() == 4);
    assert("nonpie"@.len() == 6);
    assert("static-pie-glibc"@.len() == 16);
    assert("static-pie-musl"@.len() == 15);
    assert("non-pie-static-musl"@.len() == 19);
}

/// What an agent hands out at its end is the whole book: a running program, a child or a listener
/// is on its list exactly if the book has it, and no program and no child is on it twice.
pub proof fn law_end_hands_out_the_book(
    book: BookView,
    pids: Seq<u32>,
    names: Seq<Seq<char>>,
    ports: Seq<u16>,
    pid: u32,
    name: Seq<char>,
)
    requires
        handed_out(book, pids, names, ports),
    ensures
        pids.contains(pid) <==> book.background.contains(pid),
        names.contains(name) <==> book.children.contains(name),
        ports == book.listeners,
        forall|i: int, j: int|
            0 <= i < j < pids.len() ==> #[trigger] pids[i] != #[trigger] pids[j],
        forall|i: int, j: int|
            0 <= i < j < names.len() ==> #[trigger] names[i] != #[trigger] names[j],
{
    assert(pids.to_set().contains(pid) <==> pids.contains(pid));
    assert(names.to_set().contains(name) <==> names.contains(name));
}

} // verus!
