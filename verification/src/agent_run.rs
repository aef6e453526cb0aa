//! An agent over many lines: what each line adds to its book, its answers and its work,
//! and where it stops.

use vstd::prelude::*;
use crate::agent::{
    background_reply, background_reply_view, bad_command, decide, decided, exec_reply,
    exec_reply_view, forked, handed_out, law_other_ports_keep_their_listeners, listen_reply,
    listen_reply_view, ready_reply, ready_reply_view, spawn_complaints, spawn_done_text, spawned,
    unlisten_reply, views, with_process, with_started, without_port, Action, AgentBook, BookView,
    ExecEvent, ReadyEvent,
};
use crate::number::dec_text;
use crate::protocol::{Command, Response, ResponseView};
use crate::text::{
    all_space, is_space, law_trim_ends, law_trim_takes_only_space, texts, trim_text,
};

verus! {

/// What an agent does about a line that is not blank.
#[allow(inconsistent_fields)]
pub enum CommandStep {
    /// It is no command: say so.
    Answer { response: Response },
    /// Perform the action, and hand back what came of it.
    Perform { action: Action },
    /// End these processes, children and listeners, and stop.
    Leave { pids: Vec<u32>, names: Vec<String>, ports: Vec<u16> },
}

/// The answer to a line that is no command.
pub open spec fn bad_line_view(error: Seq<char>) -> ResponseView {
    ResponseView::Error { error: "parse error: "@ + error }
}

/// What an agent does about a line that is not blank; `parsed` is what stands on it.
pub fn command_step(book: &mut AgentBook, parsed: Result<Command, String>) -> (r: CommandStep)
    requires
        old(book).wf(),
    ensures
        final(book).wf(),
        match parsed {
            Err(e) => final(book)@ == old(book)@ && (r matches CommandStep::Answer { response }
                && response@ == bad_line_view(e@)),
            Ok(Command::Exit) => final(book)@ == BookView::empty() && (r matches CommandStep::Leave {
                pids,
                names,
                ports,
            } && handed_out(old(book)@, pids@, texts(names@), ports@)),
            Ok(cmd) => final(book)@ == old(book)@ && (r matches CommandStep::Perform { action }
                && decided(old(book)@, cmd, action)),
        },
{
    match parsed {
        Err(e) => CommandStep::Answer { response: bad_command(e.as_str()) },
        Ok(Command::Exit) => {
            let (pids, names, ports) = book.shutdown();
            CommandStep::Leave { pids, names, ports }
        },
        Ok(cmd) => CommandStep::Perform { action: decide(book, cmd) },
    }
}

/// What came of an action.
#[allow(inconsistent_fields)]
pub enum Performed {
    /// Someone answered: the agent itself, a child, a handler or a primitive.
    Replied { response: Response },
    /// Children were started, or were not: the error of each that was not.
    Spawned { names: Vec<String>, errors: Vec<Option<String>>, remote: bool },
    /// One child was started, or was not.
    Forked { name: String, binary: String, error: Option<String> },
    /// A program ran.
    Ran { event: ExecEvent },
    /// A program was started and left running, or was not.
    Started { started: Result<u32, String> },
    /// The wait for a marker ended.
    Waited { event: ReadyEvent },
    /// A listener was opened, or was not.
    Listened { port: u16, error: Option<String> },
    /// The listeners on a port were ended.
    Unlistened { port: u16 },
}

impl Performed {
    /// There is one entry for each child.
    pub open spec fn wf(self) -> bool {
        self matches Performed::Spawned { names, errors, .. } ==> names@.len() == errors@.len()
    }
}

/// The outcome is one of the action.
pub open spec fn fits(action: Action, done: Performed) -> bool {
    match (action, done) {
        (Action::Reply { response }, Performed::Replied { response: r }) => r == response,
        (Action::SpawnAll { names, remote }, Performed::Spawned { names: n, errors, remote: m }) => {
            n == names && m == remote && errors@.len() == names@.len()
        },
        (Action::Fork { name, binary, .. }, Performed::Forked { name: n, binary: b, .. }) => {
            n == name && b == binary
        },
        (Action::Forward { .. }, Performed::Replied { .. }) => true,
        (Action::RunHandler { .. }, Performed::Replied { .. }) => true,
        (Action::Primitive { .. }, Performed::Replied { .. }) => true,
        (Action::Exec { secs, .. }, Performed::Ran { event }) => {
            event matches ExecEvent::TimedOut { secs: s } ==> s == secs
        },
        (Action::ExecBackground { .. }, Performed::Started { .. }) => true,
        (Action::ExecReady { secs, .. }, Performed::Waited { event }) => {
            event matches ReadyEvent::TimedOut { secs: s } ==> s == secs
        },
        (Action::Listen { port }, Performed::Listened { port: p, .. }) => p == port,
        (Action::Unlisten { port }, Performed::Unlistened { port: p }) => p == port,
        _ => false,
    }
}

/// The answers once an action is done.
pub open spec fn answers_of(done: Performed) -> Seq<ResponseView> {
    match done {
        Performed::Replied { response } => seq![response@],
        Performed::Spawned { names, errors, remote } => spawn_complaints(
            texts(names@),
            errors@,
            remote,
        ).push(ResponseView::Done { data: Some(spawn_done_text(names@.len(), remote)) }),
        Performed::Forked { name, binary, error } => seq![
            match error {
                None => ResponseView::Done {
                    data: Some("forked "@ + name@ + " (binary="@ + binary@ + ")"@),
                },
                Some(e) => ResponseView::Error { error: "fork "@ + name@ + ": "@ + e@ },
            },
        ],
        Performed::Ran { event } => seq![exec_reply_view(event)],
        Performed::Started { started } => seq![background_reply_view(started)],
        Performed::Waited { event } => seq![ready_reply_view(event)],
        Performed::Listened { port, error } => seq![listen_reply_view(port, error)],
        Performed::Unlistened { .. } => seq![ResponseView::Done { data: None }],
    }
}

/// The book once an action is done: what started is noted, and what ended struck out.
pub open spec fn noted(book: BookView, done: Performed) -> BookView {
    match done {
        Performed::Spawned { names, errors, .. } => BookView {
            children: with_started(book.children, texts(names@), errors@),
            ..book
        },
        Performed::Forked { name, error: None, .. } => BookView {
            children: book.children.insert(name@),
            ..book
        },
        Performed::Started { started: Ok(pid) } => with_process(book, Some(pid)),
        Performed::Waited { event: ReadyEvent::Seen { pid } } => with_process(book, Some(pid)),
        Performed::Listened { port, error: None } => BookView {
            listeners: book.listeners.push(port),
            ..book
        },
        Performed::Unlistened { port } => BookView {
            listeners: without_port(book.listeners, port),
            ..book
        },
        _ => book,
    }
}

fn only(r: Response) -> (out: Vec<Response>)
    ensures
        views(out@) == seq![r@],
{
    let out = vec![r];
    assert(views(out@) =~= seq![r@]);
    out
}

/// Note what an action started or ended, and give its answers.
pub fn performed(book: &mut AgentBook, done: Performed) -> (r: Vec<Response>)
    requires
        old(book).wf(),
        done.wf(),
    ensures
        final(book).wf(),
        final(book)@ == noted(old(book)@, done),
        views(r@) == answers_of(done),
{
    match done {
        Performed::Replied { response } => only(response),
        Performed::Spawned { names, errors, remote } => spawned(book, &names, &errors, remote),
        Performed::Forked { name, binary, error } => match error {
            None => only(forked(book, name.as_str(), binary.as_str(), None)),
            Some(e) => only(forked(book, name.as_str(), binary.as_str(), Some(e.as_str()))),
        },
        Performed::Ran { event } => only(exec_reply(event)),
        Performed::Started { started } => only(background_reply(book, started)),
        Performed::Waited { event } => only(ready_reply(book, event)),
        Performed::Listened { port, error } => only(listen_reply(book, port, error)),
        Performed::Unlistened { port } => only(unlisten_reply(book, port)),
    }
}

/// A line that an agent reads, what stands on it, and what comes of the command on it.
pub struct LineView {
    pub line: Seq<char>,
    pub parsed: Result<Command, String>,
    pub done: Performed,
}

impl LineView {
    /// Nothing stands on the line.
    pub open spec fn blank(self) -> bool {
        trim_text(self.line).len() == 0
    }

    /// No command stands on the line.
    pub open spec fn no_command(self) -> bool {
        self.blank() || self.parsed is Err
    }

    /// The line tells the agent to leave.
    pub open spec fn leaves(self) -> bool {
        !self.blank() && self.parsed == Ok::<Command, String>(Command::Exit)
    }

    /// What a line without a command is answered: nothing if it is blank, else one error.
    pub open spec fn complaint(self) -> Seq<ResponseView> {
        match self.parsed {
            Err(e) if !self.blank() => seq![bad_line_view(e@)],
            _ => Seq::empty(),
        }
    }
}

/// Where an agent stands: its book, all it answered, all it performed and, once it was told
/// to leave, the book it then had to end.
#[verifier::ext_equal]
pub struct RunView {
    pub book: BookView,
    pub answers: Seq<ResponseView>,
    pub performed: Seq<Performed>,
    pub left: Option<BookView>,
}

impl RunView {
    /// The same place with no answers before it.
    pub open spec fn quiet(self) -> RunView {
        RunView { answers: Seq::empty(), ..self }
    }
}

/// An agent after one more line.
pub open spec fn after_line(s: RunView, l: LineView) -> RunView {
    if s.left is Some || l.blank() {
        s
    } else {
        match l.parsed {
            Err(e) => RunView { answers: s.answers.push(bad_line_view(e@)), ..s },
            Ok(Command::Exit) => RunView { book: BookView::empty(), left: Some(s.book), ..s },
            Ok(_) => RunView {
                book: noted(s.book, l.done),
                answers: s.answers + answers_of(l.done),
                performed: s.performed.push(l.done),
                left: None,
            },
        }
    }
}

/// An agent after the lines.
pub open spec fn after(s: RunView, lines: Seq<LineView>) -> RunView
    decreases lines.len(),
{
    if lines.len() == 0 {
        s
    } else {
        after_line(after(s, lines.drop_last()), lines.last())
    }
}

/// What comes of the line is an outcome of the action that the agent decides on.
pub open spec fn line_possible(s: RunView, l: LineView) -> bool {
    s.left is None && !l.no_command() && !l.leaves() ==> exists|a: Action|
        #[trigger] decided(s.book, l.parsed->Ok_0, a) && fits(a, l.done)
}

/// What comes of each line is an outcome of the action that the agent decides on.
pub open spec fn possible(s: RunView, lines: Seq<LineView>) -> bool
    decreases lines.len(),
{
    lines.len() == 0 || (possible(s, lines.drop_last()) && line_possible(
        after(s, lines.drop_last()),
        lines.last(),
    ))
}

proof fn lemma_split(s: RunView, a: Seq<LineView>, b: Seq<LineView>)
    ensures
        after(s, a + b) == after(after(s, a), b),
        possible(s, a + b) == (possible(s, a) && possible(after(s, a), b)),
    decreases b.len(),
{
    if b.len() == 0 {
        assert(a + b =~= a);
    } else {
        lemma_split(s, a, b.drop_last());
        assert((a + b).drop_last() =~= a + b.drop_last());
    }
}

proof fn lemma_one(s: RunView, a: Seq<LineView>, l: LineView)
    ensures
        after(s, a.push(l)) == after_line(after(s, a), l),
        possible(s, a.push(l)) == (possible(s, a) && line_possible(after(s, a), l)),
{
    assert(a.push(l).drop_last() =~= a);
}

/// Answers given before do not matter to what follows.
proof fn lemma_quiet(s: RunView, lines: Seq<LineView>)
    ensures
        after(s, lines).book == after(s.quiet(), lines).book,
        after(s, lines).performed == after(s.quiet(), lines).performed,
        after(s, lines).left == after(s.quiet(), lines).left,
        after(s, lines).answers == s.answers + after(s.quiet(), lines).answers,
        possible(s, lines) == possible(s.quiet(), lines),
    decreases lines.len(),
{
    if lines.len() == 0 {
        assert(s.answers =~= s.answers + s.quiet().answers);
    } else {
        lemma_quiet(s, lines.drop_last());
        let (f, q) = (after(s, lines.drop_last()), after(s.quiet(), lines.drop_last()));
        let l = lines.last();
        assert(after_line(f, l).answers =~= s.answers + after_line(q, l).answers);
    }
}

/// A blank line, or one that is no command, changes neither the children nor the background
/// processes nor the listeners. A blank one is not answered, the other exactly once; and the
/// lines after it are answered, and their commands performed, as if it had not been there.
pub proof fn law_bad_line_changes_nothing(
    s: RunView,
    before: Seq<LineView>,
    bad: LineView,
    later: Seq<LineView>,
)
    requires
        bad.no_command(),
    ensures
        after(s, before.push(bad)).book.children == after(s, before).book.children,
        after(s, before.push(bad)).book.background == after(s, before).book.background,
        after(s, before.push(bad)).book.listeners == after(s, before).book.listeners,
        ({
            let here = after(s, before);
            let rest = after(here.quiet(), later);
            let with = after(s, before.push(bad) + later);
            let without = after(s, before + later);
            let said = if here.left is None {
                bad.complaint()
            } else {
                Seq::empty()
            };
            &&& with.book == without.book
            &&& with.performed == without.performed
            &&& with.left == without.left
            &&& without.answers == here.answers + rest.answers
            &&& with.answers == here.answers + said + rest.answers
        }),
        possible(s, before.push(bad) + later) == possible(s, before + later),
{
    let here = after(s, before);
    let next = after_line(here, bad);
    lemma_one(s, before, bad);
    lemma_split(s, before.push(bad), later);
    lemma_split(s, before, later);
    lemma_quiet(here, later);
    lemma_quiet(next, later);
    assert(next.quiet() =~= here.quiet());
    let said = if here.left is None {
        bad.complaint()
    } else {
        Seq::empty()
    };
    assert(next.answers =~= here.answers + said);
}

proof fn lemma_stopped(s: RunView, lines: Seq<LineView>)
    requires
        s.left is Some,
    ensures
        after(s, lines) == s,
    decreases lines.len(),
{
    if lines.len() > 0 {
        lemma_stopped(s, lines.drop_last());
    }
}

/// Once an agent was told to leave, no line is answered and no command performed any more,
/// that to leave included; its book is empty, and what it hands out to be ended is each
/// child, each process and each listener that it knew, once.
pub proof fn law_nothing_after_leaving(
    s: RunView,
    before: Seq<LineView>,
    exit: LineView,
    later: Seq<LineView>,
    pids: Seq<u32>,
    names: Seq<Seq<char>>,
    ports: Seq<u16>,
)
    requires
        exit.leaves(),
        after(s, before).left is None,
        handed_out(after(s, before).book, pids, names, ports),
    ensures
        ({
            let here = after(s, before);
            let end = after(s, before.push(exit) + later);
            &&& end.answers == here.answers
            &&& end.performed == here.performed
            &&& end.book == BookView::empty()
            &&& end.left == Some(here.book)
            &&& forall|n: Seq<char>|
                here.book.children.contains(n) ==> exists|k: int|
                    0 <= k < names.len() && #[trigger] names[k] == n
            &&& forall|j: int, k: int|
                0 <= j < k < names.len() ==> #[trigger] names[j] != #[trigger] names[k]
            &&& forall|k: int|
                0 <= k < names.len() ==> here.book.children.contains(#[trigger] names[k])
            &&& forall|p: u32|
                here.book.background.contains(p) ==> exists|k: int|
                    0 <= k < pids.len() && #[trigger] pids[k] == p
            &&& forall|j: int, k: int|
                0 <= j < k < pids.len() ==> #[trigger] pids[j] != #[trigger] pids[k]
            &&& forall|k: int|
                0 <= k < pids.len() ==> here.book.background.contains(#[trigger] pids[k])
            &&& ports.len() == here.book.listeners.len()
            &&& forall|k: int|
                0 <= k < ports.len() ==> #[trigger] ports[k] == here.book.listeners[k]
        }),
{
    let here = after(s, before);
    lemma_one(s, before, exit);
    lemma_split(s, before.push(exit), later);
    lemma_stopped(after(s, before.push(exit)), later);
    assert forall|k: int| 0 <= k < names.len() implies here.book.children.contains(
        #[trigger] names[k],
    ) by {
        assert(names.to_set().contains(names[k]));
    }
    assert forall|k: int| 0 <= k < pids.len() implies here.book.background.contains(
        #[trigger] pids[k],
    ) by {
        assert(pids.to_set().contains(pids[k]));
    }
    assert forall|n: Seq<char>| here.book.children.contains(n) implies exists|k: int|
        0 <= k < names.len() && #[trigger] names[k] == n by {
        assert(names.to_set().contains(n));
        assert(names.contains(n));
    }
    assert forall|p: u32| here.book.background.contains(p) implies exists|k: int|
        0 <= k < pids.len() && #[trigger] pids[k] == p by {
        assert(pids.to_set().contains(p));
        assert(pids.contains(p));
    }
}

/// A command other than that to leave is answered: once, or where it starts several
/// children once for each that did not start and once more.
pub proof fn law_commands_are_answered(book: BookView, cmd: Command, action: Action, done: Performed)
    requires
        cmd != Command::Exit,
        decided(book, cmd, action),
        fits(action, done),
    ensures
        done.wf(),
        !(cmd is Spawn || cmd is SpawnRemote) ==> answers_of(done).len() == 1,
        answers_of(done).len() >= 1,
{
}

/// What an action comes to is noted in the book and nothing else is: children where they were
/// started without an error, processes that were left running, listeners that were opened, and
/// listeners that were ended. An answer of someone else, a program that ran to its end and
/// whatever failed leave the book as it was.
pub proof fn law_only_what_started_is_noted(book: BookView, done: Performed)
    ensures
        ({
            let b = noted(book, done);
            &&& !(done is Spawned || done is Forked) ==> b.children == book.children
            &&& !(done is Started || done is Waited) ==> b.background == book.background
            &&& !(done is Listened || done is Unlistened) ==> b.listeners == book.listeners
            &&& done matches Performed::Forked { name, error, .. } ==> {
                &&& error is Some ==> b == book
                &&& error is None ==> forall|n: Seq<char>| #[trigger]
                    b.children.contains(n) <==> n == name@ || book.children.contains(n)
            }
            &&& done matches Performed::Spawned { names, errors, .. } ==> b.children
                == with_started(book.children, texts(names@), errors@)
            &&& done matches Performed::Started { started } ==> {
                &&& started is Err ==> b == book
                &&& started matches Ok(pid) ==> forall|p: u32| #[trigger]
                    b.background.contains(p) <==> p == pid || book.background.contains(p)
            }
            &&& done matches Performed::Waited { event } ==> {
                &&& !(event is Seen) ==> b == book
                &&& event matches ReadyEvent::Seen { pid } ==> forall|p: u32| #[trigger]
                    b.background.contains(p) <==> p == pid || book.background.contains(p)
            }
            &&& done matches Performed::Listened { port, error } ==> {
                &&& error is Some ==> b == book
                &&& error is None ==> b.listeners == book.listeners.push(port)
            }
            &&& done matches Performed::Unlistened { port } ==> b.listeners
                == book.listeners.filter(|p: u16| p != port)
        }),
{
    if let Performed::Unlistened { port } = done {
        law_other_ports_keep_their_listeners(book.listeners, port);
    }
}

/// A forked child is answered by its name and binary where it started, and by its name and the
/// error where it did not. An answer of someone else is handed on as it came, and ended
/// listeners are answered without data.
pub proof fn law_answers_say_what_came(done: Performed)
    ensures
        done matches Performed::Replied { response } ==> answers_of(done) == seq![response@],
        done matches Performed::Forked { name, binary, error } ==> answers_of(done).len() == 1 && {
            &&& error is None ==> answers_of(done)[0] == (ResponseView::Done {
                data: Some("forked "@ + name@ + " (binary="@ + binary@ + ")"@),
            })
            &&& error matches Some(e) ==> answers_of(done)[0] == (ResponseView::Error {
                error: "fork "@ + name@ + ": "@ + e@,
            })
        },
        done matches Performed::Spawned { names, errors, remote } ==> {
            &&& answers_of(done).last() == (ResponseView::Done {
                data: Some(
                    dec_text(names@.len()) + if remote {
                        " remote children spawned"@
                    } else {
                        " children spawned"@
                    },
                ),
            })
            &&& answers_of(done).drop_last() == spawn_complaints(texts(names@), errors@, remote)
        },
        done matches Performed::Ran { event } ==> answers_of(done) == seq![exec_reply_view(event)],
        done matches Performed::Started { started } ==> answers_of(done).len() == 1 && {
            &&& started matches Ok(pid) ==> answers_of(done)[0] == (ResponseView::Background { pid })
            &&& started is Err ==> answers_of(done)[0] is Error
        },
        done matches Performed::Waited { event } ==> answers_of(done) == seq![
            ready_reply_view(event),
        ],
        done matches Performed::Listened { port, error } ==> answers_of(done).len() == 1 && {
            &&& error is None ==> answers_of(done)[0] == (ResponseView::Listening { port })
            &&& error matches Some(e) ==> answers_of(done)[0] == (ResponseView::Error { error: e@ })
        },
        done is Unlistened ==> answers_of(done) == seq![ResponseView::Done { data: None }],
{
    if let Performed::Spawned { names, errors, remote } = done {
        assert(answers_of(done).drop_last() =~= spawn_complaints(texts(names@), errors@, remote));
    }
}

/// An outcome belongs to an action only if it is of its kind and about the same children,
/// ports and seconds.
pub proof fn law_outcomes_belong_to_actions(action: Action, done: Performed)
    requires
        fits(action, done),
    ensures
        action matches Action::Reply { response } ==> done == (Performed::Replied { response }),
        action matches Action::SpawnAll { names, remote } ==> (done matches Performed::Spawned {
            names: n,
            errors: e,
            remote: m,
        } && n == names && m == remote && e@.len() == n@.len()),
        action matches Action::Fork { name, binary, .. } ==> (done matches Performed::Forked {
            name: n,
            binary: b,
            ..
        } && n == name && b == binary),
        action is Forward || action is RunHandler || action is Primitive ==> done is Replied,
        action matches Action::Exec { secs, .. } ==> (done matches Performed::Ran { event } && (
        event matches ExecEvent::TimedOut { secs: s } ==> s == secs)),
        action is ExecBackground ==> done is Started,
        action matches Action::ExecReady { secs, .. } ==> (done matches Performed::Waited { event }
            && (event matches ReadyEvent::TimedOut { secs: s } ==> s == secs)),
        action matches Action::Listen { port } ==> (done matches Performed::Listened { port: p, .. }
            && p == port),
        action matches Action::Unlisten { port } ==> done == (Performed::Unlistened { port }),
        !(action is Shutdown),
{
}

/// The answers of an agent are those of its lines, one line after the other, and its book is
/// what the lines made of it: what a line adds depends only on the book it finds.
pub proof fn law_lines_add_up(s: RunView, l: LineView)
    ensures
        s.left is None && l.no_command() ==> after_line(s, l).answers == s.answers + l.complaint()
            && after_line(s, l).book == s.book && after_line(s, l).performed == s.performed,
        s.left is None && !l.no_command() && !l.leaves() ==> {
            &&& after_line(s, l).answers == s.answers + answers_of(l.done)
            &&& after_line(s, l).book == noted(s.book, l.done)
            &&& after_line(s, l).performed == s.performed.push(l.done)
            &&& after_line(s, l).left is None
        },
        l.blank() ==> l.complaint().len() == 0,
        !l.blank() && l.parsed is Err ==> l.complaint() == seq![
            ResponseView::Error { error: "parse error: "@ + l.parsed->Err_0@ },
        ],
{
    assert(s.answers + Seq::<ResponseView>::empty() =~= s.answers);
    if s.left is None && !l.blank() && l.parsed is Err {
        assert(after_line(s, l).answers =~= s.answers + l.complaint());
    }
}

/// A line that is no command is answered with the error that says why.
pub proof fn law_bad_line(error: Seq<char>)
    ensures
        bad_line_view(error) matches ResponseView::Error { error: e } && e == "parse error: "@
            + error,
{
}

/// A line is blank exactly if it holds white space and nothing else.
pub proof fn law_blank_lines(l: LineView)
    ensures
        l.blank() <==> forall|i: int| 0 <= i < l.line.len() ==> is_space(#[trigger] l.line[i]),
{
    let s = l.line;
    law_trim_takes_only_space(s);
    law_trim_ends(s);
    let (a, b) = choose|a: Seq<char>, b: Seq<char>|
        s == #[trigger] (a + trim_text(s) + b) && all_space(a) && all_space(b);
    if l.blank() {
        assert forall|i: int| 0 <= i < s.len() implies is_space(#[trigger] s[i]) by {
            if i < a.len() {
                assert(s[i] == a[i]);
            } else {
                assert(s[i] == b[i - a.len()]);
            }
        }
    } else {
        assert(s[a.len() as int] == trim_text(s)[0]);
    }
}

/// Whatever an answer says, it is an outcome of a command that was handed on, run by a handler or
/// carried out at once; a program can end in any way, but runs out only of its own time.
pub proof fn law_every_outcome_is_taken(action: Action, done: Performed)
    ensures
        (action is Forward || action is RunHandler || action is Primitive) && done is Replied
            ==> fits(action, done),
        action is ExecBackground && done is Started ==> fits(action, done),
        action is Exec && (done matches Performed::Ran { event } && !(event is TimedOut)) ==> fits(
            action,
            done,
        ),
        action is ExecReady && (done matches Performed::Waited { event } && !(event is TimedOut))
            ==> fits(action, done),
        action matches Action::Listen { port } ==> (done matches Performed::Listened { port: p, .. }
            && p == port ==> fits(action, done)),
{
}

} // verus!
