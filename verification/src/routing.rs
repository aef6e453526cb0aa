//! How commands reach agents through the tree, and what the answers mean.

use vstd::prelude::*;
use crate::protocol::{error_response, Command, Response, ResponseView};
use crate::text::{cat, cat3, lossy, lossy_text, same, starts_with, starts_with_text, texts};

verus! {

/// Create an exec command with the default timeout.
pub fn exec(args: Vec<String>) -> (r: Command)
    ensures
        r matches Command::Exec { args: a, timeout_secs, stdin, background, env } && a == args
            && timeout_secs is None && stdin is None && !background && env@.len() == 0,
{
    Command::Exec { args, timeout_secs: None, stdin: None, background: false, env: Vec::new() }
}

/// Create an exec command with a custom timeout.
pub fn exec_timeout(args: Vec<String>, secs: u64) -> (r: Command)
    ensures
        r matches Command::Exec { args: a, timeout_secs, stdin, background, env } && a == args
            && timeout_secs == Some(secs) && stdin is None && !background && env@.len() == 0,
{
    Command::Exec { args, timeout_secs: Some(secs), stdin: None, background: false, env: Vec::new() }
}

/// The direct child to send to, and the path that is left below it.
pub open spec fn route_of(target: Seq<char>) -> (Seq<char>, Option<Seq<char>>) {
    if target == "A"@ || target == "B"@ {
        (target, None)
    } else if starts_with_text(target, "A"@) {
        ("A"@, Some(target))
    } else {
        (target, None)
    }
}

/// Route a target like `AAA` to its direct child and the path below it.
pub fn route<'a>(target: &'a str) -> (r: (&'a str, Option<&'a str>))
    ensures
        r.0@ == route_of(target@).0,
        match r.1 {
            Some(rest) => route_of(target@).1 == Some(rest@),
            None => route_of(target@).1 is None,
        },
{
    if same(target, "A") || same(target, "B") {
        (target, None)
    } else if starts_with(target, "A") {
        ("A", Some(target))
    } else {
        (target, None)
    }
}

/// The agents a command passes on its way below the direct child.
pub open spec fn hops(remaining: Option<Seq<char>>) -> Seq<Seq<char>> {
    match remaining {
        None => Seq::empty(),
        Some(t) => if t == "AA"@ || t == "AB"@ || !starts_with_text(t, "AA"@) {
            seq![t]
        } else {
            seq!["AA"@, t]
        },
    }
}

/// `outer` is `cmd`, wrapped in one forward for each hop.
pub open spec fn forwarded(outer: Command, path: Seq<Seq<char>>, cmd: Command) -> bool
    decreases path.len(),
{
    if path.len() == 0 {
        outer == cmd
    } else {
        match outer {
            Command::Forward { target, inner } => target@ == path[0] && forwarded(
                *inner,
                path.skip(1),
                cmd,
            ),
            _ => false,
        }
    }
}

/// Wrap a command in forward layers for routing through the tree.
pub fn wrap_forwards(remaining: Option<&str>, cmd: Command) -> (r: Command)
    ensures
        match remaining {
            Some(t) => forwarded(r, hops(Some(t@)), cmd),
            None => forwarded(r, hops(None), cmd),
        },
{
    proof {
        reveal_with_fuel(forwarded, 3);
    }
    match remaining {
        None => cmd,
        Some(target) => {
            if same(target, "AA") || same(target, "AB") {
                Command::Forward { target: target.to_string(), inner: Box::new(cmd) }
            } else if starts_with(target, "AA") {
                assert(seq!["AA"@, target@].skip(1)[0] == target@);
                Command::Forward {
                    target: "AA".to_string(),
                    inner: Box::new(
                        Command::Forward { target: target.to_string(), inner: Box::new(cmd) },
                    ),
                }
            } else {
                Command::Forward { target: target.to_string(), inner: Box::new(cmd) }
            }
        },
    }
}

/// The children that an agent of the tree is told to start.
pub open spec fn sub_children_of(id: Seq<char>) -> Seq<Seq<char>> {
    if id == "A"@ {
        seq!["AA"@, "AB"@]
    } else if id == "AA"@ {
        seq!["AAA"@, "AAB"@]
    } else {
        Seq::empty()
    }
}

/// The children that an agent of the tree is told to start.
pub fn sub_children(id: &str) -> (r: Vec<String>)
    ensures
        texts(r@) == sub_children_of(id@),
{
    let r: Vec<String> = if same(id, "A") {
        vec!["AA".to_string(), "AB".to_string()]
    } else if same(id, "AA") {
        vec!["AAA".to_string(), "AAB".to_string()]
    } else {
        Vec::new()
    };
    assert(texts(r@) =~= sub_children_of(id@));
    r
}

/// A command for a child travels as one for its parent does, and then one hop further to
/// the child.
pub proof fn law_routes_follow_tree(parent: Seq<char>, child: Seq<char>)
    requires
        sub_children_of(parent).contains(child),
    ensures
        route_of(child).0 == route_of(parent).0,
        hops(route_of(child).1) == hops(route_of(parent).1).push(child),
{
    reveal_strlit("A");
    reveal_strlit("B");
    reveal_strlit("AA");
    reveal_strlit("AB");
    reveal_strlit("AAA");
    reveal_strlit("AAB");
    let kids = sub_children_of(parent);
    let k = choose|k: int| 0 <= k < kids.len() && kids[k] == child;
    assert("A"@.len() == 1 && "B"@.len() == 1);
    assert(child.subrange(0, 1) =~= "A"@);
    assert("AA"@.subrange(0, 1) =~= "A"@);
    assert("AAA"@.subrange(0, 2) =~= "AA"@);
    assert("AAB"@.subrange(0, 2) =~= "AA"@);
    assert("B"@[0] != "A"@[0]);
    assert(hops(route_of(child).1) =~= hops(route_of(parent).1).push(child));
}

/// The command inside all forward layers.
pub open spec fn innermost(cmd: Command) -> Command
    decreases cmd,
{
    match cmd {
        Command::Forward { inner, .. } => innermost(*inner),
        _ => cmd,
    }
}

/// The command inside all forward layers.
pub fn innermost_of(cmd: &Command) -> (r: &Command)
    ensures
        *r == innermost(*cmd),
    decreases *cmd,
{
    match cmd {
        Command::Forward { inner, .. } => innermost_of(inner),
        _ => cmd,
    }
}

/// Forwarding keeps the command: what is inside all layers stays what it was.
pub proof fn law_forward_keeps_command(outer: Command, path: Seq<Seq<char>>, cmd: Command)
    requires
        forwarded(outer, path, cmd),
    ensures
        innermost(outer) == innermost(cmd),
    decreases path.len(),
{
    if path.len() > 0 {
        if let Command::Forward { inner, .. } = outer {
            law_forward_keeps_command(*inner, path.skip(1), cmd);
        }
    }
}

/// The path given to a forwarded command ends at its target.
pub proof fn law_path_ends_at_target(target: Seq<char>)
    ensures
        match route_of(target).1 {
            Some(rest) => rest == target && hops(Some(rest)).last() == target,
            None => route_of(target).0 == target,
        },
{
}

/// The time a program inside the command may take, where the command sets one.
pub open spec fn own_timeout(cmd: Command) -> Option<u64> {
    match innermost(cmd) {
        Command::Exec { timeout_secs, .. } => timeout_secs,
        _ => None,
    }
}

/// Seconds the coordinator waits for the answer to a command: five more than the
/// program may take, or fifteen where the command sets no time.
pub fn coordinator_wait(cmd: &Command) -> (r: u64)
    requires
        own_timeout(*cmd) matches Some(t) ==> t <= u64::MAX - 5,
    ensures
        r == match own_timeout(*cmd) {
            Some(t) => (t + 5) as u64,
            None => 15u64,
        },
{
    match innermost_of(cmd) {
        Command::Exec { timeout_secs, .. } => match timeout_secs {
            Some(t) => *t + 5,
            None => 15,
        },
        _ => 15,
    }
}

/// The time set by any command that runs something.
pub open spec fn run_timeout(cmd: Command) -> Option<u64> {
    match innermost(cmd) {
        Command::Exec { timeout_secs, .. } => timeout_secs,
        Command::ExecReady { timeout_secs, .. } => timeout_secs,
        Command::Run { timeout_secs, .. } => timeout_secs,
        _ => None,
    }
}

/// Seconds an agent waits for the answer of a child.
pub open spec fn child_wait_of(cmd: Command) -> int {
    match run_timeout(cmd) {
        Some(t) => t + 5,
        None => match innermost(cmd) {
            Command::Spawn { .. } => 65,
            Command::SpawnRemote { .. } => 65,
            _ => 60,
        },
    }
}

/// Seconds an agent waits for the answer of a child.
pub fn child_wait(cmd: &Command) -> (r: u64)
    requires
        run_timeout(*cmd) matches Some(t) ==> t <= u64::MAX - 5,
    ensures
        r == child_wait_of(*cmd),
{
    match innermost_of(cmd) {
        Command::Exec { timeout_secs, .. } => match timeout_secs {
            Some(t) => *t + 5,
            None => 60,
        },
        Command::ExecReady { timeout_secs, .. } => match timeout_secs {
            Some(t) => *t + 5,
            None => 60,
        },
        Command::Run { timeout_secs, .. } => match timeout_secs {
            Some(t) => *t + 5,
            None => 60,
        },
        Command::Spawn { .. } => 65,
        Command::SpawnRemote { .. } => 65,
        _ => 60,
    }
}

/// Forwarding a command changes neither of the two waits.
pub proof fn law_forward_keeps_waits(outer: Command, path: Seq<Seq<char>>, cmd: Command)
    requires
        forwarded(outer, path, cmd),
    ensures
        own_timeout(outer) == own_timeout(cmd),
        child_wait_of(outer) == child_wait_of(cmd),
{
    law_forward_keeps_command(outer, path, cmd);
}

/// What came of sending a command down a pipe and reading the answer.
pub enum ReplyEvent {
    /// The command could not be written.
    WriteFailed,
    /// A line came and was a response.
    Parsed { response: Response },
    /// A line came and was no response; `error` says why.
    Unparsed { error: String, line: String },
    /// The pipe ended.
    Eof,
    /// Reading failed.
    ReadError { error: String },
    /// Nothing came in time.
    TimedOut,
}

/// What the coordinator makes of the event.
pub open spec fn coordinator_reply_view(ev: ReplyEvent) -> ResponseView {
    match ev {
        ReplyEvent::WriteFailed => ResponseView::Error { error: "write failed"@ },
        ReplyEvent::Parsed { response } => response@,
        ReplyEvent::Unparsed { error, line } => ResponseView::Error {
            error: "parse: "@ + error@ + ": "@ + line@,
        },
        ReplyEvent::Eof => ResponseView::Error { error: "EOF"@ },
        ReplyEvent::ReadError { error } => ResponseView::Error { error: "read: "@ + error@ },
        ReplyEvent::TimedOut => ResponseView::Error { error: "timeout"@ },
    }
}

/// The response the coordinator takes from a reply event.
pub fn coordinator_reply(ev: ReplyEvent) -> (r: Response)
    ensures
        r@ == coordinator_reply_view(ev),
{
    match ev {
        ReplyEvent::WriteFailed => error_response("write failed"),
        ReplyEvent::Parsed { response } => response,
        ReplyEvent::Unparsed { error, line } => {
            let mut text = cat3("parse: ", error.as_str(), ": ");
            text.append(line.as_str());
            Response::Error { error: text }
        },
        ReplyEvent::Eof => error_response("EOF"),
        ReplyEvent::ReadError { error } => Response::Error { error: cat("read: ", error.as_str()) },
        ReplyEvent::TimedOut => error_response("timeout"),
    }
}

/// What an agent makes of a child's reply event.
pub open spec fn child_reply_view(ev: ReplyEvent) -> ResponseView {
    match ev {
        ReplyEvent::WriteFailed => ResponseView::Error { error: "write to child failed"@ },
        ReplyEvent::Parsed { response } => response@,
        ReplyEvent::Unparsed { error, line } => ResponseView::Error {
            error: "child response parse: "@ + error@ + ": "@ + line@,
        },
        ReplyEvent::Eof => ResponseView::Error { error: "child EOF"@ },
        ReplyEvent::ReadError { error } => ResponseView::Error { error: "child read: "@ + error@ },
        ReplyEvent::TimedOut => ResponseView::Error { error: "child response timeout"@ },
    }
}

/// The response an agent takes from a child's reply event.
pub fn child_reply(ev: ReplyEvent) -> (r: Response)
    ensures
        r@ == child_reply_view(ev),
{
    match ev {
        ReplyEvent::WriteFailed => error_response("write to child failed"),
        ReplyEvent::Parsed { response } => response,
        ReplyEvent::Unparsed { error, line } => {
            let mut text = cat3("child response parse: ", error.as_str(), ": ");
            text.append(line.as_str());
            Response::Error { error: text }
        },
        ReplyEvent::Eof => error_response("child EOF"),
        ReplyEvent::ReadError { error } => Response::Error {
            error: cat("child read: ", error.as_str()),
        },
        ReplyEvent::TimedOut => error_response("child response timeout"),
    }
}

/// The response where the coordinator has no child to send to.
pub fn no_child(direct: &str) -> (r: Response)
    ensures
        r@ == (ResponseView::Error { error: "no child "@ + direct@ }),
{
    Response::Error { error: cat("no child ", direct) }
}

/// Commands that the coordinator carries out itself for the target `init`.
pub open spec fn is_local(cmd: Command) -> bool {
    cmd is FsRead || cmd is FsWrite || cmd is FsDelete || cmd is NetConnect
}

/// Whether the coordinator carries the command out itself.
pub fn runs_locally(cmd: &Command) -> (r: bool)
    ensures
        r == is_local(*cmd),
{
    matches!(
        cmd,
        Command::FsRead { .. } | Command::FsWrite { .. } | Command::FsDelete { .. }
            | Command::NetConnect { .. }
    )
}

/// What came of carrying out a local command.
#[allow(inconsistent_fields)]
pub enum LocalEvent {
    /// A file was read, or could not be.
    Read { data: Option<String> },
    /// A file was written or deleted, or the error that came.
    Changed { error: Option<String> },
    /// A connection was made and the peer sent bytes (none where nothing came back in time).
    Echoed { bytes: Vec<u8> },
    /// The connection was refused.
    ConnectError { error: String },
    /// No connection came about in time.
    ConnectTimeout,
    /// The command is not one that is carried out locally.
    Unsupported,
}

pub open spec fn local_reply_view(ev: LocalEvent) -> ResponseView {
    match ev {
        LocalEvent::Read { data: Some(d) } => ResponseView::Done { data: Some(d@) },
        LocalEvent::Read { data: None } => ResponseView::NotFound,
        LocalEvent::Changed { error: None } => ResponseView::Done { data: None },
        LocalEvent::Changed { error: Some(e) } => ResponseView::Error { error: e@ },
        LocalEvent::Echoed { bytes } => if bytes@.len() > 0 {
            ResponseView::Connected { echo: lossy_text(bytes@) }
        } else {
            ResponseView::ConnectFailed { error: "no echo"@ }
        },
        LocalEvent::ConnectError { error } => ResponseView::ConnectFailed { error: error@ },
        LocalEvent::ConnectTimeout => ResponseView::ConnectFailed { error: "timeout"@ },
        LocalEvent::Unsupported => ResponseView::Error { error: "not implemented locally"@ },
    }
}

/// The response to a local command.
pub fn local_reply(ev: LocalEvent) -> (r: Response)
    ensures
        r@ == local_reply_view(ev),
{
    match ev {
        LocalEvent::Read { data } => match data {
            Some(d) => Response::Done { data: Some(d) },
            None => Response::NotFound,
        },
        LocalEvent::Changed { error } => match error {
            None => Response::Done { data: None },
            Some(e) => Response::Error { error: e },
        },
        LocalEvent::Echoed { bytes } => if bytes.len() > 0 {
            Response::Connected { echo: lossy(bytes.as_slice()) }
        } else {
            Response::ConnectFailed { error: "no echo".to_string() }
        },
        LocalEvent::ConnectError { error } => Response::ConnectFailed { error },
        LocalEvent::ConnectTimeout => Response::ConnectFailed { error: "timeout".to_string() },
        LocalEvent::Unsupported => error_response("not implemented locally"),
    }
}

/// A command goes to the first agent of the tree exactly if its target begins with that agent's
/// letter, and else straight to the target; it travels on below that agent exactly if the target
/// is not the agent itself.
pub proof fn law_direct_child(target: Seq<char>)
    ensures
        starts_with_text(target, "A"@) ==> route_of(target).0 == "A"@,
        !starts_with_text(target, "A"@) ==> route_of(target) == (target, None::<Seq<char>>),
        route_of("A"@) == ("A"@, None::<Seq<char>>),
        starts_with_text(target, "A"@) && target != "A"@ ==> route_of(target).1 == Some(target),
{
    reveal_strlit("A");
    reveal_strlit("B");
    if target == "B"@ {
        if starts_with_text(target, "A"@) {
            assert(target.subrange(0, 1)[0] == 'A');
        }
    }
}

/// Below the first agent a command passes through one more agent exactly if its target lies
/// below that one; every path ends at the target, and no path is longer than two hops.
pub proof fn law_path_below(t: Seq<char>)
    ensures
        hops(None).len() == 0,
        hops(Some(t)).last() == t,
        hops(Some(t)).len() == if starts_with_text(t, "AA"@) && t != "AA"@ {
            2nat
        } else {
            1nat
        },
        hops(Some(t)).len() == 2 ==> hops(Some(t))[0] == "AA"@,
{
    reveal_strlit("AA");
    reveal_strlit("AB");
    if t == "AB"@ && starts_with_text(t, "AA"@) {
        assert(t.subrange(0, 2)[1] == 'A');
    }
}

/// An agent starts only children whose name is its own and one letter more, two of them or none,
/// and only two agents start any.
pub proof fn law_children_are_named_after_parent(id: Seq<char>)
    ensures
        forall|k: int|
            0 <= k < sub_children_of(id).len() ==> (#[trigger] sub_children_of(id)[k]).drop_last()
                == id,
        sub_children_of(id).len() == 2 <==> id == "A"@ || id == "AA"@,
        sub_children_of(id).len() == 2 || sub_children_of(id).len() == 0,
        sub_children_of(id).len() == 2 ==> sub_children_of(id)[0].last() == 'A'
            && sub_children_of(id)[1].last() == 'B',
{
    reveal_strlit("A");
    reveal_strlit("AA");
    reveal_strlit("AB");
    reveal_strlit("AAA");
    reveal_strlit("AAB");
    assert("AA"@.drop_last() =~= "A"@);
    assert("AB"@.drop_last() =~= "A"@);
    assert("AAA"@.drop_last() =~= "AA"@);
    assert("AAB"@.drop_last() =~= "AA"@);
}

/// A wrapped command is a forward for each hop, outermost first, and the command inside is the
/// one that was wrapped.
pub proof fn law_one_forward_per_hop(outer: Command, hop: Seq<char>, rest: Seq<Seq<char>>, cmd: Command)
    requires
        forwarded(outer, seq![hop] + rest, cmd),
    ensures
        outer matches Command::Forward { target, inner } && target@ == hop && forwarded(
            *inner,
            rest,
            cmd,
        ),
{
    assert((seq![hop] + rest).skip(1) =~= rest);
}

/// Without a hop nothing is wrapped, and what is not a forward is its own innermost command.
pub proof fn law_nothing_to_forward(outer: Command, cmd: Command)
    requires
        forwarded(outer, Seq::empty(), cmd),
    ensures
        outer == cmd,
        !(cmd is Forward) ==> innermost(outer) == cmd,
{
}

/// The coordinator reads the time of a program to run, and an agent also that of a program with a
/// marker and of a handler; other commands have no time of their own. An agent waits five seconds
/// longer than the time, a minute where there is none, and five seconds more for children.
pub proof fn law_waits(cmd: Command)
    requires
        !(cmd is Forward),
    ensures
        cmd matches Command::Exec { timeout_secs, .. } ==> own_timeout(cmd) == timeout_secs
            && run_timeout(cmd) == timeout_secs,
        cmd matches Command::ExecReady { timeout_secs, .. } ==> own_timeout(cmd) is None
            && run_timeout(cmd) == timeout_secs,
        cmd matches Command::Run { timeout_secs, .. } ==> own_timeout(cmd) is None && run_timeout(
            cmd,
        ) == timeout_secs,
        !(cmd is Exec || cmd is ExecReady || cmd is Run) ==> own_timeout(cmd) is None
            && run_timeout(cmd) is None,
        run_timeout(cmd) matches Some(t) ==> child_wait_of(cmd) == t + 5,
        run_timeout(cmd) is None && (cmd is Spawn || cmd is SpawnRemote) ==> child_wait_of(cmd)
            == 65,
        run_timeout(cmd) is None && !(cmd is Spawn || cmd is SpawnRemote) ==> child_wait_of(cmd)
            == 60,
{
}

/// An answer that came is handed on as it is, and whatever else happened is an error that says
/// what: the coordinator and an agent differ in the words only.
pub proof fn law_replies_are_handed_on(ev: ReplyEvent)
    ensures
        ev matches ReplyEvent::Parsed { response } ==> coordinator_reply_view(ev) == response@
            && child_reply_view(ev) == response@,
        !(ev is Parsed) ==> coordinator_reply_view(ev) is Error && child_reply_view(ev) is Error,
        ev is WriteFailed ==> coordinator_reply_view(ev)->Error_error == "write failed"@
            && child_reply_view(ev)->Error_error == "write to child failed"@,
        ev is Eof ==> coordinator_reply_view(ev)->Error_error == "EOF"@ && child_reply_view(ev)->Error_error
            == "child EOF"@,
        ev is TimedOut ==> coordinator_reply_view(ev)->Error_error == "timeout"@ && child_reply_view(
            ev,
        )->Error_error == "child response timeout"@,
        ev matches ReplyEvent::ReadError { error } ==> coordinator_reply_view(ev)->Error_error == "read: "@
            + error@ && child_reply_view(ev)->Error_error == "child read: "@ + error@,
        ev matches ReplyEvent::Unparsed { error, line } ==> coordinator_reply_view(ev)->Error_error
            == "parse: "@ + error@ + ": "@ + line@ && child_reply_view(ev)->Error_error
            == "child response parse: "@ + error@ + ": "@ + line@,
{
}

/// A file that could not be read was not found; a peer that sent nothing, was refused or did not
/// come in time is a failed connection; and what worked is answered with what it brought.
pub proof fn law_local_answers(ev: LocalEvent)
    ensures
        ev matches LocalEvent::Read { data } ==> {
            &&& data matches Some(d) ==> local_reply_view(ev) == (ResponseView::Done {
                data: Some(d@),
            })
            &&& data is None ==> local_reply_view(ev) is NotFound
        },
        ev matches LocalEvent::Changed { error } ==> {
            &&& error is None ==> local_reply_view(ev) == (ResponseView::Done { data: None })
            &&& error matches Some(e) ==> local_reply_view(ev) == (ResponseView::Error {
                error: e@,
            })
        },
        local_reply_view(ev) is Connected <==> (ev matches LocalEvent::Echoed { bytes }
            && bytes@.len() > 0),
        ev matches LocalEvent::Echoed { bytes } ==> (bytes@.len() > 0 ==> local_reply_view(ev) == (
        ResponseView::Connected { echo: lossy_text(bytes@) })),
        ev matches LocalEvent::Echoed { bytes } ==> (bytes@.len() == 0 ==> local_reply_view(ev) == (
        ResponseView::ConnectFailed { error: "no echo"@ })),
        ev matches LocalEvent::ConnectError { error } ==> local_reply_view(ev) == (
        ResponseView::ConnectFailed { error: error@ }),
        ev is ConnectTimeout ==> local_reply_view(ev) == (ResponseView::ConnectFailed {
            error: "timeout"@,
        }),
        ev is Unsupported ==> local_reply_view(ev) is Error,
{
}

/// The coordinator carries out four commands itself, and no other.
pub proof fn law_local_commands(cmd: Command)
    ensures
        cmd is FsRead || cmd is FsWrite || cmd is FsDelete || cmd is NetConnect <==> is_local(cmd),
{
}

} // verus!
