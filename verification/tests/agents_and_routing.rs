use litebox_test_harness::agents::{
    agent_spec, default_tree, AgentBinary, AgentName, AgentSpec, IsolationKind, SpawnKind,
};
use litebox_test_harness::inherit::{
    check_port_count, dup_outcome, parse_item, parse_mapping, pick_listener, slot, slot_is_free,
    write_mapping, DupOutcome, Inheriting, Placing, PortFound, INHERITED_LISTEN_FD_BASE,
    INHERITED_LISTEN_FD_LIMIT,
};
use litebox_test_harness::observers::Observer;
use litebox_test_harness::protocol::{
    error_response, exec_result, exec_timed_out, Command, Response,
};
use litebox_test_harness::registry::RegistrationContext;
use litebox_test_harness::routing::{
    child_reply, child_wait, coordinator_reply, coordinator_wait, exec, exec_timeout, innermost_of,
    local_reply, no_child, route, runs_locally, sub_children, wrap_forwards, LocalEvent, ReplyEvent,
};

const ALL: [AgentName; 21] = [
    AgentName::Init,
    AgentName::Dpg1,
    AgentName::Dpg1Dpg1,
    AgentName::Dpg1Dpg2,
    AgentName::Dpg1Dpg1Dpg1,
    AgentName::Dpg1Dpg1Dpg2,
    AgentName::Dpg2,
    AgentName::Dpg2Dpg,
    AgentName::Dpg1Dng,
    AgentName::Dpg1DngDpg,
    AgentName::Dpg1Spg,
    AgentName::Dpg1Spm,
    AgentName::Dpg1Snm,
    AgentName::Dpg3,
    AgentName::Dpg3Dpg,
    AgentName::VsCodeSshdPty,
    AgentName::VsCodeLoginBash,
    AgentName::VsCodePipedSh,
    AgentName::VsCodeLauncherBash,
    AgentName::VsCodeCli,
    AgentName::VsCodeNode,
];

#[test]
fn names_travel_there_and_back() {
    for a in ALL {
        assert_eq!(AgentName::from_wire(a.name()), Some(a));
    }
    assert_eq!(AgentName::from_wire("dpg9"), None);
    assert_eq!(AgentName::from_wire(""), None);
    assert_eq!(AgentName::Dpg1Dpg1Dpg2.name(), "dpg1_dpg1_dpg2");
    for o in [Observer::DngDng, Observer::DngSpm, Observer::SpmDng] {
        assert_eq!(AgentName::from_wire(o.name()), None);
    }
}

#[test]
fn the_parent_is_the_last_ancestor() {
    for a in ALL {
        assert_eq!(a.parent(), a.ancestors().last().copied());
        assert!(!a.ancestors().contains(&a));
        if let Some(p) = a.parent() {
            let mut chain = p.ancestors().to_vec();
            chain.push(p);
            assert_eq!(a.ancestors(), chain.as_slice());
        }
    }
    assert_eq!(
        AgentName::Dpg1Dpg1Dpg1.ancestors(),
        &[AgentName::Dpg1, AgentName::Dpg1Dpg1][..]
    );
    assert_eq!(AgentName::Init.parent(), None);
}

#[test]
fn the_tree_names_parents_before_children() {
    let tree = default_tree(Vec::new());
    assert_eq!(tree.len(), 14);
    let row = |name, parent, isolation| AgentSpec {
        name,
        parent: Some(parent),
        binary: AgentBinary::Pie,
        isolation,
    };
    assert_eq!(tree[8], row(AgentName::Dpg1DngDpg, AgentName::Dpg1Dng, IsolationKind::Standard));
    assert_eq!(
        tree[13],
        row(AgentName::Dpg3Dpg, AgentName::Dpg3, IsolationKind::DisposableSubtree)
    );
    for a in ALL {
        let here = tree.iter().filter(|s| s.name == a).count();
        let elsewhere = a == AgentName::Init || a.name().starts_with("vscode_");
        assert_eq!(here, usize::from(!elsewhere), "{a:?}");
    }
    for (i, s) in tree.iter().enumerate() {
        assert_eq!(s.parent, s.name.parent());
        if let Some(p) = s.parent {
            assert!(tree[..i].iter().any(|e| e.name == p), "{s:?}");
        }
    }
    let dng = tree.iter().find(|s| s.name == AgentName::Dpg1Dng);
    assert_eq!(dng.map(|s| s.binary), Some(AgentBinary::NonPie));
    for s in &tree {
        let disposable = matches!(s.name, AgentName::Dpg3 | AgentName::Dpg3Dpg);
        assert_eq!(s.isolation == IsolationKind::DisposableSubtree, disposable);
    }
}

#[test]
fn names_hold_the_way_through_the_tree() {
    let tree = default_tree(Vec::new());
    for s in &tree {
        let word = match s.binary {
            AgentBinary::Pie => "dpg",
            AgentBinary::NonPie => "dng",
            AgentBinary::StaticPieGlibc => "spg",
            AgentBinary::StaticPieMusl => "spm",
            AgentBinary::NonPieStaticMusl => "snm",
        };
        let head = s.parent.map_or(String::new(), |p| format!("{}_", p.name()));
        let number = s.name.name().strip_prefix(&format!("{head}{word}")).unwrap();
        let alike = tree.iter().filter(|o| o.parent == s.parent && o.binary == s.binary).count();
        assert_eq!(number.parse::<u8>().is_ok(), alike > 1, "{s:?}");
        assert_eq!(number.is_empty(), alike == 1);
    }
}

#[test]
fn specs_are_found_by_name() {
    let extra = AgentSpec {
        name: AgentName::VsCodeCli,
        parent: AgentName::VsCodeCli.parent(),
        binary: AgentBinary::StaticPieMusl,
        isolation: IsolationKind::Standard,
    };
    assert_eq!(agent_spec(AgentName::VsCodeCli, vec![extra]), Some(extra));
    assert_eq!(agent_spec(AgentName::VsCodeCli, Vec::new()), None);
    assert_eq!(agent_spec(AgentName::Init, Vec::new()), None);
    let spm = agent_spec(AgentName::Dpg1Spm, vec![extra]);
    assert_eq!(spm.map(|s| s.binary), Some(AgentBinary::StaticPieMusl));
    assert_eq!(spm.and_then(|s| s.parent), Some(AgentName::Dpg1));
}

#[test]
fn binaries_and_their_labels() {
    let rows = [
        (AgentBinary::Pie, "self", false),
        (AgentBinary::NonPie, "nonpie", true),
        (AgentBinary::StaticPieGlibc, "static-pie-glibc", true),
        (AgentBinary::StaticPieMusl, "static-pie-musl", true),
        (AgentBinary::NonPieStaticMusl, "non-pie-static-musl", true),
    ];
    for (b, label, companion) in rows {
        assert_eq!(b.fork_binary_label(), label);
        assert_eq!(b.needs_companion_binary(), companion);
    }
}

#[test]
fn handles_remember_what_was_declared() {
    let mut cx = RegistrationContext::new();
    let h = cx.require(AgentName::Dpg2);
    assert_eq!(h.name(), AgentName::Dpg2);
    let kind = SpawnKind::Fork { binary: "nonpie", inherit_listen_ports: vec![8080] };
    let e = cx.declare_ephemeral(AgentName::Dpg1, "leaf", kind.clone());
    assert_eq!(e.parent(), AgentName::Dpg1);
    assert_eq!(e.label(), "leaf");
    assert_eq!(e.kind(), &kind);
    assert!(e.kind().needs_nonpie());
    assert!(SpawnKind::NonPie.needs_nonpie());
    assert!(!SpawnKind::Pie.needs_nonpie());
    assert!(!SpawnKind::Fork { binary: "self", inherit_listen_ports: Vec::new() }.needs_nonpie());
}

fn forward_path(cmd: &Command) -> Vec<String> {
    let mut path = Vec::new();
    let mut at = cmd;
    while let Command::Forward { target, inner } = at {
        path.push(target.clone());
        at = inner;
    }
    path
}

#[test]
fn routes_lead_through_the_tree() {
    assert_eq!(route("init"), ("init", None));
    assert_eq!(route("A"), ("A", None));
    assert_eq!(route("B"), ("B", None));
    assert_eq!(route("AB"), ("A", Some("AB")));
    assert_eq!(route("AAB"), ("A", Some("AAB")));
    for (target, path) in [
        ("A", Vec::new()),
        ("AA", vec!["AA"]),
        ("AB", vec!["AB"]),
        ("AAA", vec!["AA", "AAA"]),
        ("AAB", vec!["AA", "AAB"]),
    ] {
        let (_, rest) = route(target);
        assert_eq!(forward_path(&wrap_forwards(rest, Command::CwdGet)), path);
    }
    assert_eq!(sub_children("A"), vec!["AA", "AB"]);
    assert_eq!(sub_children("AA"), vec!["AAA", "AAB"]);
    assert!(sub_children("B").is_empty());
}

#[test]
fn a_route_to_a_child_extends_the_route_to_its_parent() {
    for parent in ["A", "AA"] {
        for child in sub_children(parent) {
            assert_eq!(route(&child).0, route(parent).0);
            let mut path = forward_path(&wrap_forwards(route(parent).1, Command::CwdGet));
            path.push(child.clone());
            assert_eq!(forward_path(&wrap_forwards(route(&child).1, Command::CwdGet)), path);
        }
    }
}

#[test]
fn forwarding_keeps_the_command_and_the_waits() {
    let wrapped = wrap_forwards(Some("AAB"), exec_timeout(vec!["x".to_string()], 7));
    assert!(matches!(
        innermost_of(&wrapped),
        Command::Exec { timeout_secs: Some(7), background: false, stdin: None, .. }
    ));
    assert_eq!(coordinator_wait(&wrapped), 12);
    assert_eq!(child_wait(&wrapped), 12);
    let plain = wrap_forwards(Some("AAB"), exec(vec!["x".to_string()]));
    assert_eq!(coordinator_wait(&plain), 15);
    assert_eq!(child_wait(&plain), 60);
    assert_eq!(child_wait(&Command::Spawn { children: Vec::new() }), 65);
    assert_eq!(child_wait(&Command::SpawnRemote { children: Vec::new() }), 65);
    let run = Command::Run {
        handler: "h".to_string(),
        args: "{}".to_string(),
        timeout_secs: Some(1),
    };
    assert_eq!(child_wait(&run), 6);
    assert_eq!(coordinator_wait(&run), 15);
}

fn shown(r: Response) -> String {
    r.debug_text()
}

#[test]
fn replies_of_the_coordinator_and_of_an_agent() {
    let rows: [(ReplyEvent, &str); 5] = [
        (ReplyEvent::WriteFailed, "write failed"),
        (ReplyEvent::Unparsed { error: "e".to_string(), line: "l".to_string() }, "parse: e: l"),
        (ReplyEvent::Eof, "EOF"),
        (ReplyEvent::ReadError { error: "e".to_string() }, "read: e"),
        (ReplyEvent::TimedOut, "timeout"),
    ];
    for (ev, text) in rows {
        assert_eq!(shown(coordinator_reply(ev)), format!("Error {{ error: {text:?} }}"));
    }
    let rows: [(ReplyEvent, &str); 5] = [
        (ReplyEvent::WriteFailed, "write to child failed"),
        (
            ReplyEvent::Unparsed { error: "e".to_string(), line: "l".to_string() },
            "child response parse: e: l",
        ),
        (ReplyEvent::Eof, "child EOF"),
        (ReplyEvent::ReadError { error: "e".to_string() }, "child read: e"),
        (ReplyEvent::TimedOut, "child response timeout"),
    ];
    for (ev, text) in rows {
        assert_eq!(shown(child_reply(ev)), format!("Error {{ error: {text:?} }}"));
    }
    let kept = ReplyEvent::Parsed { response: Response::Listening { port: 9 } };
    assert_eq!(shown(coordinator_reply(kept)), "Listening { port: 9 }");
    let kept = ReplyEvent::Parsed { response: Response::NotFound };
    assert_eq!(shown(child_reply(kept)), "NotFound");
    assert_eq!(shown(no_child("A")), "Error { error: \"no child A\" }");
}

#[test]
fn local_commands_and_their_replies() {
    assert!(runs_locally(&Command::FsRead { path: "/x".to_string() }));
    assert!(runs_locally(&Command::NetConnect { addr: "a".to_string(), data: String::new() }));
    assert!(!runs_locally(&Command::CwdGet));
    let rows = [
        (LocalEvent::Read { data: Some("d".to_string()) }, "Ok { data: Some(\"d\") }"),
        (LocalEvent::Read { data: None }, "NotFound"),
        (LocalEvent::Changed { error: None }, "Ok { data: None }"),
        (LocalEvent::Changed { error: Some("e".to_string()) }, "Error { error: \"e\" }"),
        (LocalEvent::Echoed { bytes: vec![104, 105, 255] }, "Connected { echo: \"hi\u{fffd}\" }"),
        (LocalEvent::Echoed { bytes: Vec::new() }, "ConnectFailed { error: \"no echo\" }"),
        (
            LocalEvent::ConnectError { error: "r".to_string() },
            "ConnectFailed { error: \"r\" }",
        ),
        (LocalEvent::ConnectTimeout, "ConnectFailed { error: \"timeout\" }"),
        (LocalEvent::Unsupported, "Error { error: \"not implemented locally\" }"),
    ];
    for (ev, text) in rows {
        assert_eq!(shown(local_reply(ev)), text);
    }
}

#[test]
fn responses_show_as_derived_debug_does() {
    let rows = vec![
        Response::NotFound,
        error_response("a \"b\"\n"),
        Response::Connected { echo: "é\u{1}".to_string() },
        Response::ConnectFailed { error: String::new() },
        Response::Listening { port: 65535 },
        exec_result(Some(-3), b"out\xff", b"err\t"),
        exec_result(None, b"", b""),
        exec_timed_out(9),
        Response::Background { pid: 4_000_000_000 },
        Response::BackgroundReady { pid: 1 },
    ];
    for r in rows {
        assert_eq!(r.debug_text(), format!("{r:?}"));
    }
    assert_eq!(Response::Done { data: None }.debug_text(), "Ok { data: None }");
    assert!(matches!(
        exec_result(None, b"x\xf0", b""),
        Response::ExecResult { exit_code: -1, stdout, .. } if stdout == "x\u{fffd}"
    ));
    assert!(matches!(
        exec_timed_out(9),
        Response::ExecTimeout { stderr } if stderr == "process timed out after 9s (likely deadlocked)"
    ));
}

#[test]
fn listener_mappings_travel_there_and_back() {
    let pairs: Vec<(u16, i32)> = vec![(8080, 80), (1, -5), (65535, 99)];
    let text = write_mapping(&pairs);
    assert_eq!(text, "8080=80,1=-5,65535=99");
    assert_eq!(parse_mapping(&text), Ok(pairs));
    assert_eq!(parse_mapping(""), Ok(Vec::new()));
    assert_eq!(write_mapping(&Vec::new()), "");
    assert_eq!(parse_item("22=3"), Ok((22, 3)));
}

#[test]
fn bad_listener_mappings_are_told_apart() {
    assert_eq!(parse_mapping("8080"), Err("bad inherited listener item \"8080\"".to_string()));
    assert_eq!(parse_mapping("1=2,"), Err("bad inherited listener item \"\"".to_string()));
    assert_eq!(
        parse_mapping("65536=1"),
        Err("bad inherited port \"65536\": number too large to fit in target type".to_string())
    );
    assert_eq!(
        parse_mapping("1=x"),
        Err("bad inherited fd \"x\": invalid digit found in string".to_string())
    );
}

#[test]
fn inherited_slots() {
    assert_eq!(check_port_count(20), Ok(()));
    assert_eq!(
        check_port_count(21),
        Err("too many inherited listen ports: 21 (slot range 80-99)".to_string())
    );
    for i in 0..20 {
        assert_eq!(slot(i), INHERITED_LISTEN_FD_BASE + i as i32);
        assert!(slot(i) <= INHERITED_LISTEN_FD_LIMIT);
    }
    assert_eq!(pick_listener(Some(3), Some(4), 80), Ok(3));
    assert_eq!(pick_listener(None, Some(4), 80), Ok(4));
    assert_eq!(
        pick_listener(None, None, 80),
        Err("no listener registered for port 80".to_string())
    );
    assert_eq!(slot_is_free(80, -1, Some(libc::EBADF), "bad"), Ok(()));
    assert_eq!(
        slot_is_free(80, 1, None, ""),
        Err("inherited fd slot 80 is already occupied".to_string())
    );
    assert_eq!(
        slot_is_free(80, -1, Some(libc::EINVAL), "odd"),
        Err("inspect inherited fd slot 80: odd".to_string())
    );
}

#[test]
fn duplicated_listeners_land_in_their_slot() {
    assert!(matches!(dup_outcome(5, 80, 80, ""), DupOutcome::Placed));
    assert!(matches!(
        dup_outcome(5, 80, -1, "full"),
        DupOutcome::Failed { error } if error == "dup fd 5 to inherited slot 80: full"
    ));
    assert!(matches!(
        dup_outcome(5, 80, 81, ""),
        DupOutcome::Misplaced { close: 81, error }
            if error == "inherited fd slot 80 was not allocated (got 81)"
    ));
}

fn found(own: Option<i32>, ret: i32) -> PortFound {
    PortFound {
        own,
        bridged: None,
        flags: -1,
        errno: Some(libc::EBADF),
        flags_error: "bad".to_string(),
        ret,
        dup_error: "full".to_string(),
    }
}

fn place_all(ports: &[u16], what: Vec<PortFound>) -> Result<Vec<(u16, i32)>, String> {
    let mut list = match Inheriting::start(ports.to_vec()) {
        Ok(list) => list,
        Err(e) => return Err(e),
    };
    for f in what {
        let (port, slot) = list.next().unwrap();
        assert!(ports.contains(&port));
        match list.place(f) {
            Placing::Placed { slot: at } => assert_eq!(at, slot),
            Placing::Stopped { error, .. } => return Err(error),
        }
    }
    assert_eq!(list.next(), None);
    Ok(list.finish())
}

#[test]
fn a_child_inherits_every_port_in_order() {
    let ports = [18080, 18443, 7];
    let what = vec![found(Some(5), 80), found(Some(6), 81), found(Some(5), 82)];
    let pairs = place_all(&ports, what).unwrap();
    assert_eq!(pairs, vec![(18080, 80), (18443, 81), (7, 82)]);
    assert_eq!(parse_mapping(&write_mapping(&pairs)), Ok(pairs));
    assert_eq!(place_all(&[], Vec::new()), Ok(Vec::new()));
}

#[test]
fn the_first_port_that_cannot_be_placed_decides() {
    let many: Vec<u16> = (1..=21).collect();
    assert_eq!(
        place_all(&many, Vec::new()),
        Err("too many inherited listen ports: 21 (slot range 80-99)".to_string())
    );
    let ports = [1, 2, 3];
    assert_eq!(
        place_all(&ports, vec![found(Some(5), 80), found(None, -1), found(Some(5), -1)]),
        Err("no listener registered for port 2".to_string())
    );
    let taken = PortFound { flags: 1, ..found(Some(5), -1) };
    assert_eq!(
        place_all(&ports, vec![taken, found(None, -1)]),
        Err("inherited fd slot 80 is already occupied".to_string())
    );
    // A port without a listener is not looked at any further.
    let nothing = PortFound { flags: 1, ..found(None, -1) };
    assert_eq!(
        place_all(&ports, vec![nothing]),
        Err("no listener registered for port 1".to_string())
    );
    assert_eq!(
        place_all(&ports, vec![found(Some(5), -1)]),
        Err("dup fd 5 to inherited slot 80: full".to_string())
    );
    let mut list = Inheriting::start(vec![9]).ok().unwrap();
    assert!(matches!(
        list.place(found(Some(5), 83)),
        Placing::Stopped { close: Some(83), error }
            if error == "inherited fd slot 80 was not allocated (got 83)"
    ));
    assert_eq!(list.next(), Some((9, 80)));
}
