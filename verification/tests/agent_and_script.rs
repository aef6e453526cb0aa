use std::collections::HashMap;

use litebox_test_harness::agent::{
    background_reply, bad_command, decide, exec_reply, fork_exe, forked, line_step, marker_in_line,
    marker_stream_matches, ready_reply, ready_step, spawned, Action, AgentBook, ExecEvent, ForkExe,
    LineStep, PollWait, ReadyEvent, ReadyStep,
};
use litebox_test_harness::agent_run::{command_step, performed, CommandStep, Performed};
use litebox_test_harness::plan_basic::{env_tests, exec_tests, fs_tests, net_tests};
use litebox_test_harness::plan_node::node_exec_tests;
use litebox_test_harness::plan_vscode::vscode_repro_tests;
use litebox_test_harness::protocol::{Command, Response};
use litebox_test_harness::script::{
    absent, accept, argv, command, detail, lacks_dev_fd, record_line, Absent, Accept, Call, Detail,
    Next, Probe, Record, Run, Shape, Stage, Verdict,
};

fn ran(code: i32, stdout: &str, stderr: &str) -> Response {
    Response::ExecResult {
        exit_code: code,
        stdout: stdout.to_string(),
        stderr: stderr.to_string(),
    }
}

fn done(text: &str) -> Response {
    Response::Done { data: Some(text.to_string()) }
}

#[test]
fn markers_are_sought_on_their_stream() {
    assert!(marker_stream_matches("either", "stdout"));
    assert!(marker_stream_matches("stderr", "stderr"));
    assert!(!marker_stream_matches("stderr", "stdout"));
    assert!(marker_in_line("stdout", "stdout", b"\xff READY now", "READY"));
    assert!(!marker_in_line("stderr", "stdout", b"READY", "READY"));
    assert!(!marker_in_line("either", "stdout", b"reading", "READY"));
}

#[test]
fn lines_are_trimmed_before_parsing() {
    assert!(matches!(line_step(" \n"), LineStep::Blank));
    assert!(matches!(line_step(" {\"a\":1}\n"), LineStep::Parse { text } if text == "{\"a\":1}"));
    assert_eq!(bad_command("eof").debug_text(), "Error { error: \"parse error: eof\" }");
}

#[test]
fn fork_labels_choose_a_program() {
    assert_eq!(fork_exe("nonpie"), ForkExe::NonPie);
    assert_eq!(fork_exe("static-pie-glibc"), ForkExe::StaticPieGlibc);
    assert_eq!(fork_exe("static-pie-musl"), ForkExe::StaticPieMusl);
    assert_eq!(fork_exe("non-pie-static-musl"), ForkExe::NonPieStaticMusl);
    assert_eq!(fork_exe("self"), ForkExe::Own);
    assert_eq!(fork_exe("anything"), ForkExe::Own);
}

#[test]
fn an_agent_forwards_only_to_its_children() {
    let mut book = AgentBook::new();
    let forward =
        || Command::Forward { target: "AA".to_string(), inner: Box::new(Command::CwdGet) };
    assert!(matches!(
        decide(&book, forward()),
        Action::Reply { response: Response::Error { error } } if error == "unknown child: AA"
    ));
    book.add_child("AA");
    book.add_child("AA");
    assert!(book.has_child("AA"));
    assert!(matches!(
        decide(&book, forward()),
        Action::Forward { target, .. } if target == "AA"
    ));
    book.add_background(7);
    book.add_background(7);
    for port in [80, 81, 80, 82] {
        book.add_listener(port);
    }
    book.drop_listeners(81);
    book.drop_listeners(9);
    let (pids, names, ports) = book.shutdown();
    assert_eq!(pids, vec![7]);
    assert_eq!(names, vec!["AA"]);
    assert_eq!(ports, vec![80, 80, 82]);
    assert_eq!(book.shutdown(), (Vec::new(), Vec::new(), Vec::new()));
    assert!(!book.has_child("AA"));
}

fn exec_command(args: &[&str], secs: Option<u64>, background: bool) -> Command {
    Command::Exec {
        args: args.iter().map(|a| a.to_string()).collect(),
        timeout_secs: secs,
        stdin: None,
        background,
        env: Vec::new(),
    }
}

fn ready_command(args: &[&str], secs: Option<u64>, stream: &str) -> Command {
    Command::ExecReady {
        args: args.iter().map(|a| a.to_string()).collect(),
        ready_marker: "R".to_string(),
        timeout_secs: secs,
        stdin: None,
        stream: stream.to_string(),
    }
}

#[test]
fn an_agent_decides_what_a_command_asks() {
    let book = AgentBook::new();
    assert!(matches!(
        decide(&book, exec_command(&["ls"], None, false)),
        Action::Exec { secs: 10, .. }
    ));
    assert!(matches!(
        decide(&book, exec_command(&["ls"], Some(3), false)),
        Action::Exec { secs: 3, .. }
    ));
    assert!(matches!(
        decide(&book, exec_command(&["ls"], Some(3), true)),
        Action::ExecBackground { .. }
    ));
    assert!(matches!(
        decide(&book, exec_command(&[], None, true)),
        Action::Reply { response: Response::Error { error } } if error == "exec requires args"
    ));
    assert!(matches!(
        decide(&book, ready_command(&["x"], None, "either")),
        Action::ExecReady { secs: 30, .. }
    ));
    assert!(matches!(
        decide(&book, ready_command(&[], None, "either")),
        Action::Reply { response: Response::Error { error } } if error == "exec_ready requires args"
    ));
    assert!(matches!(
        decide(&book, ready_command(&["x"], None, "both")),
        Action::Reply { response: Response::Error { error } }
            if error == "invalid marker stream \"both\"; expected stdout, stderr, or either"
    ));
    assert!(matches!(
        decide(&book, Command::Resume { tag: "t".to_string() }),
        Action::Reply { response: Response::Error { error } }
            if error == "Resume { tag: t } received outside handler context"
    ));
    assert!(matches!(
        decide(&book, Command::SpawnRemote { children: vec!["B".to_string()] }),
        Action::SpawnAll { remote: true, .. }
    ));
    assert!(matches!(
        decide(
            &book,
            Command::Fork {
                name: "n".to_string(),
                binary: "nonpie".to_string(),
                inherit_listen_ports: vec![1],
            }
        ),
        Action::Fork { exe: ForkExe::NonPie, ports, .. } if ports == vec![1]
    ));
    assert!(matches!(
        decide(
            &book,
            Command::Run { handler: "h".to_string(), args: "{}".to_string(), timeout_secs: None }
        ),
        Action::RunHandler { handler, .. } if handler == "h"
    ));
    assert!(matches!(decide(&book, Command::Exit), Action::Shutdown));
    assert!(matches!(
        decide(&book, Command::CwdGet),
        Action::Primitive { command: Command::CwdGet }
    ));
}

/// An agent over lines: what it answered, and what it handed out once told to leave. A line
/// is a word here: `?` is no command, `spawn` starts two children of which one fails, `run`
/// leaves a program running, `listen` and `unlisten` speak of one port, `exit` leaves.
fn drive_agent(lines: &[&str]) -> (Vec<String>, Option<(Vec<u32>, Vec<String>, Vec<u16>)>) {
    let mut book = AgentBook::new();
    let mut answers = Vec::new();
    for line in lines {
        let text = match line_step(line) {
            LineStep::Blank => continue,
            LineStep::Parse { text } => text,
        };
        let parsed = match text.as_str() {
            "spawn" => Ok(Command::Spawn { children: vec!["AA".to_string(), "AB".to_string()] }),
            "run" => Ok(exec_command(&["/bin/true"], None, true)),
            "listen" => Ok(Command::NetListen { port: 80 }),
            "unlisten" => Ok(Command::NetUnlisten { port: 80 }),
            "exit" => Ok(Command::Exit),
            other => Err(format!("no {other}")),
        };
        match command_step(&mut book, parsed) {
            CommandStep::Answer { response } => answers.push(response.debug_text()),
            CommandStep::Leave { pids, names, ports } => {
                return (answers, Some((pids, names, ports)))
            }
            CommandStep::Perform { action } => {
                let done = match action {
                    Action::SpawnAll { names, remote } => Performed::Spawned {
                        names,
                        errors: vec![None, Some("full".to_string())],
                        remote,
                    },
                    Action::ExecBackground { .. } => Performed::Started { started: Ok(9) },
                    Action::Listen { port } => Performed::Listened { port, error: None },
                    Action::Unlisten { port } => Performed::Unlistened { port },
                    _ => panic!("{text}"),
                };
                answers.extend(performed(&mut book, done).iter().map(|r| r.debug_text()));
            }
        }
    }
    (answers, None)
}

#[test]
fn a_bad_line_is_answered_once_and_changes_nothing() {
    let (plain, ends) = drive_agent(&["spawn", "run", "listen", "run", "exit"]);
    let lines = ["spawn", " \n", "?", "run", "listen", "", " ?? ", "run", "exit"];
    let (with, with_ends) = drive_agent(&lines);
    assert_eq!(ends, with_ends);
    assert_eq!(ends.map(|e| e.2), Some(vec![80]));
    let bad = |a: &&String| a.starts_with("Error { error: \"parse error: ");
    assert_eq!(with.iter().filter(bad).count(), 2);
    let rest: Vec<String> = with.iter().filter(|a| !bad(a)).cloned().collect();
    assert_eq!(rest, plain);
    assert_eq!(with[2], "Error { error: \"parse error: no ?\" }");
    assert_eq!(
        plain,
        vec![
            "Error { error: \"spawn AB: full\" }",
            "Ok { data: Some(\"2 children spawned\") }",
            "Background { pid: 9 }",
            "Listening { port: 80 }",
            "Background { pid: 9 }",
        ]
    );
}

#[test]
fn nothing_is_answered_after_leaving() {
    let (answers, ends) = drive_agent(&["spawn", "spawn", "run", "exit", "?", "run"]);
    assert_eq!(answers.len(), 5);
    assert_eq!(ends, Some((vec![9], vec!["AA".to_string()], Vec::new())));
    let nothing = Some((Vec::new(), Vec::new(), Vec::new()));
    assert_eq!(drive_agent(&["exit", "?"]), (Vec::new(), nothing));
    let (_, ends) = drive_agent(&["listen", "listen", "exit", "unlisten"]);
    assert_eq!(ends.map(|e| e.2), Some(vec![80, 80]));
    let (answers, ends) = drive_agent(&["listen", "unlisten", "exit"]);
    assert_eq!(answers, vec!["Listening { port: 80 }", "Ok { data: None }"]);
    assert_eq!(ends.map(|e| e.2), Some(Vec::new()));
}

#[test]
fn outcomes_become_answers() {
    let mut book = AgentBook::new();
    let rows = vec![
        (Performed::Replied { response: done("x") }, "Ok { data: Some(\"x\") }"),
        (
            Performed::Forked { name: "l".to_string(), binary: "self".to_string(), error: None },
            "Ok { data: Some(\"forked l (binary=self)\") }",
        ),
        (
            Performed::Forked {
                name: "m".to_string(),
                binary: "self".to_string(),
                error: Some("no".to_string()),
            },
            "Error { error: \"fork m: no\" }",
        ),
        (
            Performed::Ran { event: ExecEvent::SpawnFailed { error: "no".to_string() } },
            "Error { error: \"exec spawn: no\" }",
        ),
        (Performed::Waited { event: ReadyEvent::Seen { pid: 6 } }, "BackgroundReady { pid: 6 }"),
        (
            Performed::Listened { port: 5, error: Some("in use".to_string()) },
            "Error { error: \"in use\" }",
        ),
    ];
    for (outcome, text) in rows {
        let answers = performed(&mut book, outcome);
        assert_eq!(answers.len(), 1);
        assert_eq!(answers[0].debug_text(), text);
    }
    assert!(book.has_child("l") && !book.has_child("m"));
    let (pids, _, ports) = book.shutdown();
    assert_eq!((pids, ports), (vec![6], Vec::new()));
}

#[test]
fn spawned_children_are_known() {
    let mut book = AgentBook::new();
    let names = vec!["AA".to_string(), "AB".to_string()];
    let errors = vec![None, Some("no memory".to_string())];
    let texts: Vec<String> =
        spawned(&mut book, &names, &errors, false).iter().map(|r| r.debug_text()).collect();
    assert_eq!(
        texts,
        vec![
            "Error { error: \"spawn AB: no memory\" }",
            "Ok { data: Some(\"2 children spawned\") }",
        ]
    );
    assert!(book.has_child("AA"));
    assert!(!book.has_child("AB"));
    let texts: Vec<String> =
        spawned(&mut book, &names, &errors, true).iter().map(|r| r.debug_text()).collect();
    assert_eq!(
        texts,
        vec![
            "Error { error: \"spawn_remote AB: no memory\" }",
            "Ok { data: Some(\"2 remote children spawned\") }",
        ]
    );
    assert_eq!(
        forked(&mut book, "leaf", "nonpie", None).debug_text(),
        "Ok { data: Some(\"forked leaf (binary=nonpie)\") }"
    );
    assert!(book.has_child("leaf"));
    assert_eq!(
        forked(&mut book, "twig", "self", Some("EAGAIN")).debug_text(),
        "Error { error: \"fork twig: EAGAIN\" }"
    );
    assert!(!book.has_child("twig"));
}

#[test]
fn running_programs_is_answered() {
    assert_eq!(
        exec_reply(ExecEvent::SpawnFailed { error: "gone".to_string() }).debug_text(),
        "Error { error: \"exec spawn: gone\" }"
    );
    assert_eq!(
        exec_reply(ExecEvent::WaitFailed { error: "odd".to_string() }).debug_text(),
        "Error { error: \"exec wait: odd\" }"
    );
    assert_eq!(
        exec_reply(ExecEvent::Ended { code: Some(2), out: b"o".to_vec(), err: b"e".to_vec() })
            .debug_text(),
        "ExecResult { exit_code: 2, stdout: \"o\", stderr: \"e\" }"
    );
    assert!(matches!(exec_reply(ExecEvent::TimedOut { secs: 3 }), Response::ExecTimeout { .. }));
    let mut book = AgentBook::new();
    assert_eq!(background_reply(&mut book, Ok(9)).debug_text(), "Background { pid: 9 }");
    assert_eq!(
        background_reply(&mut book, Err("no".to_string())).debug_text(),
        "Error { error: \"exec spawn: no\" }"
    );
    assert_eq!(book.shutdown().0, vec![9]);
}

#[test]
fn waiting_for_a_marker() {
    let exited = || PollWait::Exited { status: "exit status: 1".to_string() };
    assert!(matches!(ready_step(true, exited(), false), ReadyStep::Ready));
    assert!(matches!(ready_step(false, PollWait::Running, true), ReadyStep::Again));
    assert!(matches!(ready_step(false, exited(), true), ReadyStep::Ready));
    assert!(matches!(
        ready_step(false, exited(), false),
        ReadyStep::Failed { error }
            if error == "process exited before ready_marker (status=exit status: 1)"
    ));
    assert!(matches!(
        ready_step(false, PollWait::Failed { error: "x".to_string() }, true),
        ReadyStep::Failed { error } if error == "exec_ready poll: x"
    ));
    let mut book = AgentBook::new();
    let rows = [
        (ReadyEvent::SpawnFailed { error: "s".to_string() }, "exec_ready spawn: s"),
        (ReadyEvent::PipeMissing { stdout: true }, "exec_ready: stdout pipe missing"),
        (ReadyEvent::PipeMissing { stdout: false }, "exec_ready: stderr pipe missing"),
        (ReadyEvent::Failed { error: "f".to_string() }, "f"),
        (ReadyEvent::TimedOut { secs: 4 }, "ready_marker not observed within 4s"),
    ];
    for (ev, text) in rows {
        assert_eq!(ready_reply(&mut book, ev).debug_text(), format!("Error {{ error: {text:?} }}"));
    }
    assert_eq!(
        ready_reply(&mut book, ReadyEvent::Seen { pid: 5 }).debug_text(),
        "BackgroundReady { pid: 5 }"
    );
    assert_eq!(book.shutdown().0, vec![5]);
}

#[test]
fn programs_and_their_arguments() {
    assert_eq!(argv(Shape::Own2("a", "b"), "/h"), vec!["/h", "a", "b"]);
    assert_eq!(argv(Shape::Program("/bin/true"), "/h"), vec!["/bin/true"]);
    assert_eq!(argv(Shape::Node("1"), "/h"), vec!["/usr/local/bin/node", "-e", "1"]);
    assert_eq!(argv(Shape::Bash("{self_exe}"), "/h"), vec!["bash", "-c", "{self_exe}"]);
    assert_eq!(
        argv(Shape::BashOwn("{self_exe} x; {self_exe}"), "/h"),
        vec!["bash", "-c", "/h x; /h"]
    );
    assert_eq!(argv(Shape::Trigger("t"), "/h"), vec!["/h", "t", "/h", "echo-test"]);
    assert_eq!(
        argv(Shape::TriggerTwice, "/h"),
        vec!["/h", "trigger-delayed-fork", "/h", "trigger-delayed-fork", "/h", "echo-test"]
    );
    assert!(matches!(
        command(Call::ExecFor(Shape::Own1("x"), 4), "/h"),
        Command::Exec { timeout_secs: Some(4), args, .. } if args == vec!["/h", "x"]
    ));
    assert!(matches!(
        command(Call::Write("/p", "d"), "/h"),
        Command::FsWrite { path, data } if path == "/p" && data == "d"
    ));
}

#[test]
fn answers_are_accepted() {
    let hi = ran(0, "hi there\n", "");
    let bad = ran(1, "hi there\n", "/dev/fd/63: No such file");
    let rows = [
        (Accept::Any, true, true),
        (Accept::Output("hi"), true, true),
        (Accept::Exit(0), true, false),
        (Accept::Prints("there"), true, false),
        (Accept::PrintsBoth("hi", "ho"), false, false),
        (Accept::PrintsEither("hi", "ho"), true, false),
        (Accept::PrintsSomething, true, false),
        (Accept::PrintsExactly("hi there"), false, false),
        (Accept::PrintsTrimmed("hi there"), true, false),
        (Accept::PrintsNothing, false, false),
        (Accept::PrintsOrNoDevFd("hi"), true, true),
        (Accept::RanWithout("hi"), false, false),
        (Accept::RanWithout("ho"), true, true),
        (Accept::Missing, false, false),
        (Accept::DataAny, false, false),
    ];
    for (a, on_hi, on_bad) in rows {
        assert_eq!(accept(a, &hi), on_hi, "{a:?}");
        assert_eq!(accept(a, &bad), on_bad, "{a:?}");
    }
    assert!(accept(Accept::RanWithout("x"), &Response::ExecTimeout { stderr: String::new() }));
    assert!(accept(Accept::Missing, &Response::NotFound));
    assert!(accept(Accept::Data("v"), &done("v")));
    assert!(!accept(Accept::Data("v"), &done("vv")));
    assert!(accept(Accept::DataContains("v"), &done("vv")));
    assert!(accept(Accept::DataSet, &done("/root")));
    assert!(!accept(Accept::DataSet, &done("NOT_SET")));
    assert!(!accept(Accept::DataSet, &done("")));
    assert!(accept(Accept::DoneAny, &Response::Done { data: None }));
    assert!(!accept(Accept::DataAny, &Response::Done { data: None }));
    assert!(accept(Accept::Listening, &Response::Listening { port: 1 }));
    assert!(!accept(Accept::ListeningOn(2), &Response::Listening { port: 1 }));
    assert!(accept(Accept::Echo("e"), &Response::Connected { echo: "e".to_string() }));
    assert!(lacks_dev_fd(&bad));
    assert!(!lacks_dev_fd(&hi));
}

#[test]
fn details_of_answers() {
    let late = Response::ExecTimeout { stderr: "s".to_string() };
    assert_eq!(detail(Detail::Plain, &late), "ExecTimeout { stderr: \"s\" }");
    assert_eq!(detail(Detail::Timeout, &late), "timeout=true ExecTimeout { stderr: \"s\" }");
    assert_eq!(
        detail(Detail::DevFd, &late),
        "xfail_devfd=false timeout=true ExecTimeout { stderr: \"s\" }"
    );
    assert_eq!(detail(Detail::Isolated, &Response::NotFound), "tmp_isolated=true: NotFound");
    assert!(absent(Absent::NotFound, &ran(127, "", "")));
    assert!(absent(Absent::NotFound, &Response::Error { error: String::new() }));
    assert!(!absent(Absent::NotFound, &ran(0, "", "")));
    assert!(absent(Absent::Mark("SKIP"), &ran(3, "SKIP\n", "")));
    assert!(!absent(Absent::Mark("SKIP"), &ran(0, "", "SKIP")));
}

fn drive(stages: &Vec<Stage>, mut answer: impl FnMut(&str, Call) -> Response) -> Vec<Record> {
    let mut run = Run::new();
    let mut out = Vec::new();
    loop {
        match run.next_step(stages) {
            Next::Finished => return out,
            Next::Pause { .. } => run.waited(stages),
            Next::Send { target, call } => {
                let r = answer(target, call);
                out.extend(run.feed(stages, &r));
            }
        }
    }
}

fn ids(records: &[Record]) -> Vec<(&'static str, &'static str)> {
    records.iter().map(|r| (r.id, r.agent)).collect()
}

fn one_file_system(files: &mut HashMap<String, String>, call: Call) -> Response {
    match call {
        Call::Read(p) => match files.get(p) {
            Some(d) => done(d),
            None => Response::NotFound,
        },
        Call::Write(p, d) => {
            files.insert(p.to_string(), d.to_string());
            Response::Done { data: None }
        }
        Call::Delete(p) => {
            files.remove(p);
            Response::Done { data: None }
        }
        _ => Response::Error { error: "unexpected".to_string() },
    }
}

#[test]
fn a_shared_file_system_passes_every_file_test() {
    let mut files = HashMap::new();
    files.insert("/shared/host_wrote.txt".to_string(), "from_host".to_string());
    let records = drive(&fs_tests(true), |_, call| one_file_system(&mut files, call));
    assert!(records.iter().all(|r| r.pass && r.excuse.is_none()), "{records:?}");
    assert_eq!(
        ids(&records),
        vec![
            ("F1.absent", "A"),
            ("F1.created", "A"),
            ("F1.updated", "A"),
            ("F1.deleted", "A"),
            ("F2", "init"),
            ("F2.update", "init"),
            ("F2.deleted", "init"),
            ("F3.A→B", "B"),
            ("F3.B→A", "A"),
            ("F4.AA→init", "init"),
            ("F4.AA→B", "B"),
            ("F4.AAA→init", "init"),
            ("F5.parent→child", "AA"),
            ("F5.sibling", "B"),
            ("F6.host→init", "init"),
            ("F6.host→A", "A"),
        ]
    );
    assert_eq!(files.get("/shared/for_host.txt").map(|s| s.as_str()), Some("from_agent"));
}

#[test]
fn a_read_only_share_is_excused() {
    let records = drive(&fs_tests(false), |_, _| Response::NotFound);
    let excused: Vec<&str> =
        records.iter().filter(|r| r.excuse.is_some()).map(|r| r.id).collect();
    assert_eq!(
        excused,
        vec![
            "F1.created", "F1.updated", "F2", "F2.update", "F3.A→B", "F3.B→A", "F4.AA→init",
            "F4.AA→B", "F4.AAA→init", "F6.host→init", "F6.host→A",
        ]
    );
    for r in &records {
        match r.excuse {
            Some(why) if r.id.starts_with("F6") => {
                assert_eq!(why, "no /shared/host_wrote.txt in rootfs")
            }
            Some(why) => assert_eq!(why, "/shared/ not writable (policy or rootfs)"),
            None => assert!(r.pass, "{r:?}"),
        }
    }
}

#[test]
fn the_tests_of_a_script_do_not_depend_on_the_answers() {
    let answers: Vec<Response> = vec![
        Response::NotFound,
        done("x"),
        ran(0, "SKIP\n", ""),
        ran(127, "", ""),
        ran(0, "", ""),
        Response::ExecTimeout { stderr: "late".to_string() },
        Response::Listening { port: 9100 },
        Response::Error { error: "e".to_string() },
    ];
    let plans = [
        fs_tests(true),
        net_tests(),
        exec_tests(true),
        exec_tests(false),
        env_tests(),
        node_exec_tests(),
        vscode_repro_tests(),
    ];
    for stages in &plans {
        let first = ids(&drive(stages, |_, _| answers[0].clone()));
        assert!(!first.is_empty());
        let mut seen = first.clone();
        seen.sort();
        seen.dedup();
        assert_eq!(seen.len(), first.len());
        for a in &answers {
            assert_eq!(ids(&drive(stages, |_, _| a.clone())), first);
        }
        let mut n = 0;
        let mixed = drive(stages, |_, _| {
            n += 1;
            answers[n % answers.len()].clone()
        });
        assert_eq!(ids(&mixed), first);
    }
}

#[test]
fn environment_tests() {
    let records = drive(&env_tests(), |_, call| match call {
        Call::Env("HOME") => done("/root"),
        Call::Env(_) => done("NOT_SET"),
        _ => done("/"),
    });
    let rows: Vec<(&str, bool)> = records.iter().map(|r| (r.id, r.pass)).collect();
    assert_eq!(
        rows,
        vec![
            ("E1.A", true),
            ("E2.A", false),
            ("E3.A", true),
            ("E4.AAA", true),
            ("E5.B", true),
        ]
    );
    assert_eq!(record_line(&records[0]), "  pass: E1.A [A] Ok { data: Some(\"/root\") }");
    assert_eq!(record_line(&records[1]), "  fail: E2.A [A] Ok { data: Some(\"NOT_SET\") }");
}

const PING: Probe = Probe { target: "A", call: Call::Cwd };

const PINGED: Verdict = Verdict {
    id: "P",
    agent: "A",
    accept: Accept::DataAny,
    detail: Detail::Plain,
    excuse: None,
    skipped: "skipped",
};

#[test]
fn a_gate_skips_what_it_guards() {
    let stages = || {
        vec![
            Stage::Gate { probe: PING, verdict: PINGED, span: 1 },
            Stage::Quiet { probe: Probe { target: "B", call: Call::Cwd }, times: 1 },
            Stage::Quiet { probe: Probe { target: "C", call: Call::Cwd }, times: 2 },
        ]
    };
    for (answer, path) in [
        (done("/"), vec!["A", "B", "C", "C"]),
        (Response::NotFound, vec!["A", "C", "C"]),
    ] {
        let mut sent = Vec::new();
        let records = drive(&stages(), |target, _| {
            sent.push(target.to_string());
            answer.clone()
        });
        assert_eq!(sent, path);
        assert_eq!(records.len(), 1);
    }
}

#[test]
fn a_guard_records_what_it_skips() {
    let stages = vec![
        Stage::Guard { probe: PING, absent: Absent::NotFound, verdict: None, span: 1 },
        Stage::Single { probe: PING, verdict: PINGED },
    ];
    let records = drive(&stages, |_, _| ran(127, "", ""));
    assert_eq!(records.len(), 1);
    assert_eq!(records[0].id, "P");
    assert_eq!(records[0].detail, "skipped");
    let records = drive(&stages, |_, _| done("/"));
    assert_eq!(records.len(), 1);
    assert!(records[0].pass);
    assert_eq!(records[0].detail, "Ok { data: Some(\"/\") }");
}

#[test]
fn repeats_stop_at_the_first_failure() {
    let stages = vec![Stage::Repeat {
        probe: PING,
        accept: Accept::DataAny,
        id: "R",
        agent: "A",
        times: 3,
        all_ok: "3 in a row",
        skipped: "skipped",
    }];
    let mut n = 0;
    let records = drive(&stages, |_, _| {
        n += 1;
        done("x")
    });
    assert_eq!(n, 3);
    assert!(records[0].pass);
    assert_eq!(records[0].detail, "3 in a row");
    let mut n = 0;
    let records = drive(&stages, |_, _| {
        n += 1;
        if n == 2 { Response::NotFound } else { done("x") }
    });
    assert_eq!(n, 2);
    assert!(!records[0].pass);
    assert_eq!(records[0].detail, "failed at iteration 1: NotFound");
}

#[test]
fn a_series_takes_turns() {
    let stages = vec![Stage::Series {
        id: "S",
        agent: "A",
        first: PING,
        first_ok: Accept::DataAny,
        second: Probe { target: "B", call: Call::Cwd },
        second_ok: Accept::Missing,
        rounds: 2,
        skipped: "skipped",
    }];
    let mut sent = Vec::new();
    let records = drive(&stages, |target, _| {
        sent.push(target.to_string());
        Response::NotFound
    });
    assert_eq!(sent, vec!["A", "B", "A", "B"]);
    assert_eq!(records.len(), 1);
    assert!(!records[0].pass);
    assert_eq!(
        records[0].detail,
        "[0]=false: NotFound; [1]=true: NotFound; [2]=false: NotFound; [3]=true: NotFound"
    );
}
