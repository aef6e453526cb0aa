use litebox_test_harness::broker::{
    accept_step, accepted, bl_detail, check_hello, check_hi, check_truncated, connect_started,
    connect_target, datagram_report, failed, fell_short, greet_step, listen_step, Endpoint,
    ListenEvent, ListenPhase, ListenerProbe, Partner, Retry, SenderEnd, LONG_DATAGRAM, MSG_TRUNC,
    SHORT_BUFFER,
};
use litebox_test_harness::dns::{
    alias_detail, alias_host, dns_answer, dns_detail, dns_failure, dns_probe_server, dns_query,
    host_lines, parse_ipv4, probe_answered, probe_complaint, resolved, resolved_local,
    server_of_line, AliasRun, DnsOut, HostEvent, Ipv4, ALIAS_HOSTS,
};
use litebox_test_harness::echo::{
    answers_echo, echo_packet, echo_step, icmp_checksum, raw_detail, raw_refused, EchoStep, RawOut,
    Received,
};

fn ip(a: u8, b: u8, c: u8, d: u8) -> Ipv4 {
    Ipv4 { a, b, c, d }
}

#[test]
fn checksums() {
    assert_eq!(icmp_checksum(&[]), 0xffff);
    assert_eq!(icmp_checksum(&[0x00, 0x01, 0xf2, 0x03, 0xf4, 0xf5, 0xf6, 0xf7]), 0x220d);
    assert_eq!(icmp_checksum(&[0x01]), 0xfeff);
    assert_eq!(icmp_checksum(&[0xff, 0xff, 0xff, 0xff]), 0);
}

#[test]
fn a_packet_with_its_checksum_sums_to_nothing() {
    for (ident, number) in [(0, 0), (0x1234, 1), (0xffff, 0xffff), (0x00ff, 0xff00)] {
        let packet = echo_packet(ident, number);
        assert_eq!(icmp_checksum(&packet), 0);
        assert_eq!(packet[0], 8);
        assert_eq!(&packet[8..], b"litebox-raw-icmp");
        assert_eq!(u16::from_be_bytes([packet[4], packet[5]]), ident);
        assert_eq!(u16::from_be_bytes([packet[6], packet[7]]), number);
    }
}

#[test]
fn a_checksum_verifies_at_every_even_position() {
    let bytes: Vec<u8> = (1..=13).map(|k| k * 19).collect();
    for at in (0..12).step_by(2) {
        let mut p = bytes.clone();
        p[at] = 0;
        p[at + 1] = 0;
        let c = icmp_checksum(&p);
        p[at] = (c / 256) as u8;
        p[at + 1] = (c % 256) as u8;
        assert_eq!(icmp_checksum(&p), 0);
    }
}

#[test]
fn a_checksum_keeps_through_padding_and_order() {
    let odd: [u8; 5] = [1, 2, 250, 251, 7];
    let mut padded = odd.to_vec();
    padded.push(0);
    assert_eq!(icmp_checksum(&odd), icmp_checksum(&padded));
    assert_eq!(
        icmp_checksum(&[1, 2, 250, 251, 7, 0]),
        icmp_checksum(&[7, 0, 1, 2, 250, 251])
    );
    assert_ne!(icmp_checksum(&[1, 2]), icmp_checksum(&[2, 1]));
}

fn reply_to(header: usize, ident: u16, number: u16) -> Vec<u8> {
    let mut d = vec![0u8; header];
    d[0] = 0x40 + (header / 4) as u8;
    d.extend(echo_packet(ident, number));
    d[header] = 0;
    d
}

#[test]
fn replies_are_recognised() {
    for header in [20, 24, 60] {
        let d = reply_to(header, 0x1234, 7);
        assert!(answers_echo(&d, 0x1234, 7));
        assert!(!answers_echo(&d, 0x1235, 7));
        assert!(!answers_echo(&d, 0x1234, 8));
    }
    let mut d = reply_to(20, 1, 2);
    d[20] = 8;
    assert!(!answers_echo(&d, 1, 2));
    assert!(!answers_echo(&reply_to(20, 1, 2)[..27], 1, 2));
    let mut d = reply_to(20, 1, 2);
    d[0] = 0x44;
    assert!(!answers_echo(&d, 1, 2));
}

#[test]
fn waiting_for_an_echo() {
    let d = reply_to(20, 1, 2);
    assert!(matches!(
        echo_step(Received::Datagram { bytes: &d }, 1, 2, false),
        EchoStep::Finished { result: Ok(RawOut::EchoSucceeded) }
    ));
    assert!(matches!(
        echo_step(Received::Datagram { bytes: &d }, 1, 3, false),
        EchoStep::Again
    ));
    let nothing = || Received::Nothing { errno: Some(libc::EAGAIN), error: "again" };
    assert!(matches!(echo_step(nothing(), 1, 2, false), EchoStep::Again));
    assert!(matches!(
        echo_step(nothing(), 1, 2, true),
        EchoStep::Finished { result: Err(e) } if e == "timed out waiting for ICMP echo reply"
    ));
    assert!(matches!(
        echo_step(Received::Nothing { errno: Some(libc::EIO), error: "io" }, 1, 2, false),
        EchoStep::Finished { result: Err(e) } if e == "recv: io"
    ));
    assert_eq!(raw_refused(Some(libc::EPERM), ""), Ok(RawOut::PermissionDenied));
    assert_eq!(raw_refused(Some(libc::EPROTONOSUPPORT), ""), Ok(RawOut::PermissionDenied));
    assert_eq!(raw_refused(Some(libc::EACCES), "no"), Err("socket failed: no".to_string()));
    assert_eq!(raw_refused(None, "no"), Err("socket failed: no".to_string()));
    assert_eq!(raw_detail(RawOut::PermissionDenied), "raw_icmp=PermissionDenied");
    assert_eq!(raw_detail(RawOut::EchoSucceeded), "raw_icmp=EchoSucceeded");
}

#[test]
fn addresses() {
    assert_eq!(parse_ipv4("10.0.0.1"), Some(ip(10, 0, 0, 1)));
    assert_eq!(parse_ipv4("255.255.255.255"), Some(ip(255, 255, 255, 255)));
    for bad in ["", "1.2.3", "1.2.3.4.5", "256.0.0.1", "01.2.3.4", "1..2.3", "+1.2.3.4", "a.b.c.d",
        " 1.2.3.4", "0000.0.0.0"]
    {
        assert_eq!(parse_ipv4(bad), None, "{bad:?}");
    }
}

#[test]
fn the_first_name_server_is_probed() {
    assert_eq!(server_of_line("  nameserver 1.2.3.4 "), Some(ip(1, 2, 3, 4)));
    assert_eq!(server_of_line("nameserver\t8.8.8.8"), Some(ip(8, 8, 8, 8)));
    assert_eq!(server_of_line("search example.org"), None);
    assert_eq!(server_of_line("nameserver ::1"), None);
    let conf = "# comment\nnameserver ::1\nnameserver 9.9.9.9\r\nnameserver 8.8.8.8\n";
    assert_eq!(dns_probe_server(Some(conf)), ip(9, 9, 9, 9));
    assert_eq!(dns_probe_server(Some("search x\n")), ip(10, 0, 0, 1));
    assert_eq!(dns_probe_server(None), ip(10, 0, 0, 1));
}

#[test]
fn queries_and_answers() {
    assert_eq!(
        dns_query("ab.c"),
        vec![
            0x12, 0x34, 0x01, 0x00, 0x00, 0x01, 0, 0, 0, 0, 0, 0, 2, b'a', b'b', 1, b'c', 0, 0, 1, 0,
            1
        ]
    );
    let answer = [0x12, 0x34, 0x83, 0x80, 0, 1, 1, 2, 0, 0];
    assert_eq!(
        dns_answer("h", &answer, "1.2.3.4:53"),
        "ok host=h bytes=10 peer=1.2.3.4:53 tc=true answers=258"
    );
    assert_eq!(
        dns_answer("h", &[0x12, 0x34, 0x81], "p"),
        "ok host=h bytes=3 peer=p tc=false answers=0"
    );
    assert_eq!(dns_failure("send", "EIO"), "send failed: EIO");
    assert!(probe_answered("ok host=h"));
    assert!(!probe_answered("okay"));
    assert_eq!(
        probe_complaint("h", " DNS", "send failed: EIO", Ok("a\n".to_string())),
        "h DNS probe failed: send failed: EIO; resolv.conf=\"a\\n\""
    );
    assert_eq!(
        probe_complaint("h", " raw DNS", "x", Err("gone".to_string())),
        "h raw DNS probe failed: x; resolv.conf=\"<read /etc/resolv.conf failed: gone>\""
    );
}

#[test]
fn resolving_names() {
    let list = |names: &[&str]| -> Vec<String> { names.iter().map(|n| n.to_string()).collect() };
    assert_eq!(resolved("h", "h", Ok(list(&["1.1.1.1", "::2"]))), Ok("h=1.1.1.1,::2".to_string()));
    assert_eq!(
        resolved("h", "x", Ok(Vec::new())),
        Err("getaddrinfo h returned no addresses".to_string())
    );
    assert_eq!(
        resolved("h", "x", Err("later".to_string())),
        Err("getaddrinfo h: later".to_string())
    );
    assert_eq!(resolved_local(Ok(list(&["1.1.1.1", "::1"]))), Ok(list(&["1.1.1.1", "::1"])));
    assert_eq!(
        resolved_local(Ok(list(&["1.1.1.1"]))),
        Err("localhost did not resolve to loopback: [\"1.1.1.1\"]".to_string())
    );
    assert_eq!(
        resolved_local(Err("e".to_string())),
        Err("resolve localhost: e".to_string())
    );
    let out = DnsOut { localhost_addrs: list(&["a", "b"]), remote_addrs: list(&["c", "d"]) };
    assert_eq!(dns_detail(&out), "localhost=a,b remote=c,d");
    assert_eq!(alias_detail(&out), "remote=c;d");
    assert_eq!(ALIAS_HOSTS, 5);
    assert_eq!(alias_host(0), "update.code.visualstudio.com");
    assert_eq!(alias_host(4), "global.rel.tunnels.api.visualstudio.com");
}

#[test]
fn listener_helpers() {
    let out = accepted(80, 1025);
    assert_eq!(bl_detail(&out), "bound=80 peer=1025 bytes=accepted");
    assert_eq!(failed("bind", "EADDRINUSE"), "bind: EADDRINUSE");
    assert_eq!(fell_short("send", -1, "EPIPE"), "send=-1: EPIPE");
    let any = Endpoint { ip: ip(0, 0, 0, 0), port: 8080 };
    assert_eq!(connect_target(any), Ok(Endpoint { ip: ip(127, 0, 0, 1), port: 8080 }));
    let own = Endpoint { ip: ip(10, 0, 0, 2), port: 8080 };
    assert_eq!(connect_target(own), Ok(own));
    assert_eq!(
        connect_target(Endpoint { ip: ip(10, 0, 0, 2), port: 0 }),
        Err("getsockname returned port 0".to_string())
    );
    assert_eq!(connect_started(true, None, ""), Ok(()));
    assert_eq!(connect_started(false, Some(libc::EINPROGRESS), ""), Ok(()));
    assert_eq!(
        connect_started(false, Some(libc::ECONNREFUSED), "refused"),
        Err("connect: refused".to_string())
    );
}

#[test]
fn greeting_and_accepting() {
    assert!(matches!(greet_step(2, None, "", true), Retry::Finished { result: Ok(()) }));
    assert!(matches!(greet_step(-1, Some(libc::EAGAIN), "", false), Retry::Again));
    assert!(matches!(
        greet_step(-1, Some(libc::EAGAIN), "", true),
        Retry::Finished { result: Err(e) } if e == "write timed out"
    ));
    assert!(matches!(
        greet_step(1, None, "short", false),
        Retry::Finished { result: Err(e) } if e == "write n=1 err=short"
    ));
    assert!(matches!(
        accept_step(Some(libc::EAGAIN), "", false, Partner::Panicked),
        Retry::Again
    ));
    let late = |partner| match accept_step(Some(libc::EAGAIN), "", true, partner) {
        Retry::Finished { result: Err(e) } => e,
        _ => panic!("expected an error"),
    };
    assert_eq!(late(Partner::Running), "accept timed out waiting for connector");
    assert_eq!(late(Partner::Finished { result: Ok(()) }), "connector exited before accept");
    assert_eq!(late(Partner::Finished { result: Err("c".to_string()) }), "c");
    assert_eq!(late(Partner::Panicked), "connector panicked");
    assert!(matches!(
        accept_step(Some(libc::EMFILE), "full", false, Partner::Running),
        Retry::Finished { result: Err(e) } if e == "accept: full"
    ));
}

#[test]
fn received_bytes() {
    assert_eq!(check_hello(5, "", b"hello"), Ok("hello".to_string()));
    assert_eq!(check_hello(0, "eof", b""), Err("read n=0: eof".to_string()));
    assert_eq!(
        check_hello(5, "", b"hallo"),
        Err(format!("read bytes: {:?}", b"hallo"))
    );
    assert_eq!(check_hi(2, "", b"hi"), Ok("hi".to_string()));
    assert_eq!(check_hi(2, "", b"ho"), Err("recvfrom bytes: [104, 111]".to_string()));
    assert_eq!(check_hi(-1, "EIO", b""), Err("recvfrom n=-1: EIO".to_string()));
    assert_eq!(MSG_TRUNC, libc::MSG_TRUNC as u32);
    assert!(SHORT_BUFFER < LONG_DATAGRAM);
    let x = vec![b'x'; SHORT_BUFFER];
    assert_eq!(check_truncated(100, "", MSG_TRUNC, &x), Ok("100 bytes trunc".to_string()));
    assert_eq!(
        check_truncated(100, "", 0x40, &x),
        Err("recvmsg missing MSG_TRUNC: flags=0x40".to_string())
    );
    assert_eq!(
        check_truncated(99, "e", MSG_TRUNC, &x),
        Err("recvmsg n=99: e flags=0x20".to_string())
    );
    let mut y = x.clone();
    y[99] = b'y';
    assert_eq!(
        check_truncated(100, "", MSG_TRUNC, &y),
        Err("truncated payload bytes not preserved".to_string())
    );
}

#[test]
fn datagrams_come_from_their_sender() {
    let sent = |port| SenderEnd::Sent { port };
    let out = datagram_report(80, 1025, sent(1025), "hi".to_string());
    assert_eq!(out.map(|o| bl_detail(&o)), Ok("bound=80 peer=1025 bytes=hi".to_string()));
    assert_eq!(
        datagram_report(80, 1025, sent(1026), String::new()).map(|o| o.bytes),
        Err("peer port 1025 != sender port 1026".to_string())
    );
    assert_eq!(
        datagram_report(80, 1, SenderEnd::Panicked, String::new()).map(|o| o.bytes),
        Err("sender panicked".to_string())
    );
    assert_eq!(
        datagram_report(80, 1, SenderEnd::Failed { error: "e".to_string() }, String::new())
            .map(|o| o.bytes),
        Err("e".to_string())
    );
}

fn listen(kind: ListenerProbe, events: Vec<ListenEvent>) -> Result<String, String> {
    let mut p = ListenPhase::Socket;
    for ev in events {
        p = listen_step(kind, p, ev);
        if let ListenPhase::Over { result } = p {
            return result.map(|o| bl_detail(&o));
        }
    }
    Err("not over".to_string())
}

fn up_to_name<'a>(port: u16) -> Vec<ListenEvent<'a>> {
    vec![
        ListenEvent::Worked,
        ListenEvent::Worked,
        ListenEvent::Worked,
        ListenEvent::Named { bound: Endpoint { ip: ip(0, 0, 0, 0), port } },
    ]
}

#[test]
fn listening_reaches_its_end() {
    let mut evs = up_to_name(8080);
    evs.push(ListenEvent::NotAccepted {
        errno: Some(libc::EAGAIN),
        error: "",
        late: false,
        partner: Partner::Running,
    });
    evs.push(ListenEvent::Accepted { peer_port: 4000 });
    assert_eq!(
        listen(ListenerProbe::Accepts, evs),
        Ok("bound=8080 peer=4000 bytes=accepted".to_string())
    );
    let mut evs = up_to_name(8080);
    evs.push(ListenEvent::Accepted { peer_port: 4000 });
    evs.push(ListenEvent::Got { n: 5, error: "", buf: b"hello" });
    evs.push(ListenEvent::Joined { partner: Partner::Finished { result: Ok(()) } });
    assert_eq!(
        listen(ListenerProbe::Reads, evs),
        Ok("bound=8080 peer=4000 bytes=hello".to_string())
    );
    let mut evs = up_to_name(8080);
    evs.push(ListenEvent::Accepted { peer_port: 4000 });
    evs.push(ListenEvent::Got { n: 5, error: "", buf: b"hello" });
    evs.push(ListenEvent::Joined { partner: Partner::Panicked });
    assert_eq!(listen(ListenerProbe::Reads, evs), Err("connector panicked".to_string()));
    assert_eq!(
        listen(ListenerProbe::Accepts, up_to_name(0)),
        Err("getsockname returned port 0".to_string())
    );
    assert_eq!(
        listen(ListenerProbe::Reads, vec![ListenEvent::Failed { error: "E" }]),
        Err("listener socket(AF_INET, SOCK_STREAM): E".to_string())
    );
    assert_eq!(
        listen(
            ListenerProbe::Accepts,
            vec![ListenEvent::Worked, ListenEvent::Failed { error: "E" }]
        ),
        Err("bind: E".to_string())
    );
}

fn answered(addrs: &[&str]) -> HostEvent {
    HostEvent::Answered {
        raw: "ok host".to_string(),
        addrs: Ok(addrs.iter().map(|a| a.to_string()).collect()),
    }
}

#[test]
fn hosts_are_reported_by_probe_and_addresses() {
    assert_eq!(
        host_lines("h", " DNS", "getaddrinfo", answered(&["a", "b"])),
        Ok(vec!["ok host".to_string(), "getaddrinfo=a,b".to_string()])
    );
    assert_eq!(
        host_lines("h", " DNS", "getaddrinfo", answered(&[])),
        Err("getaddrinfo h returned no addresses".to_string())
    );
    let silent =
        HostEvent::Silent { raw: "bind failed: x".to_string(), conf: Ok("c".to_string()) };
    assert_eq!(
        host_lines("h", " DNS", "getaddrinfo", silent),
        Err("h DNS probe failed: bind failed: x; resolv.conf=\"c\"".to_string())
    );
    let later = HostEvent::Answered { raw: "ok".to_string(), addrs: Err("later".to_string()) };
    assert_eq!(
        host_lines("h", " DNS", "getaddrinfo", later),
        Err("getaddrinfo h: later".to_string())
    );
}

#[test]
fn the_alias_test_asks_each_host_in_order() {
    let mut run = AliasRun::start();
    let mut asked = Vec::new();
    while let Some(host) = run.next() {
        asked.push(host);
        assert_eq!(run.feed(answered(&["1.2.3.4:443"])), Ok(()));
    }
    let hosts: Vec<&str> = (0..ALIAS_HOSTS).map(alias_host).collect();
    assert_eq!(asked, hosts);
    let out = run.finish();
    assert!(out.localhost_addrs.is_empty());
    assert_eq!(out.remote_addrs.len(), 2 * ALIAS_HOSTS);
    assert_eq!(out.remote_addrs[2], "ok host");
    assert_eq!(out.remote_addrs[3], format!("{}=1.2.3.4:443", hosts[1]));
    let mut run = AliasRun::start();
    assert_eq!(run.feed(answered(&["a"])), Ok(()));
    assert_eq!(
        run.feed(answered(&[])),
        Err(format!("getaddrinfo {} returned no addresses", hosts[1]))
    );
    assert_eq!(run.next(), Some(hosts[1]));
}
