//! Name service probes: which server is asked, the query, and what the answers mean.

use vstd::prelude::*;
use vstd::utf8::encode_utf8;
use crate::inherit::lemma_split_of_join;
use crate::number::{
    dec, dec_text, law_dec_all_digits, law_parse_undoes_print, parse_unsigned, NumberFault,
};
use crate::text::{
    bool_text, bool_word, cat, cat3, join, join_text, list_text, quote, quoted, quoted_all,
    quoted_list, same, split, split_text, starts_with, starts_with_text, texts, trim, trim_text,
};

verus! {

/// An address of four bytes.
#[derive(Clone, Copy, Debug, PartialEq, Eq, Structural)]
pub struct Ipv4 {
    pub a: u8,
    pub b: u8,
    pub c: u8,
    pub d: u8,
}

/// The text is the plain decimal form of the byte: no sign, no leading zero.
pub open spec fn is_octet(s: Seq<char>, v: u8) -> bool {
    s == dec_text(v as nat)
}

/// The text is the dotted form of the address.
pub open spec fn is_address(s: Seq<char>, ip: Ipv4) -> bool {
    let p = split_text(s, '.');
    &&& p.len() == 4
    &&& is_octet(p[0], ip.a)
    &&& is_octet(p[1], ip.b)
    &&& is_octet(p[2], ip.c)
    &&& is_octet(p[3], ip.d)
}

/// Read one byte of a dotted address.
fn octet(s: &str) -> (r: Option<u8>)
    ensures
        match r {
            Some(v) => is_octet(s@, v),
            None => forall|v: u8| !is_octet(s@, v),
        },
{
    let read = parse_unsigned(s, 255);
    proof {
        assert forall|v: u8| is_octet(s@, v) implies read == Ok::<u64, NumberFault>(v as u64) by {
            law_parse_undoes_print(v as nat, 255);
        }
    }
    match read {
        Ok(n) => {
            let back = dec(n);
            if same(back.as_str(), s) {
                Some(n as u8)
            } else {
                None
            }
        },
        Err(_) => None,
    }
}

/// Read a dotted address. Each byte must stand in its plain decimal form.
pub fn parse_ipv4(s: &str) -> (r: Option<Ipv4>)
    ensures
        match r {
            Some(ip) => is_address(s@, ip),
            None => forall|ip: Ipv4| !is_address(s@, ip),
        },
{
    let p = split(s, '.');
    assert(p@.len() == texts(p@).len());
    if p.len() != 4 {
        return None;
    }
    assert(texts(p@)[0] == p@[0]@ && texts(p@)[1] == p@[1]@ && texts(p@)[2] == p@[2]@ && texts(
        p@,
    )[3] == p@[3]@);
    match (
        octet(p[0].as_str()),
        octet(p[1].as_str()),
        octet(p[2].as_str()),
        octet(p[3].as_str()),
    ) {
        (Some(a), Some(b), Some(c), Some(d)) => Some(Ipv4 { a, b, c, d }),
        _ => None,
    }
}

/// A text is the dotted form of one address at most.
pub proof fn law_address_unique(s: Seq<char>, x: Ipv4, y: Ipv4)
    requires
        is_address(s, x),
        is_address(s, y),
    ensures
        x == y,
{
    law_parse_undoes_print(x.a as nat, 255);
    law_parse_undoes_print(x.b as nat, 255);
    law_parse_undoes_print(x.c as nat, 255);
    law_parse_undoes_print(x.d as nat, 255);
    law_parse_undoes_print(y.a as nat, 255);
    law_parse_undoes_print(y.b as nat, 255);
    law_parse_undoes_print(y.c as nat, 255);
    law_parse_undoes_print(y.d as nat, 255);
}

/// The line names the server: the word, then its address, with white space around either.
pub open spec fn names_server(line: Seq<char>, ip: Ipv4) -> bool {
    let t = trim_text(line);
    starts_with_text(t, "nameserver"@) && is_address(
        trim_text(t.skip("nameserver"@.len() as int)),
        ip,
    )
}

/// The server that a line names, if it names one.
pub fn server_of_line(line: &str) -> (r: Option<Ipv4>)
    ensures
        match r {
            Some(ip) => names_server(line@, ip),
            None => forall|ip: Ipv4| !names_server(line@, ip),
        },
{
    let t = trim(line);
    if starts_with(t, "nameserver") {
        proof {
            reveal_strlit("nameserver");
        }
        let rest = t.substring_char(10, t.unicode_len());
        assert(rest@ =~= t@.skip("nameserver"@.len() as int));
        parse_ipv4(trim(rest))
    } else {
        None
    }
}

/// The first line that names a server decides; without one the answer is the server that
/// the sandbox provides.
pub open spec fn is_probe_server(conf: Option<Seq<char>>, ip: Ipv4) -> bool {
    match conf {
        Some(text) => is_first_server(split_text(text, '\n'), ip),
        None => ip == default_server(),
    }
}

pub open spec fn default_server() -> Ipv4 {
    Ipv4 { a: 10, b: 0, c: 0, d: 1 }
}

/// The address is that of the first of the lines that names a server, or the default.
pub open spec fn is_first_server(lines: Seq<Seq<char>>, ip: Ipv4) -> bool
    decreases lines.len(),
{
    if lines.len() == 0 {
        ip == default_server()
    } else {
        ||| names_server(lines[0], ip)
        ||| (forall|other: Ipv4| !names_server(lines[0], other)) && is_first_server(
            lines.drop_first(),
            ip,
        )
    }
}

/// The server that the probe asks, over the text of the resolver's configuration.
pub fn dns_probe_server(conf: Option<&str>) -> (r: Ipv4)
    ensures
        is_probe_server(
            match conf {
                Some(text) => Some(text@),
                None => None,
            },
            r,
        ),
{
    match conf {
        Some(text) => {
            let lines = split(text, '\n');
            let ghost all = texts(lines@);
            let mut i: usize = 0;
            assert(all.skip(0) =~= all);
            while i < lines.len()
                invariant
                    i <= lines.len(),
                    all == texts(lines@),
                    all == split_text(text@, '\n'),
                    conf == Some(text),
                    forall|ip: Ipv4| is_first_server(all, ip) <==> is_first_server(
                        all.skip(i as int),
                        ip,
                    ),
                decreases lines.len() - i,
            {
                let ghost rest = all.skip(i as int);
                assert(rest[0] == lines@[i as int]@);
                if let Some(ip) = server_of_line(lines[i].as_str()) {
                    assert(is_first_server(rest, ip));
                    return ip;
                }
                assert(rest.drop_first() =~= all.skip(i + 1));
                i = i + 1;
            }
            let r = Ipv4 { a: 10, b: 0, c: 0, d: 1 };
            assert(is_first_server(all.skip(i as int), r));
            r
        },
        None => Ipv4 { a: 10, b: 0, c: 0, d: 1 },
    }
}

/// The configuration decides on one server.
pub proof fn law_server_unique(conf: Option<Seq<char>>, x: Ipv4, y: Ipv4)
    requires
        is_probe_server(conf, x),
        is_probe_server(conf, y),
    ensures
        x == y,
{
    if let Some(text) = conf {
        lemma_first_unique(split_text(text, '\n'), x, y);
    }
}

proof fn lemma_first_unique(lines: Seq<Seq<char>>, x: Ipv4, y: Ipv4)
    requires
        is_first_server(lines, x),
        is_first_server(lines, y),
    ensures
        x == y,
    decreases lines.len(),
{
    if lines.len() > 0 {
        if names_server(lines[0], x) {
            let t = trim_text(lines[0]);
            law_address_unique(trim_text(t.skip("nameserver"@.len() as int)), x, y);
        } else {
            lemma_first_unique(lines.drop_first(), x, y);
        }
    }
}

/// A label of a name in a query: how many bytes it takes, as far as one byte can say,
/// and the bytes.
pub open spec fn label_bytes(label: Seq<char>) -> Seq<u8> {
    seq![(encode_utf8(label).len() % 256) as u8] + encode_utf8(label)
}

/// The labels of a name in a query, one after the other.
pub open spec fn labels_bytes(labels: Seq<Seq<char>>) -> Seq<u8>
    decreases labels.len(),
{
    if labels.len() == 0 {
        Seq::empty()
    } else {
        labels_bytes(labels.drop_last()) + label_bytes(labels.last())
    }
}

/// What stands before the name: the query's number, a wish for recursion, one question.
pub open spec fn query_head() -> Seq<u8> {
    seq![0x12u8, 0x34, 0x01, 0x00, 0x00, 0x01, 0x00, 0x00, 0x00, 0x00, 0x00, 0x00]
}

/// What stands behind the name: its end, and the question for an Internet address.
pub open spec fn query_tail() -> Seq<u8> {
    seq![0x00u8, 0x00, 0x01, 0x00, 0x01]
}

/// The query for the address of a host.
pub open spec fn query_of(host: Seq<char>) -> Seq<u8> {
    query_head() + labels_bytes(split_text(host, '.')) + query_tail()
}

/// The low byte of a length.
fn len_byte(n: usize) -> (r: u8)
    ensures
        r == n % 256,
{
    (n % 256) as u8
}

/// The query for the address of a host.
pub fn dns_query(host: &str) -> (r: Vec<u8>)
    ensures
        r@ == query_of(host@),
{
    let mut query: Vec<u8> = vec![
        0x12,
        0x34,
        0x01,
        0x00,
        0x00,
        0x01,
        0x00,
        0x00,
        0x00,
        0x00,
        0x00,
        0x00,
    ];
    assert(query@ =~= query_head());
    let labels = split(host, '.');
    let ghost all = texts(labels@);
    let mut i: usize = 0;
    assert(query@ =~= query_head() + labels_bytes(all.take(0)));
    while i < labels.len()
        invariant
            i <= labels.len(),
            all == texts(labels@),
            query@ == query_head() + labels_bytes(all.take(i as int)),
        decreases labels.len() - i,
    {
        let ghost next = all.take(i + 1);
        let ghost before = query@;
        assert(next.drop_last() =~= all.take(i as int));
        assert(next.last() == labels@[i as int]@);
        let bytes = labels[i].as_str().as_bytes();
        query.push(len_byte(bytes.len()));
        let mut j: usize = 0;
        while j < bytes.len()
            invariant
                j <= bytes.len(),
                query@ == before.push((bytes@.len() % 256) as u8) + bytes@.take(j as int),
            decreases bytes.len() - j,
        {
            query.push(bytes[j]);
            j = j + 1;
            assert(query@ =~= before.push((bytes@.len() % 256) as u8) + bytes@.take(j as int));
        }
        assert(bytes@.take(j as int) =~= bytes@);
        assert(query@ =~= query_head() + labels_bytes(next));
        i = i + 1;
    }
    assert(all.take(i as int) =~= all);
    query.push(0x00);
    query.push(0x00);
    query.push(0x01);
    query.push(0x00);
    query.push(0x01);
    assert(query@ =~= query_of(host@));
    query
}

/// The number that two bytes of an answer hold, high byte first; zero where the answer is
/// too short.
pub open spec fn field_at(answer: Seq<u8>, at: int) -> int {
    if at + 2 <= answer.len() {
        256 * answer[at] + answer[at + 1]
    } else {
        0
    }
}

/// What the probe says of an answer: its size, its sender, whether it was cut short, and
/// how many answers it holds.
pub open spec fn answer_text(host: Seq<char>, answer: Seq<u8>, peer: Seq<char>) -> Seq<char> {
    "ok host="@ + host + " bytes="@ + dec_text(answer.len()) + " peer="@ + peer + " tc="@
        + bool_text((field_at(answer, 2) / 512) % 2 == 1) + " answers="@ + dec_text(
        field_at(answer, 6) as nat,
    )
}

fn field(answer: &[u8], at: usize) -> (r: u64)
    requires
        at <= 100,
    ensures
        r == field_at(answer@, at as int),
{
    if at + 2 <= answer.len() {
        256 * answer[at] as u64 + answer[at + 1] as u64
    } else {
        0
    }
}

/// What the probe says of an answer.
pub fn dns_answer(host: &str, answer: &[u8], peer: &str) -> (r: String)
    ensures
        r@ == answer_text(host@, answer@, peer@),
{
    let size = dec(answer.len() as u64);
    let cut = (field(answer, 2) / 512) % 2 == 1;
    let count = dec(field(answer, 6));
    let mut out = cat3("ok host=", host, " bytes=");
    out.append(size.as_str());
    out.append(" peer=");
    out.append(peer);
    out.append(" tc=");
    out.append(bool_word(cut));
    out.append(" answers=");
    out.append(count.as_str());
    out
}

/// What the probe says of a step that failed.
pub fn dns_failure(step: &str, error: &str) -> (r: String)
    ensures
        r@ == step@ + " failed: "@ + error@,
{
    cat3(step, " failed: ", error)
}

/// What a complaint shows of the resolver's configuration.
pub open spec fn conf_text(conf: Result<String, String>) -> Seq<char> {
    match conf {
        Ok(text) => text@,
        Err(e) => "<read /etc/resolv.conf failed: "@ + e@ + ">"@,
    }
}

/// Whether a probe was answered.
pub fn probe_answered(raw: &str) -> (r: bool)
    ensures
        r == starts_with_text(raw@, "ok "@),
{
    starts_with(raw, "ok ")
}

/// The complaint about a probe that was not answered. `word` tells the two tests apart.
pub fn probe_complaint(host: &str, word: &str, raw: &str, conf: Result<String, String>) -> (r:
    String)
    ensures
        r@ == host@ + word@ + " probe failed: "@ + raw@ + "; resolv.conf="@ + quoted(
            conf_text(conf),
        ),
{
    let shown = match conf {
        Ok(text) => text,
        Err(e) => cat3("<read /etc/resolv.conf failed: ", e.as_str(), ">"),
    };
    let mut out = cat3(host, word, " probe failed: ");
    out.append(raw);
    out.append("; resolv.conf=");
    let q = quote(shown.as_str());
    out.append(q.as_str());
    out
}

/// What the resolver says of a host: its addresses under a heading, or a complaint.
pub fn resolved(host: &str, heading: &str, addrs: Result<Vec<String>, String>) -> (r: Result<
    String,
    String,
>)
    ensures
        match addrs {
            Err(e) => r matches Err(x) && x@ == "getaddrinfo "@ + host@ + ": "@ + e@,
            Ok(list) => if list@.len() == 0 {
                r matches Err(x) && x@ == "getaddrinfo "@ + host@ + " returned no addresses"@
            } else {
                r matches Ok(x) && x@ == heading@ + "="@ + join_text(texts(list@), ","@)
            },
        },
{
    match addrs {
        Err(e) => {
            let mut out = cat3("getaddrinfo ", host, ": ");
            out.append(e.as_str());
            Err(out)
        },
        Ok(list) => if list.len() == 0 {
            Err(cat3("getaddrinfo ", host, " returned no addresses"))
        } else {
            let body = join(&list, ",");
            Ok(cat3(heading, "=", body.as_str()))
        },
    }
}

/// What asking for a host gave.
#[allow(inconsistent_fields)]
pub enum HostEvent {
    /// The server did not answer the probe: what the probe says, and the configuration.
    Silent { raw: String, conf: Result<String, String> },
    /// It did: what the probe says, and the addresses that the resolver then gave.
    Answered { raw: String, addrs: Result<Vec<String>, String> },
}

/// What is reported of a host: what the probe says and the addresses under a heading, or
/// what went wrong first.
pub open spec fn host_lines_of(
    host: Seq<char>,
    word: Seq<char>,
    heading: Seq<char>,
    ev: HostEvent,
) -> Result<Seq<Seq<char>>, Seq<char>> {
    match ev {
        HostEvent::Silent { raw, conf } => Err(
            host + word + " probe failed: "@ + raw@ + "; resolv.conf="@ + quoted(conf_text(conf)),
        ),
        HostEvent::Answered { raw, addrs } => match addrs {
            Err(e) => Err("getaddrinfo "@ + host + ": "@ + e@),
            Ok(list) => if list@.len() == 0 {
                Err("getaddrinfo "@ + host + " returned no addresses"@)
            } else {
                Ok(seq![raw@, heading + "="@ + join_text(texts(list@), ","@)])
            },
        },
    }
}

/// What is reported of a host, or what went wrong first.
pub fn host_lines(host: &str, word: &str, heading: &str, ev: HostEvent) -> (r: Result<
    Vec<String>,
    String,
>)
    ensures
        match r {
            Ok(lines) => host_lines_of(host@, word@, heading@, ev) == Ok::<
                Seq<Seq<char>>,
                Seq<char>,
            >(texts(lines@)),
            Err(e) => host_lines_of(host@, word@, heading@, ev) == Err::<Seq<Seq<char>>, Seq<char>>(
                e@,
            ),
        },
{
    match ev {
        HostEvent::Silent { raw, conf } => Err(probe_complaint(host, word, raw.as_str(), conf)),
        HostEvent::Answered { raw, addrs } => match resolved(host, heading, addrs) {
            Err(e) => Err(e),
            Ok(line) => {
                let lines: Vec<String> = vec![raw, line];
                assert(texts(lines@) =~= seq![raw@, line@]);
                Ok(lines)
            },
        },
    }
}

/// The text is a loopback address.
pub open spec fn is_loopback(s: Seq<char>) -> bool {
    s == "127.0.0.1"@ || s == "::1"@
}

/// One of the texts is a loopback address.
pub open spec fn any_loopback(list: Seq<String>) -> bool {
    exists|k: int| 0 <= k < list.len() && is_loopback(#[trigger] list[k]@)
}

/// What the resolver says of the local host: its addresses, of which one must be a
/// loopback address.
pub fn resolved_local(addrs: Result<Vec<String>, String>) -> (r: Result<Vec<String>, String>)
    ensures
        match addrs {
            Err(e) => r matches Err(x) && x@ == "resolve localhost: "@ + e@,
            Ok(list) => if any_loopback(list@) {
                r == Ok::<Vec<String>, String>(list)
            } else {
                r matches Err(x) && x@ == "localhost did not resolve to loopback: "@ + list_text(
                    quoted_all(list@),
                )
            },
        },
{
    match addrs {
        Err(e) => Err(cat("resolve localhost: ", e.as_str())),
        Ok(list) => {
            let mut i: usize = 0;
            while i < list.len()
                invariant
                    i <= list.len(),
                    addrs == Ok::<Vec<String>, String>(list),
                    forall|k: int| 0 <= k < i ==> !is_loopback(#[trigger] list@[k]@),
                decreases list.len() - i,
            {
                if same(list[i].as_str(), "127.0.0.1") || same(list[i].as_str(), "::1") {
                    assert(is_loopback(list@[i as int]@));
                    assert(any_loopback(list@));
                    return Ok(list);
                }
                i = i + 1;
            }
            let shown = quoted_list(&list);
            Err(cat("localhost did not resolve to loopback: ", shown.as_str()))
        },
    }
}

/// What a name service test reports.
#[derive(Clone, Debug)]
pub struct DnsOut {
    pub localhost_addrs: Vec<String>,
    pub remote_addrs: Vec<String>,
}

/// The detail of the plain test.
pub fn dns_detail(out: &DnsOut) -> (r: String)
    ensures
        r@ == "localhost="@ + join_text(texts(out.localhost_addrs@), ","@) + " remote="@
            + join_text(texts(out.remote_addrs@), ","@),
{
    let local = join(&out.localhost_addrs, ",");
    let remote = join(&out.remote_addrs, ",");
    let mut text = cat3("localhost=", local.as_str(), " remote=");
    text.append(remote.as_str());
    text
}

/// The detail of the test over aliases.
pub fn alias_detail(out: &DnsOut) -> (r: String)
    ensures
        r@ == "remote="@ + join_text(texts(out.remote_addrs@), ";"@),
{
    let remote = join(&out.remote_addrs, ";");
    cat("remote=", remote.as_str())
}

/// How many hosts the test over aliases asks for.
pub const ALIAS_HOSTS: usize = 5;

/// The hosts of the test over aliases.
#[verifier::allow_in_spec]
pub fn alias_host(k: usize) -> &'static str
    returns
        (if k == 0 {
            "update.code.visualstudio.com"
        } else if k == 1 {
            "vscode.download.prss.microsoft.com"
        } else if k == 2 {
            "marketplace.visualstudio.com"
        } else if k == 3 {
            "vscode-sync.trafficmanager.net"
        } else {
            "global.rel.tunnels.api.visualstudio.com"
        }),
{
    if k == 0 {
        "update.code.visualstudio.com"
    } else if k == 1 {
        "vscode.download.prss.microsoft.com"
    } else if k == 2 {
        "marketplace.visualstudio.com"
    } else if k == 3 {
        "vscode-sync.trafficmanager.net"
    } else {
        "global.rel.tunnels.api.visualstudio.com"
    }
}

/// What is reported of the host at `k`.
pub open spec fn alias_lines_of(k: int, ev: HostEvent) -> Result<Seq<Seq<char>>, Seq<char>> {
    let host = alias_host(k as usize)@;
    host_lines_of(host, " raw DNS"@, host, ev)
}

/// What is reported of the hosts so far, in order.
pub open spec fn aliases_lines(seen: Seq<HostEvent>) -> Seq<Seq<char>>
    decreases seen.len(),
{
    if seen.len() == 0 {
        Seq::empty()
    } else {
        aliases_lines(seen.drop_last()) + match alias_lines_of(seen.len() - 1, seen.last()) {
            Ok(lines) => lines,
            Err(_) => Seq::empty(),
        }
    }
}

/// The test over aliases, host by host.
pub struct AliasRun {
    lines: Vec<String>,
    asked: usize,
    seen: Ghost<Seq<HostEvent>>,
}

impl AliasRun {
    /// What was found of the hosts so far.
    pub closed spec fn found(self) -> Seq<HostEvent> {
        self.seen@
    }

    /// The lines are those of the hosts so far.
    pub closed spec fn wf(self) -> bool {
        &&& self.asked == self.seen@.len() <= ALIAS_HOSTS
        &&& texts(self.lines@) == aliases_lines(self.seen@)
    }

    /// A test that begins.
    pub fn start() -> (r: Self)
        ensures
            r.wf(),
            r.found() == Seq::<HostEvent>::empty(),
    {
        let lines: Vec<String> = Vec::new();
        assert(texts(lines@) =~= Seq::empty());
        AliasRun { lines, asked: 0, seen: Ghost(Seq::empty()) }
    }

    /// The next host, if there is one.
    pub fn next(&self) -> (r: Option<&'static str>)
        requires
            self.wf(),
        ensures
            match r {
                Some(h) => self.found().len() < ALIAS_HOSTS && h == alias_host(
                    self.found().len() as usize,
                ),
                None => self.found().len() == ALIAS_HOSTS,
            },
    {
        if self.asked < ALIAS_HOSTS {
            Some(alias_host(self.asked))
        } else {
            None
        }
    }

    /// Note what was found of the next host; where that is a complaint, the test ends with it.
    pub fn feed(&mut self, ev: HostEvent) -> (r: Result<(), String>)
        requires
            old(self).wf(),
            old(self).found().len() < ALIAS_HOSTS,
        ensures
            match r {
                Ok(()) => final(self).wf() && final(self).found() == old(self).found().push(ev)
                    && alias_lines_of(old(self).found().len() as int, ev) is Ok,
                Err(e) => *final(self) == *old(self) && alias_lines_of(
                    old(self).found().len() as int,
                    ev,
                ) == Err::<Seq<Seq<char>>, Seq<char>>(e@),
            },
    {
        let host = alias_host(self.asked);
        match host_lines(host, " raw DNS", host, ev) {
            Err(e) => Err(e),
            Ok(lines) => {
                let mut more: Vec<String> = lines;
                let ghost before = self.lines@;
                let ghost all = self.seen@.push(ev);
                self.lines.append(&mut more);
                self.asked = self.asked + 1;
                self.seen = Ghost(all);
                proof {
                    assert(all.drop_last() =~= old(self).seen@);
                    assert(texts(self.lines@) =~= texts(before) + texts(lines@));
                }
                Ok(())
            },
        }
    }

    /// The report, once there is no host left.
    pub fn finish(self) -> (r: DnsOut)
        requires
            self.wf(),
            self.found().len() == ALIAS_HOSTS,
        ensures
            r.localhost_addrs@.len() == 0,
            texts(r.remote_addrs@) == aliases_lines(self.found()),
    {
        DnsOut { localhost_addrs: Vec::new(), remote_addrs: self.lines }
    }
}

/// The report over aliases holds two lines for each host.
pub proof fn law_two_lines_for_each_alias(seen: Seq<HostEvent>)
    requires
        forall|k: int| 0 <= k < seen.len() ==> alias_lines_of(k, #[trigger] seen[k]) is Ok,
    ensures
        aliases_lines(seen).len() == 2 * seen.len(),
        forall|k: int|
            0 <= k < seen.len() ==> alias_lines_of(k, #[trigger] seen[k]) == Ok::<
                Seq<Seq<char>>,
                Seq<char>,
            >(aliases_lines(seen).subrange(2 * k, 2 * k + 2)),
    decreases seen.len(),
{
    if seen.len() > 0 {
        let before = seen.drop_last();
        assert forall|k: int| 0 <= k < before.len() implies alias_lines_of(k, #[trigger] before[k]) is Ok by {
            assert(before[k] == seen[k]);
        }
        law_two_lines_for_each_alias(before);
        assert forall|k: int| 0 <= k < seen.len() implies alias_lines_of(k, #[trigger] seen[k])
            == Ok::<Seq<Seq<char>>, Seq<char>>(aliases_lines(seen).subrange(2 * k, 2 * k + 2)) by {
            let last = seen.len() - 1;
            if k < last {
                assert(before[k] == seen[k]);
                assert(aliases_lines(seen).subrange(2 * k, 2 * k + 2) =~= aliases_lines(
                    before,
                ).subrange(2 * k, 2 * k + 2));
            } else {
                assert(seen[last] == seen.last());
                assert(aliases_lines(seen).subrange(2 * k, 2 * k + 2) =~= alias_lines_of(
                    last,
                    seen.last(),
                )->Ok_0);
            }
        }
    }
}

/// The dotted form of an address is read as that address: its four bytes in decimal with dots
/// between them.
pub proof fn law_address_round_trip(ip: Ipv4)
    ensures
        is_address(
            dec_text(ip.a as nat) + "."@ + dec_text(ip.b as nat) + "."@ + dec_text(ip.c as nat)
                + "."@ + dec_text(ip.d as nat),
            ip,
        ),
{
    let items = seq![
        dec_text(ip.a as nat),
        dec_text(ip.b as nat),
        dec_text(ip.c as nat),
        dec_text(ip.d as nat),
    ];
    reveal_strlit(".");
    let dot = seq!['.'];
    assert("."@ =~= dot);
    assert forall|i: int, k: int| 0 <= i < items.len() && 0 <= k < items[i].len() implies #[trigger] items[i][k]
        != '.' by {
        let n = if i == 0 {
            ip.a as nat
        } else if i == 1 {
            ip.b as nat
        } else if i == 2 {
            ip.c as nat
        } else {
            ip.d as nat
        };
        assert(items[i] == dec_text(n));
        law_dec_all_digits(n, k);
    }
    lemma_split_of_join(items, '.');
    let i3 = items.drop_last();
    let i2 = i3.drop_last();
    let i1 = i2.drop_last();
    assert(join_text(i1, dot) == items[0]);
    assert(join_text(i2, dot) == items[0] + dot + items[1]);
    assert(join_text(i3, dot) == items[0] + dot + items[1] + dot + items[2]);
    assert(join_text(items, dot) == items[0] + dot + items[1] + dot + items[2] + dot + items[3]);
}

/// A line names a server exactly if, white space around it aside, it is the word followed by an
/// address, with white space around that aside.
pub proof fn law_server_line(line: Seq<char>, ip: Ipv4)
    ensures
        names_server(line, ip) <==> exists|rest: Seq<char>|
            trim_text(line) == #[trigger] ("nameserver"@ + rest) && is_address(trim_text(rest), ip),
{
    let t = trim_text(line);
    let w = "nameserver"@;
    if names_server(line, ip) {
        assert(t =~= w + t.skip(w.len() as int));
    }
    if exists|rest: Seq<char>| t == #[trigger] (w + rest) && is_address(trim_text(rest), ip) {
        let rest = choose|rest: Seq<char>| t == #[trigger] (w + rest) && is_address(trim_text(rest), ip);
        assert(t.subrange(0, w.len() as int) =~= w);
        assert(t.skip(w.len() as int) =~= rest);
    }
}

/// The server is the one of the first line that names any; where none does, or where there is no
/// configuration, it is the sandbox's own.
pub proof fn law_first_server(lines: Seq<Seq<char>>, ip: Ipv4)
    ensures
        is_first_server(lines, ip) <==> (exists|k: int|
            0 <= k < lines.len() && names_server(#[trigger] lines[k], ip) && forall|j: int, other: Ipv4|
                0 <= j < k ==> !#[trigger] names_server(lines[j], other)) || (ip == (Ipv4 {
            a: 10,
            b: 0,
            c: 0,
            d: 1,
        }) && forall|j: int, other: Ipv4|
            0 <= j < lines.len() ==> !#[trigger] names_server(lines[j], other)),
        is_probe_server(None, ip) <==> ip == (Ipv4 { a: 10, b: 0, c: 0, d: 1 }),
    decreases lines.len(),
{
    if lines.len() > 0 {
        let rest = lines.drop_first();
        law_first_server(rest, ip);
        assert(forall|k: int| 0 <= k < rest.len() ==> rest[k] == lines[k + 1]);
        if is_first_server(lines, ip) {
            if names_server(lines[0], ip) {
                assert(names_server(lines[0], ip));
            } else if exists|k: int|
                0 <= k < rest.len() && names_server(#[trigger] rest[k], ip) && forall|
                    j: int,
                    other: Ipv4,
                |
                    0 <= j < k ==> !#[trigger] names_server(rest[j], other) {
                let k = choose|k: int|
                    0 <= k < rest.len() && names_server(#[trigger] rest[k], ip) && forall|
                        j: int,
                        other: Ipv4,
                    |
                        0 <= j < k ==> !#[trigger] names_server(rest[j], other);
                assert(names_server(lines[k + 1], ip));
                assert forall|j: int, other: Ipv4| 0 <= j < k + 1 implies !#[trigger] names_server(
                    lines[j],
                    other,
                ) by {
                    if j > 0 {
                        assert(!names_server(rest[j - 1], other));
                    }
                }
            } else {
                assert forall|j: int, other: Ipv4| 0 <= j < lines.len() implies !#[trigger] names_server(
                    lines[j],
                    other,
                ) by {
                    if j > 0 {
                        assert(!names_server(rest[j - 1], other));
                    }
                }
            }
        }
        if exists|k: int|
            0 <= k < lines.len() && names_server(#[trigger] lines[k], ip) && forall|j: int, other: Ipv4|
                0 <= j < k ==> !#[trigger] names_server(lines[j], other) {
            let k = choose|k: int|
                0 <= k < lines.len() && names_server(#[trigger] lines[k], ip) && forall|
                    j: int,
                    other: Ipv4,
                |
                    0 <= j < k ==> !#[trigger] names_server(lines[j], other);
            if k > 0 {
                assert(names_server(rest[k - 1], ip));
                assert forall|j: int, other: Ipv4| 0 <= j < k - 1 implies !#[trigger] names_server(
                    rest[j],
                    other,
                ) by {
                    assert(!names_server(lines[j + 1], other));
                }
                assert forall|other: Ipv4| !names_server(lines[0], other) by {}
            }
        } else if ip == default_server() && forall|j: int, other: Ipv4|
            0 <= j < lines.len() ==> !#[trigger] names_server(lines[j], other) {
            assert forall|j: int, other: Ipv4| 0 <= j < rest.len() implies !#[trigger] names_server(
                rest[j],
                other,
            ) by {
                assert(!names_server(lines[j + 1], other));
            }
            assert forall|other: Ipv4| !names_server(lines[0], other) by {}
        }
    }
}

/// A query begins with its number and one question, ends with the end of the name and the
/// question for an address, and has the labels of the host between, in order.
pub proof fn law_query_layout(host: Seq<char>)
    ensures
        ({
            let q = query_of(host);
            let n = q.len() as int;
            &&& n >= 17
            &&& q[0] == 0x12 && q[1] == 0x34
            &&& q[2] == 1 && q[3] == 0
            &&& q[4] == 0 && q[5] == 1
            &&& forall|k: int| 6 <= k < 12 ==> #[trigger] q[k] == 0
            &&& q.subrange(12, n - 5) == labels_bytes(split_text(host, '.'))
            &&& q[n - 5] == 0
            &&& q[n - 4] == 0 && q[n - 3] == 1
            &&& q[n - 2] == 0 && q[n - 1] == 1
        }),
{
    let q = query_of(host);
    assert(q.subrange(12, q.len() - 5) =~= labels_bytes(split_text(host, '.')));
}

/// A label is its length and its bytes, and the labels stand one after the other.
pub proof fn law_labels(labels: Seq<Seq<char>>, label: Seq<char>)
    ensures
        label_bytes(label).len() == encode_utf8(label).len() + 1,
        encode_utf8(label).len() < 256 ==> label_bytes(label)[0] == encode_utf8(label).len(),
        label_bytes(label).skip(1) == encode_utf8(label),
        labels_bytes(labels.push(label)) == labels_bytes(labels) + label_bytes(label),
        labels_bytes(Seq::empty()).len() == 0,
{
    assert(label_bytes(label).skip(1) =~= encode_utf8(label));
    assert(labels.push(label).drop_last() =~= labels);
}

/// A number in an answer has its high byte first. An answer was cut short exactly if the second
/// lowest bit of its third byte says so, and its answers are counted in bytes seven and eight.
pub proof fn law_answer_fields(host: Seq<char>, answer: Seq<u8>, peer: Seq<char>)
    requires
        answer.len() >= 12,
    ensures
        answer_text(host, answer, peer) == "ok host="@ + host + " bytes="@ + dec_text(answer.len())
            + " peer="@ + peer + " tc="@ + bool_text((answer[2] / 2) % 2 == 1) + " answers="@
            + dec_text((answer[6] * 256 + answer[7]) as nat),
{
    let (hi, lo) = (answer[2] as int, answer[3] as int);
    assert((256 * hi + lo) / 512 == hi / 2);
}

/// A host is reported exactly if the server answered and the resolver gave at least one address;
/// the report is what the probe says and the addresses. Else the first thing that went wrong is.
pub proof fn law_host_report(host: Seq<char>, word: Seq<char>, heading: Seq<char>, ev: HostEvent)
    ensures
        host_lines_of(host, word, heading, ev) is Ok <==> (ev matches HostEvent::Answered {
            addrs,
            ..
        } && addrs matches Ok(list) && list@.len() > 0),
        ev matches HostEvent::Answered { raw, addrs } ==> (addrs matches Ok(list) ==> (list@.len()
            > 0 ==> host_lines_of(host, word, heading, ev) == Ok::<Seq<Seq<char>>, Seq<char>>(
            seq![raw@, heading + "="@ + join_text(texts(list@), ","@)],
        ))),
        ev matches HostEvent::Silent { raw, conf } ==> host_lines_of(host, word, heading, ev)
            == Err::<Seq<Seq<char>>, Seq<char>>(
            host + word + " probe failed: "@ + raw@ + "; resolv.conf="@ + quoted(
                match conf {
                    Ok(text) => text@,
                    Err(e) => "<read /etc/resolv.conf failed: "@ + e@ + ">"@,
                },
            ),
        ),
{
}

/// A loopback address is one of two texts, and one such address among others is enough.
pub proof fn law_loopback(s: Seq<char>, list: Seq<String>)
    ensures
        is_loopback(s) <==> s == "127.0.0.1"@ || s == "::1"@,
        any_loopback(list) <==> exists|k: int|
            0 <= k < list.len() && ((#[trigger] list[k])@ == "127.0.0.1"@ || list[k]@ == "::1"@),
{
    if exists|k: int|
        0 <= k < list.len() && ((#[trigger] list[k])@ == "127.0.0.1"@ || list[k]@ == "::1"@) {
        let k = choose|k: int|
            0 <= k < list.len() && ((#[trigger] list[k])@ == "127.0.0.1"@ || list[k]@ == "::1"@);
        assert(is_loopback(list[k]@));
    }
}

/// Two bytes of an answer are read high byte first, and an answer that is too short reads as zero.
pub proof fn law_two_byte_fields(answer: Seq<u8>, at: int)
    requires
        0 <= at,
    ensures
        at + 2 <= answer.len() ==> field_at(answer, at) == answer[at] * 256 + answer[at + 1],
        answer.len() < at + 2 ==> field_at(answer, at) == 0,
{
}

/// A text is the form of one byte at most.
pub proof fn law_octet_is_one_byte(s: Seq<char>, v: u8, w: u8)
    requires
        is_octet(s, v),
        is_octet(s, w),
    ensures
        v == w,
        1 <= s.len(),
        forall|k: int| 0 <= k < s.len() ==> '0' <= #[trigger] s[k] <= '9',
{
    law_parse_undoes_print(v as nat, 255);
    law_parse_undoes_print(w as nat, 255);
    assert forall|k: int| 0 <= k < s.len() implies '0' <= #[trigger] s[k] <= '9' by {
        law_dec_all_digits(v as nat, k);
    }
}

/// A complaint shows the configuration as it was read, or the error where it was not.
pub proof fn law_configuration_shown(conf: Result<String, String>)
    ensures
        conf matches Ok(t) ==> conf_text(conf) == t@,
        conf matches Err(e) ==> conf_text(conf) == "<read /etc/resolv.conf failed: "@ + e@ + ">"@,
{
}

/// A label is told by how many bytes it takes, and the bytes follow; the labels of a name stand
/// one after the other.
pub proof fn law_labels_in_query(labels: Seq<Seq<char>>, label: Seq<char>)
    ensures
        label_bytes(label).len() == encode_utf8(label).len() + 1,
        encode_utf8(label).len() < 256 ==> label_bytes(label)[0] == encode_utf8(label).len(),
        label_bytes(label).skip(1) == encode_utf8(label),
        labels_bytes(Seq::empty()).len() == 0,
        labels_bytes(labels.push(label)) == labels_bytes(labels) + label_bytes(label),
{
    assert(label_bytes(label).skip(1) =~= encode_utf8(label));
    assert(labels.push(label).drop_last() =~= labels);
}

} // verus!
