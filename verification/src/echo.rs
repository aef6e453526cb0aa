//! Echo packets of the Internet control protocol: the checksum, the request, and which
//! datagrams answer it.

use vstd::prelude::*;
use vstd::seq_lib::lemma_fold_right_permutation;
use crate::errno::{EAGAIN, EPERM, EPROTONOSUPPORT};
use crate::text::cat;

verus! {

/// The sum of the big-endian words of `bytes` from position `at` on. A last single byte
/// is the high half of a word.
pub open spec fn word_sum(bytes: Seq<u8>, at: int) -> nat
    decreases bytes.len() - at,
{
    if at < 0 || at >= bytes.len() {
        0
    } else if at + 1 == bytes.len() {
        256 * bytes[at] as nat
    } else {
        256 * bytes[at] as nat + bytes[at + 1] as nat + word_sum(bytes, at + 2)
    }
}

/// A sum in ones' complement arithmetic of sixteen bits: carries come back in at the low
/// end, and only the empty sum is zero.
pub open spec fn ones_sum(n: nat) -> nat {
    if n == 0 {
        0
    } else {
        1 + ((n - 1) as nat) % 65535
    }
}

/// The checksum: the complement of the sum, whose plain value is kept in thirty-two bits.
pub open spec fn checksum_of(bytes: Seq<u8>) -> nat {
    (65535 - ones_sum(word_sum(bytes, 0) % 0x1_0000_0000)) as nat
}

/// The sum of the words, as far as thirty-two bits hold it.
fn plain_sum(bytes: &[u8]) -> (r: u32)
    ensures
        r == word_sum(bytes@, 0) % 0x1_0000_0000,
{
    let ghost total = word_sum(bytes@, 0);
    let count: usize = bytes.len();
    let mut sum: u32 = 0;
    let mut i: usize = 0;
    while count - i >= 2
        invariant
            i <= count,
            count == bytes.len(),
            (sum as nat + word_sum(bytes@, i as int)) % 0x1_0000_0000 == total % 0x1_0000_0000,
        decreases count - i,
    {
        let word: u32 = bytes[i] as u32 * 256 + bytes[i + 1] as u32;
        sum = sum.wrapping_add(word);
        i = i + 2;
    }
    if i < count {
        let word: u32 = bytes[i] as u32 * 256;
        sum = sum.wrapping_add(word);
    }
    sum
}

/// The sum with its carries added back in.
fn folded(plain: u32) -> (r: u16)
    ensures
        r == ones_sum(plain as nat),
{
    let mut sum: u32 = plain;
    while sum >= 0x1_0000
        invariant
            ones_sum(sum as nat) == ones_sum(plain as nat),
        decreases sum,
    {
        let low: u32 = sum % 0x1_0000;
        let high: u32 = sum / 0x1_0000;
        sum = low + high;
    }
    sum as u16
}

/// The Internet checksum of `bytes`.
pub fn icmp_checksum(bytes: &[u8]) -> (r: u16)
    ensures
        r == checksum_of(bytes@),
{
    0xffff - folded(plain_sum(bytes))
}

/// Filling the checksum into two bytes at an even position, which were zero, makes the
/// checksum of the whole packet zero. The packet must not be so long that its sum leaves
/// thirty-two bits.
pub proof fn law_checksum_verifies(p: Seq<u8>, at: int)
    requires
        0 <= at && at + 1 < p.len(),
        at % 2 == 0,
        p[at] == 0 && p[at + 1] == 0,
        word_sum(p, 0) + checksum_of(p) < 0x1_0000_0000,
    ensures
        checksum_of(with_checksum_at(p, at)) == 0,
{
    lemma_sum_with_word(p, with_checksum_at(p, at), at, 0);
}

/// A word in place of a zero one adds itself to every sum that takes it in.
proof fn lemma_sum_with_word(p: Seq<u8>, q: Seq<u8>, at: int, from: int)
    requires
        0 <= from <= at && at + 1 < p.len(),
        from % 2 == at % 2,
        p.len() == q.len(),
        p[at] == 0 && p[at + 1] == 0,
        forall|k: int| 0 <= k < p.len() && k != at && k != at + 1 ==> p[k] == q[k],
    ensures
        word_sum(q, from) == word_sum(p, from) + 256 * q[at] + q[at + 1],
    decreases at - from,
{
    if from < at {
        lemma_sum_with_word(p, q, at, from + 2);
    } else {
        lemma_sum_of_rest(p, q, at + 2);
    }
}

proof fn lemma_sum_of_rest(p: Seq<u8>, q: Seq<u8>, at: int)
    requires
        0 <= at,
        p.len() == q.len(),
        forall|k: int| at <= k < p.len() ==> p[k] == q[k],
    ensures
        word_sum(p, at) == word_sum(q, at),
    decreases p.len() - at,
{
    if at + 1 < p.len() {
        lemma_sum_of_rest(p, q, at + 2);
    }
}

/// The packet with its checksum filled in at a position, high byte first.
pub open spec fn with_checksum_at(p: Seq<u8>, at: int) -> Seq<u8> {
    p.update(at, (checksum_of(p) / 256) as u8).update(at + 1, (checksum_of(p) % 256) as u8)
}

/// The packet with its checksum filled in where the protocol has it.
pub open spec fn with_checksum(p: Seq<u8>) -> Seq<u8> {
    with_checksum_at(p, 2)
}

/// The big-endian words of `bytes`; a last single byte is the high half of a word.
pub open spec fn words_of(bytes: Seq<u8>) -> Seq<nat>
    decreases bytes.len(),
{
    if bytes.len() == 0 {
        Seq::empty()
    } else if bytes.len() == 1 {
        seq![256 * bytes[0] as nat]
    } else {
        seq![256 * bytes[0] as nat + bytes[1] as nat] + words_of(bytes.skip(2))
    }
}

/// A zero byte behind an odd number of bytes leaves the checksum as it is.
pub proof fn law_checksum_ignores_padding(p: Seq<u8>)
    requires
        p.len() % 2 == 1,
    ensures
        checksum_of(p.push(0u8)) == checksum_of(p),
{
    lemma_sum_padded(p, 0);
}

proof fn lemma_sum_padded(p: Seq<u8>, at: int)
    requires
        0 <= at < p.len(),
        at % 2 == 0,
        p.len() % 2 == 1,
    ensures
        word_sum(p.push(0u8), at) == word_sum(p, at),
    decreases p.len() - at,
{
    if at + 1 < p.len() {
        lemma_sum_padded(p, at + 2);
    } else {
        assert(word_sum(p.push(0u8), at + 2) == 0);
    }
}

/// The order of the words does not matter to the checksum.
pub proof fn law_checksum_ignores_order(p: Seq<u8>, q: Seq<u8>)
    requires
        words_of(p).to_multiset() == words_of(q).to_multiset(),
    ensures
        checksum_of(p) == checksum_of(q),
{
    let add_to = |w: nat, sum: nat| (w + sum) as nat;
    lemma_sum_is_fold(p, 0, add_to);
    lemma_sum_is_fold(q, 0, add_to);
    assert(p.skip(0) =~= p);
    assert(q.skip(0) =~= q);
    words_of(p).lemma_fold_right_alt(add_to, 0nat);
    words_of(q).lemma_fold_right_alt(add_to, 0nat);
    lemma_fold_right_permutation(words_of(p), words_of(q), add_to, 0nat);
}

proof fn lemma_sum_is_fold(p: Seq<u8>, at: int, add_to: spec_fn(nat, nat) -> nat)
    requires
        0 <= at <= p.len(),
        forall|w: nat, sum: nat| #[trigger] add_to(w, sum) == w + sum,
    ensures
        word_sum(p, at) == words_of(p.skip(at)).fold_right_alt(add_to, 0nat),
    decreases p.len() - at,
{
    let rest = p.skip(at);
    let words = words_of(rest);
    if at + 1 < p.len() {
        lemma_sum_is_fold(p, at + 2, add_to);
        assert(rest.skip(2) =~= p.skip(at + 2));
        assert(words.subrange(1, words.len() as int) =~= words_of(rest.skip(2)));
    } else if at + 1 == p.len() {
        let none = words.subrange(1, words.len() as int);
        assert(none.fold_right_alt(add_to, 0nat) == 0);
    }
}

/// What the request carries behind its header.
pub open spec fn echo_payload() -> Seq<u8> {
    "litebox-raw-icmp"@.map_values(|c: char| c as u8)
}

/// The two bytes of a number, high byte first.
pub open spec fn be16(n: u16) -> Seq<u8> {
    seq![(n / 256) as u8, (n % 256) as u8]
}

/// The high byte of a number.
fn high_byte(n: u16) -> (r: u8)
    ensures
        r == be16(n)[0],
{
    (n / 256) as u8
}

/// The low byte of a number.
fn low_byte(n: u16) -> (r: u8)
    ensures
        r == be16(n)[1],
{
    (n % 256) as u8
}

/// The request without its checksum.
pub open spec fn echo_body(ident: u16, number: u16) -> Seq<u8> {
    seq![8u8, 0u8, 0u8, 0u8] + be16(ident) + be16(number) + echo_payload()
}

/// The echo request of a sender for a sequence number.
pub open spec fn echo_packet_of(ident: u16, number: u16) -> Seq<u8> {
    with_checksum(echo_body(ident, number))
}

/// The echo request of a sender for a sequence number.
pub fn echo_packet(ident: u16, number: u16) -> (r: Vec<u8>)
    ensures
        r@ == echo_packet_of(ident, number),
{
    let mut packet: Vec<u8> = vec![
        8,
        0,
        0,
        0,
        high_byte(ident),
        low_byte(ident),
        high_byte(number),
        low_byte(number),
        108,
        105,
        116,
        101,
        98,
        111,
        120,
        45,
        114,
        97,
        119,
        45,
        105,
        99,
        109,
        112,
    ];
    proof {
        reveal_strlit("litebox-raw-icmp");
        assert(packet@ =~= echo_body(ident, number));
    }
    let checksum: u16 = icmp_checksum(packet.as_slice());
    packet.set(2, high_byte(checksum));
    packet.set(3, low_byte(checksum));
    packet
}

proof fn lemma_echo_body(ident: u16, number: u16)
    ensures
        echo_body(ident, number).len() == 24,
        word_sum(echo_body(ident, number), 0) <= 12 * 65535,
{
    reveal_strlit("litebox-raw-icmp");
    lemma_sum_bound(echo_body(ident, number), 0);
}

proof fn lemma_sum_bound(p: Seq<u8>, at: int)
    requires
        0 <= at,
    ensures
        at <= p.len() ==> word_sum(p, at) * 2 <= 65535 * (p.len() - at + 1),
        p.len() % 2 == at % 2 && at <= p.len() ==> word_sum(p, at) * 2 <= 65535 * (p.len() - at),
    decreases p.len() - at,
{
    if at + 1 < p.len() {
        lemma_sum_bound(p, at + 2);
    }
}

/// Every echo request carries a right checksum.
pub proof fn law_echo_packet_verifies(ident: u16, number: u16)
    ensures
        checksum_of(echo_packet_of(ident, number)) == 0,
{
    lemma_echo_body(ident, number);
    law_checksum_verifies(echo_body(ident, number), 2);
}

/// How many bytes the datagram's own header takes, by its first byte.
pub open spec fn header_len(datagram: Seq<u8>) -> int {
    (datagram[0] % 16) * 4
}

/// The datagram answers the request of that sender and sequence number.
pub open spec fn is_reply(datagram: Seq<u8>, ident: u16, number: u16) -> bool {
    let h = header_len(datagram);
    &&& datagram.len() >= 28
    &&& h >= 20
    &&& datagram.len() >= h + 8
    &&& datagram[h] == 0
    &&& datagram[h + 1] == 0
    &&& datagram.subrange(h + 4, h + 6) == be16(ident)
    &&& datagram.subrange(h + 6, h + 8) == be16(number)
}

/// Whether a datagram answers the request of that sender and sequence number.
pub fn answers_echo(datagram: &[u8], ident: u16, number: u16) -> (r: bool)
    ensures
        r == is_reply(datagram@, ident, number),
{
    if datagram.len() < 28 {
        return false;
    }
    let h: usize = (datagram[0] % 16) as usize * 4;
    if h < 20 || datagram.len() < h + 8 {
        return false;
    }
    let r = datagram[h] == 0 && datagram[h + 1] == 0 && datagram[h + 4] == (ident / 256) as u8
        && datagram[h + 5] == (ident % 256) as u8 && datagram[h + 6] == (number / 256) as u8
        && datagram[h + 7] == (number % 256) as u8;
    proof {
        let d = datagram@;
        let a = d.subrange(h + 4, h + 6);
        let b = d.subrange(h + 6, h + 8);
        if r {
            assert(a =~= be16(ident));
            assert(b =~= be16(number));
        } else if is_reply(d, ident, number) {
            assert(a[0] == d[h + 4] && a[1] == d[h + 5]);
            assert(b[0] == d[h + 6] && b[1] == d[h + 7]);
        }
    }
    r
}

/// A datagram that repeats the request as an answer, behind a header of whatever length
/// the header says, answers it; the request itself, which a loopback also delivers, does
/// not.
pub proof fn law_reply_recognised(header: Seq<u8>, ident: u16, number: u16)
    requires
        header.len() >= 20,
        header.len() == header_len(header),
    ensures
        is_reply(header + echo_packet_of(ident, number).update(0, 0u8), ident, number),
        !is_reply(header + echo_packet_of(ident, number), ident, number),
{
    lemma_echo_body(ident, number);
    let p = echo_packet_of(ident, number);
    let d = header + p.update(0, 0u8);
    let h = header.len() as int;
    assert(d.subrange(h + 4, h + 6) =~= be16(ident));
    assert(d.subrange(h + 6, h + 8) =~= be16(number));
    assert((header + p)[h] == 8);
}

/// What the raw echo test came to.
#[derive(Clone, Copy, Debug, PartialEq, Eq, Structural)]
pub enum RawOut {
    PermissionDenied,
    EchoSucceeded,
}

/// The detail of a raw echo test; either outcome passes.
pub fn raw_detail(out: RawOut) -> (r: String)
    ensures
        r@ == match out {
            RawOut::PermissionDenied => "raw_icmp=PermissionDenied"@,
            RawOut::EchoSucceeded => "raw_icmp=EchoSucceeded"@,
        },
{
    match out {
        RawOut::PermissionDenied => "raw_icmp=PermissionDenied".to_string(),
        RawOut::EchoSucceeded => "raw_icmp=EchoSucceeded".to_string(),
    }
}

/// What a raw socket that could not be opened means: raw sockets are restricted or
/// missing here, or something is wrong.
pub fn raw_refused(errno: Option<i32>, error: &str) -> (r: Result<RawOut, String>)
    ensures
        match r {
            Ok(out) => (errno == Some(EPERM) || errno == Some(EPROTONOSUPPORT)) && out
                == RawOut::PermissionDenied,
            Err(e) => errno != Some(EPERM) && errno != Some(EPROTONOSUPPORT) && e@
                == "socket failed: "@ + error@,
        },
{
    match errno {
        Some(n) => if n == EPERM || n == EPROTONOSUPPORT {
            Ok(RawOut::PermissionDenied)
        } else {
            Err(cat("socket failed: ", error))
        },
        None => Err(cat("socket failed: ", error)),
    }
}

/// Whether the wait for the answer goes on.
pub enum EchoStep {
    /// Look again after a pause.
    Again,
    Finished { result: Result<RawOut, String> },
}

/// What one receive gave.
pub enum Received<'a> {
    /// A datagram.
    Datagram { bytes: &'a [u8] },
    /// Nothing, and why.
    Nothing { errno: Option<i32>, error: &'a str },
}

/// One look for the answer. `late` is whether the time is up.
pub fn echo_step(got: Received, ident: u16, number: u16, late: bool) -> (r: EchoStep)
    ensures
        match got {
            Received::Datagram { bytes } if is_reply(bytes@, ident, number) => r matches
                EchoStep::Finished { result: Ok(out) } && out == RawOut::EchoSucceeded,
            Received::Nothing { errno, error } if errno != Some(EAGAIN) => r matches
                EchoStep::Finished { result: Err(e) } && e@ == "recv: "@ + error@,
            _ => if late {
                r matches EchoStep::Finished { result: Err(e) } && e@
                    == "timed out waiting for ICMP echo reply"@
            } else {
                r is Again
            },
        },
{
    match got {
        Received::Datagram { bytes } => if answers_echo(bytes, ident, number) {
            return EchoStep::Finished { result: Ok(RawOut::EchoSucceeded) };
        },
        Received::Nothing { errno, error } => if errno != Some(EAGAIN) {
            return EchoStep::Finished { result: Err(cat("recv: ", error)) };
        },
    }
    if late {
        EchoStep::Finished { result: Err("timed out waiting for ICMP echo reply".to_string()) }
    } else {
        EchoStep::Again
    }
}

/// The checksum of one word is its complement, and that of no bytes is all ones.
pub proof fn law_checksum_of_word(a: u8, b: u8)
    ensures
        checksum_of(seq![a, b]) == 65535 - (256 * a + b),
        checksum_of(Seq::empty()) == 65535,
{
    let p = seq![a, b];
    assert(word_sum(p, 2) == 0);
    assert(word_sum(p, 0) == 256 * a + b);
}

/// A number has its high byte first, and is made up of the two again.
pub proof fn law_two_bytes(n: u16)
    ensures
        be16(n).len() == 2,
        256 * be16(n)[0] + be16(n)[1] == n,
{
}

/// A request is of the kind for an echo, carries its sender and its number, high bytes first, and
/// then the payload.
pub proof fn law_request_layout(ident: u16, number: u16)
    ensures
        ({
            let p = echo_packet_of(ident, number);
            &&& p.len() == 24
            &&& p[0] == 8 && p[1] == 0
            &&& 256 * p[4] + p[5] == ident
            &&& 256 * p[6] + p[7] == number
            &&& p.skip(8) == echo_payload()
            &&& p[8] == 'l' as u8 && p[23] == 'p' as u8
        }),
{
    reveal_strlit("litebox-raw-icmp");
    let p = echo_packet_of(ident, number);
    assert(echo_payload().len() == 16);
    assert(p.skip(8) =~= echo_payload());
}

/// A datagram answers one request at most, is long enough for both headers, and is of the kind
/// for an answer.
pub proof fn law_reply_is_for_one(d: Seq<u8>, ident: u16, number: u16, other: u16, next: u16)
    requires
        is_reply(d, ident, number),
    ensures
        d.len() >= 28,
        20 <= (d[0] % 16) * 4 && (d[0] % 16) * 4 + 8 <= d.len(),
        d[(d[0] % 16) * 4] == 0,
        d[(d[0] % 16) * 4 + 1] == 0,
        256 * d[(d[0] % 16) * 4 + 4] + d[(d[0] % 16) * 4 + 5] == ident,
        256 * d[(d[0] % 16) * 4 + 6] + d[(d[0] % 16) * 4 + 7] == number,
        is_reply(d, other, next) ==> other == ident && next == number,
{
    let h = header_len(d);
    let a = d.subrange(h + 4, h + 6);
    let b = d.subrange(h + 6, h + 8);
    assert(a[0] == d[h + 4] && a[1] == d[h + 5]);
    assert(b[0] == d[h + 6] && b[1] == d[h + 7]);
    law_two_bytes(ident);
    law_two_bytes(number);
    law_two_bytes(other);
    law_two_bytes(next);
}

} // verus!
