//! Listening sockets handed from an agent to a forked child.
//!
//! Each inherited socket is duplicated into a reserved slot, above the numbers
//! that programs use for themselves and below those of the sandbox's own
//! bridges. The child learns the mapping from an environment variable that
//! holds `port=fd` items separated by commas.

use vstd::prelude::*;
use crate::errno::EBADF;
use crate::number::{
    dec, dec_i64, dec_text, fault_text, int_text, law_dec_all_digits, law_parse_undoes_print,
    law_parse_undoes_print_i32, parse_i32, parse_i32_text, parse_unsigned, parse_unsigned_text,
    NumberFault,
};
use crate::text::{
    cat, cat3, join, join_text, law_split_once, quote, quoted, split, split_once, split_once_text,
    split_text, texts,
};

verus! {

/// The environment variable that holds the mapping.
pub const INHERITED_LISTEN_FDS_ENV: &'static str = "LITEBOX_TEST_HARNESS_INHERITED_LISTEN_FDS";

/// The first reserved slot.
pub const INHERITED_LISTEN_FD_BASE: i32 = 80;

/// The last reserved slot.
pub const INHERITED_LISTEN_FD_LIMIT: i32 = 99;

/// What one item of the mapping says, or the complaint about it.
pub open spec fn item_of(item: Seq<char>) -> Result<(int, int), Seq<char>> {
    match split_once_text(item, '=') {
        None => Err("bad inherited listener item "@ + quoted(item)),
        Some((port, fd)) => match parse_unsigned_text(port, 65535) {
            Err(e) => Err("bad inherited port "@ + quoted(port) + ": "@ + fault_text(e)),
            Ok(p) => match parse_i32_text(fd) {
                Err(e) => Err("bad inherited fd "@ + quoted(fd) + ": "@ + fault_text(e)),
                Ok(f) => Ok((p as int, f)),
            },
        },
    }
}

fn complaint(what: &str, text: &str, fault: NumberFault) -> (r: String)
    ensures
        r@ == what@ + quoted(text@) + ": "@ + fault_text(fault),
{
    let q = quote(text);
    let mut out = cat3(what, q.as_str(), ": ");
    out.append(fault.message());
    out
}

/// Read one item of the mapping.
pub fn parse_item(item: &str) -> (r: Result<(u16, i32), String>)
    ensures
        match r {
            Ok((p, f)) => item_of(item@) == Ok::<(int, int), Seq<char>>((p as int, f as int)),
            Err(e) => item_of(item@) == Err::<(int, int), Seq<char>>(e@),
        },
{
    match split_once(item, '=') {
        None => {
            let q = quote(item);
            Err(cat("bad inherited listener item ", q.as_str()))
        },
        Some((port, fd)) => match parse_unsigned(port, 65535) {
            Err(e) => Err(complaint("bad inherited port ", port, e)),
            Ok(p) => match parse_i32(fd) {
                Err(e) => Err(complaint("bad inherited fd ", fd, e)),
                Ok(f) => Ok((p as u16, f)),
            },
        },
    }
}

/// Pairs of machine numbers as pairs of integers.
pub open spec fn as_ints(pairs: Seq<(u16, i32)>) -> Seq<(int, int)> {
    pairs.map_values(|p: (u16, i32)| (p.0 as int, p.1 as int))
}

/// What the items say in order, or the complaint about the first bad one.
pub open spec fn items_of(items: Seq<Seq<char>>) -> Result<Seq<(int, int)>, Seq<char>>
    decreases items.len(),
{
    if items.len() == 0 {
        Ok(Seq::empty())
    } else {
        match items_of(items.drop_last()) {
            Err(e) => Err(e),
            Ok(v) => match item_of(items.last()) {
                Err(e) => Err(e),
                Ok(p) => Ok(v.push(p)),
            },
        }
    }
}

/// What a whole mapping says: nothing where it is empty.
pub open spec fn mapping_of(text: Seq<char>) -> Result<Seq<(int, int)>, Seq<char>> {
    if text.len() == 0 {
        Ok(Seq::empty())
    } else {
        items_of(split_text(text, ','))
    }
}

/// Read a whole mapping.
pub fn parse_mapping(text: &str) -> (r: Result<Vec<(u16, i32)>, String>)
    ensures
        match r {
            Ok(v) => mapping_of(text@) == Ok::<Seq<(int, int)>, Seq<char>>(as_ints(v@)),
            Err(e) => mapping_of(text@) == Err::<Seq<(int, int)>, Seq<char>>(e@),
        },
{
    let mut out: Vec<(u16, i32)> = Vec::new();
    if text.is_empty() {
        assert(as_ints(out@) =~= Seq::empty());
        return Ok(out);
    }
    let items = split(text, ',');
    let mut i: usize = 0;
    assert(as_ints(out@) =~= Seq::empty());
    assert(texts(items@).take(0) =~= Seq::empty());
    while i < items.len()
        invariant
            text@.len() > 0,
            texts(items@) == split_text(text@, ','),
            i <= items.len(),
            items_of(texts(items@).take(i as int)) == Ok::<Seq<(int, int)>, Seq<char>>(
                as_ints(out@),
            ),
        decreases items.len() - i,
    {
        let ghost all = texts(items@);
        let ghost next = all.take(i + 1);
        assert(next.drop_last() =~= all.take(i as int));
        assert(next.last() == items@[i as int]@);
        match parse_item(items[i].as_str()) {
            Err(e) => {
                proof {
                    lemma_first_bad(all, i + 1);
                }
                return Err(e);
            },
            Ok(p) => {
                let ghost before = out@;
                out.push(p);
                assert(as_ints(out@) =~= as_ints(before).push((p.0 as int, p.1 as int)));
            },
        }
        i = i + 1;
    }
    assert(texts(items@).take(items@.len() as int) =~= texts(items@));
    Ok(out)
}

proof fn lemma_first_bad(items: Seq<Seq<char>>, k: int)
    requires
        0 <= k <= items.len(),
        items_of(items.take(k)) is Err,
    ensures
        items_of(items) == items_of(items.take(k)),
    decreases items.len(),
{
    if k < items.len() {
        assert(items.drop_last().take(k) =~= items.take(k));
        lemma_first_bad(items.drop_last(), k);
    } else {
        assert(items.take(k) =~= items);
    }
}

/// One item of the mapping as text.
pub open spec fn item_text(pair: (u16, i32)) -> Seq<char> {
    dec_text(pair.0 as nat) + "="@ + int_text(pair.1 as int)
}

/// The items of a mapping as texts.
pub open spec fn item_texts(pairs: Seq<(u16, i32)>) -> Seq<Seq<char>> {
    pairs.map_values(|p: (u16, i32)| item_text(p))
}

/// A whole mapping as text.
pub open spec fn mapping_text(pairs: Seq<(u16, i32)>) -> Seq<char> {
    join_text(item_texts(pairs), ","@)
}

/// Write a mapping.
pub fn write_mapping(pairs: &Vec<(u16, i32)>) -> (r: String)
    ensures
        r@ == mapping_text(pairs@),
{
    let mut items: Vec<String> = Vec::new();
    let mut i: usize = 0;
    while i < pairs.len()
        invariant
            i <= pairs.len(),
            texts(items@) =~= item_texts(pairs@.take(i as int)),
        decreases pairs.len() - i,
    {
        let (port, fd) = pairs[i];
        let p = dec(port as u64);
        let f = dec_i64(fd as i64);
        let ghost before = items@;
        items.push(cat3(p.as_str(), "=", f.as_str()));
        assert(texts(items@) =~= texts(before).push(item_text(pairs@[i as int])));
        assert(item_texts(pairs@.take(i + 1)) =~= item_texts(pairs@.take(i as int)).push(
            item_text(pairs@[i as int]),
        ));
        i = i + 1;
    }
    assert(pairs@.take(pairs@.len() as int) =~= pairs@);
    join(&items, ",")
}

proof fn lemma_split_tail(a: Seq<char>, b: Seq<char>, mark: char)
    requires
        forall|k: int| 0 <= k < b.len() ==> b[k] != mark,
        split_text(a, mark).len() > 0,
    ensures
        split_text(a + b, mark) == split_text(a, mark).drop_last().push(
            split_text(a, mark).last() + b,
        ),
    decreases b.len(),
{
    let before = split_text(a, mark);
    if b.len() == 0 {
        assert(a + b =~= a);
        assert(before.last() + b =~= before.last());
        assert(before.drop_last().push(before.last()) =~= before);
    } else {
        let front = b.drop_last();
        lemma_split_tail(a, front, mark);
        assert((a + b).drop_last() =~= a + front);
        let mid = split_text(a + front, mark);
        assert(mid.drop_last() =~= before.drop_last());
        assert((before.last() + front).push(b.last()) =~= before.last() + b);
    }
}

pub proof fn lemma_split_of_join(items: Seq<Seq<char>>, mark: char)
    requires
        items.len() > 0,
        forall|i: int, k: int|
            0 <= i < items.len() && 0 <= k < items[i].len() ==> #[trigger] items[i][k] != mark,
    ensures
        split_text(join_text(items, seq![mark]), mark) == items,
    decreases items.len(),
{
    if items.len() == 1 {
        let empty = Seq::<char>::empty();
        lemma_split_tail(empty, items[0], mark);
        assert(empty + items[0] =~= items[0]);
        assert(split_text(empty, mark) =~= seq![empty]);
        assert(split_text(items[0], mark) =~= items);
    } else {
        let front = items.drop_last();
        assert forall|i: int, k: int|
            0 <= i < front.len() && 0 <= k < front[i].len() implies #[trigger] front[i][k] != mark by {
            assert(front[i] == items[i]);
        }
        lemma_split_of_join(front, mark);
        let a = join_text(front, seq![mark]);
        let am = a + seq![mark];
        assert(am.drop_last() =~= a);
        assert(split_text(am, mark) =~= front.push(Seq::<char>::empty()));
        let b = items.last();
        assert forall|k: int| 0 <= k < b.len() implies b[k] != mark by {
            assert(items[items.len() - 1][k] != mark);
        }
        lemma_split_tail(am, b, mark);
        assert(join_text(items, seq![mark]) == am + b);
        assert(Seq::<char>::empty() + b =~= b);
        assert(split_text(am + b, mark) =~= items);
    }
}

proof fn lemma_item_chars(pair: (u16, i32), k: int)
    requires
        0 <= k < item_text(pair).len(),
    ensures
        item_text(pair)[k] != ',',
{
    reveal_strlit("=");
    reveal_strlit("-");
    let p = dec_text(pair.0 as nat);
    let f = int_text(pair.1 as int);
    if k < p.len() {
        law_dec_all_digits(pair.0 as nat, k);
    } else if k > p.len() {
        let m = k - p.len() - 1;
        assert(item_text(pair)[k] == f[m]);
        if pair.1 < 0 {
            if m > 0 {
                law_dec_all_digits((-(pair.1 as int)) as nat, m - 1);
            }
        } else {
            law_dec_all_digits(pair.1 as nat, m);
        }
    }
}

proof fn lemma_item_round_trip(pair: (u16, i32))
    ensures
        item_of(item_text(pair)) == Ok::<(int, int), Seq<char>>((pair.0 as int, pair.1 as int)),
{
    reveal_strlit("=");
    let p = dec_text(pair.0 as nat);
    let f = int_text(pair.1 as int);
    assert forall|k: int| 0 <= k < p.len() implies p[k] != '=' by {
        law_dec_all_digits(pair.0 as nat, k);
    }
    assert("="@ =~= seq!['=']);
    law_split_once(p, '=', f);
    law_parse_undoes_print(pair.0 as nat, 65535);
    law_parse_undoes_print_i32(pair.1);
}

proof fn lemma_items_round_trip(pairs: Seq<(u16, i32)>)
    ensures
        items_of(item_texts(pairs)) == Ok::<Seq<(int, int)>, Seq<char>>(as_ints(pairs)),
    decreases pairs.len(),
{
    let items = item_texts(pairs);
    if pairs.len() == 0 {
        assert(as_ints(pairs) =~= Seq::empty());
    } else {
        lemma_items_round_trip(pairs.drop_last());
        assert(items.drop_last() =~= item_texts(pairs.drop_last()));
        lemma_item_round_trip(pairs.last());
        assert(as_ints(pairs) =~= as_ints(pairs.drop_last()).push(
            (pairs.last().0 as int, pairs.last().1 as int),
        ));
    }
}

/// The child reads from the mapping exactly the pairs that the parent wrote.
pub proof fn law_mapping_round_trip(pairs: Seq<(u16, i32)>)
    ensures
        mapping_of(mapping_text(pairs)) == Ok::<Seq<(int, int)>, Seq<char>>(as_ints(pairs)),
{
    reveal_strlit(",");
    assert(","@ =~= seq![',']);
    let items = item_texts(pairs);
    if pairs.len() == 0 {
        assert(as_ints(pairs) =~= Seq::empty());
    } else {
        assert forall|i: int, k: int|
            0 <= i < items.len() && 0 <= k < items[i].len() implies #[trigger] items[i][k] != ',' by {
            lemma_item_chars(pairs[i], k);
        }
        lemma_split_of_join(items, ',');
        lemma_items_round_trip(pairs);
        lemma_join_nonempty(pairs);
    }
}

proof fn lemma_join_nonempty(pairs: Seq<(u16, i32)>)
    requires
        pairs.len() > 0,
    ensures
        mapping_text(pairs).len() > 0,
{
    reveal_strlit("=");
    let items = item_texts(pairs);
    assert(items.last() == item_text(pairs.last()));
}

/// The slot of the inherited socket at `index`.
pub open spec fn slot_of(index: int) -> int {
    INHERITED_LISTEN_FD_BASE + index
}

/// How many slots there are.
pub open spec fn slot_count() -> int {
    INHERITED_LISTEN_FD_LIMIT - INHERITED_LISTEN_FD_BASE + 1
}

/// The complaint about too many ports.
pub open spec fn too_many_text(count: nat) -> Seq<char> {
    "too many inherited listen ports: "@ + dec_text(count) + " (slot range 80-99)"@
}

/// Whether that many ports can be handed down, and the complaint where they cannot.
pub fn check_port_count(count: usize) -> (r: Result<(), String>)
    ensures
        match r {
            Ok(()) => count <= slot_count(),
            Err(e) => count > slot_count() && e@ == too_many_text(count as nat),
        },
{
    if count > 20 {
        let n = dec(count as u64);
        Err(cat3("too many inherited listen ports: ", n.as_str(), " (slot range 80-99)"))
    } else {
        Ok(())
    }
}

/// The socket to hand down for a port: the agent's own listener first, then one
/// that a handler left on the bridge.
pub open spec fn picked(own: Option<i32>, bridged: Option<i32>) -> Option<i32> {
    match own {
        Some(fd) => Some(fd),
        None => bridged,
    }
}

/// The complaint about a port without a listener.
pub open spec fn no_listener_text(port: u16) -> Seq<char> {
    "no listener registered for port "@ + dec_text(port as nat)
}

/// The socket to hand down for a port, or the complaint that there is none.
pub fn pick_listener(own: Option<i32>, bridged: Option<i32>, port: u16) -> (r: Result<i32, String>)
    ensures
        match r {
            Ok(fd) => picked(own, bridged) == Some(fd),
            Err(e) => picked(own, bridged) is None && e@ == no_listener_text(port),
        },
{
    match own {
        Some(fd) => Ok(fd),
        None => match bridged {
            Some(fd) => Ok(fd),
            None => {
                let p = dec(port as u64);
                Err(cat("no listener registered for port ", p.as_str()))
            },
        },
    }
}

/// The slot for the socket at `index`.
pub fn slot(index: usize) -> (r: i32)
    requires
        index < slot_count(),
    ensures
        r == slot_of(index as int),
{
    INHERITED_LISTEN_FD_BASE + index as i32
}

/// Slots of different sockets differ, and all lie in the reserved range.
pub proof fn law_slots_distinct(i: int, j: int)
    requires
        0 <= i < j < slot_count(),
    ensures
        slot_of(i) != slot_of(j),
        INHERITED_LISTEN_FD_BASE <= slot_of(i) <= INHERITED_LISTEN_FD_LIMIT,
        INHERITED_LISTEN_FD_BASE <= slot_of(j) <= INHERITED_LISTEN_FD_LIMIT,
{
}

/// What asking for the flags of a slot shows: it must be free, that is, the
/// question must fail with "bad file descriptor". The complaint where it is not.
pub open spec fn slot_complaint(
    slot: int,
    flags: i32,
    errno: Option<i32>,
    error: Seq<char>,
) -> Option<Seq<char>> {
    if flags >= 0 {
        Some("inherited fd slot "@ + int_text(slot) + " is already occupied"@)
    } else if errno == Some(EBADF) {
        None
    } else {
        Some("inspect inherited fd slot "@ + int_text(slot) + ": "@ + error)
    }
}

/// Whether a slot is free, by what asking for its flags shows.
pub fn slot_is_free(slot: i32, flags: i32, errno: Option<i32>, error: &str) -> (r: Result<(), String>)
    ensures
        match r {
            Ok(()) => slot_complaint(slot as int, flags, errno, error@) is None,
            Err(e) => slot_complaint(slot as int, flags, errno, error@) == Some(e@),
        },
{
    let s = dec_i64(slot as i64);
    if flags >= 0 {
        return Err(cat3("inherited fd slot ", s.as_str(), " is already occupied"));
    }
    if errno == Some(EBADF) {
        Ok(())
    } else {
        let mut out = cat3("inspect inherited fd slot ", s.as_str(), ": ");
        out.append(error);
        Err(out)
    }
}

/// What came of duplicating a socket into its slot.
pub enum DupOutcome {
    /// The duplicate is in the slot.
    Placed,
    /// Nothing was duplicated.
    Failed { error: String },
    /// The duplicate landed elsewhere and must be closed.
    Misplaced { close: i32, error: String },
}

/// The complaint about the number that duplicating `fd` towards `slot` returned, where it
/// is not the slot.
pub open spec fn dup_complaint(fd: i32, slot: int, ret: i32, error: Seq<char>) -> Option<Seq<char>> {
    if ret < 0 {
        Some(
            "dup fd "@ + int_text(fd as int) + " to inherited slot "@ + int_text(slot) + ": "@
                + error,
        )
    } else if ret != slot {
        Some(
            "inherited fd slot "@ + int_text(slot) + " was not allocated (got "@ + int_text(
                ret as int,
            ) + ")"@,
        )
    } else {
        None
    }
}

/// Judge the number that duplicating `fd` towards `slot` returned.
pub fn dup_outcome(fd: i32, slot: i32, ret: i32, error: &str) -> (r: DupOutcome)
    ensures
        match r {
            DupOutcome::Placed => dup_complaint(fd, slot as int, ret, error@) is None,
            DupOutcome::Failed { error: e } => ret < 0 && dup_complaint(
                fd,
                slot as int,
                ret,
                error@,
            ) == Some(e@),
            DupOutcome::Misplaced { close, error: e } => ret >= 0 && close == ret && dup_complaint(
                fd,
                slot as int,
                ret,
                error@,
            ) == Some(e@),
        },
{
    let s = dec_i64(slot as i64);
    if ret < 0 {
        let f = dec_i64(fd as i64);
        let mut out = cat3("dup fd ", f.as_str(), " to inherited slot ");
        out.append(s.as_str());
        out.append(": ");
        out.append(error);
        DupOutcome::Failed { error: out }
    } else if ret != slot {
        let g = dec_i64(ret as i64);
        let mut out = cat3("inherited fd slot ", s.as_str(), " was not allocated (got ");
        out.append(g.as_str());
        out.append(")");
        DupOutcome::Misplaced { close: ret, error: out }
    } else {
        DupOutcome::Placed
    }
}

/// What an agent finds on the way to a port's slot. What it comes to only if nothing went
/// wrong before is looked at only then.
pub struct PortFound {
    /// The agent's own listener, and the one on the bridge.
    pub own: Option<i32>,
    pub bridged: Option<i32>,
    /// The flags of the slot, and the error where there are none.
    pub flags: i32,
    pub errno: Option<i32>,
    pub flags_error: String,
    /// What duplicating towards the slot returned, and the error where it failed.
    pub ret: i32,
    pub dup_error: String,
}

/// What goes wrong at the port at `index`, if anything does: first that it has no listener,
/// then that its slot is taken, then that duplicating fails or misses the slot.
pub open spec fn port_complaint(port: u16, index: int, f: PortFound) -> Option<Seq<char>> {
    match picked(f.own, f.bridged) {
        None => Some(no_listener_text(port)),
        Some(fd) => match slot_complaint(slot_of(index), f.flags, f.errno, f.flags_error@) {
            Some(e) => Some(e),
            None => dup_complaint(fd, slot_of(index), f.ret, f.dup_error@),
        },
    }
}

/// The sockets that the child inherits: each port with its slot, in the order of the ports.
pub open spec fn all_slots(ports: Seq<u16>) -> Seq<(u16, i32)> {
    Seq::new(ports.len(), |k: int| (ports[k], slot_of(k) as i32))
}

/// What goes wrong at the first port at which anything does.
pub open spec fn first_complaint(ports: Seq<u16>, found: Seq<PortFound>) -> Option<Seq<char>>
    decreases found.len(),
{
    if found.len() == 0 {
        None
    } else {
        match first_complaint(ports, found.drop_last()) {
            Some(e) => Some(e),
            None => port_complaint(ports[found.len() - 1], found.len() - 1, found.last()),
        }
    }
}

/// What preparing the sockets for a child comes to, `found` being what is found for the
/// ports: too many ports are refused before anything else, then the first port at which
/// anything goes wrong decides.
pub open spec fn inherited_of(ports: Seq<u16>, found: Seq<PortFound>) -> Result<
    Seq<(u16, i32)>,
    Seq<char>,
> {
    if ports.len() > slot_count() {
        Err(too_many_text(ports.len()))
    } else {
        match first_complaint(ports, found) {
            Some(e) => Err(e),
            None => Ok(all_slots(ports)),
        }
    }
}

/// What placing one socket came to.
#[allow(inconsistent_fields)]
pub enum Placing {
    /// The socket is in its slot.
    Placed { slot: i32 },
    /// It is not; a duplicate that landed elsewhere must be closed.
    Stopped { close: Option<i32>, error: String },
}

/// The sockets that a child is to inherit, as they are placed one after the other.
pub struct Inheriting {
    ports: Vec<u16>,
    placed: Vec<(u16, i32)>,
    found: Ghost<Seq<PortFound>>,
}

impl Inheriting {
    /// The ports to hand down.
    pub closed spec fn wanted(self) -> Seq<u16> {
        self.ports@
    }

    /// What was found for the ports so far.
    pub closed spec fn seen(self) -> Seq<PortFound> {
        self.found@
    }

    /// There is a slot for each port, nothing went wrong so far, and the ports looked at are
    /// in their slots.
    pub closed spec fn wf(self) -> bool {
        &&& self.ports@.len() <= slot_count()
        &&& self.found@.len() <= self.ports@.len()
        &&& first_complaint(self.ports@, self.found@) is None
        &&& self.placed@ == all_slots(self.ports@.take(self.found@.len() as int))
    }

    /// Begin with the ports, unless there are too many.
    pub fn start(ports: Vec<u16>) -> (r: Result<Self, String>)
        ensures
            match r {
                Ok(s) => ports@.len() <= slot_count() && s.wf() && s.wanted() == ports@ && s.seen()
                    == Seq::<PortFound>::empty(),
                Err(e) => forall|found: Seq<PortFound>|
                    inherited_of(ports@, found) == Err::<Seq<(u16, i32)>, Seq<char>>(e@),
            },
    {
        match check_port_count(ports.len()) {
            Err(e) => Err(e),
            Ok(()) => {
                let placed: Vec<(u16, i32)> = Vec::new();
                assert(placed@ =~= all_slots(ports@.take(0)));
                Ok(Inheriting { ports, placed, found: Ghost(Seq::empty()) })
            },
        }
    }

    /// The next port and its slot, if there is another.
    pub fn next(&self) -> (r: Option<(u16, i32)>)
        requires
            self.wf(),
        ensures
            match r {
                Some((port, slot)) => self.seen().len() < self.wanted().len() && port
                    == self.wanted()[self.seen().len() as int] && slot == slot_of(
                    self.seen().len() as int,
                ),
                None => self.seen().len() == self.wanted().len(),
            },
    {
        let i: usize = self.placed.len();
        if i < self.ports.len() {
            Some((self.ports[i], slot(i)))
        } else {
            None
        }
    }

    /// Note what was found for the next port. Where it stops here, this is what preparing
    /// the sockets comes to, whatever the later ports have.
    pub fn place(&mut self, f: PortFound) -> (r: Placing)
        requires
            old(self).wf(),
            old(self).seen().len() < old(self).wanted().len(),
        ensures
            final(self).wanted() == old(self).wanted(),
            match r {
                Placing::Placed { slot } => final(self).wf() && final(self).seen()
                    == old(self).seen().push(f) && slot == slot_of(old(self).seen().len() as int)
                    && f.ret == slot,
                Placing::Stopped { close, error } => {
                    &&& *final(self) == *old(self)
                    &&& port_complaint(
                        old(self).wanted()[old(self).seen().len() as int],
                        old(self).seen().len() as int,
                        f,
                    ) == Some(error@)
                    &&& forall|later: Seq<PortFound>|
                        inherited_of(
                            old(self).wanted(),
                            #[trigger] (old(self).seen().push(f) + later),
                        ) == Err::<Seq<(u16, i32)>, Seq<char>>(error@)
                    &&& close == if picked(f.own, f.bridged) is Some && slot_complaint(
                        slot_of(old(self).seen().len() as int),
                        f.flags,
                        f.errno,
                        f.flags_error@,
                    ) is None && f.ret >= 0 {
                        Some(f.ret)
                    } else {
                        None
                    }
                },
            },
    {
        let i: usize = self.placed.len();
        let port = self.ports[i];
        let slot: i32 = slot(i);
        let ghost all = self.found@.push(f);
        proof {
            assert(all.drop_last() =~= self.found@);
            assert forall|later: Seq<PortFound>| first_complaint(self.ports@, all) is Some implies first_complaint(
                self.ports@,
                #[trigger] (all + later),
            ) == first_complaint(self.ports@, all) by {
                lemma_complaint_stays(self.ports@, all, later);
            }
        }
        let fd = match pick_listener(f.own, f.bridged, port) {
            Ok(fd) => fd,
            Err(error) => return Placing::Stopped { close: None, error },
        };
        match slot_is_free(slot, f.flags, f.errno, f.flags_error.as_str()) {
            Ok(()) => {},
            Err(error) => return Placing::Stopped { close: None, error },
        }
        match dup_outcome(fd, slot, f.ret, f.dup_error.as_str()) {
            DupOutcome::Placed => {
                self.placed.push((port, slot));
                self.found = Ghost(all);
                assert(self.placed@ =~= all_slots(self.ports@.take(all.len() as int)));
                Placing::Placed { slot }
            },
            DupOutcome::Failed { error } => Placing::Stopped { close: None, error },
            DupOutcome::Misplaced { close, error } => Placing::Stopped {
                close: Some(close),
                error,
            },
        }
    }

    /// The sockets that the child inherits, once there is no port left.
    pub fn finish(self) -> (r: Vec<(u16, i32)>)
        requires
            self.wf(),
            self.seen().len() == self.wanted().len(),
        ensures
            inherited_of(self.wanted(), self.seen()) == Ok::<Seq<(u16, i32)>, Seq<char>>(r@),
    {
        assert(self.ports@.take(self.found@.len() as int) =~= self.ports@);
        self.placed
    }
}

proof fn lemma_complaint_stays(ports: Seq<u16>, found: Seq<PortFound>, later: Seq<PortFound>)
    requires
        first_complaint(ports, found) is Some,
    ensures
        first_complaint(ports, found + later) == first_complaint(ports, found),
    decreases later.len(),
{
    if later.len() == 0 {
        assert(found + later =~= found);
    } else {
        lemma_complaint_stays(ports, found, later.drop_last());
        assert((found + later).drop_last() =~= found + later.drop_last());
    }
}

/// The first complaint is that of a port before which nothing went wrong; there is none
/// exactly if nothing goes wrong at any port.
pub proof fn law_first_complaint(ports: Seq<u16>, found: Seq<PortFound>)
    ensures
        match first_complaint(ports, found) {
            Some(e) => exists|k: int|
                0 <= k < found.len() && #[trigger] port_complaint(ports[k], k, found[k]) == Some(e)
                    && forall|j: int|
                    0 <= j < k ==> #[trigger] port_complaint(ports[j], j, found[j]) is None,
            None => forall|j: int|
                0 <= j < found.len() ==> #[trigger] port_complaint(ports[j], j, found[j]) is None,
        },
    decreases found.len(),
{
    if found.len() > 0 {
        let before = found.drop_last();
        law_first_complaint(ports, before);
        let last = found.len() - 1;
        assert forall|j: int| 0 <= j < last implies #[trigger] port_complaint(ports[j], j, found[j])
            == port_complaint(ports[j], j, before[j]) by {}
        match first_complaint(ports, before) {
            Some(e) => {
                let k = choose|k: int|
                    0 <= k < before.len() && #[trigger] port_complaint(ports[k], k, before[k])
                        == Some(e) && forall|j: int|
                        0 <= j < k ==> #[trigger] port_complaint(ports[j], j, before[j]) is None;
                assert(port_complaint(ports[k], k, found[k]) == Some(e));
                assert forall|j: int| 0 <= j < k implies #[trigger] port_complaint(
                    ports[j],
                    j,
                    found[j],
                ) is None by {
                    assert(port_complaint(ports[j], j, before[j]) is None);
                }
            },
            None => {
                assert forall|j: int| 0 <= j < last implies #[trigger] port_complaint(
                    ports[j],
                    j,
                    found[j],
                ) is None by {
                    assert(port_complaint(ports[j], j, before[j]) is None);
                }
                if let Some(e) = first_complaint(ports, found) {
                    assert(port_complaint(ports[last], last, found[last]) == Some(e));
                }
            },
        }
    }
}

/// Where nothing goes wrong, the child reads from the mapping each port with its slot, in
/// the order of the ports, and no two ports share a slot.
pub proof fn law_child_inherits_ports(ports: Seq<u16>, found: Seq<PortFound>)
    requires
        inherited_of(ports, found) is Ok,
    ensures
        ({
            let pairs = inherited_of(ports, found)->Ok_0;
            &&& pairs.len() == ports.len()
            &&& forall|k: int|
                0 <= k < pairs.len() ==> (#[trigger] pairs[k]).0 == ports[k] && pairs[k].1
                    == slot_of(k)
            &&& forall|j: int, k: int|
                0 <= j < k < pairs.len() ==> (#[trigger] pairs[j]).1 != (#[trigger] pairs[k]).1
            &&& mapping_of(mapping_text(pairs)) == Ok::<Seq<(int, int)>, Seq<char>>(as_ints(pairs))
        }),
{
    law_mapping_round_trip(all_slots(ports));
}

/// The slots are the twenty numbers from eighty to ninety-nine.
pub proof fn law_slot_range(index: int)
    ensures
        slot_of(index) == 80 + index,
        slot_count() == 20,
        0 <= index < 20 ==> 80 <= slot_of(index) <= 99,
{
}

/// The agent's own listener is handed down where it has one, and the one on the bridge only
/// where it has none.
pub proof fn law_own_listener_first(own: Option<i32>, bridged: Option<i32>)
    ensures
        own is Some ==> picked(own, bridged) == own,
        own is None ==> picked(own, bridged) == bridged,
{
}

/// A slot is free exactly if asking for its flags failed, and failed for want of the descriptor.
pub proof fn law_free_slot(slot: int, flags: i32, errno: Option<i32>, error: Seq<char>)
    ensures
        slot_complaint(slot, flags, errno, error) is None <==> flags < 0 && errno == Some(9i32),
        flags >= 0 ==> slot_complaint(slot, flags, errno, error) == Some(
            "inherited fd slot "@ + int_text(slot) + " is already occupied"@,
        ),
        flags < 0 && errno != Some(9i32) ==> slot_complaint(slot, flags, errno, error) == Some(
            "inspect inherited fd slot "@ + int_text(slot) + ": "@ + error,
        ),
{
}

/// A socket is placed exactly if the duplicate is the slot itself.
pub proof fn law_placed_in_slot(fd: i32, slot: int, ret: i32, error: Seq<char>)
    requires
        0 <= slot,
    ensures
        dup_complaint(fd, slot, ret, error) is None <==> ret == slot,
{
}

/// A child inherits its ports exactly if there are at most twenty and for each of them there is
/// a listener, its slot was free, and the duplicate landed in it.
pub proof fn law_all_ports_inherited(ports: Seq<u16>, found: Seq<PortFound>)
    requires
        found.len() == ports.len(),
    ensures
        inherited_of(ports, found) is Ok <==> ports.len() <= 20 && forall|k: int|
            0 <= k < found.len() ==> ((#[trigger] found[k]).own is Some || found[k].bridged is Some)
                && found[k].flags < 0 && found[k].errno == Some(9i32) && found[k].ret == 80 + k,
        ports.len() > 20 ==> inherited_of(ports, found) == Err::<Seq<(u16, i32)>, Seq<char>>(
            "too many inherited listen ports: "@ + dec_text(ports.len())
                + " (slot range 80-99)"@,
        ),
{
    law_first_complaint(ports, found);
    if first_complaint(ports, found) is None {
        assert forall|k: int| 0 <= k < found.len() implies ((#[trigger] found[k]).own is Some
            || found[k].bridged is Some) && found[k].flags < 0 && found[k].errno == Some(9i32)
            && found[k].ret == 80 + k by {
            assert(port_complaint(ports[k], k, found[k]) is None);
        }
    } else {
        let e = first_complaint(ports, found)->Some_0;
        let k = choose|k: int|
            0 <= k < found.len() && #[trigger] port_complaint(ports[k], k, found[k]) == Some(e);
        assert(!((found[k].own is Some || found[k].bridged is Some) && found[k].flags < 0
            && found[k].errno == Some(9i32) && found[k].ret == 80 + k));
    }
}

/// A port without a listener is refused for that, whatever its slot holds.
pub proof fn law_port_without_listener(port: u16, index: int, f: PortFound)
    requires
        f.own is None,
        f.bridged is None,
    ensures
        port_complaint(port, index, f) == Some(
            "no listener registered for port "@ + dec_text(port as nat),
        ),
{
}

/// An item is read as a port and a descriptor exactly if it has an equals sign, the text before
/// the first one is a port and the text after it a number.
pub proof fn law_items_are_pairs(item: Seq<char>)
    ensures
        item_of(item) is Ok <==> (split_once_text(item, '=') matches Some((port, fd))
            && parse_unsigned_text(port, 65535) is Ok && parse_i32_text(fd) is Ok),
        item_of(item) matches Ok(pair) ==> (split_once_text(item, '=') matches Some((port, fd))
            && parse_unsigned_text(port, 65535) == Ok::<nat, NumberFault>(pair.0 as nat)
            && parse_i32_text(fd) == Ok::<int, NumberFault>(pair.1) && 0 <= pair.0),
{
}

proof fn lemma_items(items: Seq<Seq<char>>)
    ensures
        items_of(items) is Ok <==> forall|k: int|
            0 <= k < items.len() ==> item_of(#[trigger] items[k]) is Ok,
        items_of(items) matches Ok(pairs) ==> pairs.len() == items.len() && forall|k: int|
            0 <= k < items.len() ==> item_of(#[trigger] items[k]) == Ok::<(int, int), Seq<char>>(
                pairs[k],
            ),
    decreases items.len(),
{
    if items.len() > 0 {
        let t = items.drop_last();
        lemma_items(t);
        assert(forall|k: int| 0 <= k < t.len() ==> t[k] == items[k]);
        assert(items[items.len() - 1] == items.last());
        if items_of(t) is Err {
            let k = choose|k: int| 0 <= k < t.len() && !(item_of(#[trigger] t[k]) is Ok);
            assert(!(item_of(items[k]) is Ok));
        }
    }
}

/// A mapping is read exactly if every item between its commas is; it then has one pair for each
/// item, in order, and none where it is empty.
pub proof fn law_mapping_items(text: Seq<char>)
    ensures
        text.len() == 0 ==> mapping_of(text) == Ok::<Seq<(int, int)>, Seq<char>>(Seq::empty()),
        text.len() > 0 ==> (mapping_of(text) is Ok <==> forall|k: int|
            0 <= k < split_text(text, ',').len() ==> item_of(#[trigger] split_text(text, ',')[k]) is Ok),
        text.len() > 0 ==> (mapping_of(text) matches Ok(pairs) ==> pairs.len() == split_text(
            text,
            ',',
        ).len() && forall|k: int|
            0 <= k < pairs.len() ==> item_of(#[trigger] split_text(text, ',')[k]) == Ok::<
                (int, int),
                Seq<char>,
            >(pairs[k])),
{
    lemma_items(split_text(text, ','));
}

/// A mapping is written as its items with commas between them, each a port, an equals sign and a
/// descriptor.
pub proof fn law_mapping_is_written(pairs: Seq<(u16, i32)>, pair: (u16, i32))
    ensures
        mapping_text(Seq::empty()).len() == 0,
        mapping_text(seq![pair]) == dec_text(pair.0 as nat) + "="@ + int_text(pair.1 as int),
        pairs.len() > 0 ==> mapping_text(pairs.push(pair)) == mapping_text(pairs) + ","@ + dec_text(
            pair.0 as nat,
        ) + "="@ + int_text(pair.1 as int),
{
    assert(item_texts(seq![pair]) =~= seq![item_text(pair)]);
    assert(item_texts(Seq::empty()) =~= Seq::<Seq<char>>::empty());
    assert(item_texts(pairs.push(pair)) =~= item_texts(pairs).push(item_text(pair)));
    assert(item_texts(pairs.push(pair)).drop_last() =~= item_texts(pairs));
    let a = mapping_text(pairs) + ","@;
    assert(a + item_text(pair) =~= a + dec_text(pair.0 as nat) + "="@ + int_text(pair.1 as int));
}

/// A complaint about ports names the port, or how many there were.
pub proof fn law_port_complaints(port: u16, count: nat)
    ensures
        no_listener_text(port) == "no listener registered for port "@ + dec_text(port as nat),
        too_many_text(count) == "too many inherited listen ports: "@ + dec_text(count)
            + " (slot range 80-99)"@,
{
}

} // verus!
