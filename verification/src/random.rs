//! Random bytes from the kernel: what a sample must be, and the tests over it.

use vstd::prelude::*;
use crate::agents::AgentName;
use crate::errno::EAGAIN;
use crate::number::{
    byte_texts, bytes_debug, dec, dec_i64, dec_text, int_text, opt_i32, opt_int_text,
};
use crate::registry::{on_agents, plan_on, plan_views, Group, Handler, PlanView, TestPlan};
use crate::text::{cat, cat3, list_text};

verus! {

/// What one request for random bytes gave.
#[derive(Debug)]
pub struct RandomBytes {
    pub bytes: Vec<u8>,
    pub errno: Option<i32>,
}

impl RandomBytes {
    /// What `{:?}` prints.
    pub open spec fn debug(self) -> Seq<char> {
        "RandomBytes { bytes: "@ + list_text(byte_texts(self.bytes@)) + ", errno: "@ + opt_int_text(
            self.errno,
        ) + " }"@
    }

    /// What `{:?}` prints.
    pub fn debug_text(&self) -> (r: String)
        ensures
            r@ == self.debug(),
    {
        let list = bytes_debug(self.bytes.as_slice());
        let errno = opt_i32(self.errno);
        let mut text = cat3("RandomBytes { bytes: ", list.as_str(), ", errno: ");
        text.append(errno.as_str());
        text.append(" }");
        text
    }

    /// The request gave so many bytes and no error.
    pub open spec fn gave(self, n: nat) -> bool {
        self.errno is None && self.bytes@.len() == n
    }
}

/// What a request into `buf` that returned `ret` gave: the bytes that were written, or the
/// error, which counts as zero where it is unknown.
pub fn sample_of(ret: i64, buf: Vec<u8>, last: Option<i32>) -> (r: RandomBytes)
    requires
        ret <= buf@.len(),
    ensures
        if ret >= 0 {
            r.errno is None && r.bytes@ == buf@.take(ret as int)
        } else {
            r.bytes@.len() == 0 && r.errno == Some(
                match last {
                    Some(e) => e,
                    None => 0i32,
                },
            )
        },
{
    if ret >= 0 {
        let mut bytes = buf;
        bytes.truncate(ret as usize);
        assert(bytes@ =~= buf@.take(ret as int));
        RandomBytes { bytes, errno: None }
    } else {
        RandomBytes {
            bytes: Vec::new(),
            errno: Some(
                match last {
                    Some(e) => e,
                    None => 0,
                },
            ),
        }
    }
}

/// The test of an exact size: the request for thirty-two bytes gives all of them. The
/// result is how many characters they take in hexadecimal.
pub fn size_exact(sample: &RandomBytes) -> (r: Result<usize, String>)
    ensures
        match r {
            Ok(n) => sample.gave(32) && n == 64,
            Err(e) => !sample.gave(32) && e@
                == "expected 32-byte success as 64 hex chars, got "@ + sample.debug(),
        },
{
    if sample.errno.is_none() && sample.bytes.len() == 32 {
        Ok(64)
    } else {
        let shown = sample.debug_text();
        Err(cat("expected 32-byte success as 64 hex chars, got ", shown.as_str()))
    }
}

fn same_bytes(a: &Vec<u8>, b: &Vec<u8>) -> (r: bool)
    ensures
        r == (a@ == b@),
{
    if a.len() != b.len() {
        return false;
    }
    let mut i: usize = 0;
    while i < a.len()
        invariant
            i <= a.len(),
            a.len() == b.len(),
            forall|k: int| 0 <= k < i ==> a@[k] == b@[k],
        decreases a.len() - i,
    {
        if a[i] != b[i] {
            return false;
        }
        i = i + 1;
    }
    assert(a@ =~= b@);
    true
}

/// Two requests give two samples of thirty-two bytes that differ.
pub open spec fn is_novel(first: RandomBytes, second: RandomBytes) -> bool {
    first.gave(32) && second.gave(32) && first.bytes@ != second.bytes@
}

/// The test that two samples differ. The result is how many characters each takes in
/// hexadecimal.
pub fn novelty(first: &RandomBytes, second: &RandomBytes) -> (r: Result<(usize, usize), String>)
    ensures
        match r {
            Ok(n) => is_novel(*first, *second) && n == (64usize, 64usize),
            Err(e) => !is_novel(*first, *second) && e@
                == "expected two distinct 32-byte successes, got first="@ + first.debug()
                + "; second="@ + second.debug(),
        },
{
    if first.errno.is_none() && second.errno.is_none() && first.bytes.len() == 32
        && second.bytes.len() == 32 && !same_bytes(&first.bytes, &second.bytes) {
        Ok((64, 64))
    } else {
        let a = first.debug_text();
        let b = second.debug_text();
        let mut text = cat3(
            "expected two distinct 32-byte successes, got first=",
            a.as_str(),
            "; second=",
        );
        text.append(b.as_str());
        Err(text)
    }
}

/// What the test of a large request without waiting reports.
#[derive(Clone, Copy, Debug, PartialEq, Eq, Structural)]
pub struct NonblockOut {
    pub hex_len: usize,
    pub errno: Option<i32>,
}

/// The request was refused for want of randomness, without any bytes.
pub open spec fn is_refused(sample: RandomBytes) -> bool {
    sample.errno == Some(EAGAIN) && sample.bytes@.len() == 0
}

/// The test of a large request without waiting: it gives all bytes or none.
pub fn nonblock(sample: &RandomBytes) -> (r: Result<NonblockOut, String>)
    ensures
        match r {
            Ok(out) => if sample.gave(4096) {
                out == (NonblockOut { hex_len: 8192, errno: None })
            } else {
                is_refused(*sample) && out == (NonblockOut { hex_len: 0, errno: Some(EAGAIN) })
            },
            Err(e) => !sample.gave(4096) && !is_refused(*sample) && e@
                == "expected full 4096-byte success or EAGAIN with no bytes, got "@
                + sample.debug(),
        },
{
    match sample.errno {
        None => if sample.bytes.len() == 4096 {
            return Ok(NonblockOut { hex_len: 8192, errno: None });
        },
        Some(n) => if n == EAGAIN && sample.bytes.len() == 0 {
            return Ok(NonblockOut { hex_len: 0, errno: Some(EAGAIN) });
        },
    }
    let shown = sample.debug_text();
    Err(cat("expected full 4096-byte success or EAGAIN with no bytes, got ", shown.as_str()))
}

/// The detail of the size test.
pub fn size_detail(hex_len: usize) -> (r: String)
    ensures
        r@ == "hex_len="@ + dec_text(hex_len as nat),
{
    let n = dec(hex_len as u64);
    cat("hex_len=", n.as_str())
}

/// The detail of the novelty test.
pub fn novelty_detail() -> (r: String)
    ensures
        r@ == "two 32-byte samples differed"@,
{
    "two 32-byte samples differed".to_string()
}

/// The detail of the test without waiting.
pub fn nonblock_detail(out: &NonblockOut) -> (r: Result<String, String>)
    ensures
        match out.errno {
            None => r matches Ok(d) && d@ == "nonblock_success_hex_len="@ + dec_text(
                out.hex_len as nat,
            ),
            Some(n) => if n == EAGAIN {
                r matches Ok(d) && d@ == "nonblock_eagain"@
            } else {
                r matches Err(e) && e@ == "unexpected errno "@ + int_text(n as int)
            },
        },
{
    match out.errno {
        None => {
            let n = dec(out.hex_len as u64);
            Ok(cat("nonblock_success_hex_len=", n.as_str()))
        },
        Some(n) => if n == EAGAIN {
            Ok("nonblock_eagain".to_string())
        } else {
            let shown = dec_i64(n as i64);
            Err(cat("unexpected errno ", shown.as_str()))
        },
    }
}

/// The agents of the randomness tests.
#[verifier::allow_in_spec]
pub fn random_agent(k: usize) -> AgentName
    returns
        (if k == 0 {
            AgentName::Dpg1
        } else if k == 1 {
            AgentName::Dpg1Dpg1
        } else if k == 2 {
            AgentName::Dpg1Dng
        } else {
            AgentName::Dpg1Spm
        }),
{
    if k == 0 {
        AgentName::Dpg1
    } else if k == 1 {
        AgentName::Dpg1Dpg1
    } else if k == 2 {
        AgentName::Dpg1Dng
    } else {
        AgentName::Dpg1Spm
    }
}

/// Name and handler of a randomness test.
#[verifier::allow_in_spec]
pub fn random_case(k: usize) -> (&'static str, &'static str)
    returns
        (if k == 0 {
            ("size_exact", "getrandom.size_exact")
        } else if k == 1 {
            ("novelty", "getrandom.novelty")
        } else {
            ("nonblock_when_short", "getrandom.nonblock_when_short")
        }),
{
    if k == 0 {
        ("size_exact", "getrandom.size_exact")
    } else if k == 1 {
        ("novelty", "getrandom.novelty")
    } else {
        ("nonblock_when_short", "getrandom.nonblock_when_short")
    }
}

/// How many randomness tests there are.
pub const RANDOM_TESTS: usize = 12;

/// The randomness test at a position.
pub open spec fn random_row(t: int) -> PlanView {
    let a = random_agent((t / 3) as usize);
    let c = random_case((t % 3) as usize);
    on_agents(
        Group { suite: "vscode", family: "getrandom", timeout_secs: None },
        "RAND."@ + c.0@ + "."@ + a.wire(),
        Handler::Named(c.1),
        seq![a],
    )
}

fn random_plan(t: usize) -> (r: TestPlan)
    requires
        t < RANDOM_TESTS,
    ensures
        r@ == random_row(t as int),
{
    let a = random_agent(t / 3);
    let c = random_case(t % 3);
    let g = Group { suite: "vscode", family: "getrandom", timeout_secs: None };
    let mut id = cat3("RAND.", c.0, ".");
    id.append(a.name());
    plan_on(g, id, Handler::Named(c.1), a)
}

/// The randomness tests, in order.
pub fn register_getrandom_tests() -> (r: Vec<TestPlan>)
    ensures
        plan_views(r@) == Seq::new(RANDOM_TESTS as nat, |t: int| random_row(t)),
{
    let mut out: Vec<TestPlan> = Vec::new();
    let mut t: usize = 0;
    while t < RANDOM_TESTS
        invariant
            t <= RANDOM_TESTS,
            out@.len() == t,
            forall|k: int| 0 <= k < t ==> (#[trigger] out@[k])@ == random_row(k),
        decreases RANDOM_TESTS - t,
    {
        out.push(random_plan(t));
        t = t + 1;
    }
    assert(plan_views(out@) =~= Seq::new(RANDOM_TESTS as nat, |t: int| random_row(t)));
    out
}

/// A request gave so many bytes exactly if there was no error and it gave neither fewer nor more.
pub proof fn law_request_gave(s: RandomBytes, n: nat)
    ensures
        s.gave(n) ==> s.errno is None && s.bytes@.len() == n,
        s.errno is Some ==> !s.gave(n),
        s.bytes@.len() != n ==> !s.gave(n),
        s.errno is None && s.bytes@.len() == n ==> s.gave(n),
{
}

/// Two samples are new exactly if both came whole and they differ; the order does not matter, and
/// no sample is new beside itself.
pub proof fn law_novelty(a: RandomBytes, b: RandomBytes)
    ensures
        is_novel(a, b) <==> a.errno is None && b.errno is None && a.bytes@.len() == 32
            && b.bytes@.len() == 32 && a.bytes@ != b.bytes@,
        is_novel(a, b) == is_novel(b, a),
        !is_novel(a, a),
{
}

/// A request was refused only with the error for "not now", and only without any bytes; what was
/// refused gave nothing.
pub proof fn law_refusal(s: RandomBytes, n: nat)
    ensures
        is_refused(s) <==> s.errno == Some(11i32) && s.bytes@.len() == 0,
        is_refused(s) ==> !s.gave(n),
{
}

/// Each of the three randomness tests runs on each of the four agents.
pub proof fn law_random_covers(a: int, k: int)
    requires
        0 <= a < 4,
        0 <= k < 3,
    ensures
        ({
            let t = 3 * a + k;
            let p = random_row(t);
            &&& 0 <= t < RANDOM_TESTS
            &&& p.agents == seq![random_agent(a as usize)]
            &&& p.id == "RAND."@ + random_case(k as usize).0@ + "."@ + random_agent(
                a as usize,
            ).wire()
            &&& p.handler == Handler::Named(random_case(k as usize).1)
        }),
{
    assert((3 * a + k) / 3 == a && (3 * a + k) % 3 == k);
}

/// The agents of the randomness tests.
pub proof fn law_random_agents()
    ensures
        random_agent(0) == AgentName::Dpg1,
        random_agent(1) == AgentName::Dpg1Dpg1,
        random_agent(2) == AgentName::Dpg1Dng,
        random_agent(3) == AgentName::Dpg1Spm,
{
}

/// A randomness test is called like its handler.
pub proof fn law_random_cases_name_handlers(k: usize)
    requires
        k < 3,
    ensures
        random_case(k).0@ == Seq::<char>::empty() + random_case(k).1@.skip(10),
        random_case(k).1@.take(10) == "getrandom."@,
{
    reveal_strlit("getrandom.");
    if k == 0 {
        reveal_strlit("size_exact");
        reveal_strlit("getrandom.size_exact");
        assert("size_exact"@ =~= Seq::<char>::empty() + "getrandom.size_exact"@.skip(10));
        assert("getrandom.size_exact"@.take(10) =~= "getrandom."@);
    }
    if k == 1 {
        reveal_strlit("novelty");
        reveal_strlit("getrandom.novelty");
        assert("novelty"@ =~= Seq::<char>::empty() + "getrandom.novelty"@.skip(10));
        assert("getrandom.novelty"@.take(10) =~= "getrandom."@);
    }
    if k == 2 {
        reveal_strlit("nonblock_when_short");
        reveal_strlit("getrandom.nonblock_when_short");
        assert("nonblock_when_short"@ =~= Seq::<char>::empty() + "getrandom.nonblock_when_short"@.skip(10));
        assert("getrandom.nonblock_when_short"@.take(10) =~= "getrandom."@);
    }
}

} // verus!
