//! What the status word of an ended process means.

use vstd::prelude::*;
use crate::number::{dec_i64, hex, hex_text, int_text};
use crate::text::cat;

verus! {

/// The process ended by itself.
pub open spec fn exited(status: i32) -> bool {
    status & 0x7f == 0
}

/// The code of a process that ended by itself.
pub open spec fn code_of(status: i32) -> i32 {
    (status >> 8) & 0xff
}

/// The signal in the status word.
pub open spec fn signal_of(status: i32) -> i32 {
    status & 0x7f
}

/// `libc::WIFEXITED`: the low seven bits are zero.
pub assume_specification[ libc::WIFEXITED ](status: i32) -> (r: bool)
    ensures
        r == exited(status),
;

/// `libc::WEXITSTATUS`: the second byte.
pub assume_specification[ libc::WEXITSTATUS ](status: i32) -> (r: i32)
    ensures
        r == code_of(status),
;

/// `libc::WIFSIGNALED`: the low seven bits are neither zero nor all ones.
pub assume_specification[ libc::WIFSIGNALED ](status: i32) -> (r: bool)
    ensures
        r == (signal_of(status) != 0 && signal_of(status) != 0x7f),
;

/// `libc::WTERMSIG`: the low seven bits.
pub assume_specification[ libc::WTERMSIG ](status: i32) -> (r: i32)
    ensures
        r == signal_of(status),
;

/// The code of a process that ended by itself, and ninety-nine for any other.
pub fn exit_code(status: i32) -> (r: i32)
    ensures
        r == if exited(status) {
            code_of(status)
        } else {
            99i32
        },
{
    if libc::WIFEXITED(status) {
        libc::WEXITSTATUS(status)
    } else {
        99
    }
}

/// Whether a process ended by itself with code zero.
pub open spec fn ended_well(status: i32) -> bool {
    exited(status) && code_of(status) == 0
}

/// Whether a process ended by itself with code zero.
pub fn succeeded(status: i32) -> (r: bool)
    ensures
        r == ended_well(status),
{
    libc::WIFEXITED(status) && libc::WEXITSTATUS(status) == 0
}

/// The bits of a status word as an unsigned number.
pub open spec fn word_of(status: i32) -> int {
    if status < 0 {
        status + 0x1_0000_0000
    } else {
        status as int
    }
}

/// The complaint about a child that did not end well.
pub open spec fn end_complaint(status: i32) -> Seq<char> {
    if exited(status) {
        "child exited "@ + int_text(code_of(status) as int)
    } else if signal_of(status) != 0x7f {
        "child killed by signal "@ + int_text(signal_of(status) as int)
    } else {
        "child unexpected wait status "@ + hex_text(word_of(status) as nat)
    }
}

/// Judge the status word of a child.
pub fn child_end(status: i32) -> (r: Result<(), String>)
    ensures
        match r {
            Ok(()) => ended_well(status),
            Err(e) => !ended_well(status) && e@ == end_complaint(status),
        },
{
    if libc::WIFEXITED(status) {
        let code = libc::WEXITSTATUS(status);
        if code == 0 {
            Ok(())
        } else {
            let n = dec_i64(code as i64);
            Err(cat("child exited ", n.as_str()))
        }
    } else if libc::WIFSIGNALED(status) {
        let n = dec_i64(libc::WTERMSIG(status) as i64);
        Err(cat("child killed by signal ", n.as_str()))
    } else {
        let word: u64 = if status < 0 {
            (status as i64 + 0x1_0000_0000) as u64
        } else {
            status as u64
        };
        let n = hex(word);
        Err(cat("child unexpected wait status ", n.as_str()))
    }
}

/// A status word tells of one end alone: a code of one byte, a signal, or neither, where
/// the process has not ended.
pub proof fn law_one_end(status: i32)
    ensures
        exited(status) <==> signal_of(status) == 0,
        ended_well(status) ==> exited(status),
        0 <= code_of(status) <= 255,
        0 <= signal_of(status) <= 0x7f,
{
    assert(0 <= ((status >> 8) & 0xff) <= 255) by (bit_vector);
    assert(0 <= (status & 0x7f) <= 127) by (bit_vector);
}

/// A process that ended by itself has its code in the second byte of the status and zero in the
/// first; one that a signal ended has the signal in the first. Only the status zero, in these two
/// bytes, is a good end.
pub proof fn law_status_word(code: u8, signal: u8)
    requires
        0 < signal < 0x7f,
    ensures
        ({
            let by_itself = (code as i32) << 8;
            let killed = signal as i32;
            &&& exited(by_itself) && code_of(by_itself) == code
            &&& ended_well(by_itself) <==> code == 0
            &&& !exited(killed) && signal_of(killed) == signal && !ended_well(killed)
            &&& end_complaint(by_itself) == "child exited "@ + int_text(code as int)
            &&& end_complaint(killed) == "child killed by signal "@ + int_text(signal as int)
        }),
{
    let by_itself = (code as i32) << 8;
    let killed = signal as i32;
    assert(((code as i32) << 8) & 0x7f == 0 && ((((code as i32) << 8) >> 8) & 0xff) == code as i32)
        by (bit_vector);
    assert(0u8 < signal && signal < 0x7fu8 ==> (signal as i32) & 0x7f == signal as i32)
        by (bit_vector);
}

/// A process ended well exactly if neither a signal nor a code stands in its status.
pub proof fn law_good_end(status: i32)
    ensures
        ended_well(status) <==> status & 0xff7f == 0,
{
    assert((status & 0x7f == 0 && ((status >> 8) & 0xff) == 0) <==> status & 0xff7f == 0)
        by (bit_vector);
}

/// A status that is not negative is its own word, and a negative one has the word of the same
/// bits.
pub proof fn law_word_of_status(status: i32)
    ensures
        0 <= status ==> word_of(status) == status,
        status < 0 ==> word_of(status) - status == 0x1_0000_0000,
        0 <= word_of(status) < 0x1_0000_0000,
{
}

} // verus!
