//! Handlers and small programs that several test families share.

use vstd::prelude::*;
use crate::number::{
    dec, dec_i64, dec_text, int_text, parse_i32, parse_i32_text, parse_unsigned,
    parse_unsigned_text,
};
use crate::text::{
    bool_text, bool_word, cat, cat3, contains, contains_text, lossy, lossy_text, quote, quoted,
};

verus! {

/// What a program that ran on an agent came to.
#[derive(Clone, Debug)]
pub struct BashOut {
    pub stdout: String,
    pub stderr: String,
    pub exit_code: i32,
    pub timed_out: bool,
}

/// What a program came to, in contracts.
pub struct BashView {
    pub stdout: Seq<char>,
    pub stderr: Seq<char>,
    pub exit_code: i32,
    pub timed_out: bool,
}

impl View for BashOut {
    type V = BashView;

    open spec fn view(&self) -> BashView {
        BashView {
            stdout: self.stdout@,
            stderr: self.stderr@,
            exit_code: self.exit_code,
            timed_out: self.timed_out,
        }
    }
}

impl BashView {
    /// What `{:?}` prints.
    pub open spec fn debug(self) -> Seq<char> {
        "BashOut { stdout: "@ + quoted(self.stdout) + ", stderr: "@ + quoted(self.stderr)
            + ", exit_code: "@ + int_text(self.exit_code as int) + ", timed_out: "@ + bool_text(
            self.timed_out,
        ) + " }"@
    }
}

/// What `{:?}` prints for the result of the shell handler.
pub open spec fn bash_result_text(r: Result<BashOut, String>) -> Seq<char> {
    match r {
        Ok(out) => "Ok("@ + out@.debug() + ")"@,
        Err(e) => "Err("@ + quoted(e@) + ")"@,
    }
}

impl BashOut {
    /// What `{:?}` prints.
    pub fn debug_text(&self) -> (r: String)
        ensures
            r@ == self@.debug(),
    {
        let so = quote(self.stdout.as_str());
        let se = quote(self.stderr.as_str());
        let code = dec_i64(self.exit_code as i64);
        let mut text = cat3("BashOut { stdout: ", so.as_str(), ", stderr: ");
        text.append(se.as_str());
        text.append(", exit_code: ");
        text.append(code.as_str());
        text.append(", timed_out: ");
        text.append(bool_word(self.timed_out));
        text.append(" }");
        text
    }
}

/// What `{:?}` prints for the result of the shell handler.
pub fn bash_result_debug(r: &Result<BashOut, String>) -> (s: String)
    ensures
        s@ == bash_result_text(*r),
{
    match r {
        Ok(out) => {
            let body = out.debug_text();
            cat3("Ok(", body.as_str(), ")")
        },
        Err(e) => {
            let body = quote(e.as_str());
            cat3("Err(", body.as_str(), ")")
        },
    }
}

/// How a program's run ended.
pub enum RunEnd {
    /// It exited, or a signal ended it, and it printed so much.
    Ended { code: Option<i32>, stdout: Vec<u8>, stderr: Vec<u8> },
    NotSpawned { error: String },
    WaitFailed { error: String },
    TimedOut,
}

/// The handler's result for a run.
pub fn run_result(end: RunEnd) -> (r: Result<BashOut, String>)
    ensures
        match end {
            RunEnd::Ended { code, stdout, stderr } => r matches Ok(out) && out@ == (BashView {
                stdout: lossy_text(stdout@),
                stderr: lossy_text(stderr@),
                exit_code: match code {
                    Some(c) => c,
                    None => -1i32,
                },
                timed_out: false,
            }),
            RunEnd::NotSpawned { error } => r matches Err(e) && e@ == "spawn: "@ + error@,
            RunEnd::WaitFailed { error } => r matches Err(e) && e@ == "wait_with_output: "@
                + error@,
            RunEnd::TimedOut => r matches Ok(out) && out@ == (BashView {
                stdout: Seq::empty(),
                stderr: Seq::empty(),
                exit_code: -1i32,
                timed_out: true,
            }),
        },
{
    match end {
        RunEnd::Ended { code, stdout, stderr } => Ok(
            BashOut {
                stdout: lossy(stdout.as_slice()),
                stderr: lossy(stderr.as_slice()),
                exit_code: match code {
                    Some(c) => c,
                    None => -1,
                },
                timed_out: false,
            },
        ),
        RunEnd::NotSpawned { error } => Err(cat("spawn: ", error.as_str())),
        RunEnd::WaitFailed { error } => Err(cat("wait_with_output: ", error.as_str())),
        RunEnd::TimedOut => Ok(
            BashOut { stdout: String::new(), stderr: String::new(), exit_code: -1, timed_out: true },
        ),
    }
}

/// How long a program may take where nothing else is said.
pub const RUN_MILLIS: u64 = 30_000;

/// How many milliseconds a program may take.
pub fn run_millis(asked: Option<u64>) -> (r: u64)
    ensures
        r == match asked {
            Some(ms) => ms,
            None => RUN_MILLIS,
        },
{
    match asked {
        Some(ms) => ms,
        None => RUN_MILLIS,
    }
}

/// Check the argument list of a program: it must name one.
pub fn check_argv(argv: &Vec<String>) -> (r: Result<(), String>)
    ensures
        match r {
            Ok(()) => argv@.len() > 0,
            Err(e) => argv@.len() == 0 && e@ == "exec_bin: empty argv"@,
        },
{
    if argv.len() == 0 {
        Err("exec_bin: empty argv".to_string())
    } else {
        Ok(())
    }
}

/// So many bytes of the sixteen capital letters from `A` on, over and over.
pub open spec fn letters(size: nat) -> Seq<u8> {
    Seq::new(size, |i: int| (65 + i % 16) as u8)
}

/// So many bytes of the letters.
pub fn letter_bytes(size: usize) -> (r: Vec<u8>)
    ensures
        r@ == letters(size as nat),
{
    let mut data: Vec<u8> = Vec::new();
    let mut i: usize = 0;
    while i < size
        invariant
            i <= size,
            data@ == letters(i as nat),
        decreases size - i,
    {
        data.push(65 + (i % 16) as u8);
        i = i + 1;
        assert(data@ =~= letters(i as nat));
    }
    data
}

/// The line of the program that writes a known text.
pub fn known_line(tag: &str) -> (r: String)
    ensures
        r@ == "PIPEDATA:"@ + tag@,
{
    cat("PIPEDATA:", tag)
}

/// The tag that the program was given, or the default.
pub fn known_tag<'a>(args: &'a Vec<String>) -> (r: &'a str)
    ensures
        r@ == if args@.len() > 2 {
            args@[2]@
        } else {
            "default"@
        },
{
    if args.len() > 2 {
        args[2].as_str()
    } else {
        "default"
    }
}

/// The exit code that the program was given; zero where there is none.
pub fn exit_code_arg(args: &Vec<String>) -> (r: i32)
    ensures
        r == if args@.len() > 2 {
            match parse_i32_text(args@[2]@) {
                Ok(c) => c,
                Err(_) => 0,
            }
        } else {
            0
        },
{
    if args.len() > 2 {
        match parse_i32(args[2].as_str()) {
            Ok(c) => c,
            Err(_) => 0,
        }
    } else {
        0
    }
}

/// The count that a program was given, or its default.
pub open spec fn count_at(args: Seq<String>, default: nat) -> nat {
    if args.len() > 2 {
        match parse_unsigned_text(args[2]@, u64::MAX as nat) {
            Ok(n) => n,
            Err(_) => default,
        }
    } else {
        default
    }
}

/// The count that a program was given, or its default.
pub fn count_arg(args: &Vec<String>, default: u64) -> (r: u64)
    ensures
        r == count_at(args@, default as nat),
{
    if args.len() > 2 {
        match parse_unsigned(args[2].as_str(), u64::MAX) {
            Ok(n) => n,
            Err(_) => default,
        }
    } else {
        default
    }
}

/// A file that could not be written. `word` is the handler's name.
pub fn write_failed(word: &str, path: &str, error: &str) -> (r: String)
    ensures
        r@ == word@ + " "@ + path@ + ": "@ + error@,
{
    let mut text = cat3(word, " ", path);
    text.append(": ");
    text.append(error);
    text
}

/// The message for a descriptor, under a heading.
pub fn fd_message(heading: &str, fd: i32) -> (r: String)
    ensures
        r@ == heading@ + ":fd="@ + int_text(fd as int) + "\n"@,
{
    let n = dec_i64(fd as i64);
    let mut text = cat3(heading, ":fd=", n.as_str());
    text.append("\n");
    text
}

/// How many messages were tried, and how many failed.
#[derive(Clone, Copy, Debug, PartialEq, Eq, Structural)]
pub struct WriteTally {
    pub attempted: usize,
    pub failed: usize,
}

/// How many of the writes failed.
pub open spec fn failures(written: Seq<i64>) -> nat
    decreases written.len(),
{
    if written.len() == 0 {
        0
    } else {
        failures(written.drop_last()) + if written.last() < 0 {
            1nat
        } else {
            0nat
        }
    }
}

/// The tally over what each write returned. There must be a descriptor to write to.
pub fn write_tally(written: &Vec<i64>) -> (r: Result<WriteTally, String>)
    ensures
        match r {
            Ok(t) => written@.len() > 0 && t.attempted == written@.len() && t.failed == failures(
                written@,
            ),
            Err(e) => written@.len() == 0 && e@ == "no fds provided"@,
        },
{
    if written.len() == 0 {
        return Err("no fds provided".to_string());
    }
    let mut failed: usize = 0;
    let mut i: usize = 0;
    while i < written.len()
        invariant
            i <= written.len(),
            failed <= i,
            failed == failures(written@.take(i as int)),
        decreases written.len() - i,
    {
        assert(written@.take(i + 1).drop_last() =~= written@.take(i as int));
        if written[i] < 0 {
            failed = failed + 1;
        }
        i = i + 1;
    }
    assert(written@.take(i as int) =~= written@);
    Ok(WriteTally { attempted: written.len(), failed })
}

/// Every write is either counted as a failure or not, never more than once.
pub proof fn law_failures_bounded(written: Seq<i64>)
    ensures
        failures(written) <= written.len(),
        (forall|k: int| 0 <= k < written.len() ==> written[k] >= 0) ==> failures(written) == 0,
    decreases written.len(),
{
    if written.len() > 0 {
        let front = written.drop_last();
        law_failures_bounded(front);
        if forall|k: int| 0 <= k < written.len() ==> written[k] >= 0 {
            assert forall|k: int| 0 <= k < front.len() implies front[k] >= 0 by {
                assert(written[k] >= 0);
            }
        }
    }
}

/// Whether the parent's text is among the bytes that came.
pub fn saw_parent(data: &[u8]) -> (r: bool)
    ensures
        r == contains_text(lossy_text(data@), "PB_PARENT_WROTE"@),
{
    let text = lossy(data);
    contains(text.as_str(), "PB_PARENT_WROTE")
}

/// A number of seconds in milliseconds, as far as they can be counted.
pub fn poll_millis(secs: i32) -> (r: i32)
    ensures
        r == if secs * 1000 > i32::MAX {
            i32::MAX as int
        } else if secs * 1000 < i32::MIN {
            i32::MIN as int
        } else {
            secs * 1000
        },
{
    let ms: i64 = secs as i64 * 1000;
    if ms > i32::MAX as i64 {
        i32::MAX
    } else if ms < i32::MIN as i64 {
        i32::MIN
    } else {
        ms as i32
    }
}

/// What a poll says about reading.
pub enum PollEnd {
    /// There is something to read.
    Read,
    /// Time ran out: nothing was read.
    Nothing,
    Fail { error: String },
}

/// What a poll that returned `rc` says about reading.
pub fn poll_end(rc: i32, error: &str) -> (r: PollEnd)
    ensures
        match r {
            PollEnd::Read => rc > 0,
            PollEnd::Nothing => rc == 0,
            PollEnd::Fail { error: e } => rc < 0 && e@ == "poll: "@ + error@,
        },
{
    if rc < 0 {
        PollEnd::Fail { error: cat("poll: ", error) }
    } else if rc == 0 {
        PollEnd::Nothing
    } else {
        PollEnd::Read
    }
}

/// How much one read asks for.
pub const READ_CHUNK: usize = 4096;

/// How many bytes a read that returned `rc` brought, and whether another read follows: it
/// does after a full one.
pub fn chunk_step(rc: i64) -> (r: (usize, bool))
    requires
        rc <= READ_CHUNK,
    ensures
        r.0 == if rc > 0 {
            rc as int
        } else {
            0
        },
        r.1 == (rc == READ_CHUNK),
{
    if rc > 0 {
        (rc as usize, rc == READ_CHUNK as i64)
    } else {
        (0, false)
    }
}

/// What the echo handler reports: the bytes echoed, or the step that failed.
pub fn echo_result(read: i64, written: i64, error: &str) -> (r: Result<u64, String>)
    ensures
        if read <= 0 {
            r matches Err(e) && e@ == "echo-on-fd read: "@ + error@
        } else if written < 0 {
            r matches Err(e) && e@ == "echo-on-fd write: "@ + error@
        } else {
            r matches Ok(n) && n == written
        },
{
    if read <= 0 {
        Err(cat("echo-on-fd read: ", error))
    } else if written < 0 {
        Err(cat("echo-on-fd write: ", error))
    } else {
        Ok(written as u64)
    }
}

/// How many bytes the large program writes where nothing else is said.
pub const LARGE_BYTES: u64 = 65536;

/// How much it writes at once.
pub const LARGE_CHUNK: u64 = 64;

/// How many bytes the large program writes next: none once all are written.
pub fn large_next(total: u64, written: u64) -> (r: u64)
    ensures
        r == if written >= total {
            0
        } else if total - written < LARGE_CHUNK {
            total - written
        } else {
            LARGE_CHUNK as int
        },
{
    if written >= total {
        0
    } else if total - written < LARGE_CHUNK {
        total - written
    } else {
        LARGE_CHUNK
    }
}

/// The last line of the large program.
pub fn large_trailer(written: u64) -> (r: String)
    ensures
        r@ == "\nLARGE_STDOUT_OK n="@ + dec_text(written as nat) + "\n"@,
{
    let n = dec(written);
    cat3("\nLARGE_STDOUT_OK n=", n.as_str(), "\n")
}

/// How many handlers are shared.
pub const COMMON_HANDLERS: usize = 13;

/// The name of a shared handler.
#[verifier::allow_in_spec]
pub fn common_handler(k: usize) -> &'static str
    returns
        (if k == 0 {
            "common.bash"
        } else if k == 1 {
            "common.exec_bin"
        } else if k == 2 {
            "common.echo_test"
        } else if k == 3 {
            "common.exit_with"
        } else if k == 4 {
            "common.write_then_exit"
        } else if k == 5 {
            "common.write_known"
        } else if k == 6 {
            "common.echo_exit"
        } else if k == 7 {
            "common.do_write"
        } else if k == 8 {
            "common.do_write_sleep"
        } else if k == 9 {
            "common.write_on_fd"
        } else if k == 10 {
            "common.delayed_write_on_fd"
        } else if k == 11 {
            "common.read_on_fd"
        } else {
            "common.echo_on_fd"
        }),
{
    if k == 0 {
        "common.bash"
    } else if k == 1 {
        "common.exec_bin"
    } else if k == 2 {
        "common.echo_test"
    } else if k == 3 {
        "common.exit_with"
    } else if k == 4 {
        "common.write_then_exit"
    } else if k == 5 {
        "common.write_known"
    } else if k == 6 {
        "common.echo_exit"
    } else if k == 7 {
        "common.do_write"
    } else if k == 8 {
        "common.do_write_sleep"
    } else if k == 9 {
        "common.write_on_fd"
    } else if k == 10 {
        "common.delayed_write_on_fd"
    } else if k == 11 {
        "common.read_on_fd"
    } else {
        "common.echo_on_fd"
    }
}

/// How many programs are reached by their first argument.
pub const COMMON_PROGRAMS: usize = 6;

/// The name of a shared program.
#[verifier::allow_in_spec]
pub fn common_program(k: usize) -> &'static str
    returns
        (if k == 0 {
            "large-stdout-test"
        } else if k == 1 {
            "stderr-only-test"
        } else if k == 2 {
            "stdin-echo-test"
        } else if k == 3 {
            "echo-test"
        } else if k == 4 {
            "write-known"
        } else {
            "exit-with"
        }),
{
    if k == 0 {
        "large-stdout-test"
    } else if k == 1 {
        "stderr-only-test"
    } else if k == 2 {
        "stdin-echo-test"
    } else if k == 3 {
        "echo-test"
    } else if k == 4 {
        "write-known"
    } else {
        "exit-with"
    }
}

/// The letters go round every sixteen bytes, beginning with the first, and all are capitals.
pub proof fn law_letters(size: nat, i: int)
    requires
        0 <= i < size,
    ensures
        letters(size).len() == size,
        letters(size)[i] == 65 + i % 16,
        i + 16 < size ==> letters(size)[i + 16] == letters(size)[i],
{
}

/// Each write that returned a negative number is counted as a failure, and no other.
pub proof fn law_failed_writes_are_counted(written: Seq<i64>)
    ensures
        failures(written) == written.filter(|n: i64| n < 0).len(),
    decreases written.len(),
{
    reveal(Seq::filter);
    if written.len() > 0 {
        law_failed_writes_are_counted(written.drop_last());
    }
}

/// A program's count is the number that it was given, and its default where it was given none or
/// something that is no number.
pub proof fn law_count_argument(args: Seq<String>, default: nat)
    ensures
        args.len() <= 2 ==> count_at(args, default) == default,
        args.len() > 2 ==> (parse_unsigned_text(args[2]@, u64::MAX as nat) matches Ok(n)
            ==> count_at(args, default) == n),
        args.len() > 2 && parse_unsigned_text(args[2]@, u64::MAX as nat) is Err ==> count_at(
            args,
            default,
        ) == default,
{
}

/// What a program came to prints with both streams, its code and whether it ran out of time, each
/// in its place.
pub proof fn law_bash_prints(v: BashView)
    ensures
        v.debug() == "BashOut { stdout: "@ + quoted(v.stdout) + ", stderr: "@ + quoted(v.stderr)
            + ", exit_code: "@ + int_text(v.exit_code as int) + ", timed_out: "@ + bool_text(
            v.timed_out,
        ) + " }"@,
{
}

/// The result of the shell handler prints with the program's end, or with its error.
pub proof fn law_bash_result_prints(r: Result<BashOut, String>)
    ensures
        r matches Ok(out) ==> bash_result_text(r) == "Ok("@ + out@.debug() + ")"@,
        r matches Err(e) ==> bash_result_text(r) == "Err("@ + quoted(e@) + ")"@,
{
}

} // verus!
