//! Numbers in text: printing, reading, and the law that one undoes the other.

use vstd::prelude::*;
use crate::text::{chars_of, list_of, list_text, texts};

verus! {

/// The character for a digit below sixteen, in lower case.
pub open spec fn digit_char(d: nat) -> char {
    if d < 10 {
        (48 + d) as char
    } else {
        (87 + d) as char
    }
}

/// `n` in base `base`, without leading zeros.
pub open spec fn base_text(n: nat, base: nat) -> Seq<char>
    decreases n,
{
    if base < 2 || n < base {
        seq![digit_char(n)]
    } else {
        proof {
            assert(n / base < n) by (nonlinear_arith)
                requires
                    n >= base,
                    base >= 2,
            ;
        }
        base_text(n / base, base).push(digit_char(n % base))
    }
}

/// `n` in decimal.
pub open spec fn dec_text(n: nat) -> Seq<char> {
    base_text(n, 10)
}

/// A signed number in decimal.
pub open spec fn int_text(i: int) -> Seq<char> {
    if i < 0 {
        "-"@ + dec_text((-i) as nat)
    } else {
        dec_text(i as nat)
    }
}

/// `n` in hexadecimal after `0x`, as `{:#x}` prints it.
pub open spec fn hex_text(n: nat) -> Seq<char> {
    "0x"@ + base_text(n, 16)
}

/// What `{:?}` prints for an optional signed number.
pub open spec fn opt_int_text(o: Option<i32>) -> Seq<char> {
    match o {
        Some(v) => "Some("@ + int_text(v as int) + ")"@,
        None => "None"@,
    }
}

/// Each byte in decimal.
pub open spec fn byte_texts(bytes: Seq<u8>) -> Seq<Seq<char>> {
    bytes.map_values(|b: u8| dec_text(b as nat))
}

/// Each number in decimal.
pub open spec fn dec_texts(list: Seq<u64>) -> Seq<Seq<char>> {
    list.map_values(|n: u64| dec_text(n as nat))
}

/// Each signed number in decimal.
pub open spec fn int_texts(list: Seq<i32>) -> Seq<Seq<char>> {
    list.map_values(|n: i32| int_text(n as int))
}

/// Why a text is no number of the wanted type.
#[derive(Clone, Copy, PartialEq, Eq, Structural, Debug)]
pub enum NumberFault {
    /// The text has no characters.
    Empty,
    /// A character is no digit, or there is only a sign.
    InvalidDigit,
    /// The number is above the largest of the type.
    TooLarge,
    /// The number is below the smallest of the type.
    TooSmall,
}

pub open spec fn is_digit(c: char) -> bool {
    48 <= c as int <= 57
}

/// The value of a run of digits, stopping at the first position where it fails.
pub open spec fn digits_value(s: Seq<char>, max: nat) -> Result<nat, NumberFault>
    decreases s.len(),
{
    if s.len() == 0 {
        Ok(0)
    } else {
        match digits_value(s.drop_last(), max) {
            Err(e) => Err(e),
            Ok(v) => {
                let c = s.last();
                if !is_digit(c) {
                    Err(NumberFault::InvalidDigit)
                } else if v * 10 + (c as int - 48) > max {
                    Err(NumberFault::TooLarge)
                } else {
                    Ok((v * 10 + (c as int - 48)) as nat)
                }
            },
        }
    }
}

/// What `str::parse` gives for an unsigned type whose largest value is `max`.
pub open spec fn parse_unsigned_text(s: Seq<char>, max: nat) -> Result<nat, NumberFault> {
    if s.len() == 0 {
        Err(NumberFault::Empty)
    } else if s.len() == 1 && (s[0] == '+' || s[0] == '-') {
        Err(NumberFault::InvalidDigit)
    } else if s[0] == '+' {
        digits_value(s.skip(1), max)
    } else {
        digits_value(s, max)
    }
}

/// What `str::parse` gives for `i32`.
pub open spec fn parse_i32_text(s: Seq<char>) -> Result<int, NumberFault> {
    if s.len() > 1 && s[0] == '-' {
        match digits_value(s.skip(1), 0x8000_0000) {
            Ok(v) => Ok(-(v as int)),
            Err(NumberFault::TooLarge) => Err(NumberFault::TooSmall),
            Err(e) => Err(e),
        }
    } else {
        match parse_unsigned_text(s, 0x7fff_ffff) {
            Ok(v) => Ok(v as int),
            Err(e) => Err(e),
        }
    }
}

/// What `std` prints for the fault.
pub open spec fn fault_text(f: NumberFault) -> Seq<char> {
    match f {
        NumberFault::Empty => "cannot parse integer from empty string"@,
        NumberFault::InvalidDigit => "invalid digit found in string"@,
        NumberFault::TooLarge => "number too large to fit in target type"@,
        NumberFault::TooSmall => "number too small to fit in target type"@,
    }
}

impl NumberFault {
    /// The message for the fault.
    pub fn message(self) -> (r: &'static str)
        ensures
            r@ == fault_text(self),
    {
        match self {
            NumberFault::Empty => "cannot parse integer from empty string",
            NumberFault::InvalidDigit => "invalid digit found in string",
            NumberFault::TooLarge => "number too large to fit in target type",
            NumberFault::TooSmall => "number too small to fit in target type",
        }
    }
}

/// The digit as a text of one character.
fn digit_word(d: u64) -> (r: &'static str)
    requires
        d < 16,
    ensures
        r@ == seq![digit_char(d as nat)],
{
    proof {
        reveal_strlit("0");
        reveal_strlit("1");
        reveal_strlit("2");
        reveal_strlit("3");
        reveal_strlit("4");
        reveal_strlit("5");
        reveal_strlit("6");
        reveal_strlit("7");
        reveal_strlit("8");
        reveal_strlit("9");
        reveal_strlit("a");
        reveal_strlit("b");
        reveal_strlit("c");
        reveal_strlit("d");
        reveal_strlit("e");
        reveal_strlit("f");
    }
    let r = match d {
        0 => "0",
        1 => "1",
        2 => "2",
        3 => "3",
        4 => "4",
        5 => "5",
        6 => "6",
        7 => "7",
        8 => "8",
        9 => "9",
        10 => "a",
        11 => "b",
        12 => "c",
        13 => "d",
        14 => "e",
        _ => "f",
    };
    assert(r@ =~= seq![digit_char(d as nat)]);
    r
}

fn in_base(n: u64, base: u64) -> (r: String)
    requires
        2 <= base <= 16,
    ensures
        r@ == base_text(n as nat, base as nat),
    decreases n,
{
    if n < base {
        digit_word(n).to_string()
    } else {
        assert(n / base < n) by (nonlinear_arith)
            requires
                n >= base,
                base >= 2,
        ;
        let mut out = in_base(n / base, base);
        out.append(digit_word(n % base));
        assert(out@ =~= base_text((n / base) as nat, base as nat).push(
            digit_char((n % base) as nat),
        ));
        out
    }
}

/// The number in decimal.
pub fn dec(n: u64) -> (r: String)
    ensures
        r@ == dec_text(n as nat),
{
    in_base(n, 10)
}

/// The signed number in decimal.
pub fn dec_i64(i: i64) -> (r: String)
    ensures
        r@ == int_text(i as int),
{
    if i < 0 {
        let m: u64 = if i == i64::MIN {
            0x8000_0000_0000_0000
        } else {
            (-i) as u64
        };
        let mut out = "-".to_string();
        let tail = dec(m);
        out.append(tail.as_str());
        out
    } else {
        dec(i as u64)
    }
}

/// The number in hexadecimal after `0x`.
pub fn hex(n: u64) -> (r: String)
    ensures
        r@ == hex_text(n as nat),
{
    let mut out = "0x".to_string();
    let tail = in_base(n, 16);
    out.append(tail.as_str());
    out
}

/// An optional signed number as `{:?}` prints it.
pub fn opt_i32(o: Option<i32>) -> (r: String)
    ensures
        r@ == opt_int_text(o),
{
    match o {
        Some(v) => {
            let mut out = "Some(".to_string();
            let mid = dec_i64(v as i64);
            out.append(mid.as_str());
            out.append(")");
            out
        },
        None => "None".to_string(),
    }
}

/// What `{:?}` prints for numbers.
pub fn numbers_debug(list: &Vec<u64>) -> (r: String)
    ensures
        r@ == list_text(dec_texts(list@)),
{
    let mut pieces: Vec<String> = Vec::new();
    let mut i: usize = 0;
    while i < list.len()
        invariant
            i <= list.len(),
            pieces@.len() == i,
            forall|k: int| 0 <= k < i ==> (#[trigger] pieces@[k])@ == dec_text(list@[k] as nat),
        decreases list.len() - i,
    {
        pieces.push(dec(list[i]));
        i = i + 1;
    }
    assert(texts(pieces@) =~= dec_texts(list@));
    list_of(&pieces)
}

/// What `{:?}` prints for signed numbers.
pub fn ints_debug(list: &Vec<i32>) -> (r: String)
    ensures
        r@ == list_text(int_texts(list@)),
{
    let mut pieces: Vec<String> = Vec::new();
    let mut i: usize = 0;
    while i < list.len()
        invariant
            i <= list.len(),
            pieces@.len() == i,
            forall|k: int| 0 <= k < i ==> (#[trigger] pieces@[k])@ == int_text(list@[k] as int),
        decreases list.len() - i,
    {
        pieces.push(dec_i64(list[i] as i64));
        i = i + 1;
    }
    assert(texts(pieces@) =~= int_texts(list@));
    list_of(&pieces)
}

/// What `{:?}` prints for bytes.
pub fn bytes_debug(bytes: &[u8]) -> (r: String)
    ensures
        r@ == list_text(byte_texts(bytes@)),
{
    let mut pieces: Vec<String> = Vec::new();
    let mut i: usize = 0;
    while i < bytes.len()
        invariant
            i <= bytes.len(),
            pieces@.len() == i,
            forall|k: int| 0 <= k < i ==> (#[trigger] pieces@[k])@ == dec_text(bytes@[k] as nat),
        decreases bytes.len() - i,
    {
        pieces.push(dec(bytes[i] as u64));
        i = i + 1;
    }
    assert(texts(pieces@) =~= byte_texts(bytes@));
    list_of(&pieces)
}

/// The value of a decimal digit, or nothing for another character.
fn digit_value(c: char) -> (r: Option<u64>)
    ensures
        match r {
            Some(d) => is_digit(c) && d == c as int - 48,
            None => !is_digit(c),
        },
{
    let n: u32 = c as u32;
    if n < 48 || n > 57 {
        None
    } else {
        Some((n - 48) as u64)
    }
}

fn run_of_digits(v: &Vec<char>, from: usize, max: u64) -> (r: Result<u64, NumberFault>)
    requires
        from <= v.len(),
    ensures
        match r {
            Ok(n) => digits_value(v@.skip(from as int), max as nat) == Ok::<nat, NumberFault>(
                n as nat,
            ),
            Err(e) => digits_value(v@.skip(from as int), max as nat) == Err::<nat, NumberFault>(e),
        },
{
    let ghost all = v@.skip(from as int);
    let mut n: u64 = 0;
    let mut i: usize = from;
    assert(all.take(0) =~= Seq::<char>::empty());
    while i < v.len()
        invariant
            from <= i <= v.len(),
            all == v@.skip(from as int),
            n <= max,
            digits_value(all.take(i - from), max as nat) == Ok::<nat, NumberFault>(n as nat),
        decreases v.len() - i,
    {
        let ghost next = all.take(i + 1 - from);
        assert(next.drop_last() =~= all.take(i - from));
        assert(next.last() == v@[i as int]);
        let d: u64 = match digit_value(v[i]) {
            Some(d) => d,
            None => {
                proof {
                    lemma_fails_on(all, (i + 1 - from) as int, max as nat);
                }
                return Err(NumberFault::InvalidDigit);
            },
        };
        if n > max / 10 || d > max || n * 10 > max - d {
            proof {
                lemma_fails_on(all, (i + 1 - from) as int, max as nat);
            }
            return Err(NumberFault::TooLarge);
        }
        assert(next.last() as int - 48 == d);
        assert(digits_value(next, max as nat) == Ok::<nat, NumberFault>((n * 10 + d) as nat));
        n = n * 10 + d;
        i = i + 1;
    }
    assert(all.take(all.len() as int) =~= all);
    Ok(n)
}

proof fn lemma_fails_on(all: Seq<char>, k: int, max: nat)
    requires
        0 <= k <= all.len(),
        digits_value(all.take(k), max) is Err,
    ensures
        digits_value(all, max) == digits_value(all.take(k), max),
    decreases all.len(),
{
    if k < all.len() {
        assert(all.drop_last().take(k) =~= all.take(k));
        lemma_fails_on(all.drop_last(), k, max);
    } else {
        assert(all.take(k) =~= all);
    }
}

/// `str::parse` for an unsigned type whose largest value is `max`.
pub fn parse_unsigned(s: &str, max: u64) -> (r: Result<u64, NumberFault>)
    ensures
        match r {
            Ok(n) => parse_unsigned_text(s@, max as nat) == Ok::<nat, NumberFault>(n as nat),
            Err(e) => parse_unsigned_text(s@, max as nat) == Err::<nat, NumberFault>(e),
        },
        r matches Ok(n) ==> n <= max,
{
    let v = chars_of(s);
    if v.len() == 0 {
        return Err(NumberFault::Empty);
    }
    if v.len() == 1 && (v[0] == '+' || v[0] == '-') {
        return Err(NumberFault::InvalidDigit);
    }
    proof {
        lemma_within(s@, max as nat);
        lemma_within(s@.skip(1), max as nat);
    }
    if v[0] == '+' {
        run_of_digits(&v, 1, max)
    } else {
        assert(v@.skip(0) =~= v@);
        run_of_digits(&v, 0, max)
    }
}

proof fn lemma_within(s: Seq<char>, max: nat)
    ensures
        digits_value(s, max) matches Ok(n) ==> n <= max,
    decreases s.len(),
{
    if s.len() > 0 {
        lemma_within(s.drop_last(), max);
    }
}

/// `str::parse::<i32>`.
pub fn parse_i32(s: &str) -> (r: Result<i32, NumberFault>)
    ensures
        match r {
            Ok(n) => parse_i32_text(s@) == Ok::<int, NumberFault>(n as int),
            Err(e) => parse_i32_text(s@) == Err::<int, NumberFault>(e),
        },
{
    let v = chars_of(s);
    if v.len() > 1 && v[0] == '-' {
        proof {
            lemma_within(s@.skip(1), 0x8000_0000);
        }
        match run_of_digits(&v, 1, 0x8000_0000) {
            Ok(n) => {
                let i: i64 = n as i64;
                let m: i32 = (-i) as i32;
                Ok(m)
            },
            Err(NumberFault::TooLarge) => Err(NumberFault::TooSmall),
            Err(e) => Err(e),
        }
    } else {
        match parse_unsigned(s, 0x7fff_ffff) {
            Ok(n) => Ok(n as i32),
            Err(e) => Err(e),
        }
    }
}

proof fn lemma_digits_of_dec(n: nat, max: nat)
    requires
        n <= max,
    ensures
        digits_value(dec_text(n), max) == Ok::<nat, NumberFault>(n),
        dec_text(n).len() > 0,
        is_digit(dec_text(n)[0]),
    decreases n,
{
    let t = dec_text(n);
    if n < 10 {
        assert(t.drop_last() =~= Seq::<char>::empty());
        assert(digits_value(t.drop_last(), max) == Ok::<nat, NumberFault>(0));
    } else {
        lemma_digits_of_dec(n / 10, max);
        assert(t.drop_last() =~= dec_text(n / 10));
    }
}

/// Reading back a printed number gives the number.
pub proof fn law_parse_undoes_print(n: nat, max: nat)
    requires
        n <= max,
    ensures
        parse_unsigned_text(dec_text(n), max) == Ok::<nat, NumberFault>(n),
{
    lemma_digits_of_dec(n, max);
}

/// Reading back a printed signed number gives the number.
pub proof fn law_parse_undoes_print_i32(i: i32)
    ensures
        parse_i32_text(int_text(i as int)) == Ok::<int, NumberFault>(i as int),
{
    reveal_strlit("-");
    if i < 0 {
        let m = (-(i as int)) as nat;
        lemma_digits_of_dec(m, 0x8000_0000);
        assert(int_text(i as int).skip(1) =~= dec_text(m));
    } else {
        lemma_digits_of_dec(i as nat, 0x7fff_ffff);
    }
}

/// Printed numbers are made of digits.
pub proof fn law_dec_all_digits(n: nat, k: int)
    requires
        0 <= k < dec_text(n).len(),
    ensures
        is_digit(dec_text(n)[k]),
    decreases n,
{
    if n >= 10 && k < dec_text(n).len() - 1 {
        law_dec_all_digits(n / 10, k);
    }
}

/// A number below ten is one digit; any other is the digits of its tenth part, then its last
/// digit.
pub proof fn law_decimal_digits(n: nat, d: nat)
    requires
        d < 10,
    ensures
        dec_text(d) == seq![(48 + d) as char],
        n > 0 ==> dec_text(n * 10 + d) == dec_text(n).push((48 + d) as char),
{
    assert((n * 10 + d) / 10 == n);
    assert((n * 10 + d) % 10 == d);
}

/// A negative number is a minus sign and the number without it; no other number has a sign.
pub proof fn law_signed_digits(n: nat)
    ensures
        int_text(n as int) == dec_text(n),
        n > 0 ==> int_text(-(n as int)) == "-"@ + dec_text(n),
{
}

/// A hexadecimal number has its prefix, and its digits count sixteens: letters in lower case
/// stand for ten and more.
pub proof fn law_hex_digits(n: nat, d: nat)
    requires
        d < 16,
    ensures
        d < 10 ==> hex_text(d) == "0x"@ + seq![(48 + d) as char],
        d >= 10 ==> hex_text(d) == "0x"@ + seq![(87 + d) as char],
        n > 0 ==> hex_text(n * 16 + d) == hex_text(n).push(
            if d < 10 {
                (48 + d) as char
            } else {
                (87 + d) as char
            },
        ),
{
    assert((n * 16 + d) / 16 == n);
    assert((n * 16 + d) % 16 == d);
    if n > 0 {
        assert(hex_text(n * 16 + d) =~= hex_text(n).push(digit_char(d)));
    }
}

proof fn lemma_too_large(n: nat, max: nat)
    requires
        n > max,
    ensures
        digits_value(dec_text(n), max) == Err::<nat, NumberFault>(NumberFault::TooLarge),
        dec_text(n).len() > 0,
        is_digit(dec_text(n)[0]),
    decreases n,
{
    if n < 10 {
        let s = dec_text(n);
        assert(s == seq![digit_char(n)]);
        assert(s.drop_last() =~= Seq::empty());
        assert(digits_value(s.drop_last(), max) == Ok::<nat, NumberFault>(0));
        assert((digit_char(n) as int) - 48 == n);
    } else {
        let q = n / 10;
        let s = dec_text(n);
        assert(s == dec_text(q).push(digit_char(n % 10)));
        assert(s.drop_last() =~= dec_text(q));
        if q > max {
            lemma_too_large(q, max);
        } else {
            lemma_digits_of_dec(q, max);
            assert((digit_char(n % 10) as int) - 48 == n % 10);
            assert(q * 10 + n % 10 == n);
        }
        assert(s[0] == dec_text(q)[0]);
    }
}

/// A printed number above the largest of the type is refused for that, and a text with a
/// character that is no digit, or with none at all, is no number.
pub proof fn law_parse_refuses(n: nat, max: nat, s: Seq<char>)
    ensures
        n > max ==> parse_unsigned_text(dec_text(n), max) == Err::<nat, NumberFault>(
            NumberFault::TooLarge,
        ),
        s.len() == 0 ==> parse_unsigned_text(s, max) == Err::<nat, NumberFault>(NumberFault::Empty)
            && parse_i32_text(s) == Err::<int, NumberFault>(NumberFault::Empty),
        s == "-"@ || s == "+"@ ==> parse_unsigned_text(s, max) == Err::<nat, NumberFault>(
            NumberFault::InvalidDigit,
        ),
        parse_unsigned_text(s, max) matches Ok(v) ==> v <= max,
{
    reveal_strlit("-");
    reveal_strlit("+");
    if n > max {
        lemma_too_large(n, max);
    }
    lemma_within(s, max);
    if s.len() > 0 {
        lemma_within(s.skip(1), max);
    }
}

/// A text that can be read as a number holds nothing but digits, but for one sign in front.
pub proof fn law_numbers_are_digits(s: Seq<char>, max: nat)
    ensures
        digits_value(s, max) is Ok ==> forall|k: int|
            0 <= k < s.len() ==> is_digit(#[trigger] s[k]),
    decreases s.len(),
{
    if s.len() > 0 {
        let t = s.drop_last();
        law_numbers_are_digits(t, max);
        if digits_value(s, max) is Ok {
            assert forall|k: int| 0 <= k < s.len() implies is_digit(#[trigger] s[k]) by {
                if k < t.len() {
                    assert(t[k] == s[k]);
                }
            }
        }
    }
}

/// The faults of numbers are told apart by their messages.
pub proof fn law_fault_messages(a: NumberFault, b: NumberFault)
    requires
        fault_text(a) == fault_text(b),
    ensures
        a == b,
{
    reveal_strlit("cannot parse integer from empty string");
    reveal_strlit("invalid digit found in string");
    reveal_strlit("number too large to fit in target type");
    reveal_strlit("number too small to fit in target type");
    assert("cannot parse integer from empty string"@[0] == 'c');
    assert("invalid digit found in string"@[0] == 'i');
    assert("number too large to fit in target type"@[11] == 'l');
    assert("number too small to fit in target type"@[11] == 's');
    assert("number too small to fit in target type"@[0] == 'n');
    assert("number too large to fit in target type"@[0] == 'n');
}

/// An optional number prints as its digits inside `Some`, or as `None`.
pub proof fn law_optional_numbers(v: Option<i32>)
    ensures
        v is None ==> opt_int_text(v) == "None"@,
        v matches Some(n) ==> opt_int_text(v) == "Some("@ + int_text(n as int) + ")"@,
{
}

} // verus!
