//! Text operations on strings, stated over sequences of characters.

use vstd::prelude::*;
use vstd::utf8::{
    decode_utf8, encode_utf8, encode_utf8_decode_utf8, encode_utf8_valid_utf8, is_ascii_chars,
    is_ascii_chars_encode_utf8, valid_utf8,
};

verus! {

/// The text of each string in a list.
pub open spec fn texts(list: Seq<String>) -> Seq<Seq<char>> {
    list.map_values(|s: String| s@)
}

/// `needle` stands in `hay` at position `at`.
pub open spec fn occurs_at(hay: Seq<char>, needle: Seq<char>, at: int) -> bool {
    &&& 0 <= at
    &&& at + needle.len() <= hay.len()
    &&& hay.subrange(at, at + needle.len()) == needle
}

/// `needle` stands somewhere in `hay`.
pub open spec fn contains_text(hay: Seq<char>, needle: Seq<char>) -> bool {
    exists|at: int| occurs_at(hay, needle, at)
}

/// `hay` begins with `prefix`.
pub open spec fn starts_with_text(hay: Seq<char>, prefix: Seq<char>) -> bool {
    occurs_at(hay, prefix, 0)
}

/// Characters of the Unicode property `White_Space`.
pub open spec fn is_space(c: char) -> bool {
    let n = c as int;
    ||| 9 <= n <= 13
    ||| n == 0x20
    ||| n == 0x85
    ||| n == 0xA0
    ||| n == 0x1680
    ||| 0x2000 <= n <= 0x200A
    ||| n == 0x2028
    ||| n == 0x2029
    ||| n == 0x202F
    ||| n == 0x205F
    ||| n == 0x3000
}

/// `s` without its leading white space.
pub open spec fn trim_start_text(s: Seq<char>) -> Seq<char>
    decreases s.len(),
{
    if s.len() > 0 && is_space(s.first()) {
        trim_start_text(s.drop_first())
    } else {
        s
    }
}

/// `s` without its trailing white space.
pub open spec fn trim_end_text(s: Seq<char>) -> Seq<char>
    decreases s.len(),
{
    if s.len() > 0 && is_space(s.last()) {
        trim_end_text(s.drop_last())
    } else {
        s
    }
}

/// `s` without white space at either end.
pub open spec fn trim_text(s: Seq<char>) -> Seq<char> {
    trim_end_text(trim_start_text(s))
}

/// `s` with each occurrence of `pat`, found from the left, replaced by `with`.
pub open spec fn replace_text(s: Seq<char>, pat: Seq<char>, with: Seq<char>) -> Seq<char>
    decreases s.len(),
{
    if pat.len() == 0 || s.len() < pat.len() {
        s
    } else if starts_with_text(s, pat) {
        with + replace_text(s.skip(pat.len() as int), pat, with)
    } else {
        s.take(1) + replace_text(s.skip(1), pat, with)
    }
}

/// How many occurrences of `pat` a scan from the left finds, none overlapping another.
pub open spec fn count_text(s: Seq<char>, pat: Seq<char>) -> nat
    decreases s.len(),
{
    if pat.len() == 0 || s.len() < pat.len() {
        0
    } else if starts_with_text(s, pat) {
        1 + count_text(s.skip(pat.len() as int), pat)
    } else {
        count_text(s.skip(1), pat)
    }
}

/// The pieces of `s` between occurrences of `mark`.
pub open spec fn split_text(s: Seq<char>, mark: char) -> Seq<Seq<char>>
    decreases s.len(),
{
    if s.len() == 0 {
        seq![Seq::<char>::empty()]
    } else {
        let before = split_text(s.drop_last(), mark);
        if s.last() == mark {
            before.push(Seq::<char>::empty())
        } else {
            before.drop_last().push(before.last().push(s.last()))
        }
    }
}

/// What stands before and after the first `mark`, if there is one.
pub open spec fn split_once_text(s: Seq<char>, mark: char) -> Option<(Seq<char>, Seq<char>)>
    decreases s.len(),
{
    if s.len() == 0 {
        None
    } else if s[0] == mark {
        Some((Seq::<char>::empty(), s.skip(1)))
    } else {
        match split_once_text(s.skip(1), mark) {
            Some((a, b)) => Some((seq![s[0]] + a, b)),
            None => None,
        }
    }
}

/// The pieces put together with `sep` between neighbours.
pub open spec fn join_text(pieces: Seq<Seq<char>>, sep: Seq<char>) -> Seq<char>
    decreases pieces.len(),
{
    if pieces.len() == 0 {
        Seq::<char>::empty()
    } else if pieces.len() == 1 {
        pieces[0]
    } else {
        join_text(pieces.drop_last(), sep) + sep + pieces.last()
    }
}

/// `std::string::String::push`: the character goes to the end of the text.
#[verifier::external_body]
fn push_char(s: &mut String, c: char)
    ensures
        final(s)@ == old(s)@.push(c),
{
    s.push(c);
}

/// What `std` prints for a string with `{:?}`: the text in double quotes, with escapes.
pub uninterp spec fn quoted(s: Seq<char>) -> Seq<char>;

/// `std::fmt::Debug` for `str`. Named only: how each character is escaped is left to `std`.
#[verifier::external_body]
pub(crate) fn quote(s: &str) -> (r: String)
    ensures
        r@ == quoted(s@),
{
    format!("{s:?}")
}

/// What `std` makes of bytes that are not UTF-8, with marks in place of what is wrong.
pub uninterp spec fn replaced_text(bytes: Seq<u8>) -> Seq<char>;

/// The text of bytes that may not be UTF-8: their own where they are, else one with marks.
pub open spec fn lossy_text(bytes: Seq<u8>) -> Seq<char> {
    if valid_utf8(bytes) {
        decode_utf8(bytes)
    } else {
        replaced_text(bytes)
    }
}

/// `std::string::String::from_utf8_lossy`. Bytes that are UTF-8 become their text. For other
/// bytes the result is named only: where the marks stand is left to `std`.
#[verifier::external_body]
pub(crate) fn lossy(bytes: &[u8]) -> (r: String)
    ensures
        r@ == if valid_utf8(bytes@) {
            decode_utf8(bytes@)
        } else {
            replaced_text(bytes@)
        },
{
    String::from_utf8_lossy(bytes).to_string()
}

/// A text comes back from its own bytes.
pub proof fn law_text_comes_back(s: Seq<char>)
    ensures
        lossy_text(encode_utf8(s)) == s,
{
    encode_utf8_valid_utf8(s);
    encode_utf8_decode_utf8(s);
}

/// The bytes of an ASCII text are its characters, and it comes back from them.
pub proof fn law_ascii_comes_back(s: Seq<char>)
    requires
        is_ascii_chars(s),
    ensures
        encode_utf8(s) == s.map_values(|c: char| c as u8),
        lossy_text(s.map_values(|c: char| c as u8)) == s,
{
    is_ascii_chars_encode_utf8(s);
    assert(encode_utf8(s) =~= s.map_values(|c: char| c as u8));
    law_text_comes_back(s);
}

/// The characters of `s`, in order.
pub fn chars_of(s: &str) -> (r: Vec<char>)
    ensures
        r@ == s@,
{
    broadcast use vstd::string::axiom_spec_iter;

    let mut out: Vec<char> = Vec::new();
    for c in it: s.chars()
        invariant
            it.seq() == s@,
            out@ == s@.take(it.index() as int),
    {
        out.push(c);
    }
    out
}

/// Whether the two texts are equal.
pub fn same(a: &str, b: &str) -> (r: bool)
    ensures
        r == (a@ == b@),
{
    a.to_string() == b.to_string()
}

/// Whether `needle` stands in `hay` at `at`.
fn occurs(hay: &Vec<char>, needle: &Vec<char>, at: usize) -> (r: bool)
    ensures
        r == occurs_at(hay@, needle@, at as int),
{
    if at > hay.len() || needle.len() > hay.len() - at {
        return false;
    }
    let mut j: usize = 0;
    while j < needle.len()
        invariant
            at + needle.len() <= hay.len(),
            j <= needle.len(),
            forall|k: int| 0 <= k < j ==> hay@[at + k] == needle@[k],
        decreases needle.len() - j,
    {
        if hay[at + j] != needle[j] {
            assert(hay@.subrange(at as int, at + needle.len())[j as int] != needle@[j as int]);
            return false;
        }
        j = j + 1;
    }
    assert(hay@.subrange(at as int, at + needle.len()) =~= needle@);
    true
}

/// `str::contains` for a text.
pub fn contains(hay: &str, needle: &str) -> (r: bool)
    ensures
        r == contains_text(hay@, needle@),
{
    let h = chars_of(hay);
    let n = chars_of(needle);
    if n.len() > h.len() {
        assert forall|at: int| !occurs_at(hay@, needle@, at) by {}
        return false;
    }
    let last: usize = h.len() - n.len();
    let mut i: usize = 0;
    while i <= last
        invariant
            h@ == hay@,
            n@ == needle@,
            last + n.len() == h.len(),
            i <= last + 1,
            forall|at: int| 0 <= at < i ==> !occurs_at(hay@, needle@, at),
        decreases last + 1 - i,
    {
        if occurs(&h, &n, i) {
            return true;
        }
        if i == last {
            return false;
        }
        i = i + 1;
    }
    false
}

/// `str::starts_with` for a text.
pub fn starts_with(hay: &str, prefix: &str) -> (r: bool)
    ensures
        r == starts_with_text(hay@, prefix@),
{
    let h = chars_of(hay);
    let p = chars_of(prefix);
    occurs(&h, &p, 0)
}

/// `char::is_whitespace`.
pub fn is_space_char(c: char) -> (r: bool)
    ensures
        r == is_space(c),
{
    let n: u32 = c as u32;
    (9 <= n && n <= 13) || n == 0x20 || n == 0x85 || n == 0xA0 || n == 0x1680 || (0x2000 <= n && n
        <= 0x200A) || n == 0x2028 || n == 0x2029 || n == 0x202F || n == 0x205F || n == 0x3000
}

/// `str::trim_end`.
pub fn trim_end<'a>(s: &'a str) -> (r: &'a str)
    ensures
        r@ == trim_end_text(s@),
{
    let v = chars_of(s);
    let mut j: usize = v.len();
    assert(s@.subrange(0, j as int) =~= s@);
    while j > 0 && is_space_char(v[j - 1])
        invariant
            v@ == s@,
            j <= v.len(),
            trim_end_text(s@) == trim_end_text(s@.subrange(0, j as int)),
        decreases j,
    {
        let ghost cur = s@.subrange(0, j as int);
        assert(cur.drop_last() =~= s@.subrange(0, j - 1));
        j = j - 1;
    }
    s.substring_char(0, j)
}

/// `str::trim`.
pub fn trim<'a>(s: &'a str) -> (r: &'a str)
    ensures
        r@ == trim_text(s@),
{
    let v = chars_of(s);
    let mut i: usize = 0;
    assert(s@.skip(0) =~= s@);
    while i < v.len() && is_space_char(v[i])
        invariant
            v@ == s@,
            i <= v.len(),
            trim_start_text(s@) == trim_start_text(s@.skip(i as int)),
        decreases v.len() - i,
    {
        assert(s@.skip(i as int).drop_first() =~= s@.skip(i + 1));
        i = i + 1;
    }
    assert(s@.subrange(i as int, s@.len() as int) =~= s@.skip(i as int));
    let rest = s.substring_char(i, v.len());
    trim_end(rest)
}

/// `str::replace` for a pattern that is not empty.
pub fn replace(s: &str, pat: &str, with: &str) -> (r: String)
    requires
        pat@.len() > 0,
    ensures
        r@ == replace_text(s@, pat@, with@),
{
    let v = chars_of(s);
    let p = chars_of(pat);
    let mut out = String::new();
    let mut i: usize = 0;
    assert(s@.skip(0) =~= s@);
    while i < v.len() && v.len() - i >= p.len()
        invariant
            v@ == s@,
            p@ == pat@,
            p@.len() > 0,
            i <= v.len(),
            out@ + replace_text(s@.skip(i as int), pat@, with@) =~= replace_text(s@, pat@, with@),
        decreases v.len() - i,
    {
        let ghost rest = s@.skip(i as int);
        assert(rest.subrange(0, p@.len() as int) =~= s@.subrange(i as int, i + p@.len()));
        if occurs(&v, &p, i) {
            out.append(with);
            assert(rest.skip(p@.len() as int) =~= s@.skip(i + p@.len()));
            i = i + p.len();
        } else {
            push_char(&mut out, v[i]);
            assert(rest.take(1) =~= seq![s@[i as int]]);
            assert(rest.skip(1) =~= s@.skip(i + 1));
            i = i + 1;
        }
    }
    assert(s@.skip(i as int) =~= s@.subrange(i as int, s@.len() as int));
    out.append(s.substring_char(i, v.len()));
    out
}

/// How many matches of `pat` (not empty) `str::matches` finds.
pub fn count(s: &str, pat: &str) -> (r: usize)
    requires
        pat@.len() > 0,
    ensures
        r == count_text(s@, pat@),
{
    let v = chars_of(s);
    let p = chars_of(pat);
    let mut n: usize = 0;
    let mut i: usize = 0;
    assert(s@.skip(0) =~= s@);
    while i < v.len() && v.len() - i >= p.len()
        invariant
            v@ == s@,
            p@ == pat@,
            p@.len() > 0,
            i <= v.len(),
            n <= i,
            n + count_text(s@.skip(i as int), pat@) == count_text(s@, pat@),
        decreases v.len() - i,
    {
        let ghost rest = s@.skip(i as int);
        assert(rest.subrange(0, p@.len() as int) =~= s@.subrange(i as int, i + p@.len()));
        if occurs(&v, &p, i) {
            assert(rest.skip(p@.len() as int) =~= s@.skip(i + p@.len()));
            i = i + p.len();
            n = n + 1;
        } else {
            assert(rest.skip(1) =~= s@.skip(i + 1));
            i = i + 1;
        }
    }
    n
}

/// `str::split` at a character.
pub fn split(s: &str, mark: char) -> (r: Vec<String>)
    ensures
        texts(r@) == split_text(s@, mark),
{
    let v = chars_of(s);
    let mut done: Vec<String> = Vec::new();
    let mut cur = String::new();
    let mut i: usize = 0;
    assert(texts(done@).push(cur@) =~= split_text(s@.take(0), mark));
    while i < v.len()
        invariant
            v@ == s@,
            i <= v.len(),
            texts(done@).push(cur@) == split_text(s@.take(i as int), mark),
        decreases v.len() - i,
    {
        let ghost before = split_text(s@.take(i as int), mark);
        let ghost next = s@.take(i + 1);
        assert(next.drop_last() =~= s@.take(i as int));
        assert(next.last() == v@[i as int]);
        assert(before.drop_last() =~= texts(done@));
        if v[i] == mark {
            let ghost old_done = done@;
            done.push(cur);
            assert(texts(done@) =~= texts(old_done).push(cur@));
            cur = String::new();
            assert(texts(done@).push(cur@) =~= split_text(next, mark));
        } else {
            push_char(&mut cur, v[i]);
            assert(texts(done@).push(cur@) =~= split_text(next, mark));
        }
        i = i + 1;
    }
    assert(s@.take(v@.len() as int) =~= s@);
    let ghost old_done = done@;
    done.push(cur);
    assert(texts(done@) =~= texts(old_done).push(cur@));
    done
}

proof fn lemma_split_once_at(s: Seq<char>, mark: char, at: int)
    requires
        0 <= at < s.len(),
        s[at] == mark,
        forall|k: int| 0 <= k < at ==> s[k] != mark,
    ensures
        split_once_text(s, mark) == Some((s.take(at), s.skip(at + 1))),
    decreases s.len(),
{
    if at == 0 {
        assert(s.take(0) =~= Seq::<char>::empty());
    } else {
        let rest = s.skip(1);
        assert(rest[at - 1] == mark);
        assert forall|k: int| 0 <= k < at - 1 implies rest[k] != mark by {
            assert(rest[k] == s[k + 1]);
        }
        lemma_split_once_at(rest, mark, at - 1);
        assert(seq![s[0]] + rest.take(at - 1) =~= s.take(at));
        assert(rest.skip(at) =~= s.skip(at + 1));
    }
}

proof fn lemma_split_once_none(s: Seq<char>, mark: char)
    requires
        forall|k: int| 0 <= k < s.len() ==> s[k] != mark,
    ensures
        split_once_text(s, mark) is None,
    decreases s.len(),
{
    if s.len() > 0 {
        let rest = s.skip(1);
        assert forall|k: int| 0 <= k < rest.len() implies rest[k] != mark by {
            assert(rest[k] == s[k + 1]);
        }
        lemma_split_once_none(rest, mark);
    }
}

/// `str::split_once` at a character.
pub fn split_once<'a>(s: &'a str, mark: char) -> (r: Option<(&'a str, &'a str)>)
    ensures
        match r {
            Some((a, b)) => split_once_text(s@, mark) == Some((a@, b@)),
            None => split_once_text(s@, mark) is None,
        },
{
    let v = chars_of(s);
    let mut i: usize = 0;
    while i < v.len()
        invariant
            v@ == s@,
            i <= v.len(),
            forall|k: int| 0 <= k < i ==> s@[k] != mark,
        decreases v.len() - i,
    {
        if v[i] == mark {
            proof {
                lemma_split_once_at(s@, mark, i as int);
                assert(s@.subrange(0, i as int) =~= s@.take(i as int));
                assert(s@.subrange(i + 1, s@.len() as int) =~= s@.skip(i + 1));
            }
            return Some((s.substring_char(0, i), s.substring_char(i + 1, v.len())));
        }
        i = i + 1;
    }
    proof {
        lemma_split_once_none(s@, mark);
    }
    None
}

/// Splitting once at a mark that `a` does not hold finds `a` and what follows.
pub proof fn law_split_once(a: Seq<char>, mark: char, b: Seq<char>)
    requires
        forall|k: int| 0 <= k < a.len() ==> a[k] != mark,
    ensures
        split_once_text(a + seq![mark] + b, mark) == Some((a, b)),
{
    let s = a + seq![mark] + b;
    lemma_split_once_at(s, mark, a.len() as int);
    assert(s.take(a.len() as int) =~= a);
    assert(s.skip(a.len() as int + 1) =~= b);
}

/// `[String]::join`.
pub fn join(pieces: &Vec<String>, sep: &str) -> (r: String)
    ensures
        r@ == join_text(texts(pieces@), sep@),
{
    let mut out = String::new();
    let mut i: usize = 0;
    while i < pieces.len()
        invariant
            i <= pieces.len(),
            out@ == join_text(texts(pieces@.take(i as int)), sep@),
        decreases pieces.len() - i,
    {
        let ghost next = texts(pieces@.take(i + 1));
        assert(next.drop_last() =~= texts(pieces@.take(i as int)));
        if i > 0 {
            out.append(sep);
        }
        out.append(pieces[i].as_str());
        assert(out@ =~= join_text(next, sep@));
        i = i + 1;
    }
    assert(pieces@.take(pieces@.len() as int) =~= pieces@);
    out
}

/// `a` followed by `b`.
pub fn cat(a: &str, b: &str) -> (r: String)
    ensures
        r@ == a@ + b@,
{
    let mut out = a.to_string();
    out.append(b);
    out
}

/// `a`, `b` and `c` in a row.
pub fn cat3(a: &str, b: &str, c: &str) -> (r: String)
    ensures
        r@ == a@ + b@ + c@,
{
    let mut out = cat(a, b);
    out.append(c);
    out
}

/// What `{:?}` prints for a list whose items print as the given pieces.
pub open spec fn list_text(pieces: Seq<Seq<char>>) -> Seq<char> {
    "["@ + join_text(pieces, ", "@) + "]"@
}

/// The pieces as a printed list.
pub fn list_of(pieces: &Vec<String>) -> (r: String)
    ensures
        r@ == list_text(texts(pieces@)),
{
    let body = join(pieces, ", ");
    cat3("[", body.as_str(), "]")
}

/// Each text as `{:?}` prints it.
pub open spec fn quoted_all(items: Seq<String>) -> Seq<Seq<char>> {
    items.map_values(|s: String| quoted(s@))
}

/// What `{:?}` prints for a list of texts.
pub fn quoted_list(items: &Vec<String>) -> (r: String)
    ensures
        r@ == list_text(quoted_all(items@)),
{
    let mut pieces: Vec<String> = Vec::new();
    let mut i: usize = 0;
    while i < items.len()
        invariant
            i <= items.len(),
            pieces@.len() == i,
            forall|k: int| 0 <= k < i ==> (#[trigger] pieces@[k])@ == quoted(items@[k]@),
        decreases items.len() - i,
    {
        pieces.push(quote(items[i].as_str()));
        i = i + 1;
    }
    assert(texts(pieces@) =~= quoted_all(items@));
    list_of(&pieces)
}

/// What `std` prints for a truth value.
pub open spec fn bool_text(b: bool) -> Seq<char> {
    if b {
        "true"@
    } else {
        "false"@
    }
}

/// The word for a truth value.
pub fn bool_word(b: bool) -> (r: &'static str)
    ensures
        r@ == bool_text(b),
{
    if b {
        "true"
    } else {
        "false"
    }
}

/// Trimming leaves no white space at either end.
pub proof fn law_trim_ends(s: Seq<char>)
    ensures
        trim_text(s).len() > 0 ==> !is_space(trim_text(s).first()) && !is_space(trim_text(s).last()),
{
    lemma_trim_start(s);
    lemma_trim_end(trim_start_text(s));
}

proof fn lemma_trim_start(s: Seq<char>)
    ensures
        trim_start_text(s).len() > 0 ==> !is_space(trim_start_text(s).first()),
    decreases s.len(),
{
    if s.len() > 0 && is_space(s.first()) {
        lemma_trim_start(s.drop_first());
    }
}

proof fn lemma_trim_end(s: Seq<char>)
    ensures
        trim_end_text(s).len() > 0 ==> !is_space(trim_end_text(s).last()),
        trim_end_text(s).len() > 0 ==> trim_end_text(s).first() == s.first(),
        trim_end_text(s).len() <= s.len(),
    decreases s.len(),
{
    if s.len() > 0 && is_space(s.last()) {
        lemma_trim_end(s.drop_last());
    }
}

proof fn lemma_split_nonempty(s: Seq<char>, mark: char)
    ensures
        split_text(s, mark).len() > 0,
    decreases s.len(),
{
    if s.len() > 0 {
        lemma_split_nonempty(s.drop_last(), mark);
    }
}

/// Splitting at a character and joining with that character gives the text back.
pub proof fn law_split_join(s: Seq<char>, mark: char)
    ensures
        join_text(split_text(s, mark), seq![mark]) == s,
    decreases s.len(),
{
    let parts = split_text(s, mark);
    if s.len() == 0 {
        assert(parts[0] =~= s);
    } else {
        let front = s.drop_last();
        let before = split_text(front, mark);
        law_split_join(front, mark);
        lemma_split_nonempty(front, mark);
        assert(front.push(s.last()) =~= s);
        if s.last() == mark {
            assert(parts.drop_last() =~= before);
            assert(join_text(parts, seq![mark]) =~= join_text(before, seq![mark]) + seq![mark]
                + Seq::<char>::empty());
            assert(join_text(before, seq![mark]) + seq![mark] + Seq::<char>::empty() =~= s);
        } else {
            assert(parts.drop_last() =~= before.drop_last());
            assert(join_text(parts, seq![mark]) =~= s);
        }
    }
}

/// A text stands in another exactly if that is made of something, the text, and something.
pub proof fn law_contains_means_surrounded(hay: Seq<char>, needle: Seq<char>)
    ensures
        contains_text(hay, needle) <==> exists|a: Seq<char>, b: Seq<char>|
            hay == #[trigger] (a + needle + b),
{
    if contains_text(hay, needle) {
        let at = choose|at: int| occurs_at(hay, needle, at);
        let (a, b) = (hay.take(at), hay.skip(at + needle.len()));
        assert(hay =~= a + needle + b);
    }
    if exists|a: Seq<char>, b: Seq<char>| hay == #[trigger] (a + needle + b) {
        let (a, b) = choose|a: Seq<char>, b: Seq<char>| hay == #[trigger] (a + needle + b);
        assert(hay.subrange(a.len() as int, (a.len() + needle.len()) as int) =~= needle);
        assert(occurs_at(hay, needle, a.len() as int));
    }
}

/// A text begins with another exactly if it is the other, followed by something.
pub proof fn law_starts_with_means_followed(hay: Seq<char>, prefix: Seq<char>)
    ensures
        starts_with_text(hay, prefix) <==> exists|b: Seq<char>| hay == #[trigger] (prefix + b),
        starts_with_text(hay, prefix) ==> contains_text(hay, prefix),
{
    if starts_with_text(hay, prefix) {
        assert(hay =~= prefix + hay.skip(prefix.len() as int));
    }
    if exists|b: Seq<char>| hay == #[trigger] (prefix + b) {
        let b = choose|b: Seq<char>| hay == #[trigger] (prefix + b);
        assert(hay.subrange(0, prefix.len() as int) =~= prefix);
    }
}

/// Every character of the text is white space.
pub open spec fn all_space(s: Seq<char>) -> bool {
    forall|k: int| 0 <= k < s.len() ==> is_space(#[trigger] s[k])
}

proof fn lemma_trim_start_parts(s: Seq<char>)
    ensures
        ({
            let n = s.len() - trim_start_text(s).len();
            0 <= n && s.skip(n) == trim_start_text(s) && all_space(s.take(n))
        }),
    decreases s.len(),
{
    if s.len() > 0 && is_space(s.first()) {
        let t = s.drop_first();
        lemma_trim_start_parts(t);
        let n = t.len() - trim_start_text(t).len();
        assert(s.skip(n + 1) =~= t.skip(n));
        assert forall|k: int| 0 <= k < n + 1 implies is_space(#[trigger] s.take(n + 1)[k]) by {
            if k > 0 {
                assert(t.take(n)[k - 1] == s[k]);
            }
        }
    } else {
        assert(s.skip(0) =~= s);
    }
}

proof fn lemma_trim_end_parts(s: Seq<char>)
    ensures
        ({
            let n = trim_end_text(s).len() as int;
            n <= s.len() && s.take(n) == trim_end_text(s) && all_space(s.skip(n))
        }),
    decreases s.len(),
{
    if s.len() > 0 && is_space(s.last()) {
        let t = s.drop_last();
        lemma_trim_end_parts(t);
        let n = trim_end_text(t).len() as int;
        assert(s.take(n) =~= t.take(n));
        assert forall|k: int| 0 <= k < s.len() - n implies is_space(#[trigger] s.skip(n)[k]) by {
            if k < t.len() - n {
                assert(t.skip(n)[k] == s[n + k]);
            }
        }
    } else {
        assert(s.take(s.len() as int) =~= s);
    }
}

/// Trimming takes white space away and nothing else: the text is white space, what is left of
/// it, and white space.
pub proof fn law_trim_takes_only_space(s: Seq<char>)
    ensures
        exists|a: Seq<char>, b: Seq<char>|
            s == #[trigger] (a + trim_text(s) + b) && all_space(a) && all_space(b),
        exists|b: Seq<char>| s == #[trigger] (trim_end_text(s) + b) && all_space(b),
{
    lemma_trim_start_parts(s);
    let n = s.len() - trim_start_text(s).len();
    let t = trim_start_text(s);
    lemma_trim_end_parts(t);
    let m = trim_end_text(t).len() as int;
    let (a, b) = (s.take(n), t.skip(m));
    assert(s =~= a + trim_text(s) + b);
    lemma_trim_end_parts(s);
    let e = trim_end_text(s).len() as int;
    assert(s =~= trim_end_text(s) + s.skip(e));
}

/// A text without the pattern is left as it is, and a pattern replaced by itself changes nothing.
pub proof fn law_replace_leaves_the_rest(s: Seq<char>, pat: Seq<char>, with: Seq<char>)
    ensures
        !contains_text(s, pat) ==> replace_text(s, pat, with) == s,
        replace_text(s, pat, pat) == s,
    decreases s.len(),
{
    if pat.len() > 0 && s.len() >= pat.len() {
        if starts_with_text(s, pat) {
            let rest = s.skip(pat.len() as int);
            law_replace_leaves_the_rest(rest, pat, with);
            assert(pat + rest =~= s);
        } else {
            let rest = s.skip(1);
            law_replace_leaves_the_rest(rest, pat, with);
            assert(s.take(1) + rest =~= s);
            if contains_text(rest, pat) {
                let at = choose|at: int| occurs_at(rest, pat, at);
                assert(s.subrange(at + 1, at + 1 + pat.len()) =~= rest.subrange(at, at + pat.len()));
                assert(occurs_at(s, pat, at + 1));
            }
        }
    }
}

/// A pattern that stands first is replaced, and the rest is treated in the same way; a character
/// at which no pattern begins is kept.
pub proof fn law_replace_from_the_left(
    c: char,
    s: Seq<char>,
    pat: Seq<char>,
    with: Seq<char>,
)
    requires
        pat.len() > 0,
    ensures
        replace_text(pat + s, pat, with) == with + replace_text(s, pat, with),
        !starts_with_text(seq![c] + s, pat) ==> replace_text(seq![c] + s, pat, with) == seq![c]
            + replace_text(s, pat, with),
{
    let all = pat + s;
    assert(all.subrange(0, pat.len() as int) =~= pat);
    assert(all.skip(pat.len() as int) =~= s);
    let one = seq![c] + s;
    assert(one.take(1) =~= seq![c]);
    assert(one.skip(1) =~= s);
    if one.len() < pat.len() {
        assert(s.len() < pat.len());
    }
}

/// A pattern is counted zero times exactly if the text does not hold it, and each counted
/// occurrence is one that replacing replaces: with a text of no characters in its place, the
/// text becomes shorter by the pattern's length for each.
pub proof fn law_count_counts(s: Seq<char>, pat: Seq<char>)
    requires
        pat.len() > 0,
    ensures
        count_text(s, pat) == 0 <==> !contains_text(s, pat),
        replace_text(s, pat, Seq::empty()).len() + count_text(s, pat) * pat.len() == s.len(),
    decreases s.len(),
{
    if s.len() >= pat.len() {
        if starts_with_text(s, pat) {
            let rest = s.skip(pat.len() as int);
            law_count_counts(rest, pat);
            assert(occurs_at(s, pat, 0));
            let c = count_text(rest, pat);
            assert((1 + c) * pat.len() == pat.len() + c * pat.len()) by (nonlinear_arith);
        } else {
            let rest = s.skip(1);
            law_count_counts(rest, pat);
            if contains_text(rest, pat) {
                let at = choose|at: int| occurs_at(rest, pat, at);
                assert(s.subrange(at + 1, at + 1 + pat.len()) =~= rest.subrange(at, at + pat.len()));
                assert(occurs_at(s, pat, at + 1));
            }
            if contains_text(s, pat) {
                let at = choose|at: int| occurs_at(s, pat, at);
                assert(at != 0);
                assert(s.subrange(at, at + pat.len()) =~= rest.subrange(at - 1, at - 1 + pat.len()));
                assert(occurs_at(rest, pat, at - 1));
            }
        }
    } else {
        assert(0 * pat.len() == 0) by (nonlinear_arith);
        assert forall|at: int| !occurs_at(s, pat, at) by {}
    }
}

/// No piece holds the mark.
pub proof fn law_split_pieces(s: Seq<char>, mark: char)
    ensures
        forall|i: int, k: int|
            0 <= i < split_text(s, mark).len() && 0 <= k < split_text(s, mark)[i].len()
                ==> #[trigger] split_text(s, mark)[i][k] != mark,
    decreases s.len(),
{
    if s.len() > 0 {
        let before = split_text(s.drop_last(), mark);
        let all = split_text(s, mark);
        law_split_pieces(s.drop_last(), mark);
        lemma_split_nonempty(s.drop_last(), mark);
        assert forall|i: int, k: int| 0 <= i < all.len() && 0 <= k < all[i].len() implies #[trigger] all[i][k]
            != mark by {
            if s.last() == mark {
                if i < before.len() {
                    assert(all[i] == before[i]);
                    assert(before[i][k] != mark);
                }
            } else {
                if i < before.len() - 1 {
                    assert(all[i] == before[i]);
                    assert(before[i][k] != mark);
                } else {
                    assert(all[i] == before.last().push(s.last()));
                    if k < before.last().len() {
                        assert(before[i][k] != mark);
                    }
                }
            }
        }
    }
}

/// There is nothing to split once where the text does not hold the mark; else what stands
/// before, the mark and what stands after make up the text, and the mark is not in the first.
pub proof fn law_split_once_parts(s: Seq<char>, mark: char)
    ensures
        match split_once_text(s, mark) {
            None => forall|k: int| 0 <= k < s.len() ==> s[k] != mark,
            Some((a, b)) => s == a + seq![mark] + b && forall|k: int|
                0 <= k < a.len() ==> a[k] != mark,
        },
    decreases s.len(),
{
    if s.len() > 0 {
        if s[0] == mark {
            assert(s =~= Seq::<char>::empty() + seq![mark] + s.skip(1));
        } else {
            let t = s.skip(1);
            law_split_once_parts(t, mark);
            match split_once_text(t, mark) {
                None => {
                    assert forall|k: int| 0 <= k < s.len() implies s[k] != mark by {
                        if k > 0 {
                            assert(t[k - 1] == s[k]);
                        }
                    }
                },
                Some((a, b)) => {
                    assert(s =~= seq![s[0]] + t);
                    assert(s =~= (seq![s[0]] + a) + seq![mark] + b);
                },
            }
        }
    }
}

/// Joining puts the separator between neighbours, and nowhere else: adding a piece adds the
/// separator and the piece, and a single piece is left as it is.
pub proof fn law_join_adds_pieces(pieces: Seq<Seq<char>>, piece: Seq<char>, sep: Seq<char>)
    ensures
        join_text(seq![piece], sep) == piece,
        pieces.len() > 0 ==> join_text(pieces.push(piece), sep) == join_text(pieces, sep) + sep
            + piece,
        join_text(Seq::empty(), sep).len() == 0,
{
    assert(pieces.push(piece).drop_last() =~= pieces);
}

/// The characters that count as white space, among those of ASCII, are the tab, the line ends,
/// the form feeds and the space.
pub proof fn law_ascii_space(c: char)
    requires
        (c as int) < 128,
    ensures
        is_space(c) <==> c == ' ' || c == '\t' || c == '\n' || c == '\r' || c as int == 11 || c as int
            == 12,
{
}

/// A printed list has brackets around it and commas between the items.
pub proof fn law_printed_list(a: Seq<char>, b: Seq<char>)
    ensures
        list_text(Seq::empty()) == "[]"@,
        list_text(seq![a]) == "["@ + a + "]"@,
        list_text(seq![a, b]) == "["@ + a + ", "@ + b + "]"@,
{
    reveal_strlit("[]");
    reveal_strlit("[");
    reveal_strlit("]");
    assert("["@ + join_text(Seq::empty(), ", "@) + "]"@ =~= "[]"@);
    assert(seq![a, b].drop_last() =~= seq![a]);
    assert(join_text(seq![a], ", "@) == a);
    assert("["@ + (a + ", "@ + b) + "]"@ =~= "["@ + a + ", "@ + b + "]"@);
}

/// A truth value prints as its word.
pub proof fn law_truth_words(b: bool)
    ensures
        b ==> bool_text(b) == "true"@,
        !b ==> bool_text(b) == "false"@,
{
}

} // verus!
