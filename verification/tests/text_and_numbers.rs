use litebox_test_harness::errno;
use litebox_test_harness::number::{
    bytes_debug, dec, dec_i64, hex, ints_debug, numbers_debug, opt_i32, parse_i32, parse_unsigned,
    NumberFault,
};
use litebox_test_harness::text::{
    bool_word, cat, cat3, chars_of, contains, count, is_space_char, join, list_of, quoted_list,
    replace, same, split, split_once, starts_with, trim, trim_end,
};

const SAMPLES: [&str; 9] = [
    "",
    " ",
    "abc",
    "  spaced out \n",
    "a,b,,c,",
    ",",
    "\u{a0}thin\u{2009}\u{3000}",
    "é=ü=ß",
    "aaaa",
];

#[test]
fn same_compares_texts() {
    for a in SAMPLES {
        for b in SAMPLES {
            assert_eq!(same(a, b), a == b);
        }
    }
}

#[test]
fn contains_agrees_with_the_standard_library() {
    for hay in SAMPLES {
        for needle in ["", "a", "aa", "b,,c", "=", "ß", "zzz"] {
            assert_eq!(contains(hay, needle), hay.contains(needle), "{hay:?} {needle:?}");
            assert_eq!(starts_with(hay, needle), hay.starts_with(needle), "{hay:?} {needle:?}");
        }
    }
}

#[test]
fn trimming_agrees_with_the_standard_library() {
    for s in SAMPLES {
        assert_eq!(trim(s), s.trim());
        assert_eq!(trim_end(s), s.trim_end());
        assert_eq!(trim(trim(s)), trim(s));
    }
}

#[test]
fn every_white_space_character_is_known() {
    let mut n: u32 = 0;
    while n <= 0x10ffff {
        if let Some(c) = char::from_u32(n) {
            assert_eq!(is_space_char(c), c.is_whitespace(), "{n:#x}");
        }
        n += 1;
    }
}

#[test]
fn replacing_agrees_with_the_standard_library() {
    for s in SAMPLES {
        for pat in ["a", "aa", ",", "b,", "ü"] {
            assert_eq!(replace(s, pat, "<>"), s.replace(pat, "<>"));
            assert_eq!(replace(s, pat, ""), s.replace(pat, ""));
            assert_eq!(count(s, pat), s.matches(pat).count());
        }
    }
    assert_eq!(replace("{self_exe} x {self_exe}", "{self_exe}", "/bin/h"), "/bin/h x /bin/h");
}

#[test]
fn splitting_and_joining_undo_each_other() {
    for s in SAMPLES {
        let parts = split(s, ',');
        let expected: Vec<String> = s.split(',').map(|p| p.to_string()).collect();
        assert_eq!(parts, expected);
        assert_eq!(join(&parts, ","), s);
    }
    assert_eq!(join(&vec!["a".to_string(), "b".to_string()], " | "), "a | b");
    assert_eq!(join(&Vec::new(), ","), "");
}

#[test]
fn splitting_once_cuts_at_the_first_mark() {
    for s in SAMPLES {
        assert_eq!(split_once(s, '='), s.split_once('='));
        assert_eq!(split_once(s, ','), s.split_once(','));
    }
    assert_eq!(split_once("8080=80=1", '='), Some(("8080", "80=1")));
}

#[test]
fn small_text_helpers() {
    assert_eq!(cat("ab", "c"), "abc");
    assert_eq!(cat3("ab", "", "c"), "abc");
    assert_eq!(chars_of("aß"), vec!['a', 'ß']);
    assert_eq!(bool_word(true), "true");
    assert_eq!(bool_word(false), "false");
    let words = vec!["a\"b".to_string(), "tab\t".to_string(), "é\u{7}".to_string()];
    assert_eq!(quoted_list(&words), format!("{words:?}"));
    assert_eq!(quoted_list(&Vec::new()), "[]");
    assert_eq!(list_of(&words), format!("[{}]", words.join(", ")));
}

#[test]
fn numbers_print_as_the_standard_library_prints_them() {
    for n in [0u64, 1, 9, 10, 99, 65535, 65536, u64::MAX] {
        assert_eq!(dec(n), n.to_string());
        assert_eq!(hex(n), format!("{n:#x}"));
    }
    for i in [0i64, -1, 7, -10, i64::MIN, i64::MAX] {
        assert_eq!(dec_i64(i), i.to_string());
    }
    for o in [None, Some(0), Some(-7), Some(i32::MAX)] {
        assert_eq!(opt_i32(o), format!("{o:?}"));
    }
    let list: Vec<u64> = vec![3, 0, u64::MAX];
    assert_eq!(numbers_debug(&list), format!("{list:?}"));
    let ints: Vec<i32> = vec![1, -1, i32::MIN];
    assert_eq!(ints_debug(&ints), format!("{ints:?}"));
    let bytes: [u8; 4] = [0, 1, 127, 255];
    assert_eq!(bytes_debug(&bytes), format!("{bytes:?}"));
}

#[test]
fn parsing_undoes_printing() {
    for n in [0u64, 1, 9, 10, 99, 65535, 65536, u64::MAX] {
        assert_eq!(parse_unsigned(&dec(n), u64::MAX), Ok(n));
    }
    for i in [0i32, -1, 7, -10, i32::MIN, i32::MAX] {
        assert_eq!(parse_i32(&dec_i64(i as i64)), Ok(i));
    }
}

const NUMERALS: [&str; 15] = [
    "", "+", "-", "0", "+5", "-5", "-0", "007", "65535", "65536", "2147483647", "2147483648",
    "-2147483648", "-2147483649", "1x",
];

#[test]
fn parsing_agrees_with_the_standard_library() {
    for s in NUMERALS {
        match (parse_unsigned(s, 65535), s.parse::<u16>()) {
            (Ok(a), Ok(b)) => assert_eq!(a, b as u64),
            (Err(a), Err(b)) => assert_eq!(a.message(), b.to_string(), "{s:?}"),
            (a, b) => panic!("{s:?}: {a:?} {b:?}"),
        }
        match (parse_i32(s), s.parse::<i32>()) {
            (Ok(a), Ok(b)) => assert_eq!(a, b),
            (Err(a), Err(b)) => assert_eq!(a.message(), b.to_string(), "{s:?}"),
            (a, b) => panic!("{s:?}: {a:?} {b:?}"),
        }
        match (parse_unsigned(s, u64::MAX), s.parse::<u64>()) {
            (Ok(a), Ok(b)) => assert_eq!(a, b),
            (Err(a), Err(b)) => assert_eq!(a.message(), b.to_string(), "{s:?}"),
            (a, b) => panic!("{s:?}: {a:?} {b:?}"),
        }
    }
}

#[test]
fn each_number_fault_has_its_input() {
    assert_eq!(parse_unsigned("", 9), Err(NumberFault::Empty));
    assert_eq!(parse_unsigned("x", 9), Err(NumberFault::InvalidDigit));
    assert_eq!(parse_unsigned("10", 9), Err(NumberFault::TooLarge));
    assert_eq!(parse_unsigned("18446744073709551616", u64::MAX), Err(NumberFault::TooLarge));
    assert_eq!(parse_i32("-2147483649"), Err(NumberFault::TooSmall));
}

#[test]
fn errno_numbers_are_the_systems() {
    assert_eq!(errno::EPERM, libc::EPERM);
    assert_eq!(errno::ENOENT, libc::ENOENT);
    assert_eq!(errno::EINTR, libc::EINTR);
    assert_eq!(errno::EBADF, libc::EBADF);
    assert_eq!(errno::EAGAIN, libc::EAGAIN);
    assert_eq!(errno::EAGAIN, libc::EWOULDBLOCK);
    assert_eq!(errno::EACCES, libc::EACCES);
    assert_eq!(errno::EINVAL, libc::EINVAL);
    assert_eq!(errno::EROFS, libc::EROFS);
    assert_eq!(errno::ENOSYS, libc::ENOSYS);
    assert_eq!(errno::EPROTONOSUPPORT, libc::EPROTONOSUPPORT);
    assert_eq!(errno::EOPNOTSUPP, libc::EOPNOTSUPP);
    assert_eq!(errno::EINPROGRESS, libc::EINPROGRESS);
}

#[test]
fn errno_names() {
    assert_eq!(errno::errno_name(libc::EACCES), "EACCES");
    assert_eq!(errno::errno_name(libc::EBADF), "EBADF");
    assert_eq!(errno::errno_name(libc::EINVAL), "EINVAL");
    assert_eq!(errno::errno_name(libc::ENOENT), "ENOENT");
    assert_eq!(errno::errno_name(libc::ENOSYS), "ENOSYS");
    assert_eq!(errno::errno_name(libc::EOPNOTSUPP), "EOPNOTSUPP");
    assert_eq!(errno::errno_name(libc::EPERM), "EPERM");
    assert_eq!(errno::errno_name(libc::EROFS), "EROFS");
    assert_eq!(errno::errno_name(libc::EINTR), "errno=4");
    assert_eq!(errno::last_errno_name(None), "errno=0");
    assert_eq!(errno::last_errno_name(Some(libc::EPERM)), "EPERM");
}
