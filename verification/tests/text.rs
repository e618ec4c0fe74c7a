use crowbar::order::{key_le, push_text_key, stable_order};
use crowbar::text::{
    append_chars, chars_of, concat_text, contains_chars, digit_of, ends_with_chars, find_chars,
    find_chars_from, is_space, is_text, join_chars, lines_of, lowercase_chars, matches_at,
    owned, parse_bounded, push_decimal, push_signed_decimal, read_i32, read_i64, read_u64,
    remove_all_chars, rfind_char_in, rsplitn_chars, same_chars, slice_of, split_chars,
    split_once_chars, split_str_chars, starts_with_chars, string_of, strip_prefix_chars,
    strip_suffix_chars, trim_chars, words_of,
};

fn cs(s: &str) -> Vec<char> {
    s.chars().collect()
}

fn strs(rows: Vec<Vec<char>>) -> Vec<String> {
    rows.into_iter().map(|r| r.into_iter().collect()).collect()
}

const SAMPLES: [&str; 14] = [
    "",
    " ",
    "a",
    "a b",
    "  lead",
    "trail \t",
    "\n",
    "one\ntwo\n",
    "one\r\ntwo\r\n\r\nthree",
    "a\rb\r",
    "x\u{a0}y\u{2003}z",
    "\u{3000}wide\u{3000}",
    "ends with cr\r",
    "  \n \t ",
];

#[test]
fn strings_and_characters_convert_both_ways() {
    for s in SAMPLES {
        assert_eq!(chars_of(s), cs(s));
        assert_eq!(string_of(&cs(s)), s);
        assert_eq!(owned(s), s);
    }
    assert_eq!(string_of(&chars_of("žluťoučký kůň 🐎")), "žluťoučký kůň 🐎");
    assert_eq!(concat_text("ab", "cd"), "abcd");
    assert_eq!(concat_text("", ""), "");
    let mut head = cs("he");
    append_chars(&mut head, &cs("llo"));
    assert_eq!(head, cs("hello"));
    assert_eq!(slice_of(&cs("hello"), 1, 4), cs("ell"));
    assert_eq!(slice_of(&cs("hello"), 2, 2), cs(""));
}

#[test]
fn whitespace_is_what_the_standard_library_says() {
    for code in 0..=0x10FFFFu32 {
        if let Some(c) = char::from_u32(code) {
            assert_eq!(is_space(c), c.is_whitespace(), "U+{:04X}", code);
        }
    }
}

#[test]
fn trimming_agrees_with_the_standard_library() {
    for s in SAMPLES {
        assert_eq!(string_of(&trim_chars(&cs(s))), s.trim(), "{:?}", s);
    }
}

#[test]
fn lines_agree_with_the_standard_library() {
    for s in SAMPLES {
        let expected: Vec<String> = s.lines().map(|l| l.to_string()).collect();
        assert_eq!(strs(lines_of(&cs(s))), expected, "{:?}", s);
    }
}

#[test]
fn words_agree_with_the_standard_library() {
    for s in SAMPLES {
        let expected: Vec<String> = s.split_whitespace().map(|l| l.to_string()).collect();
        assert_eq!(strs(words_of(&cs(s))), expected, "{:?}", s);
    }
}

#[test]
fn splitting_agrees_with_the_standard_library() {
    for s in ["", ":", "a", "a:b", "a::b", ":a:", "yes:net:70", "a:b:c:d:e"] {
        let expected: Vec<String> = s.split(':').map(|l| l.to_string()).collect();
        assert_eq!(strs(split_chars(&cs(s), ':')), expected, "{:?}", s);
        for limit in 0..6usize {
            let expected: Vec<String> = s.rsplitn(limit, ':').map(|l| l.to_string()).collect();
            assert_eq!(strs(rsplitn_chars(&cs(s), ':', limit)), expected, "{:?} {}", s, limit);
        }
    }
    for s in ["", "|||", "a|||b", "a||||b", "t|||a|||b|||c", "||", "||||||", "x|||"] {
        let expected: Vec<String> = s.split("|||").map(|l| l.to_string()).collect();
        assert_eq!(strs(split_str_chars(&cs(s), &cs("|||"))), expected, "{:?}", s);
    }
}

#[test]
fn searching_agrees_with_the_standard_library() {
    let hay = ["", "a", "abcabc", "aaa", ">>", "x>>y>>z", "ab>"];
    let pats = ["", "a", "bc", "aa", ">>", "abcabcd", "c"];
    for h in hay {
        for p in pats {
            assert_eq!(find_chars(&cs(h), &cs(p)), h.find(p), "{:?} {:?}", h, p);
            assert_eq!(contains_chars(&cs(h), &cs(p)), h.contains(p), "{:?} {:?}", h, p);
            assert_eq!(starts_with_chars(&cs(h), &cs(p)), h.starts_with(p), "{:?} {:?}", h, p);
            assert_eq!(ends_with_chars(&cs(h), &cs(p)), h.ends_with(p), "{:?} {:?}", h, p);
            let split = split_once_chars(&cs(h), &cs(p))
                .map(|(a, b)| (string_of(&a), string_of(&b)));
            let expected = h.split_once(p).map(|(a, b)| (a.to_string(), b.to_string()));
            assert_eq!(split, expected, "{:?} {:?}", h, p);
            let stripped = strip_prefix_chars(&cs(h), &cs(p)).map(|r| string_of(&r));
            assert_eq!(stripped, h.strip_prefix(p).map(|r| r.to_string()));
            let stripped = strip_suffix_chars(&cs(h), &cs(p)).map(|r| string_of(&r));
            assert_eq!(stripped, h.strip_suffix(p).map(|r| r.to_string()));
            if !p.is_empty() {
                assert_eq!(string_of(&remove_all_chars(&cs(h), &cs(p))), h.replace(p, ""));
            }
        }
    }
    assert_eq!(find_chars_from(&cs("abcabc"), &cs("bc"), 2), Some(4));
    assert_eq!(find_chars_from(&cs("abcabc"), &cs("bc"), 5), None);
    assert_eq!(find_chars_from(&cs("abc"), &cs(""), 3), Some(3));
    assert_eq!(find_chars_from(&cs("abc"), &cs(""), 4), None);
    assert!(matches_at(&cs("abc"), &cs("bc"), 1));
    assert!(!matches_at(&cs("abc"), &cs("bc"), 2));
    assert!(!matches_at(&cs("abc"), &cs("bc"), usize::MAX));
    assert_eq!(rfind_char_in(&cs("a(b)(c)"), '(', 7), Some(4));
    assert_eq!(rfind_char_in(&cs("a(b)(c)"), '(', 4), Some(1));
    assert_eq!(rfind_char_in(&cs("a(b)(c)"), '(', 1), None);
    assert!(same_chars(&cs("ab"), &cs("ab")));
    assert!(!same_chars(&cs("ab"), &cs("abc")));
    assert!(!same_chars(&cs("ab"), &cs("ac")));
    assert!(is_text(&cs("yes"), "yes"));
    assert!(!is_text(&cs("yes"), "Yes"));
}

#[test]
fn numbers_are_written_in_decimal() {
    for n in [0u64, 1, 9, 10, 11, 99, 100, 12345, u32::MAX as u64, u64::MAX] {
        let mut out = cs("n=");
        push_decimal(&mut out, n);
        assert_eq!(string_of(&out), format!("n={}", n));
    }
    for n in [0i64, 1, -1, 9, -9, 10, -10, 2147483647, -2147483648, i64::MAX, i64::MIN] {
        let mut out = Vec::new();
        push_signed_decimal(&mut out, n);
        assert_eq!(string_of(&out), format!("{}", n));
    }
    for d in 0..10u8 {
        assert_eq!(digit_of(d), (b'0' + d) as char);
    }
}

#[test]
fn numbers_are_read_as_the_standard_library_reads_them() {
    let samples = [
        "",
        "0",
        "7",
        "+7",
        "-7",
        "-0",
        "+0",
        "+",
        "-",
        "+-1",
        "--1",
        " 1",
        "1 ",
        "1a",
        "0x10",
        "007",
        "2147483647",
        "2147483648",
        "-2147483648",
        "-2147483649",
        "9223372036854775807",
        "9223372036854775808",
        "-9223372036854775808",
        "-9223372036854775809",
        "18446744073709551615",
        "18446744073709551616",
        "99999999999999999999999999999999999999999999",
        "-99999999999999999999999999999999999999999999",
        "١٢٣",
        "1.5",
        "1e3",
    ];
    for s in samples {
        assert_eq!(read_i32(&cs(s)), s.parse::<i32>().ok(), "{:?}", s);
        assert_eq!(read_i64(&cs(s)), s.parse::<i64>().ok(), "{:?}", s);
        assert_eq!(read_u64(&cs(s)), s.parse::<u64>().ok(), "{:?}", s);
    }
    assert_eq!(parse_bounded(&cs("150"), true, 0, 150), Some(150));
    assert_eq!(parse_bounded(&cs("151"), true, 0, 150), None);
    assert_eq!(parse_bounded(&cs("-1"), false, -5, 5), None);
    assert_eq!(parse_bounded(&cs("-1"), true, -5, 5), Some(-1));
}

#[test]
fn lower_case_is_that_of_the_standard_library() {
    for s in ["", "abc", "ABC", "TrUe", "ÄÖÜ", "ΣΑΣ", "İstanbul", "123 %f"] {
        assert_eq!(string_of(&lowercase_chars(&cs(s))), s.to_lowercase(), "{:?}", s);
    }
}

#[test]
fn joining_puts_single_spaces() {
    let list = vec![cs("env"), cs("A=1"), cs("prog"), cs("--flag")];
    assert_eq!(string_of(&join_chars(&list, 0)), "env A=1 prog --flag");
    assert_eq!(string_of(&join_chars(&list, 2)), "prog --flag");
    assert_eq!(string_of(&join_chars(&list, 3)), "--flag");
    assert_eq!(string_of(&join_chars(&list, 4)), "");
    assert_eq!(string_of(&join_chars(&Vec::new(), 0)), "");
}

#[test]
fn keys_are_ordered_as_words() {
    let le = |a: &[i64], b: &[i64]| key_le(&a.to_vec(), &b.to_vec());
    assert!(le(&[], &[]));
    assert!(le(&[], &[0]));
    assert!(!le(&[0], &[]));
    assert!(le(&[1, 2], &[1, 2]));
    assert!(le(&[1, 2], &[1, 3]));
    assert!(!le(&[1, 3], &[1, 2]));
    assert!(le(&[1], &[1, 0]));
    assert!(!le(&[2], &[1, 9]));
    assert!(le(&[-5, 9], &[0]));
}

#[test]
fn sorting_is_stable_and_agrees_with_the_standard_library() {
    let words = ["pear", "Apple", "fig", "apple", "", "fig", "zebra", "Fig", "ähre", "b"];
    let keys: Vec<Vec<i64>> = words
        .iter()
        .map(|w| {
            let mut key = Vec::new();
            push_text_key(&mut key, &cs(w));
            key
        })
        .collect();
    let order = stable_order(&keys);
    let mut expected: Vec<usize> = (0..words.len()).collect();
    expected.sort_by(|a, b| words[*a].cmp(words[*b]));
    assert_eq!(order, expected);
    let numbers: Vec<Vec<i64>> = [3i64, 1, 2, 1, 3, 0, 1].iter().map(|n| vec![*n]).collect();
    assert_eq!(stable_order(&numbers), vec![5, 1, 3, 6, 2, 0, 4]);
    assert_eq!(stable_order(&Vec::new()), Vec::<usize>::new());
    assert_eq!(stable_order(&vec![vec![]]), vec![0]);
}
