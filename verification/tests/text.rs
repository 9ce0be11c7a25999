use nebula_installer::lists::{dedup_packages, find_index, holds, insert_sorted, sort_unique};
use nebula_installer::text::{
    char_is_whitespace, comes_first, contains_str, find_str, from_chars, glue, glue3, glue4,
    has_prefix, has_suffix, join_rows, join_strings, last_position_of, lines_of,
    lower_chars, parse_number, position_of, push_decimal, push_signed, same_str, split_chars,
    str_eq, strip_prefixes_chars, strip_suffixes_chars, to_chars, trim_chars, trim_end_chars,
    trim_start_chars, words_of,
};

fn c(s: &str) -> Vec<char> {
    s.chars().collect()
}

fn s(v: &Vec<char>) -> String {
    v.iter().collect()
}

fn many(v: &Vec<Vec<char>>) -> Vec<String> {
    v.iter().map(s).collect()
}

#[test]
fn characters_round_trip() {
    assert_eq!(to_chars("h\u{e9}llo"), c("h\u{e9}llo"));
    assert_eq!(from_chars(&c("h\u{e9}llo \u{1f600}")), "h\u{e9}llo \u{1f600}");
    assert_eq!(from_chars(&vec![]), "");
    assert_eq!(glue("a", "b"), "ab");
    assert_eq!(glue3("a", "", "c"), "ac");
    assert_eq!(glue4("a", "b", "c", "d"), "abcd");
}

#[test]
fn whitespace_is_what_std_says() {
    for code in 0u32..0x3100 {
        if let Some(ch) = char::from_u32(code) {
            assert_eq!(char_is_whitespace(ch), ch.is_whitespace(), "U+{:04X}", code);
        }
    }
    assert!(!char_is_whitespace('\u{feff}'));
    assert!(!char_is_whitespace('\u{200b}'));
}

#[test]
fn trimming_agrees_with_std() {
    for text in ["", " ", "a", " a", "a ", " a b ", "\t\n a \r\n", "\u{a0}x\u{3000}", "  \u{2003}"] {
        assert_eq!(s(&trim_chars(&c(text))), text.trim());
        assert_eq!(s(&trim_start_chars(&c(text))), text.trim_start());
        assert_eq!(s(&trim_end_chars(&c(text))), text.trim_end());
    }
}

#[test]
fn searching_agrees_with_std() {
    let texts = ["", "a", "abcabc", "aaa", "GRUB_CMDLINE_LINUX=\"quiet\"", "x=\"1\" y=\"2\""];
    let needles = ["", "a", "b", "bc", "abc", "aa", "=\"", "zzz", "abcabcd"];
    for text in texts {
        for needle in needles {
            let v = c(text);
            assert_eq!(contains_str(&v, needle), text.contains(needle), "{:?} {:?}", text, needle);
            assert_eq!(has_prefix(&v, needle), text.starts_with(needle));
            assert_eq!(has_suffix(&v, needle), text.ends_with(needle));
            assert_eq!(find_str(&v, needle), text.find(needle), "{:?} {:?}", text, needle);
        }
        assert_eq!(position_of(&c(text), 'a'), text.find('a').unwrap_or(text.len()));
        assert_eq!(last_position_of(&c(text), '"'), text.rfind('"'));
    }
    assert!(same_str(&c("abc"), "abc"));
    assert!(!same_str(&c("abc"), "abd"));
    assert!(!same_str(&c("abc"), "ab"));
    assert!(str_eq("", ""));
    assert!(!str_eq("a", ""));
}

#[test]
fn splitting_agrees_with_std() {
    for text in ["", "a", "a:b", ":a:", "::", "a:b:c:d", "no colon"] {
        let want: Vec<String> = text.split(':').map(|p| p.to_string()).collect();
        assert_eq!(many(&split_chars(&c(text), ':')), want, "{:?}", text);
    }
}

#[test]
fn lines_agree_with_std() {
    for text in [
        "", "\n", "a", "a\n", "a\nb", "a\n\nb\n", "a\r\nb\r\n", "a\rb\n", "a\r", "\r\n", "a\n\r",
        "a\r\r\nb",
    ] {
        let want: Vec<String> = text.lines().map(|p| p.to_string()).collect();
        assert_eq!(many(&lines_of(&c(text))), want, "{:?}", text);
    }
}

#[test]
fn words_agree_with_std() {
    for text in ["", " ", "a", " a  b\tc\n", "quiet splash", "\u{a0}x\u{3000}y"] {
        let want: Vec<String> = text.split_whitespace().map(|p| p.to_string()).collect();
        assert_eq!(many(&words_of(&c(text))), want, "{:?}", text);
    }
}

#[test]
fn joining_agrees_with_std() {
    let parts = vec!["a".to_string(), "".to_string(), "c".to_string()];
    assert_eq!(s(&join_strings(&parts, ", ")), parts.join(", "));
    assert_eq!(s(&join_strings(&vec![], ", ")), "");
    assert_eq!(s(&join_strings(&vec!["x".to_string()], ", ")), "x");
    assert_eq!(s(&join_rows(&vec![c("a"), c("b")], " ")), "a b");
}

#[test]
fn numbers_agree_with_std() {
    for text in [
        "", "0", "7", "007", "+5", "+", "-5", "12a", " 12", "255", "256", "4294967295",
        "4294967296", "99999999999999999999", "1.5", "++1",
    ] {
        assert_eq!(parse_number(&c(text), u32::MAX), text.parse::<u32>().ok(), "{:?}", text);
        assert_eq!(
            parse_number(&c(text), 255),
            text.parse::<u8>().ok().map(|n| n as u32),
            "{:?}",
            text
        );
    }
    for n in [0u64, 1, 9, 10, 11, 99, 100, 12345, u64::MAX] {
        let mut out = c("n=");
        push_decimal(&mut out, n);
        assert_eq!(s(&out), format!("n={}", n));
    }
    for n in [0i32, 1, -1, 42, -42, i32::MAX, i32::MIN] {
        let mut out = Vec::new();
        push_signed(&mut out, n);
        assert_eq!(s(&out), format!("{}", n));
    }
}

#[test]
fn lower_case_and_affixes() {
    assert_eq!(s(&lower_chars(&c("AbC-Z[@`{ \u{c9}"))), "AbC-Z[@`{ \u{c9}".to_ascii_lowercase());
    assert_eq!(s(&strip_prefixes_chars(&c("0x0x10de"), "0x")), "10de");
    assert_eq!(s(&strip_prefixes_chars(&c("10de"), "0x")), "10de");
    assert_eq!(s(&strip_prefixes_chars(&c("0x"), "0x")), "");
    assert_eq!(s(&strip_prefixes_chars(&c("abc"), "")), "abc");
    assert_eq!(s(&strip_suffixes_chars(&c("http://x///"), '/')), "http://x");
    assert_eq!(s(&strip_suffixes_chars(&c("///"), '/')), "");
    assert_eq!(s(&strip_suffixes_chars(&c("x"), '/')), "x");
}

#[test]
fn dictionary_order_agrees_with_std() {
    let words = ["", "a", "ab", "b", "B", "abc", "abd", "\u{e9}", "z", "Europe/Berlin", "Europe/Paris"];
    for x in words {
        for y in words {
            assert_eq!(comes_first(&c(x), &c(y)), x < y, "{:?} {:?}", x, y);
        }
    }
}

#[test]
fn lists_of_names() {
    let list: Vec<String> = ["b", "a", "b", "c", "a"].iter().map(|x| x.to_string()).collect();
    assert_eq!(find_index(&list, "b"), Some(0));
    assert_eq!(find_index(&list, "a"), Some(1));
    assert_eq!(find_index(&list, "c"), Some(3));
    assert_eq!(find_index(&list, "d"), None);
    assert!(holds(&list, "c"));
    assert!(!holds(&list, "C"));
    assert_eq!(dedup_packages(list.clone()), vec!["b", "a", "c"]);
    assert_eq!(dedup_packages(vec![]), Vec::<String>::new());
    let mut want = list.clone();
    want.sort();
    want.dedup();
    assert_eq!(sort_unique(list), want);
    let mut sorted = vec!["a".to_string(), "c".to_string()];
    insert_sorted(&mut sorted, "b".to_string());
    insert_sorted(&mut sorted, "c".to_string());
    insert_sorted(&mut sorted, "".to_string());
    insert_sorted(&mut sorted, "d".to_string());
    assert_eq!(sorted, vec!["", "a", "b", "c", "d"]);
}
