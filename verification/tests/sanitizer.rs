use nebula_installer::sanitize::{sanitize_log_line, strip_bytes};

#[test]
fn plain_text_is_trimmed() {
    assert_eq!(sanitize_log_line("  hello world \t"), "hello world");
    assert_eq!(sanitize_log_line("hello world"), "hello world");
    assert_eq!(sanitize_log_line(""), "");
    assert_eq!(sanitize_log_line("   "), "");
}

#[test]
fn every_printable_ascii_character_is_kept() {
    let all: String = (0x20u8..0x7f).map(|b| b as char).collect();
    assert_eq!(sanitize_log_line(&all), all.trim());
    let inner: String = (0x21u8..0x7f).map(|b| b as char).collect();
    assert_eq!(sanitize_log_line(&inner), inner);
}

#[test]
fn colour_sequences_are_removed() {
    assert_eq!(sanitize_log_line("\x1b[1;32mok\x1b[0m done"), "ok done");
    assert_eq!(sanitize_log_line("\x1b[2K\x1b[1Gdownloading"), "downloading");
}

#[test]
fn truncated_sequence_is_dropped() {
    assert_eq!(sanitize_log_line("text\x1b["), "text");
    assert_eq!(sanitize_log_line("text\x1b"), "text");
    assert_eq!(sanitize_log_line("text\x1b[12;3"), "text");
    assert!(sanitize_log_line("text\x1b[").len() < "text\x1b[".len());
}

#[test]
fn title_sequences_are_removed() {
    assert_eq!(sanitize_log_line("a\x1b]0;title\x07b"), "ab");
    assert_eq!(sanitize_log_line("a\x1b]0;title\x1b\\b"), "ab");
    assert_eq!(sanitize_log_line("a\x1b]0;title"), "a");
    assert_eq!(sanitize_log_line("a\x1b]0;ti\x1btle\x07b"), "ab");
    assert_eq!(sanitize_log_line("a\x1b]0;title\x1b"), "a");
}

#[test]
fn other_escapes_lose_one_byte() {
    assert_eq!(sanitize_log_line("a\x1b(Bb"), "aBb");
    assert_eq!(sanitize_log_line("a\x1bMb"), "ab");
}

#[test]
fn control_bytes_are_removed() {
    assert_eq!(sanitize_log_line("a\x00b\x08c\x7fd\te"), "abcde");
    assert_eq!(sanitize_log_line("\x07bell"), "bell");
}

#[test]
fn text_beyond_ascii_is_kept() {
    assert_eq!(sanitize_log_line(" h\u{e9}llo \u{4e16}\u{754c} "), "h\u{e9}llo \u{4e16}\u{754c}");
    assert_eq!(sanitize_log_line("\x1b[31m\u{e9}\x1b[0m"), "\u{e9}");
}

#[test]
fn an_escape_that_cuts_a_character_leaves_a_replacement() {
    // ESC swallows the first byte of the two-byte character.
    assert_eq!(sanitize_log_line("a\x1b\u{e9}b"), "a\u{fffd}b");
}

#[test]
fn strip_bytes_works_on_bytes() {
    assert_eq!(strip_bytes(b"ab\x1b[0mcd"), b"abcd".to_vec());
    assert_eq!(strip_bytes(b"\x1b[38;5;196mred"), b"red".to_vec());
    assert_eq!(strip_bytes(b" keep spaces "), b" keep spaces ".to_vec());
    assert_eq!(strip_bytes(b""), Vec::<u8>::new());
    assert_eq!(strip_bytes(&[0x1b]), Vec::<u8>::new());
    assert_eq!(strip_bytes(&[0x61, 0xff, 0x62]), vec![0x61, 0xff, 0x62]);
}

#[test]
fn a_final_byte_ends_a_control_sequence() {
    assert_eq!(strip_bytes(b"\x1b[@x"), b"x".to_vec());
    assert_eq!(strip_bytes(b"\x1b[~x"), b"x".to_vec());
    assert_eq!(strip_bytes(b"\x1b[?25lx"), b"x".to_vec());
    assert_eq!(strip_bytes(b"\x1b[12\x7fx"), Vec::<u8>::new());
}
