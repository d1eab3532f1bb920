use vm_deployer::text::{
    chars_of, contains, copy_texts, decimal_text, ends_with, replace, ruler_text, same_text, split,
    split_once, text_of, trim,
};

#[test]
fn numbers_are_written_in_base_ten() {
    assert_eq!(decimal_text(0), "0");
    assert_eq!(decimal_text(9), "9");
    assert_eq!(decimal_text(10), "10");
    assert_eq!(decimal_text(1905), "1905");
    assert_eq!(decimal_text(18446744073709551615), "18446744073709551615");
}

#[test]
fn different_numbers_are_written_differently() {
    let mut seen: Vec<String> = Vec::new();
    for n in 0..300u64 {
        let s = decimal_text(n);
        assert_eq!(s, format!("{}", n));
        assert!(!seen.contains(&s));
        seen.push(s);
    }
}

#[test]
fn white_space_around_a_text_is_dropped() {
    for s in ["", " ", "a", " a ", "\t a b\u{3000}\r\n", "\u{85}x\u{a0}", "\u{200b}x"] {
        assert_eq!(trim(s), s.trim());
    }
}

#[test]
fn texts_are_split_at_a_character() {
    for s in ["", ",", "a", "a,b", ",a,,b,", "ä,ö"] {
        let want: Vec<String> = s.split(',').map(|p| p.to_string()).collect();
        assert_eq!(split(s, ','), want);
    }
}

#[test]
fn texts_are_split_once_at_the_first_character() {
    assert_eq!(split_once("a=b=c", '='), Some(("a".to_string(), "b=c".to_string())));
    assert_eq!(split_once("=", '='), Some(("".to_string(), "".to_string())));
    assert_eq!(split_once("abc", '='), None);
}

#[test]
fn parts_are_found() {
    assert!(contains("HTTP 429 - slow down", "429"));
    assert!(contains("abc", ""));
    assert!(contains("", ""));
    assert!(!contains("42", "429"));
    assert!(!contains("4 29", "429"));
}

#[test]
fn ends_are_found() {
    assert!(ends_with("run.log", ".log"));
    assert!(ends_with(".log", ".log"));
    assert!(ends_with("x", ""));
    assert!(!ends_with("log", ".log"));
    assert!(!ends_with("run.log.gz", ".log"));
}

#[test]
fn parts_are_replaced_from_left_to_right() {
    assert_eq!(replace("a.log.log", ".log", "_1.log"), "a_1.log_1.log");
    assert_eq!(replace("aaa", "aa", "b"), "aaa".replace("aa", "b"));
    assert_eq!(replace("xyz", "w", "b"), "xyz");
}

#[test]
fn rulers_have_their_length() {
    assert_eq!(ruler_text(0), "");
    assert_eq!(ruler_text(80), "=".repeat(80));
}

#[test]
fn characters_come_and_go() {
    let v = chars_of("aé🛑");
    assert_eq!(v, vec!['a', 'é', '🛑']);
    assert_eq!(text_of(&v, 1, 3), "é🛑");
    assert_eq!(text_of(&v, 2, 2), "");
    assert!(same_text(&"bulk".to_string(), "bulk"));
    assert!(!same_text(&"bulk".to_string(), "Bulk"));
    let list = vec!["a".to_string(), "b".to_string()];
    assert_eq!(copy_texts(&list), list);
}
