use filament::frame::{count_at, flag_at, text_at, text_list};
use filament::hexadecimal::decode_exact;
use filament::keyed::{lists, Keyed};
use filament::remember::{at_end, ceremony_over, Outcome};
use filament::shared_defs::{after, elapsed, truncate};
use filament::text::{
    before, cat, cat3, cat5, contains, ends_with, pad, parse_number, same, space, strip_prefix,
    to_ascii_lower, to_decimal, to_hexadecimal, trim,
};
use serde_json::Value;

fn read(s: &str) -> Value {
    serde_json::from_str(s).unwrap()
}

#[test]
fn texts_are_joined_and_cut() {
    assert_eq!(cat("a", "b"), "ab");
    assert_eq!(cat3("a", "b", "c"), "abc");
    assert_eq!(cat5("a", "b", "c", "d", "e"), "abcde");
    assert!(same("é", "é") && !same("a", "A"));
    assert_eq!(strip_prefix("route:x", "route:"), Some("x"));
    assert_eq!(strip_prefix("rout", "route:"), None);
    assert!(ends_with("a.tar", ".tar") && !ends_with("tar", ".tar"));
    assert!(contains("abc", "bc") && contains("abc", "") && !contains("abc", "cb"));
    assert_eq!(trim(" \u{3000}a b\t\n"), "a b");
    assert!(space('\u{2029}') && !space('\u{200b}'));
    assert_eq!(pad("é", 3), "é  ");
    assert_eq!(pad("abcd", 3), "abcd");
}

#[test]
fn numbers_are_written_and_read() {
    assert_eq!(to_decimal(0), "0");
    assert_eq!(to_decimal(u64::MAX), "18446744073709551615");
    assert_eq!(to_hexadecimal(0), "0");
    assert_eq!(to_hexadecimal(0xdead_beef), "deadbeef");
    for n in [0u64, 7, 10, 999, u64::MAX] {
        assert_eq!(parse_number(&to_decimal(n)), Some(n));
    }
    for bad in ["", "+", "-1", " 1", "1 ", "0x1", "18446744073709551616", "٣"] {
        assert_eq!(parse_number(bad), None);
    }
    assert_eq!(parse_number("007"), Some(7));
}

#[test]
fn texts_are_ordered() {
    assert_eq!(to_ascii_lower("ÀBc"), "Àbc");
    assert!(before("a", "b") && before("a", "aa") && before("", "a") && !before("b", "b"));
    assert!(before("Z", "a") && before("z", "é"));
}

#[test]
fn frames_are_looked_into() {
    let v = read(r#"{"t":"x","b":true,"n":7,"neg":-1,"f":1.5,"a":["p",1,"q"]}"#);
    assert_eq!(text_at(&v, "t"), Some("x"));
    assert_eq!(text_at(&v, "n"), None);
    assert_eq!(flag_at(&v, "b"), Some(true));
    assert_eq!(flag_at(&v, "missing"), None);
    assert_eq!(count_at(&v, "n"), Some(7));
    assert_eq!(count_at(&v, "neg"), None);
    assert_eq!(count_at(&v, "f"), None);
    assert_eq!(text_list(&v["a"]), vec!["p".to_string(), "q".to_string()]);
    assert!(text_list(&v).is_empty());
    assert_eq!(text_at(&read("[1]"), "t"), None);
}

#[test]
fn hexadecimal_is_decoded() {
    assert_eq!(decode_exact("00fF", 2), Some(vec![0, 255]));
    assert_eq!(decode_exact("00ff", 1), None);
    assert_eq!(decode_exact("0", 0), None);
    assert_eq!(decode_exact("zz", 1), None);
    assert_eq!(decode_exact("", 0), Some(vec![]));
}

#[test]
fn tables_hold_one_entry_for_each_key() {
    let mut t: Keyed<u64> = Keyed::new();
    t.insert("a", 5);
    t.insert("b", 9);
    t.insert("a", 6);
    assert_eq!((t.len(), t.get("a"), t.get("c")), (2, Some(&6), None));
    assert_eq!(t.expire(6), Vec::<String>::new());
    assert_eq!(t.expire(7), vec!["a".to_string()]);
    assert_eq!(t.key_at(0), "b");
    assert_eq!(t.remove("b"), Some(9));
    assert_eq!(t.remove("b"), None);
    assert!(!t.contains("b"));
    assert!(lists(&vec!["x".to_string()], "x") && !lists(&vec![], "x"));
}

#[test]
fn clocks_do_not_overflow() {
    assert_eq!(elapsed(5, 3), 2);
    assert_eq!(elapsed(3, 5), 0);
    assert_eq!(after(5, 3), 8);
    assert_eq!(after(u64::MAX, 3), u64::MAX);
    assert_eq!(truncate(0x1_0000_0007), 7);
}

#[test]
fn a_session_ends_with_what_was_seen() {
    assert_eq!(at_end(Some(Outcome::Declined), true), Outcome::Declined);
    assert_eq!(at_end(None, true), Outcome::Unanswered);
    assert_eq!(at_end(None, false), Outcome::NoPeer);
    assert!(!ceremony_over(&None, 9, 10) && ceremony_over(&None, 10, 10));
    assert!(ceremony_over(&Some(Outcome::Declined), 0, 10));
}
