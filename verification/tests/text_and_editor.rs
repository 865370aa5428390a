use llm_manager::editor::{clamped_right, loose_backspace, TextEditor};
use llm_manager::text::{
    after_last_exec, append_chars, chars_of, parse_u16, parse_u32, parse_usize, pop_char, push_char, split_str,
    str_contains, str_eq, str_starts_with, string_of, to_decimal, to_lowercase, trim_str, utf8_len_below,
};

fn edit(buffer: &str, cursor: usize, f: impl FnOnce(&mut TextEditor)) -> (String, usize) {
    let mut b = buffer.to_string();
    let mut c = cursor;
    {
        let mut e = TextEditor { buffer: &mut b, cursor: &mut c };
        f(&mut e);
    }
    (b, c)
}

#[test]
fn insert_char_in_the_middle() {
    assert_eq!(edit("helo", 3, |e| e.insert_char('l')), ("hello".to_string(), 4));
}

#[test]
fn insert_char_past_the_end_appends() {
    assert_eq!(edit("ab", 7, |e| e.insert_char('c')), ("abc".to_string(), 8));
}

#[test]
fn insert_char_counts_characters_not_bytes() {
    assert_eq!(edit("héllo", 2, |e| e.insert_char('X')), ("héXllo".to_string(), 3));
}

#[test]
fn insert_newline_breaks_the_line() {
    assert_eq!(edit("ab", 1, |e| e.insert_newline()), ("a\nb".to_string(), 2));
}

#[test]
fn backspace_removes_the_character_before_the_cursor() {
    assert_eq!(edit("abc", 2, |e| e.backspace()), ("ac".to_string(), 1));
    assert_eq!(edit("abc", 0, |e| e.backspace()), ("abc".to_string(), 0));
}

#[test]
fn delete_removes_the_character_under_the_cursor() {
    assert_eq!(edit("abc", 1, |e| e.delete()), ("ac".to_string(), 1));
    assert_eq!(edit("abc", 3, |e| e.delete()), ("abc".to_string(), 3));
}

#[test]
fn cursor_moves() {
    assert_eq!(edit("abc", 1, |e| e.move_left()), ("abc".to_string(), 0));
    assert_eq!(edit("abc", 0, |e| e.move_left()), ("abc".to_string(), 0));
    assert_eq!(edit("abc", 2, |e| e.move_right()), ("abc".to_string(), 3));
    assert_eq!(edit("abc", 3, |e| e.move_right()), ("abc".to_string(), 3));
    assert_eq!(edit("abc", 2, |e| e.home()), ("abc".to_string(), 0));
    assert_eq!(edit("añc", 0, |e| e.end()), ("añc".to_string(), 3));
}

#[test]
fn backspace_undoes_insert() {
    let (b, c) = edit("hello", 2, |e| e.insert_char('Z'));
    assert_eq!(edit(&b, c, |e| e.backspace()), ("hello".to_string(), 2));
}

#[test]
fn delete_undoes_insert_after_moving_left() {
    let (b, c) = edit("hello", 5, |e| e.insert_char('!'));
    let (b, c) = edit(&b, c, |e| e.move_left());
    assert_eq!(edit(&b, c, |e| e.delete()), ("hello".to_string(), 5));
}

#[test]
fn loose_backspace_with_cursor_past_the_end_removes_the_first_character() {
    let mut b = "abc".to_string();
    let mut c = 6;
    loose_backspace(&mut b, &mut c);
    assert_eq!((b.as_str(), c), ("bc", 5));
    let mut b = "abc".to_string();
    let mut c = 2;
    loose_backspace(&mut b, &mut c);
    assert_eq!((b.as_str(), c), ("ac", 1));
}

#[test]
fn clamped_right_stops_at_the_end() {
    let b = "ab".to_string();
    let mut c = 1;
    clamped_right(&b, &mut c);
    assert_eq!(c, 2);
    clamped_right(&b, &mut c);
    assert_eq!(c, 2);
    let mut far = 9;
    clamped_right(&b, &mut far);
    assert_eq!(far, 2);
}

#[test]
fn string_helpers() {
    let mut s = String::from("ab");
    push_char(&mut s, 'ç');
    assert_eq!(s, "abç");
    pop_char(&mut s);
    assert_eq!(s, "ab");
    assert_eq!(chars_of("añb"), vec!['a', 'ñ', 'b']);
    assert_eq!(string_of(&['x', 'y']), "xy");
    let mut v = vec!['a'];
    append_chars(&mut v, "bc");
    assert_eq!(v, vec!['a', 'b', 'c']);
}

#[test]
fn trim_removes_unicode_whitespace() {
    assert_eq!(trim_str("  hi there \t\n"), "hi there");
    assert_eq!(trim_str("\u{3000}x\u{a0}"), "x");
    assert_eq!(trim_str("   "), "");
}

#[test]
fn split_keeps_empty_fields() {
    assert_eq!(split_str("a,,b,", ','), vec!["a", "", "b", ""]);
    assert_eq!(split_str("", ','), vec![""]);
}

#[test]
fn to_lowercase_uses_unicode_case_mapping() {
    assert_eq!(to_lowercase("Qwen3-8B-ÄÖ"), "qwen3-8b-äö");
}

#[test]
fn after_last_separator() {
    assert_eq!(after_last_exec("owner/repo", '/'), "repo");
    assert_eq!(after_last_exec("repo", '/'), "repo");
    assert_eq!(after_last_exec("a/b/", '/'), "");
}

#[test]
fn searching_text() {
    assert!(str_contains("out of memory", "of mem"));
    assert!(!str_contains("abc", "abd"));
    assert!(str_contains("abc", ""));
    assert!(str_starts_with("llama_model", "llama"));
    assert!(!str_starts_with("ll", "llama"));
    assert!(str_eq("é", "é"));
    assert!(!str_eq("a", "b"));
}

#[test]
fn utf8_length_bound() {
    assert!(utf8_len_below("abc", 4));
    assert!(!utf8_len_below("abc", 3));
    assert!(!utf8_len_below("é", 2));
    assert!(utf8_len_below("é", 3));
}

#[test]
fn parsing_numbers_like_std() {
    assert_eq!(parse_u32("42"), Some(42));
    assert_eq!(parse_u32("+7"), Some(7));
    assert_eq!(parse_u32(""), None);
    assert_eq!(parse_u32("+"), None);
    assert_eq!(parse_u32("-1"), None);
    assert_eq!(parse_u32(" 1"), None);
    assert_eq!(parse_u32("4294967295"), Some(u32::MAX));
    assert_eq!(parse_u32("4294967296"), None);
    assert_eq!(parse_u16("65535"), Some(65535));
    assert_eq!(parse_u16("65536"), None);
    assert_eq!(parse_usize("007"), Some(7));
    for s in ["0", "12", "+3", "99999999999", "x", "1e3"] {
        assert_eq!(parse_u32(s), s.parse::<u32>().ok());
    }
}

#[test]
fn decimal_text_like_to_string() {
    for n in [0u64, 7, 10, 1234567890, u64::MAX] {
        assert_eq!(to_decimal(n), n.to_string());
    }
}
