use carnival::text::{
    contains, i32_text, matches_at, parse_i32, parse_u32, replace_all, split_char, starts_with,
    str_eq,
};

#[test]
fn replace_all_replaces_every_match_left_to_right() {
    assert_eq!(replace_all("aaa", "aa", "b"), "ba");
    assert_eq!(replace_all("FPS: 60", " ", ""), "FPS:60");
    assert_eq!(replace_all("abc", "x", "y"), "abc");
    assert_eq!(replace_all("ab", "", "-"), "-a-b-");
    assert_eq!(replace_all("", "", "-"), "-");
}

#[test]
fn replace_all_agrees_with_std() {
    for (s, p, t) in [("a^.^b^.^", "^.^", "X"), ("mississippi", "ss", "S"), ("héllo", "l", "L"), ("xyz", "", "_")] {
        assert_eq!(replace_all(s, p, t), s.replace(p, t));
    }
}

#[test]
fn split_char_keeps_empty_pieces() {
    assert_eq!(split_char("a::b", ':'), vec!["a", "", "b"]);
    assert_eq!(split_char("", ':'), vec![""]);
    assert_eq!(split_char(":x:", ':'), vec!["", "x", ""]);
}

#[test]
fn split_char_agrees_with_std() {
    for s in ["whattup_bitch:tok:x:im:42", "FPS:61", "no separators", "::"] {
        let ours = split_char(s, ':');
        let theirs: Vec<String> = s.split(':').map(|p| p.to_string()).collect();
        assert_eq!(ours, theirs);
    }
}

#[test]
fn parse_u32_follows_std() {
    for s in ["0", "61", "+7", "4294967295", "4294967296", "", "+", "-0", "1a", " 1", "０"] {
        assert_eq!(parse_u32(s), s.parse::<u32>().ok(), "input {s:?}");
    }
}

#[test]
fn parse_i32_follows_std() {
    for s in ["-2147483648", "2147483647", "2147483648", "-2147483649", "-", "+", "+12", "-0", "abc", "12 "] {
        assert_eq!(parse_i32(s), s.parse::<i32>().ok(), "input {s:?}");
    }
}

#[test]
fn i32_text_is_decimal() {
    for i in [0, 7, 10, -1, 2500, i32::MIN, i32::MAX] {
        assert_eq!(i32_text(i), i.to_string());
    }
}

#[test]
fn comparisons_and_search() {
    assert!(str_eq("abc", "abc"));
    assert!(!str_eq("abc", "abd"));
    assert!(!str_eq("ab", "abc"));
    assert!(starts_with("whattup_bitch:x", "whattup_bitch:"));
    assert!(!starts_with("what", "whattup"));
    assert!(contains("Tank Support", "Support"));
    assert!(contains("x", ""));
    assert!(!contains("DP", "DPS"));
    assert!(matches_at("hello", "ll", 2));
    assert!(!matches_at("hello", "ll", 1));
}

#[test]
fn printed_numbers_parse_back() {
    for n in [0, 7, 10, -1, -10, 2147483647, -2147483648, 123456] {
        assert_eq!(parse_i32(&i32_text(n)), Some(n));
    }
    let mut s = String::new();
    carnival::text::push_decimal(&mut s, 4294967295);
    assert_eq!(parse_u32(&s), Some(4294967295));
}
