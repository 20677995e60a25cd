use iscogram::text::{
    chars_of, format_i32, format_u64, parse_i32, parse_u16, rsplit_once, strip_prefix,
    text_contains, text_eq,
};

#[test]
fn text_is_compared_by_characters() {
    assert!(text_eq("画像", "画像"));
    assert!(!text_eq("画像", "画面"));
    assert!(!text_eq("a", "ab"));
    assert!(text_eq("", ""));
}

#[test]
fn characters_are_listed_in_order() {
    assert_eq!(chars_of("aあ"), vec!['a', 'あ']);
}

#[test]
fn text_is_searched() {
    assert!(text_contains("image/jpeg", "jpeg"));
    assert!(text_contains("jpeg", "jpeg"));
    assert!(text_contains("xjpegx", "jpeg"));
    assert!(text_contains("abc", ""));
    assert!(!text_contains("image/jpg", "jpeg"));
    assert!(!text_contains("jpe", "jpeg"));
    assert!(!text_contains("", "a"));
}

#[test]
fn prefix_is_stripped() {
    assert_eq!(strip_prefix("/@bob", "/@"), Some("bob".to_string()));
    assert_eq!(strip_prefix("/@", "/@"), Some(String::new()));
    assert_eq!(strip_prefix("/bob", "/@"), None);
    assert_eq!(strip_prefix("/", "/@"), None);
}

#[test]
fn text_is_cut_at_the_last_character() {
    let cut = rsplit_once("a.b.c", '.');
    assert_eq!(cut, Some(("a.b".to_string(), "c".to_string())));
    assert_eq!(rsplit_once("abc", '.'), None);
    assert_eq!(rsplit_once(".", '.'), Some((String::new(), String::new())));
    assert_eq!(rsplit_once("", '.'), None);
}

#[test]
fn i32_is_parsed_as_std_parses_it() {
    let texts = [
        "0", "7", "-7", "+7", "007", "-0", "2147483647", "2147483648", "-2147483648",
        "-2147483649", "99999999999999999999999", "", "+", "-", "+-1", "--1", " 1", "1 ", "1a",
        "a", "１", "0000000000000000000000001",
    ];
    for t in texts {
        assert_eq!(parse_i32(t), t.parse::<i32>().ok(), "{}", t);
    }
}

#[test]
fn u16_is_parsed_as_std_parses_it() {
    let texts = [
        "0", "3306", "+3306", "65535", "65536", "-0", "-1", "", "+", "-", "x", "00080",
        "99999999999999999999999",
    ];
    for t in texts {
        assert_eq!(parse_u16(t), t.parse::<u16>().ok(), "{}", t);
    }
}

#[test]
fn numbers_are_written_as_std_writes_them() {
    for n in [0, 9, 10, -1, 1234567890, i32::MAX, i32::MIN] {
        assert_eq!(format_i32(n), n.to_string());
        assert_eq!(parse_i32(&format_i32(n)), Some(n));
    }
    for n in [0, 19, 100, u64::MAX] {
        assert_eq!(format_u64(n), n.to_string());
    }
}
