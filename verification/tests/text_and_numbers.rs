use gequke::numbers::{i32_to_string, i64_to_string, parse_i32, parse_i64};
use gequke::text::{contains, replace_all, str_eq, trim};

#[test]
fn trim_removes_surrounding_white_space() {
    assert_eq!(trim("  周杰伦 \n"), "周杰伦");
    assert_eq!(trim("\t\r\n"), "");
    assert_eq!(trim("a b"), "a b");
}

#[test]
fn contains_finds_substrings() {
    assert!(contains("热门歌手榜 TOP", "热门歌手榜"));
    assert!(contains("abc", ""));
    assert!(!contains("ab", "abc"));
    assert!(!contains("上一页", "下一页"));
}

#[test]
fn replace_all_replaces_every_occurrence() {
    assert_eq!(replace_all("a<br/>b<br/>c", "<br/>", "\n"), "a\nb\nc");
    assert_eq!(replace_all("aaa", "aa", "b"), "ba");
    assert_eq!(replace_all("none", "x", "y"), "none");
}

#[test]
fn concat_and_equality() {
    assert_eq!(gequke::text::concat("https://www.gequke.com/song/", "42"), "https://www.gequke.com/song/42");
    assert!(str_eq("song", "song"));
    assert!(!str_eq("song", "singer"));
}

#[test]
fn integers_parse_like_str_parse() {
    assert_eq!(parse_i32("42"), Some(42));
    assert_eq!(parse_i32("+7"), Some(7));
    assert_eq!(parse_i32("-2147483648"), Some(i32::MIN));
    assert_eq!(parse_i32("2147483648"), None);
    assert_eq!(parse_i32(""), None);
    assert_eq!(parse_i32(" 1"), None);
    assert_eq!(parse_i32("-"), None);
    assert_eq!(parse_i64("9223372036854775807"), Some(i64::MAX));
    assert_eq!(parse_i64("9223372036854775808"), None);
    assert_eq!(parse_i64("5863335"), Some(5863335));
    for s in ["0", "-0", "+12", "0012", "12a", "-9223372036854775808"] {
        assert_eq!(parse_i64(s), s.parse::<i64>().ok());
    }
}

#[test]
fn integers_print_in_decimal() {
    assert_eq!(i64_to_string(0), "0");
    assert_eq!(i64_to_string(-15), "-15");
    assert_eq!(i64_to_string(i64::MIN), i64::MIN.to_string());
    assert_eq!(i32_to_string(2026), "2026");
}
