use guessing_game::eq_ignore_ascii_case;
use guessing_game::parse_u32;
use guessing_game::str_eq;
use guessing_game::trim;

#[test]
fn trim_removes_surrounding_whitespace() {
    assert_eq!(trim("  hi  "), "hi");
    assert_eq!(trim("\t x\u{A0}y \r\n"), "x\u{A0}y");
    assert_eq!(trim("word"), "word");
    assert_eq!(trim(""), "");
    assert_eq!(trim(" \t \n"), "");
}

#[test]
fn parse_accepts_decimal_numerals() {
    assert_eq!(parse_u32("0"), Some(0));
    assert_eq!(parse_u32("7"), Some(7));
    assert_eq!(parse_u32("007"), Some(7));
    assert_eq!(parse_u32("+2"), Some(2));
    assert_eq!(parse_u32("4294967295"), Some(u32::MAX));
}

#[test]
fn parse_rejects_what_is_no_u32() {
    assert_eq!(parse_u32(""), None);
    assert_eq!(parse_u32("+"), None);
    assert_eq!(parse_u32("-1"), None);
    assert_eq!(parse_u32("4294967296"), None);
    assert_eq!(parse_u32("12a"), None);
    assert_eq!(parse_u32(" 7"), None);
    assert_eq!(parse_u32("1 2"), None);
}

#[test]
fn parse_agrees_with_std() {
    let cases = ["", "+", "0", "7", "+41", "007", "4294967295", "4294967296", "-1", "x", " 9"];
    for s in cases {
        assert_eq!(parse_u32(s), s.parse::<u32>().ok(), "on {:?}", s);
    }
}

#[test]
fn string_equality_is_exact() {
    assert!(str_eq("menu", "menu"));
    assert!(!str_eq("menu", "Menu"));
    assert!(!str_eq("menu", "men"));
    assert!(str_eq("", ""));
}

#[test]
fn case_insensitive_equality_folds_ascii_only() {
    assert!(eq_ignore_ascii_case("Replay", "replay"));
    assert!(eq_ignore_ascii_case("R", "r"));
    assert!(eq_ignore_ascii_case("MENU", "menu"));
    assert!(!eq_ignore_ascii_case("menus", "menu"));
    assert!(!eq_ignore_ascii_case("replay!", "replay"));
}
