use rtunes::color::parse_hex;

#[test]
fn parse_hex_basic() {
    assert_eq!(parse_hex("#FF00FF"), Some((255, 0, 255)));
    assert_eq!(parse_hex("00FF00"), Some((0, 255, 0)));
    assert_eq!(parse_hex("abc"), None);
}

#[test]
fn hex_text_is_trimmed_and_extra_digits_ignored() {
    assert_eq!(parse_hex("  #0f0a1e \n"), Some((15, 10, 30)));
    assert_eq!(parse_hex("#11223344"), Some((17, 34, 51)));
    assert_eq!(parse_hex("#FF00FF0"), Some((255, 0, 255)));
    assert_eq!(parse_hex("1122334"), Some((17, 34, 51)));
    assert_eq!(parse_hex("##112233"), None);
    assert_eq!(parse_hex("12345"), None);
    assert_eq!(parse_hex(""), None);
}

#[test]
fn only_hex_digits_are_read() {
    assert_eq!(parse_hex("+f+f+f"), None);
    assert_eq!(parse_hex("-f0000"), None);
    assert_eq!(parse_hex("gg0000"), None);
    assert_eq!(parse_hex("#aBcDeF"), Some((171, 205, 239)));
}

#[test]
fn text_beyond_ascii_gives_no_color() {
    assert_eq!(parse_hex("ab\u{20ac}c"), None);
    assert_eq!(parse_hex("a\u{e9}123"), None);
    assert_eq!(parse_hex("fffff\u{e9}x"), None);
    assert_eq!(parse_hex("ffffff\u{e9}"), Some((255, 255, 255)));
}
