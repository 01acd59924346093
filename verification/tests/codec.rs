use auth_gate::codec::{parse_id, render_id, render_mag};

#[test]
fn render_examples() {
    assert_eq!(render_id(0).as_str(), "0");
    assert_eq!(render_id(123).as_str(), "123");
    assert_eq!(render_id(-45).as_str(), "-45");
    assert_eq!(render_id(2147483647).as_str(), "2147483647");
    assert_eq!(render_id(-2147483648).as_str(), "-2147483648");
    assert_eq!(render_mag(900).as_str(), "900");
}

#[test]
fn render_and_parse_round_trip() {
    let ids = [0, 1, 7, 42, 2026, 2147483647, -1, -99, -2147483648];
    for &id in ids.iter() {
        let text = render_id(id);
        assert_eq!(parse_id(text.as_str()), Some(id));
    }
}

#[test]
fn parse_rejects_bad_text() {
    for bad in ["", "-", "abc", "12a", "1 2", "+7", "--1", "4-2", "\u{FF11}"] {
        assert_eq!(parse_id(bad), None);
    }
}

#[test]
fn parse_bounds() {
    assert_eq!(parse_id("2147483647"), Some(2147483647));
    assert_eq!(parse_id("2147483648"), None);
    assert_eq!(parse_id("-2147483648"), Some(-2147483648));
    assert_eq!(parse_id("-2147483649"), None);
    assert_eq!(parse_id("99999999999999999999"), None);
}

#[test]
fn parse_accepts_leading_zeros() {
    assert_eq!(parse_id("007"), Some(7));
    assert_eq!(parse_id("-0"), Some(0));
    assert_eq!(parse_id("0000000000000000001"), Some(1));
}
