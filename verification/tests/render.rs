//! The formatting wrappers, exercised on concrete values.

use quotefmt::asciistr::AsciiStr;
use quotefmt::csrc::CSrcStr;
use quotefmt::hex::Hs;
use quotefmt::sep::Seperated;
use quotefmt::shell::SingleQuotedStr;

#[test]
fn test_asciistr() {
    assert_eq!(AsciiStr(b"hello\x88".to_vec()).render(), "\"hello\\x88\"");
    assert_eq!(AsciiStr(b"hello\"\x88".to_vec()).render(), "\"hello\\\"\\x88\"");
}

#[test]
fn test_hs() {
    assert_eq!(Hs(b"hello".to_vec()).render(), "68656c6c6f");
    let b: &[u8; 3] = b"ab\xEB";
    assert_eq!(Hs(b.to_vec()).render(), "6162eb");
}

#[test]
fn test_sqs() {
    assert_eq!(SingleQuotedStr::from("'").render(), "''\\'''");
    assert_eq!(SingleQuotedStr::from("a").render(), "'a'");
}

#[test]
fn test_sep() {
    let items = vec!["1".to_string(), "2".to_string(), "3".to_string()];
    assert_eq!(Seperated::new(" ".to_string(), items).render(), "1 2 3 ");
}

#[test]
fn shell_empty_input() {
    assert_eq!(SingleQuotedStr::from("").render(), "''");
}

#[test]
fn shell_interior_quotes() {
    assert_eq!(
        SingleQuotedStr::from("hi'there'yall").render(),
        "'hi'\\''there'\\''yall'"
    );
}

#[test]
fn shell_no_quotes_passthrough() {
    assert_eq!(SingleQuotedStr::from("a b\nc").render(), "'a b\nc'");
}

#[test]
fn shell_as_str_returns_original() {
    let s = SingleQuotedStr::from("hi'there");
    assert_eq!(s.as_str(), "hi'there");
}

#[test]
fn hex_empty_input() {
    assert_eq!(Hs(Vec::new()).render(), "");
}

#[test]
fn hex_all_digit_values() {
    assert_eq!(
        Hs(vec![0x00u8, 0x9a, 0xbc, 0xde, 0xf0, 0xff]).render(),
        "009abcdef0ff"
    );
}

#[test]
fn csrc_plain_bytes_passthrough() {
    assert_eq!(CSrcStr::from(b"Az9 ~!`'\\").render(), "Az9 ~!`'\\");
}

#[test]
fn csrc_escapes() {
    assert_eq!(
        CSrcStr::from(b"a\"b\nc\x01\xff").render(),
        "a\\\"b\\nc\\x01\\xff"
    );
}

#[test]
fn csrc_empty_input() {
    assert_eq!(CSrcStr::from(b"").render(), "");
}

#[test]
fn csrc_as_bytes_returns_original() {
    let c = CSrcStr::from(b"xyz");
    assert_eq!(c.as_bytes(), b"xyz");
}

#[test]
fn asciistr_newline_is_hex_escaped() {
    assert_eq!(AsciiStr(b"\n".to_vec()).render(), "\"\\x0a\"");
}

#[test]
fn asciistr_backslash_passes_through() {
    assert_eq!(AsciiStr(b"\\".to_vec()).render(), "\"\\\"");
}

#[test]
fn asciistr_empty_input() {
    assert_eq!(AsciiStr(Vec::new()).render(), "\"\"");
}

#[test]
fn sep_empty_items() {
    assert_eq!(Seperated::new("; ".to_string(), Vec::new()).render(), "");
}

#[test]
fn sep_single_item_has_trailing_separator() {
    let items = vec!["only".to_string()];
    assert_eq!(Seperated::new(", ".to_string(), items).render(), "only, ");
}

#[test]
fn render_twice_is_identical() {
    let h = Hs(b"ab\xEB".to_vec());
    assert_eq!(h.render(), h.render());
    let a = AsciiStr(b"a\"\x88".to_vec());
    assert_eq!(a.render(), a.render());
    let q = SingleQuotedStr::from("a'b");
    assert_eq!(q.render(), q.render());
    let c = CSrcStr::from(b"a\"\n\x88");
    assert_eq!(c.render(), c.render());
    let s = Seperated::new(" ".to_string(), vec!["x".to_string()]);
    assert_eq!(s.render(), s.render());
}

#[test]
fn hs_wrapped_value_is_transparent() {
    let mut h = Hs(b"ab".to_vec());
    assert_eq!(h.0, b"ab".to_vec());
    h.0.push(0xeb);
    assert_eq!(h.render(), "6162eb");
}

#[test]
fn asciistr_wrapped_value_is_transparent() {
    let mut a = AsciiStr(b"hi".to_vec());
    assert_eq!(a.0, b"hi".to_vec());
    a.0.push(b'!');
    assert_eq!(a.render(), "\"hi!\"");
}
