//! String and number literal decoding.
use harpi::error::Error;
use harpi::literals::ascii_hex_to_int;
use harpi::model::Constant;
use harpi::parse_literal_string;
use harpi::proto3::Proto3;
use harpi::CowStr;

fn option_value(body: &str) -> Constant {
    let p = Proto3.parse_body(body).expect("parse failed");
    p.options()[0].value().clone()
}

#[test]
fn no_escape_string_is_borrowed() {
    let r = parse_literal_string("\"hello world\"").expect("decode failed");
    assert!(matches!(r, CowStr::Borrowed(_)));
    assert_eq!(r.as_str(), "hello world");
}

#[test]
fn no_escape_single_quotes() {
    let r = parse_literal_string("'abc'").expect("decode failed");
    assert!(matches!(r, CowStr::Borrowed(_)));
    assert_eq!(r.as_str(), "abc");
}

#[test]
fn newline_escape_decodes() {
    let r = parse_literal_string("\"a\\nb\"").expect("decode failed");
    assert!(matches!(r, CowStr::Owned(_)));
    assert_eq!(r.as_str(), "a\nb");
}

#[test]
fn lone_newline_escape() {
    let r = parse_literal_string("\"\\n\"").expect("decode failed");
    assert_eq!(r.as_str(), "\n");
}

#[test]
fn octal_escape_decodes_to_a() {
    let r = parse_literal_string("\"\\101\"").expect("decode failed");
    assert_eq!(r.as_str(), "A");
}

#[test]
fn hex_escape_decodes_to_a() {
    let r = parse_literal_string("\"\\x41\"").expect("decode failed");
    assert_eq!(r.as_str(), "A");
}

#[test]
fn unicode_escape_four_digits() {
    let r = parse_literal_string("\"\\u0041\\u00e9\"").expect("decode failed");
    assert_eq!(r.as_str(), "A\u{e9}");
}

#[test]
fn unicode_escape_eight_digits() {
    let r = parse_literal_string("\"\\U0001F600\"").expect("decode failed");
    assert_eq!(r.as_str(), "\u{1F600}");
}

#[test]
fn named_escapes() {
    let r = parse_literal_string("\"\\a\\b\\t\\v\\f\\r\\\\\\'\\\"\"").expect("decode failed");
    assert_eq!(r.as_str(), "\u{7}\u{8}\t\u{b}\u{c}\r\\'\"");
}

#[test]
fn out_of_range_unicode_escape_fails() {
    let r = parse_literal_string("\"\\U00110000\"");
    assert_eq!(r, Err(Error::InvalidUnicodeEscape));
}

#[test]
fn surrogate_unicode_escape_fails() {
    let r = parse_literal_string("\"\\uD800\"");
    assert_eq!(r, Err(Error::InvalidUnicodeEscape));
}

#[test]
fn unterminated_string_fails() {
    let r = parse_literal_string("\"abc");
    assert!(matches!(r, Err(Error::Syntax { .. })));
}

#[test]
fn ascii_hex_digit_values() {
    assert_eq!(ascii_hex_to_int(b'0'), 0);
    assert_eq!(ascii_hex_to_int(b'9'), 9);
    assert_eq!(ascii_hex_to_int(b'a'), 10);
    assert_eq!(ascii_hex_to_int(b'f'), 15);
    assert_eq!(ascii_hex_to_int(b'A'), 10);
    assert_eq!(ascii_hex_to_int(b'F'), 15);
}

#[test]
fn decimal_constant() {
    assert_eq!(option_value("option a = 42;"), Constant::Int(42));
}

#[test]
fn negative_constant() {
    assert_eq!(option_value("option a = -3;"), Constant::Int(-3));
}

#[test]
fn positive_sign_constant() {
    assert_eq!(option_value("option a = +7;"), Constant::Int(7));
}

#[test]
fn octal_constant() {
    assert_eq!(option_value("option a = 010;"), Constant::Int(8));
}

#[test]
fn hex_constant() {
    assert_eq!(option_value("option a = 0x1F;"), Constant::Int(31));
    assert_eq!(option_value("option a = 0XfF;"), Constant::Int(255));
}

#[test]
fn zero_constant() {
    assert_eq!(option_value("option a = 0;"), Constant::Int(0));
}

#[test]
fn int64_min_constant() {
    assert_eq!(
        option_value("option a = -9223372036854775808;"),
        Constant::Int(i64::MIN)
    );
}

#[test]
fn int64_overflow_fails() {
    let r = Proto3.parse_body("option a = 9223372036854775808;");
    assert_eq!(r.unwrap_err(), Error::NumericLiteralOverflow);
}

#[test]
fn u64_overflow_fails() {
    let r = Proto3.parse_body("option a = 99999999999999999999999;");
    assert_eq!(r.unwrap_err(), Error::NumericLiteralOverflow);
}

#[test]
fn bad_leading_zero_fails() {
    let r = Proto3.parse_body("option a = 09;");
    assert!(matches!(r, Err(Error::Syntax { .. })));
}

#[test]
fn float_constant_keeps_text() {
    assert_eq!(
        option_value("option a = 1.5;"),
        Constant::Float(String::from("1.5"))
    );
    assert_eq!(
        option_value("option a = -2.5e3;"),
        Constant::Float(String::from("-2.5e3"))
    );
    assert_eq!(
        option_value("option a = .5;"),
        Constant::Float(String::from(".5"))
    );
}

#[test]
fn inf_and_nan_constants() {
    assert_eq!(
        option_value("option a = inf;"),
        Constant::Float(String::from("inf"))
    );
    assert_eq!(
        option_value("option a = -inf;"),
        Constant::Float(String::from("-inf"))
    );
    assert_eq!(
        option_value("option a = nan;"),
        Constant::Float(String::from("nan"))
    );
}

#[test]
fn bool_constants() {
    assert_eq!(option_value("option a = true;"), Constant::Bool(true));
    assert_eq!(option_value("option a = false;"), Constant::Bool(false));
}

#[test]
fn string_constant_decodes_escapes() {
    assert_eq!(
        option_value("option a = \"x\\t y\";"),
        Constant::String(String::from("x\t y"))
    );
}

#[test]
fn ident_constant() {
    let c = option_value("option a = some.Enum.VALUE;");
    match c {
        Constant::Ident(id) => {
            assert_eq!(id.value(), "some.Enum.VALUE");
            assert!(!id.relative());
        }
        other => panic!("not an identifier: {:?}", other),
    }
}

#[test]
fn escapes_decode_inside_a_full_parse() {
    assert_eq!(
        option_value("option a = \"\\x41\\101\\n\";"),
        Constant::String(String::from("AA\n"))
    );
}
