use helixdb::helixc::generator::naming::{to_snake_case, trim_trailing_underscores};
use helixdb::helixc::parser::parser_methods::ParserError;
use helixdb::text::{
    boolean_to_text, chars_of, integer_to_text, join, long_to_text, quote, string_of_chars,
    unsigned_to_text,
};

fn text(s: &str) -> String {
    s.to_string()
}

#[test]
fn numbers_print_in_decimal() {
    assert_eq!(unsigned_to_text(0), "0");
    assert_eq!(unsigned_to_text(9), "9");
    assert_eq!(unsigned_to_text(10), "10");
    assert_eq!(unsigned_to_text(1234567890), "1234567890");
    assert_eq!(unsigned_to_text(u64::MAX), "18446744073709551615");
    assert_eq!(integer_to_text(0), "0");
    assert_eq!(integer_to_text(-1), "-1");
    assert_eq!(integer_to_text(i32::MAX), "2147483647");
    assert_eq!(integer_to_text(i32::MIN), "-2147483648");
    assert_eq!(long_to_text(-42), "-42");
    assert_eq!(boolean_to_text(true), "true");
    assert_eq!(boolean_to_text(false), "false");
}

#[test]
fn texts_are_quoted_and_joined() {
    assert_eq!(quote("a b"), "\"a b\"");
    assert_eq!(quote(""), "\"\"");
    assert_eq!(join(&vec![], ", "), "");
    assert_eq!(join(&vec![text("a")], ", "), "a");
    assert_eq!(join(&vec![text("a"), text(""), text("c")], ", "), "a, , c");
}

#[test]
fn characters_go_in_and_out_of_strings() {
    let chars = chars_of("héllo");
    assert_eq!(chars, vec!['h', 'é', 'l', 'l', 'o']);
    assert_eq!(string_of_chars(&chars, 5), "héllo");
    assert_eq!(string_of_chars(&chars, 2), "hé");
    assert_eq!(string_of_chars(&chars, 0), "");
    assert_eq!(string_of_chars(&chars, 9), "héllo");
}

#[test]
fn names_are_split_at_case_changes() {
    assert_eq!(to_snake_case(""), "");
    assert_eq!(to_snake_case("already_snake"), "already_snake");
    assert_eq!(to_snake_case("A"), "a");
    assert_eq!(to_snake_case("Type"), "type_");
    assert_eq!(to_snake_case("typeName"), "type_name");
    assert_eq!(to_snake_case("ÉcoleNormale"), "école_normale");
    assert_eq!(to_snake_case("HTTPServer"), "http_server");
}

#[test]
fn trailing_underscores_are_dropped() {
    assert_eq!(trim_trailing_underscores("type_"), "type");
    assert_eq!(trim_trailing_underscores("a__"), "a");
    assert_eq!(trim_trailing_underscores("_a_b"), "_a_b");
    assert_eq!(trim_trailing_underscores("___"), "");
    assert_eq!(trim_trailing_underscores(""), "");
}

#[test]
fn parser_errors_say_what_they_are() {
    assert_eq!(ParserError::ParseError(text("bad")).message(), "Parse error: bad");
    assert_eq!(ParserError::LexError(text("bad")).message(), "Lex error: bad");
    assert_eq!(
        ParserError::ParamDoesNotMatchSchema(text("age")).message(),
        "Parameter with name: age does not exist in the schema"
    );
    assert_eq!(ParserError::from(text("bad")).message(), "Lex error: bad");
    assert_eq!(ParserError::lex("worse").message(), "Lex error: worse");
    assert_eq!(ParserError::parse_failure(text("at 1:1")).message(), "Parse error: at 1:1");
}
