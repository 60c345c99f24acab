use preinterpret::interpreter::interpret;
use preinterpret::token::{Delim, Token};

fn ident(text: &str) -> Token {
    Token::Ident { text: text.to_string(), span: 0 }
}

fn punct(ch: char) -> Token {
    Token::Punct { ch, span: 0 }
}

fn lit(text: &str) -> Token {
    Token::Literal { text: text.to_string(), span: 0 }
}

fn lit_str(value: &str) -> Token {
    Token::Literal { text: proc_macro2::Literal::string(value).to_string(), span: 0 }
}

fn cmd(name: &str, args: Vec<Token>) -> Token {
    let mut tokens = vec![punct('!'), ident(name), punct('!')];
    tokens.extend(args);
    Token::Group { delim: Delim::Bracket, tokens, span: 0 }
}

fn out_literal_text(tokens: Vec<Token>) -> String {
    let out = interpret(tokens).unwrap();
    assert_eq!(out.len(), 1);
    match &out[0] {
        Token::Literal { text, .. } => text.clone(),
        other => panic!("expected a literal, got {:?}", other),
    }
}

#[test]
fn test_string_literal() {
    let text = out_literal_text(vec![cmd(
        "literal",
        vec![lit("'\"'"), ident("hello"), ident("World"), punct('!'), lit_str("\"")],
    )]);
    assert_eq!(text, "\"helloWorld!\"");
    let parsed = syn::parse_str::<syn::LitStr>(&text).unwrap();
    assert_eq!(parsed.value(), "helloWorld!");
}

#[test]
fn test_byte_string_literal() {
    let text = out_literal_text(vec![cmd(
        "literal",
        vec![ident("b"), lit("'\"'"), ident("hello"), ident("World"), punct('!'), lit_str("\"")],
    )]);
    assert_eq!(text, "b\"helloWorld!\"");
    let parsed = syn::parse_str::<syn::LitByteStr>(&text).unwrap();
    assert_eq!(parsed.value(), b"helloWorld!");
}

#[test]
fn test_c_string_literal() {
    let text = out_literal_text(vec![cmd(
        "literal",
        vec![ident("c"), lit("'\"'"), ident("hello"), ident("World"), punct('!'), lit_str("\"")],
    )]);
    assert_eq!(text, "c\"helloWorld!\"");
}

#[test]
fn test_integer_literal() {
    assert_eq!(out_literal_text(vec![cmd("literal", vec![lit_str("123"), lit("456")])]), "123456");
    assert_eq!(out_literal_text(vec![cmd("literal", vec![lit("456u"), lit_str("32")])]), "456u32");
    let text = out_literal_text(vec![cmd("literal", vec![lit("000"), ident("u64")])]);
    assert_eq!(text, "000u64");
    let parsed = syn::parse_str::<syn::LitInt>(&text).unwrap();
    assert_eq!(parsed.base10_parse::<u64>().unwrap(), 0);
}

#[test]
fn test_float_literal() {
    assert_eq!(out_literal_text(vec![cmd("literal", vec![lit("0"), punct('.'), lit("123")])]), "0.123");
    assert_eq!(out_literal_text(vec![cmd("literal", vec![lit("677f32")])]), "677f32");
    assert_eq!(out_literal_text(vec![cmd("literal", vec![lit_str("12"), lit("9f64")])]), "129f64");
}

#[test]
fn test_character() {
    let text = out_literal_text(vec![cmd("literal", vec![lit_str("'"), lit("7"), lit_str("'")])]);
    assert_eq!(text, "'7'");
    let parsed = syn::parse_str::<syn::LitChar>(&text).unwrap();
    assert_eq!(parsed.value(), '7');
}

#[test]
fn test_byte_character() {
    let text = out_literal_text(vec![cmd("literal", vec![lit_str("b'a'")])]);
    assert_eq!(text, "b'a'");
    let parsed = syn::parse_str::<syn::LitByte>(&text).unwrap();
    assert_eq!(parsed.value(), b'a');
}
