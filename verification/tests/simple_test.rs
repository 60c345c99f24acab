use preinterpret::interpreter::interpret;
use preinterpret::token::{Delim, Token};

fn ident(text: &str) -> Token {
    Token::Ident { text: text.to_string(), span: 0 }
}

fn punct(ch: char) -> Token {
    Token::Punct { ch, span: 0 }
}

fn lit(text: &str) -> Token {
    Token::Literal { text: text.to_string(), span: 0 }
}

fn lit_str(value: &str) -> Token {
    Token::Literal { text: proc_macro2::Literal::string(value).to_string(), span: 0 }
}

fn cmd(name: &str, args: Vec<Token>) -> Token {
    let mut tokens = vec![punct('!'), ident(name), punct('!')];
    tokens.extend(args);
    Token::Group { delim: Delim::Bracket, tokens, span: 0 }
}

fn str_value(text: &str) -> String {
    syn::parse_str::<syn::LitStr>(text).unwrap().value()
}

#[test]
fn complex_example_evaluates_correctly() {
    let input = vec![
        cmd("set", vec![punct('#'), ident("bytes"), punct('='), lit("32")]),
        cmd(
            "set",
            vec![
                punct('#'),
                ident("postfix"),
                punct('='),
                ident("Hello"),
                ident("World"),
                punct('#'),
                ident("bytes"),
            ],
        ),
        cmd(
            "set",
            vec![
                punct('#'),
                ident("MyRawVar"),
                punct('='),
                cmd(
                    "raw",
                    vec![
                        ident("Test"),
                        ident("no"),
                        punct('#'),
                        ident("str"),
                        cmd("ident", vec![ident("replacement")]),
                    ],
                ),
            ],
        ),
        ident("struct"),
        ident("MyStruct"),
        punct(';'),
        ident("type"),
        cmd(
            "ident",
            vec![
                ident("X"),
                lit_str("Boo"),
                cmd("string", vec![ident("Hello"), lit("1")]),
                punct('#'),
                ident("postfix"),
            ],
        ),
        punct('='),
        ident("MyStruct"),
        punct(';'),
        ident("const"),
        ident("NUM"),
        punct(':'),
        ident("u32"),
        punct('='),
        cmd("literal", vec![lit("1337u"), punct('#'), ident("bytes")]),
        punct(';'),
        ident("const"),
        ident("STRING"),
        punct(':'),
        punct('&'),
        ident("str"),
        punct('='),
        cmd("string", vec![punct('#'), ident("MyRawVar")]),
        punct(';'),
        ident("const"),
        ident("SNAKE_CASE"),
        punct(':'),
        punct('&'),
        ident("str"),
        punct('='),
        cmd("snake_case", vec![ident("MyVar")]),
        punct(';'),
    ];

    let out = interpret(input).unwrap();
    assert_eq!(out.len(), 31);

    // type [!ident! X "Boo" [!string! Hello 1] #postfix] = MyStruct;
    assert_eq!(out[4], ident("XBooHello1HelloWorld32"));

    // const NUM: u32 = [!literal! 1337u #bytes];
    assert_eq!(out[13], lit("1337u32"));

    // const STRING: &str = [!string! #MyRawVar];
    match &out[21] {
        Token::Literal { text, .. } => {
            assert_eq!(str_value(text), "Testno#str[!ident!replacement]");
        },
        other => panic!("expected a string literal, got {:?}", other),
    }

    // const SNAKE_CASE: &str = [!snake_case! MyVar];
    match &out[29] {
        Token::Literal { text, .. } => {
            assert_eq!(str_value(text), "my_var");
        },
        other => panic!("expected a string literal, got {:?}", other),
    }
}
