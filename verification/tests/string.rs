use preinterpret::interpreter::interpret;
use preinterpret::token::{Delim, Token};

fn ident(text: &str) -> Token {
    Token::Ident { text: text.to_string(), span: 0 }
}

fn punct(ch: char) -> Token {
    Token::Punct { ch, span: 0 }
}

fn lit(text: &str) -> Token {
    Token::Literal { text: text.to_string(), span: 0 }
}

fn lit_str(value: &str) -> Token {
    Token::Literal { text: proc_macro2::Literal::string(value).to_string(), span: 0 }
}

fn cmd(name: &str, args: Vec<Token>) -> Token {
    let mut tokens = vec![punct('!'), ident(name), punct('!')];
    tokens.extend(args);
    Token::Group { delim: Delim::Bracket, tokens, span: 0 }
}

fn out_string(tokens: Vec<Token>) -> String {
    let out = interpret(tokens).unwrap();
    assert_eq!(out.len(), 1);
    match &out[0] {
        Token::Literal { text, .. } => syn::parse_str::<syn::LitStr>(text).unwrap().value(),
        other => panic!("expected a string literal, got {:?}", other),
    }
}

#[test]
fn test_string() {
    assert_eq!(out_string(vec![cmd("string", vec![ident("my_"), ident("MixedCase"), ident("STRING"), ident("Which"), ident("is"), lit_str("  #awesome  "), punct('-'), ident("what"), lit_str("do you"), ident("think"), punct('?')])]), "my_MixedCaseSTRINGWhichis  #awesome  -whatdo youthink?");
    assert_eq!(out_string(vec![cmd("string", vec![ident("UPPER")])]), "UPPER");
    assert_eq!(out_string(vec![cmd("string", vec![ident("lower")])]), "lower");
    assert_eq!(out_string(vec![cmd("string", vec![ident("lower_snake_case")])]), "lower_snake_case");
    assert_eq!(out_string(vec![cmd("string", vec![ident("UPPER_SNAKE_CASE")])]), "UPPER_SNAKE_CASE");
    assert_eq!(out_string(vec![cmd("string", vec![ident("lowerCamelCase")])]), "lowerCamelCase");
    assert_eq!(out_string(vec![cmd("string", vec![ident("UpperCamelCase")])]), "UpperCamelCase");
    assert_eq!(out_string(vec![cmd("string", vec![ident("Capitalized")])]), "Capitalized");
    assert_eq!(out_string(vec![cmd("string", vec![lit_str("THEY SAID: A quick brown fox jumps over the lazy dog.")])]), "THEY SAID: A quick brown fox jumps over the lazy dog.");
    assert_eq!(out_string(vec![cmd("string", vec![lit_str("hello_w🌍rld")])]), "hello_w🌍rld");
    assert_eq!(out_string(vec![cmd("string", vec![lit_str("kebab-case")])]), "kebab-case");
    assert_eq!(out_string(vec![cmd("string", vec![lit_str("~~h4xx0rZ <3 1337c0de")])]), "~~h4xx0rZ <3 1337c0de");
    assert_eq!(out_string(vec![cmd("string", vec![ident("PostgreSQLConnection")])]), "PostgreSQLConnection");
    assert_eq!(out_string(vec![cmd("string", vec![ident("PostgreSqlConnection")])]), "PostgreSqlConnection");
    assert_eq!(out_string(vec![cmd("string", vec![lit_str("U+000A LINE FEED (LF)")])]), "U+000A LINE FEED (LF)");
    assert_eq!(out_string(vec![cmd("string", vec![lit_str("\nThis\r\n is a\tmulti-line\nstring")])]), "\nThis\r\n is a\tmulti-line\nstring");
    assert_eq!(out_string(vec![cmd("string", vec![lit_str("  lots of _ space and  _whacky |c$ara_cte>>rs|")])]), "  lots of _ space and  _whacky |c$ara_cte>>rs|");
    assert_eq!(out_string(vec![cmd("string", vec![lit_str("über CöÖl")])]), "über CöÖl");
    assert_eq!(out_string(vec![cmd("string", vec![lit_str("◌̈ubër Cöol")])]), "◌̈ubër Cöol");
    assert_eq!(out_string(vec![cmd("string", vec![lit_str("真是难以置信！")])]), "真是难以置信！");
}

#[test]
fn test_upper() {
    assert_eq!(out_string(vec![cmd("upper", vec![ident("my_"), ident("MixedCase"), ident("STRING"), ident("Which"), ident("is"), lit_str("  #awesome  "), punct('-'), ident("what"), lit_str("do you"), ident("think"), punct('?')])]), "MY_MIXEDCASESTRINGWHICHIS  #AWESOME  -WHATDO YOUTHINK?");
    assert_eq!(out_string(vec![cmd("upper", vec![ident("UPPER")])]), "UPPER");
    assert_eq!(out_string(vec![cmd("upper", vec![ident("lower")])]), "LOWER");
    assert_eq!(out_string(vec![cmd("upper", vec![ident("lower_snake_case")])]), "LOWER_SNAKE_CASE");
    assert_eq!(out_string(vec![cmd("upper", vec![ident("UPPER_SNAKE_CASE")])]), "UPPER_SNAKE_CASE");
    assert_eq!(out_string(vec![cmd("upper", vec![ident("lowerCamelCase")])]), "LOWERCAMELCASE");
    assert_eq!(out_string(vec![cmd("upper", vec![ident("UpperCamelCase")])]), "UPPERCAMELCASE");
    assert_eq!(out_string(vec![cmd("upper", vec![ident("Capitalized")])]), "CAPITALIZED");
    assert_eq!(out_string(vec![cmd("upper", vec![lit_str("THEY SAID: A quick brown fox jumps over the lazy dog.")])]), "THEY SAID: A QUICK BROWN FOX JUMPS OVER THE LAZY DOG.");
    assert_eq!(out_string(vec![cmd("upper", vec![lit_str("hello_w🌍rld")])]), "HELLO_W🌍RLD");
    assert_eq!(out_string(vec![cmd("upper", vec![lit_str("kebab-case")])]), "KEBAB-CASE");
    assert_eq!(out_string(vec![cmd("upper", vec![lit_str("~~h4xx0rZ <3 1337c0de")])]), "~~H4XX0RZ <3 1337C0DE");
    assert_eq!(out_string(vec![cmd("upper", vec![ident("PostgreSQLConnection")])]), "POSTGRESQLCONNECTION");
    assert_eq!(out_string(vec![cmd("upper", vec![ident("PostgreSqlConnection")])]), "POSTGRESQLCONNECTION");
    assert_eq!(out_string(vec![cmd("upper", vec![lit_str("U+000A LINE FEED (LF)")])]), "U+000A LINE FEED (LF)");
    assert_eq!(out_string(vec![cmd("upper", vec![lit_str("\nThis\r\n is a\tmulti-line\nstring")])]), "\nTHIS\r\n IS A\tMULTI-LINE\nSTRING");
    assert_eq!(out_string(vec![cmd("upper", vec![lit_str("  lots of _ space and  _whacky |c$ara_cte>>rs|")])]), "  LOTS OF _ SPACE AND  _WHACKY |C$ARA_CTE>>RS|");
    assert_eq!(out_string(vec![cmd("upper", vec![lit_str("über CöÖl")])]), "ÜBER CÖÖL");
    assert_eq!(out_string(vec![cmd("upper", vec![lit_str("◌̈ubër Cöol")])]), "◌̈UBËR CÖOL");
    assert_eq!(out_string(vec![cmd("upper", vec![lit_str("真是难以置信！")])]), "真是难以置信！");
}

#[test]
fn test_lower() {
    assert_eq!(out_string(vec![cmd("lower", vec![ident("my_"), ident("MixedCase"), ident("STRING"), ident("Which"), ident("is"), lit_str("  #awesome  "), punct('-'), ident("what"), lit_str("do you"), ident("think"), punct('?')])]), "my_mixedcasestringwhichis  #awesome  -whatdo youthink?");
    assert_eq!(out_string(vec![cmd("lower", vec![ident("UPPER")])]), "upper");
    assert_eq!(out_string(vec![cmd("lower", vec![ident("lower")])]), "lower");
    assert_eq!(out_string(vec![cmd("lower", vec![ident("lower_snake_case")])]), "lower_snake_case");
    assert_eq!(out_string(vec![cmd("lower", vec![ident("UPPER_SNAKE_CASE")])]), "upper_snake_case");
    assert_eq!(out_string(vec![cmd("lower", vec![ident("lowerCamelCase")])]), "lowercamelcase");
    assert_eq!(out_string(vec![cmd("lower", vec![ident("UpperCamelCase")])]), "uppercamelcase");
    assert_eq!(out_string(vec![cmd("lower", vec![ident("Capitalized")])]), "capitalized");
    assert_eq!(out_string(vec![cmd("lower", vec![lit_str("THEY SAID: A quick brown fox jumps over the lazy dog.")])]), "they said: a quick brown fox jumps over the lazy dog.");
    assert_eq!(out_string(vec![cmd("lower", vec![lit_str("hello_w🌍rld")])]), "hello_w🌍rld");
    assert_eq!(out_string(vec![cmd("lower", vec![lit_str("kebab-case")])]), "kebab-case");
    assert_eq!(out_string(vec![cmd("lower", vec![lit_str("~~h4xx0rZ <3 1337c0de")])]), "~~h4xx0rz <3 1337c0de");
    assert_eq!(out_string(vec![cmd("lower", vec![ident("PostgreSQLConnection")])]), "postgresqlconnection");
    assert_eq!(out_string(vec![cmd("lower", vec![ident("PostgreSqlConnection")])]), "postgresqlconnection");
    assert_eq!(out_string(vec![cmd("lower", vec![lit_str("U+000A LINE FEED (LF)")])]), "u+000a line feed (lf)");
    assert_eq!(out_string(vec![cmd("lower", vec![lit_str("\nThis\r\n is a\tmulti-line\nstring")])]), "\nthis\r\n is a\tmulti-line\nstring");
    assert_eq!(out_string(vec![cmd("lower", vec![lit_str("  lots of _ space and  _whacky |c$ara_cte>>rs|")])]), "  lots of _ space and  _whacky |c$ara_cte>>rs|");
    assert_eq!(out_string(vec![cmd("lower", vec![lit_str("über CöÖl")])]), "über cööl");
    assert_eq!(out_string(vec![cmd("lower", vec![lit_str("◌̈ubër Cööl")])]), "◌̈ubër cööl");
    assert_eq!(out_string(vec![cmd("lower", vec![lit_str("真是难以置信！")])]), "真是难以置信！");
}

#[test]
fn test_snake() {
    assert_eq!(out_string(vec![cmd("snake", vec![ident("my_"), ident("MixedCase"), ident("STRING"), ident("Which"), ident("is"), lit_str("  #awesome  "), punct('-'), ident("what"), lit_str("do you"), ident("think"), punct('?')])]), "my_mixed_case_string_whichis_awesome_whatdo_youthink");
    assert_eq!(out_string(vec![cmd("snake", vec![ident("UPPER")])]), "upper");
    assert_eq!(out_string(vec![cmd("snake", vec![ident("lower")])]), "lower");
    assert_eq!(out_string(vec![cmd("snake", vec![ident("lower_snake_case")])]), "lower_snake_case");
    assert_eq!(out_string(vec![cmd("snake", vec![ident("UPPER_SNAKE_CASE")])]), "upper_snake_case");
    assert_eq!(out_string(vec![cmd("snake", vec![ident("lowerCamelCase")])]), "lower_camel_case");
    assert_eq!(out_string(vec![cmd("snake", vec![ident("UpperCamelCase")])]), "upper_camel_case");
    assert_eq!(out_string(vec![cmd("snake", vec![ident("Capitalized")])]), "capitalized");
    assert_eq!(out_string(vec![cmd("snake", vec![lit_str("THEY SAID: A quick brown fox jumps over the lazy dog.")])]), "they_said_a_quick_brown_fox_jumps_over_the_lazy_dog");
    assert_eq!(out_string(vec![cmd("snake", vec![lit_str("hello_w🌍rld")])]), "hello_w_rld");
    assert_eq!(out_string(vec![cmd("snake", vec![lit_str("kebab-case")])]), "kebab_case");
    assert_eq!(out_string(vec![cmd("snake", vec![lit_str("~~h4xx0rZ <3 1337c0de")])]), "h4xx0r_z_3_1337c0de");
    assert_eq!(out_string(vec![cmd("snake", vec![ident("PostgreSQLConnection")])]), "postgre_sql_connection");
    assert_eq!(out_string(vec![cmd("snake", vec![ident("PostgreSqlConnection")])]), "postgre_sql_connection");
    assert_eq!(out_string(vec![cmd("snake", vec![lit_str("U+000A LINE FEED (LF)")])]), "u_000a_line_feed_lf");
    assert_eq!(out_string(vec![cmd("snake", vec![lit_str("\nThis\r\n is a\tmulti-line\nstring")])]), "this_is_a_multi_line_string");
    assert_eq!(out_string(vec![cmd("snake", vec![lit_str("  lots of _ space and  _whacky |c$ara_cte>>rs|")])]), "lots_of_space_and_whacky_c_ara_cte_rs");
    assert_eq!(out_string(vec![cmd("snake", vec![lit_str("über CöÖl")])]), "über_cö_öl");
    assert_eq!(out_string(vec![cmd("snake", vec![lit_str("◌̈ubër Cööl")])]), "ube_r_cööl");
    assert_eq!(out_string(vec![cmd("snake", vec![lit_str("真是难以置信！")])]), "真是难以置信");
}

#[test]
fn test_upper_snake() {
    assert_eq!(out_string(vec![cmd("upper_snake", vec![ident("my_"), ident("MixedCase"), ident("STRING"), ident("Which"), ident("is"), lit_str("  #awesome  "), punct('-'), ident("what"), lit_str("do you"), ident("think"), punct('?')])]), "MY_MIXED_CASE_STRING_WHICHIS_AWESOME_WHATDO_YOUTHINK");
    assert_eq!(out_string(vec![cmd("upper_snake", vec![ident("UPPER")])]), "UPPER");
    assert_eq!(out_string(vec![cmd("upper_snake", vec![ident("lower")])]), "LOWER");
    assert_eq!(out_string(vec![cmd("upper_snake", vec![ident("lower_snake_case")])]), "LOWER_SNAKE_CASE");
    assert_eq!(out_string(vec![cmd("upper_snake", vec![ident("UPPER_SNAKE_CASE")])]), "UPPER_SNAKE_CASE");
    assert_eq!(out_string(vec![cmd("upper_snake", vec![ident("lowerCamelCase")])]), "LOWER_CAMEL_CASE");
    assert_eq!(out_string(vec![cmd("upper_snake", vec![ident("UpperCamelCase")])]), "UPPER_CAMEL_CASE");
    assert_eq!(out_string(vec![cmd("upper_snake", vec![ident("Capitalized")])]), "CAPITALIZED");
    assert_eq!(out_string(vec![cmd("upper_snake", vec![lit_str("THEY SAID: A quick brown fox jumps over the lazy dog.")])]), "THEY_SAID_A_QUICK_BROWN_FOX_JUMPS_OVER_THE_LAZY_DOG");
    assert_eq!(out_string(vec![cmd("upper_snake", vec![lit_str("hello_w🌍rld")])]), "HELLO_W_RLD");
    assert_eq!(out_string(vec![cmd("upper_snake", vec![lit_str("kebab-case")])]), "KEBAB_CASE");
    assert_eq!(out_string(vec![cmd("upper_snake", vec![lit_str("~~h4xx0rZ <3 1337c0de")])]), "H4XX0R_Z_3_1337C0DE");
    assert_eq!(out_string(vec![cmd("upper_snake", vec![ident("PostgreSQLConnection")])]), "POSTGRE_SQL_CONNECTION");
    assert_eq!(out_string(vec![cmd("upper_snake", vec![ident("PostgreSqlConnection")])]), "POSTGRE_SQL_CONNECTION");
    assert_eq!(out_string(vec![cmd("upper_snake", vec![lit_str("U+000A LINE FEED (LF)")])]), "U_000A_LINE_FEED_LF");
    assert_eq!(out_string(vec![cmd("upper_snake", vec![lit_str("\nThis\r\n is a\tmulti-line\nstring")])]), "THIS_IS_A_MULTI_LINE_STRING");
    assert_eq!(out_string(vec![cmd("upper_snake", vec![lit_str("  lots of _ space and  _whacky |c$ara_cte>>rs|")])]), "LOTS_OF_SPACE_AND_WHACKY_C_ARA_CTE_RS");
    assert_eq!(out_string(vec![cmd("upper_snake", vec![lit_str("über CöÖl")])]), "ÜBER_CÖ_ÖL");
    assert_eq!(out_string(vec![cmd("upper_snake", vec![lit_str("◌̈ubër Cöol")])]), "UBE_R_CÖOL");
    assert_eq!(out_string(vec![cmd("upper_snake", vec![lit_str("真是难以置信！")])]), "真是难以置信");
}

#[test]
fn test_to_lower_kebab_case() {
    assert_eq!(out_string(vec![cmd("kebab", vec![ident("my_"), ident("MixedCase"), ident("STRING"), ident("Which"), ident("is"), lit_str("  #awesome  "), punct('-'), ident("what"), lit_str("do you"), ident("think"), punct('?')])]), "my-mixed-case-string-whichis-awesome-whatdo-youthink");
    assert_eq!(out_string(vec![cmd("kebab", vec![ident("UPPER")])]), "upper");
    assert_eq!(out_string(vec![cmd("kebab", vec![ident("lower")])]), "lower");
    assert_eq!(out_string(vec![cmd("kebab", vec![ident("lower_snake_case")])]), "lower-snake-case");
    assert_eq!(out_string(vec![cmd("kebab", vec![ident("UPPER_SNAKE_CASE")])]), "upper-snake-case");
    assert_eq!(out_string(vec![cmd("kebab", vec![ident("lowerCamelCase")])]), "lower-camel-case");
    assert_eq!(out_string(vec![cmd("kebab", vec![ident("UpperCamelCase")])]), "upper-camel-case");
    assert_eq!(out_string(vec![cmd("kebab", vec![ident("Capitalized")])]), "capitalized");
    assert_eq!(out_string(vec![cmd("kebab", vec![lit_str("THEY SAID: A quick brown fox jumps over the lazy dog.")])]), "they-said-a-quick-brown-fox-jumps-over-the-lazy-dog");
    assert_eq!(out_string(vec![cmd("kebab", vec![lit_str("hello_w🌍rld")])]), "hello-w-rld");
    assert_eq!(out_string(vec![cmd("kebab", vec![lit_str("kebab-case")])]), "kebab-case");
    assert_eq!(out_string(vec![cmd("kebab", vec![lit_str("~~h4xx0rZ <3 1337c0de")])]), "h4xx0r-z-3-1337c0de");
    assert_eq!(out_string(vec![cmd("kebab", vec![ident("PostgreSQLConnection")])]), "postgre-sql-connection");
    assert_eq!(out_string(vec![cmd("kebab", vec![ident("PostgreSqlConnection")])]), "postgre-sql-connection");
    assert_eq!(out_string(vec![cmd("kebab", vec![lit_str("U+000A LINE FEED (LF)")])]), "u-000a-line-feed-lf");
    assert_eq!(out_string(vec![cmd("kebab", vec![lit_str("\nThis\r\n is a\tmulti-line\nstring")])]), "this-is-a-multi-line-string");
    assert_eq!(out_string(vec![cmd("kebab", vec![lit_str("  lots of _ space and  _whacky |c$ara_cte>>rs|")])]), "lots-of-space-and-whacky-c-ara-cte-rs");
    assert_eq!(out_string(vec![cmd("kebab", vec![lit_str("über CöÖl")])]), "über-cö-öl");
    assert_eq!(out_string(vec![cmd("kebab", vec![lit_str("◌̈ubër Cööl")])]), "ube-r-cööl");
    assert_eq!(out_string(vec![cmd("kebab", vec![lit_str("真是难以置信！")])]), "真是难以置信");
}

#[test]
fn test_lower_camel() {
    assert_eq!(out_string(vec![cmd("lower_camel", vec![ident("my_"), ident("MixedCase"), ident("STRING"), ident("Which"), ident("is"), lit_str("  #awesome  "), punct('-'), ident("what"), lit_str("do you"), ident("think"), punct('?')])]), "myMixedCaseStringWhichisAwesomeWhatdoYouthink");
    assert_eq!(out_string(vec![cmd("lower_camel", vec![ident("UPPER")])]), "upper");
    assert_eq!(out_string(vec![cmd("lower_camel", vec![ident("lower")])]), "lower");
    assert_eq!(out_string(vec![cmd("lower_camel", vec![ident("lower_snake_case")])]), "lowerSnakeCase");
    assert_eq!(out_string(vec![cmd("lower_camel", vec![ident("UPPER_SNAKE_CASE")])]), "upperSnakeCase");
    assert_eq!(out_string(vec![cmd("lower_camel", vec![ident("lowerCamelCase")])]), "lowerCamelCase");
    assert_eq!(out_string(vec![cmd("lower_camel", vec![ident("UpperCamelCase")])]), "upperCamelCase");
    assert_eq!(out_string(vec![cmd("lower_camel", vec![ident("Capitalized")])]), "capitalized");
    assert_eq!(out_string(vec![cmd("lower_camel", vec![lit_str("THEY SAID: A quick brown fox jumps over the lazy dog.")])]), "theySaidAQuickBrownFoxJumpsOverTheLazyDog");
    assert_eq!(out_string(vec![cmd("lower_camel", vec![lit_str("hello_w🌍rld")])]), "helloWRld");
    assert_eq!(out_string(vec![cmd("lower_camel", vec![lit_str("kebab-case")])]), "kebabCase");
    assert_eq!(out_string(vec![cmd("lower_camel", vec![lit_str("~~h4xx0rZ <3 1337c0de")])]), "h4xx0rZ31337c0de");
    assert_eq!(out_string(vec![cmd("lower_camel", vec![ident("PostgreSQLConnection")])]), "postgreSqlConnection");
    assert_eq!(out_string(vec![cmd("lower_camel", vec![ident("PostgreSqlConnection")])]), "postgreSqlConnection");
    assert_eq!(out_string(vec![cmd("lower_camel", vec![lit_str("U+000A LINE FEED (LF)")])]), "u000aLineFeedLf");
    assert_eq!(out_string(vec![cmd("lower_camel", vec![lit_str("\nThis\r\n is a\tmulti-line\nstring")])]), "thisIsAMultiLineString");
    assert_eq!(out_string(vec![cmd("lower_camel", vec![lit_str("  lots of _ space and  _whacky |c$ara_cte>>rs|")])]), "lotsOfSpaceAndWhackyCAraCteRs");
    assert_eq!(out_string(vec![cmd("lower_camel", vec![lit_str("über CöÖl")])]), "überCöÖl");
    assert_eq!(out_string(vec![cmd("lower_camel", vec![lit_str("◌̈ubër Cööl")])]), "ubeRCööl");
    assert_eq!(out_string(vec![cmd("lower_camel", vec![lit_str("真是难以置信！")])]), "真是难以置信");
}

#[test]
fn test_camel() {
    assert_eq!(out_string(vec![cmd("camel", vec![ident("my_"), ident("MixedCase"), ident("STRING"), ident("Which"), ident("is"), lit_str("  #awesome  "), punct('-'), ident("what"), lit_str("do you"), ident("think"), punct('?')])]), "MyMixedCaseStringWhichisAwesomeWhatdoYouthink");
    assert_eq!(out_string(vec![cmd("camel", vec![ident("UPPER")])]), "Upper");
    assert_eq!(out_string(vec![cmd("camel", vec![ident("lower")])]), "Lower");
    assert_eq!(out_string(vec![cmd("camel", vec![ident("lower_snake_case")])]), "LowerSnakeCase");
    assert_eq!(out_string(vec![cmd("camel", vec![ident("UPPER_SNAKE_CASE")])]), "UpperSnakeCase");
    assert_eq!(out_string(vec![cmd("camel", vec![ident("lowerCamelCase")])]), "LowerCamelCase");
    assert_eq!(out_string(vec![cmd("camel", vec![ident("UpperCamelCase")])]), "UpperCamelCase");
    assert_eq!(out_string(vec![cmd("camel", vec![ident("Capitalized")])]), "Capitalized");
    assert_eq!(out_string(vec![cmd("camel", vec![lit_str("THEY SAID: A quick brown fox jumps over the lazy dog.")])]), "TheySaidAQuickBrownFoxJumpsOverTheLazyDog");
    assert_eq!(out_string(vec![cmd("camel", vec![lit_str("hello_w🌍rld")])]), "HelloWRld");
    assert_eq!(out_string(vec![cmd("camel", vec![lit_str("kebab-case")])]), "KebabCase");
    assert_eq!(out_string(vec![cmd("camel", vec![lit_str("~~h4xx0rZ <3 1337c0de")])]), "H4xx0rZ31337c0de");
    assert_eq!(out_string(vec![cmd("camel", vec![ident("PostgreSQLConnection")])]), "PostgreSqlConnection");
    assert_eq!(out_string(vec![cmd("camel", vec![ident("PostgreSqlConnection")])]), "PostgreSqlConnection");
    assert_eq!(out_string(vec![cmd("camel", vec![lit_str("U+000A LINE FEED (LF)")])]), "U000aLineFeedLf");
    assert_eq!(out_string(vec![cmd("camel", vec![lit_str("\nThis\r\n is a\tmulti-line\nstring")])]), "ThisIsAMultiLineString");
    assert_eq!(out_string(vec![cmd("camel", vec![lit_str("  lots of _ space and  _whacky |c$ara_cte>>rs|")])]), "LotsOfSpaceAndWhackyCAraCteRs");
    assert_eq!(out_string(vec![cmd("camel", vec![lit_str("über CöÖl")])]), "ÜberCöÖl");
    assert_eq!(out_string(vec![cmd("camel", vec![lit_str("◌̈ubër Cööl")])]), "UbeRCööl");
    assert_eq!(out_string(vec![cmd("camel", vec![lit_str("真是难以置信！")])]), "真是难以置信");
}

#[test]
fn test_capitalize() {
    assert_eq!(out_string(vec![cmd("capitalize", vec![ident("my_"), ident("MixedCase"), ident("STRING"), ident("Which"), ident("is"), lit_str("  #awesome  "), punct('-'), ident("what"), ident("do"), ident("you"), ident("think"), punct('?')])]), "My_MixedCaseSTRINGWhichis  #awesome  -whatdoyouthink?");
    assert_eq!(out_string(vec![cmd("capitalize", vec![ident("UPPER")])]), "UPPER");
    assert_eq!(out_string(vec![cmd("capitalize", vec![ident("lower")])]), "Lower");
    assert_eq!(out_string(vec![cmd("capitalize", vec![ident("lower_snake_case")])]), "Lower_snake_case");
    assert_eq!(out_string(vec![cmd("capitalize", vec![ident("UPPER_SNAKE_CASE")])]), "UPPER_SNAKE_CASE");
    assert_eq!(out_string(vec![cmd("capitalize", vec![ident("lowerCamelCase")])]), "LowerCamelCase");
    assert_eq!(out_string(vec![cmd("capitalize", vec![ident("UpperCamelCase")])]), "UpperCamelCase");
    assert_eq!(out_string(vec![cmd("capitalize", vec![ident("Capitalized")])]), "Capitalized");
    assert_eq!(out_string(vec![cmd("capitalize", vec![lit_str("THEY SAID: A quick brown fox jumps over the lazy dog.")])]), "THEY SAID: A quick brown fox jumps over the lazy dog.");
    assert_eq!(out_string(vec![cmd("capitalize", vec![lit_str("hello_w🌍rld")])]), "Hello_w🌍rld");
    assert_eq!(out_string(vec![cmd("capitalize", vec![lit_str("kebab-case")])]), "Kebab-case");
    assert_eq!(out_string(vec![cmd("capitalize", vec![lit_str("~~h4xx0rZ <3 1337c0de")])]), "~~H4xx0rZ <3 1337c0de");
    assert_eq!(out_string(vec![cmd("capitalize", vec![ident("PostgreSQLConnection")])]), "PostgreSQLConnection");
    assert_eq!(out_string(vec![cmd("capitalize", vec![ident("PostgreSqlConnection")])]), "PostgreSqlConnection");
    assert_eq!(out_string(vec![cmd("capitalize", vec![lit_str("U+000A LINE FEED (LF)")])]), "U+000A LINE FEED (LF)");
    assert_eq!(out_string(vec![cmd("capitalize", vec![lit_str("\nThis\r\n is a\tmulti-line\nstring")])]), "\nThis\r\n is a\tmulti-line\nstring");
    assert_eq!(out_string(vec![cmd("capitalize", vec![lit_str("  lots of _ space and  _whacky |c$ara_cte>>rs|")])]), "  Lots of _ space and  _whacky |c$ara_cte>>rs|");
    assert_eq!(out_string(vec![cmd("capitalize", vec![lit_str("über CöÖl")])]), "Über CöÖl");
    assert_eq!(out_string(vec![cmd("capitalize", vec![lit_str("◌̈ubër Cööl")])]), "◌̈Ubër Cööl");
    assert_eq!(out_string(vec![cmd("capitalize", vec![lit_str("真是难以置信！")])]), "真是难以置信！");
}

#[test]
fn test_decapitalize() {
    assert_eq!(out_string(vec![cmd("decapitalize", vec![ident("my_"), ident("MixedCase"), ident("STRING"), ident("Which"), ident("is"), lit_str("  #awesome  "), punct('-'), ident("what"), ident("do"), ident("you"), ident("think"), punct('?')])]), "my_MixedCaseSTRINGWhichis  #awesome  -whatdoyouthink?");
    assert_eq!(out_string(vec![cmd("decapitalize", vec![ident("UPPER")])]), "uPPER");
    assert_eq!(out_string(vec![cmd("decapitalize", vec![ident("lower")])]), "lower");
    assert_eq!(out_string(vec![cmd("decapitalize", vec![ident("lower_snake_case")])]), "lower_snake_case");
    assert_eq!(out_string(vec![cmd("decapitalize", vec![ident("UPPER_SNAKE_CASE")])]), "uPPER_SNAKE_CASE");
    assert_eq!(out_string(vec![cmd("decapitalize", vec![ident("lowerCamelCase")])]), "lowerCamelCase");
    assert_eq!(out_string(vec![cmd("decapitalize", vec![ident("UpperCamelCase")])]), "upperCamelCase");
    assert_eq!(out_string(vec![cmd("decapitalize", vec![ident("Capitalized")])]), "capitalized");
    assert_eq!(out_string(vec![cmd("decapitalize", vec![lit_str("THEY SAID: A quick brown fox jumps over the lazy dog.")])]), "tHEY SAID: A quick brown fox jumps over the lazy dog.");
    assert_eq!(out_string(vec![cmd("decapitalize", vec![lit_str("hello_w🌍rld")])]), "hello_w🌍rld");
    assert_eq!(out_string(vec![cmd("decapitalize", vec![lit_str("kebab-case")])]), "kebab-case");
    assert_eq!(out_string(vec![cmd("decapitalize", vec![lit_str("~~h4xx0rZ <3 1337c0de")])]), "~~h4xx0rZ <3 1337c0de");
    assert_eq!(out_string(vec![cmd("decapitalize", vec![ident("PostgreSQLConnection")])]), "postgreSQLConnection");
    assert_eq!(out_string(vec![cmd("decapitalize", vec![ident("PostgreSqlConnection")])]), "postgreSqlConnection");
    assert_eq!(out_string(vec![cmd("decapitalize", vec![lit_str("U+000A LINE FEED (LF)")])]), "u+000A LINE FEED (LF)");
    assert_eq!(out_string(vec![cmd("decapitalize", vec![lit_str("\nThis\r\n is a\tmulti-line\nstring")])]), "\nthis\r\n is a\tmulti-line\nstring");
    assert_eq!(out_string(vec![cmd("decapitalize", vec![lit_str("  lots of _ space and  _whacky |c$ara_cte>>rs|")])]), "  lots of _ space and  _whacky |c$ara_cte>>rs|");
    assert_eq!(out_string(vec![cmd("decapitalize", vec![lit_str("über CöÖl")])]), "über CöÖl");
    assert_eq!(out_string(vec![cmd("decapitalize", vec![lit_str("◌̈ubër Cööl")])]), "◌̈ubër Cööl");
    assert_eq!(out_string(vec![cmd("decapitalize", vec![lit_str("真是难以置信！")])]), "真是难以置信！");
}

#[test]
fn test_title() {
    assert_eq!(out_string(vec![cmd("title", vec![ident("my_"), ident("MixedCase"), ident("STRING"), ident("Which"), ident("is"), lit_str("  #awesome  "), punct('-'), ident("what"), ident("do"), ident("you"), ident("think"), punct('?')])]), "My Mixed Case String Whichis Awesome Whatdoyouthink");
    assert_eq!(out_string(vec![cmd("title", vec![ident("UPPER")])]), "Upper");
    assert_eq!(out_string(vec![cmd("title", vec![ident("lower")])]), "Lower");
    assert_eq!(out_string(vec![cmd("title", vec![ident("lower_snake_case")])]), "Lower Snake Case");
    assert_eq!(out_string(vec![cmd("title", vec![ident("UPPER_SNAKE_CASE")])]), "Upper Snake Case");
    assert_eq!(out_string(vec![cmd("title", vec![ident("lowerCamelCase")])]), "Lower Camel Case");
    assert_eq!(out_string(vec![cmd("title", vec![ident("UpperCamelCase")])]), "Upper Camel Case");
    assert_eq!(out_string(vec![cmd("title", vec![ident("Capitalized")])]), "Capitalized");
    assert_eq!(out_string(vec![cmd("title", vec![lit_str("THEY SAID: A quick brown fox jumps over the lazy dog.")])]), "They Said A Quick Brown Fox Jumps Over The Lazy Dog");
    assert_eq!(out_string(vec![cmd("title", vec![lit_str("hello_w🌍rld")])]), "Hello W Rld");
    assert_eq!(out_string(vec![cmd("title", vec![lit_str("kebab-case")])]), "Kebab Case");
    assert_eq!(out_string(vec![cmd("title", vec![lit_str("~~h4xx0rZ <3 1337c0de")])]), "H4xx0r Z 3 1337c0de");
    assert_eq!(out_string(vec![cmd("title", vec![ident("PostgreSQLConnection")])]), "Postgre Sql Connection");
    assert_eq!(out_string(vec![cmd("title", vec![ident("PostgreSqlConnection")])]), "Postgre Sql Connection");
    assert_eq!(out_string(vec![cmd("title", vec![lit_str("U+000A LINE FEED (LF)")])]), "U 000a Line Feed Lf");
    assert_eq!(out_string(vec![cmd("title", vec![lit_str("\nThis\r\n is a\tmulti-line\nstring")])]), "This Is A Multi Line String");
    assert_eq!(out_string(vec![cmd("title", vec![lit_str("  lots of _ space and  _whacky |c$ara_cte>>rs|")])]), "Lots Of Space And Whacky C Ara Cte Rs");
    assert_eq!(out_string(vec![cmd("title", vec![lit_str("über CöÖl")])]), "Über Cö Öl");
    assert_eq!(out_string(vec![cmd("title", vec![lit_str("◌̈ubër Cööl")])]), "Ube R Cööl");
    assert_eq!(out_string(vec![cmd("title", vec![lit_str("真是难以置信！")])]), "真是难以置信");
}

#[test]
fn test_insert_spaces() {
    assert_eq!(out_string(vec![cmd("insert_spaces", vec![ident("my_"), ident("MixedCase"), ident("STRING"), ident("Which"), ident("is"), lit_str("  #awesome  "), punct('-'), ident("what"), ident("do"), ident("you"), ident("think"), punct('?')])]), "my_ Mixed Case STRING Whichis  # awesome  - whatdoyouthink?");
    assert_eq!(out_string(vec![cmd("insert_spaces", vec![ident("UPPER")])]), "UPPER");
    assert_eq!(out_string(vec![cmd("insert_spaces", vec![ident("lower")])]), "lower");
    assert_eq!(out_string(vec![cmd("insert_spaces", vec![ident("lower_snake_case")])]), "lower_ snake_ case");
    assert_eq!(out_string(vec![cmd("insert_spaces", vec![ident("UPPER_SNAKE_CASE")])]), "UPPER_ SNAKE_ CASE");
    assert_eq!(out_string(vec![cmd("insert_spaces", vec![ident("lowerCamelCase")])]), "lower Camel Case");
    assert_eq!(out_string(vec![cmd("insert_spaces", vec![ident("UpperCamelCase")])]), "Upper Camel Case");
    assert_eq!(out_string(vec![cmd("insert_spaces", vec![ident("Capitalized")])]), "Capitalized");
    assert_eq!(out_string(vec![cmd("insert_spaces", vec![lit_str("THEY SAID: A quick brown fox jumps over the lazy dog.")])]), "THEY  SAID:  A  quick  brown  fox  jumps  over  the  lazy  dog.");
    assert_eq!(out_string(vec![cmd("insert_spaces", vec![lit_str("hello_w🌍rld")])]), "hello_ w🌍 rld");
    assert_eq!(out_string(vec![cmd("insert_spaces", vec![lit_str("kebab-case")])]), "kebab- case");
    assert_eq!(out_string(vec![cmd("insert_spaces", vec![lit_str("~~h4xx0rZ <3 1337c0de")])]), "~~h4xx0r Z < 3  1337c0de");
    assert_eq!(out_string(vec![cmd("insert_spaces", vec![ident("PostgreSQLConnection")])]), "Postgre SQL Connection");
    assert_eq!(out_string(vec![cmd("insert_spaces", vec![ident("PostgreSqlConnection")])]), "Postgre Sql Connection");
    assert_eq!(out_string(vec![cmd("insert_spaces", vec![lit_str("U+000A LINE FEED (LF)")])]), "U+ 000A  LINE  FEED ( LF)");
    assert_eq!(out_string(vec![cmd("insert_spaces", vec![lit_str("\nThis\r\n is a\tmulti-line\nstring")])]), "\nThis\r\n  is  a\t multi- line\n string");
    assert_eq!(out_string(vec![cmd("insert_spaces", vec![lit_str("  lots of _ space and  _whacky |c$ara_cte>>rs|")])]), "  lots  of _  space  and  _ whacky | c$ ara_ cte>> rs|");
    assert_eq!(out_string(vec![cmd("insert_spaces", vec![lit_str("über CöÖl")])]), "über  Cö Öl");
    assert_eq!(out_string(vec![cmd("insert_spaces", vec![lit_str("◌̈ubër Cööl")])]), "◌̈ubë r  Cööl");
    assert_eq!(out_string(vec![cmd("insert_spaces", vec![lit_str("真是难以置信！")])]), "真是难以置信！");
}
