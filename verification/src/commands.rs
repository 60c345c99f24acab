//! The command registry: the closed set of command kinds, the resolution of
//! command names, and the concatenation step shared by every converting
//! command.

use vstd::prelude::*;

use crate::errors::{ErrV, Error};
use crate::string_conversion::{chars_of, string_from_chars};
use crate::token::{lemma_toks_view_index, lemma_toks_view_len, toks_view, Delim, TokView,
    Token};

verus! {

// ---------------------------------------------------------------------------
// The closed set of commands.
// ---------------------------------------------------------------------------
/// One registered command. The variant set is closed at build time and maps
/// 1:1 onto the registered name strings; the lower-snake conversion also
/// answers to the alternative spelling `snake_case`.
#[derive(Clone, Copy, PartialEq, Eq, Structural, Debug)]
pub enum CommandKind {
    SetCommand,
    RawCommand,
    IgnoreCommand,
    StringCommand,
    IdentCommand,
    IdentCamelCommand,
    IdentSnakeCommand,
    IdentUpperSnakeCommand,
    LiteralCommand,
    UpperCommand,
    LowerCommand,
    SnakeCommand,
    LowerSnakeCommand,
    UpperSnakeCommand,
    CamelCommand,
    LowerCamelCommand,
    UpperCamelCommand,
    KebabCommand,
    CapitalizeCommand,
    DecapitalizeCommand,
    TitleCommand,
    InsertSpacesCommand,
}

/// The static, total name-to-command mapping: `Some` exactly on the
/// registered names.
pub open spec fn kind_of_name(name: Seq<char>) -> Option<CommandKind> {
    if name == "set"@ {
        Some(CommandKind::SetCommand)
    } else if name == "raw"@ {
        Some(CommandKind::RawCommand)
    } else if name == "ignore"@ {
        Some(CommandKind::IgnoreCommand)
    } else if name == "string"@ {
        Some(CommandKind::StringCommand)
    } else if name == "ident"@ {
        Some(CommandKind::IdentCommand)
    } else if name == "ident_camel"@ {
        Some(CommandKind::IdentCamelCommand)
    } else if name == "ident_snake"@ {
        Some(CommandKind::IdentSnakeCommand)
    } else if name == "ident_upper_snake"@ {
        Some(CommandKind::IdentUpperSnakeCommand)
    } else if name == "literal"@ {
        Some(CommandKind::LiteralCommand)
    } else if name == "upper"@ {
        Some(CommandKind::UpperCommand)
    } else if name == "lower"@ {
        Some(CommandKind::LowerCommand)
    } else if name == "snake"@ || name == "snake_case"@ {
        Some(CommandKind::SnakeCommand)
    } else if name == "lower_snake"@ {
        Some(CommandKind::LowerSnakeCommand)
    } else if name == "upper_snake"@ {
        Some(CommandKind::UpperSnakeCommand)
    } else if name == "camel"@ {
        Some(CommandKind::CamelCommand)
    } else if name == "lower_camel"@ {
        Some(CommandKind::LowerCamelCommand)
    } else if name == "upper_camel"@ {
        Some(CommandKind::UpperCamelCommand)
    } else if name == "kebab"@ {
        Some(CommandKind::KebabCommand)
    } else if name == "capitalize"@ {
        Some(CommandKind::CapitalizeCommand)
    } else if name == "decapitalize"@ {
        Some(CommandKind::DecapitalizeCommand)
    } else if name == "title"@ {
        Some(CommandKind::TitleCommand)
    } else if name == "insert_spaces"@ {
        Some(CommandKind::InsertSpacesCommand)
    } else {
        None
    }
}

/// Relies on str's PartialEq: equality of the two character sequences.
#[verifier::external_body]
pub(crate) fn str_eq(a: &str, b: &str) -> (r: bool)
    ensures
        r == (a@ == b@),
{
    a == b
}

/// Resolves a command name; `None` exactly when the name is unregistered.
pub fn parse_supported_command_kind(ident: &str) -> (r: Option<CommandKind>)
    ensures
        r == kind_of_name(ident@),
{
    if str_eq(ident, "set") {
        Some(CommandKind::SetCommand)
    } else if str_eq(ident, "raw") {
        Some(CommandKind::RawCommand)
    } else if str_eq(ident, "ignore") {
        Some(CommandKind::IgnoreCommand)
    } else if str_eq(ident, "string") {
        Some(CommandKind::StringCommand)
    } else if str_eq(ident, "ident") {
        Some(CommandKind::IdentCommand)
    } else if str_eq(ident, "ident_camel") {
        Some(CommandKind::IdentCamelCommand)
    } else if str_eq(ident, "ident_snake") {
        Some(CommandKind::IdentSnakeCommand)
    } else if str_eq(ident, "ident_upper_snake") {
        Some(CommandKind::IdentUpperSnakeCommand)
    } else if str_eq(ident, "literal") {
        Some(CommandKind::LiteralCommand)
    } else if str_eq(ident, "upper") {
        Some(CommandKind::UpperCommand)
    } else if str_eq(ident, "lower") {
        Some(CommandKind::LowerCommand)
    } else if str_eq(ident, "snake") || str_eq(ident, "snake_case") {
        Some(CommandKind::SnakeCommand)
    } else if str_eq(ident, "lower_snake") {
        Some(CommandKind::LowerSnakeCommand)
    } else if str_eq(ident, "upper_snake") {
        Some(CommandKind::UpperSnakeCommand)
    } else if str_eq(ident, "camel") {
        Some(CommandKind::CamelCommand)
    } else if str_eq(ident, "lower_camel") {
        Some(CommandKind::LowerCamelCommand)
    } else if str_eq(ident, "upper_camel") {
        Some(CommandKind::UpperCamelCommand)
    } else if str_eq(ident, "kebab") {
        Some(CommandKind::KebabCommand)
    } else if str_eq(ident, "capitalize") {
        Some(CommandKind::CapitalizeCommand)
    } else if str_eq(ident, "decapitalize") {
        Some(CommandKind::DecapitalizeCommand)
    } else if str_eq(ident, "title") {
        Some(CommandKind::TitleCommand)
    } else if str_eq(ident, "insert_spaces") {
        Some(CommandKind::InsertSpacesCommand)
    } else {
        None
    }
}

/// The comma-separated list of every registered command name, for error
/// messages.
pub open spec fn all_command_names() -> Seq<char> {
    "set, raw, ignore, string, ident, ident_camel, ident_snake, ident_upper_snake, literal, upper, lower, snake, snake_case, lower_snake, upper_snake, camel, lower_camel, upper_camel, kebab, capitalize, decapitalize, title, insert_spaces"@
}

impl CommandKind {
    pub fn list_all() -> (r: String)
        ensures
            r@ == all_command_names(),
    {
        String::from_str(
            "set, raw, ignore, string, ident, ident_camel, ident_snake, ident_upper_snake, literal, upper, lower, snake, snake_case, lower_snake, upper_snake, camel, lower_camel, upper_camel, kebab, capitalize, decapitalize, title, insert_spaces",
        )
    }
}

// ---------------------------------------------------------------------------
// The trusted bridge to the literal and identifier parsers.
// ---------------------------------------------------------------------------
pub uninterp spec fn unquote_of(s: Seq<char>) -> Seq<char>;

/// Relies on syn's literal parser, `syn::parse_str::<syn::Lit>`, and on
/// `syn::LitStr::value` / `syn::LitChar::value`: for the source text of a
/// string or character literal, the quoted content; for any other text, the
/// text itself. A pure function of the text.
#[verifier::external_body]
pub(crate) fn unquote_literal(text: &str) -> (r: String)
    ensures
        r@ == unquote_of(text@),
{
    match syn::parse_str::<syn::Lit>(text) {
        Ok(syn::Lit::Str(lit_str)) => lit_str.value(),
        Ok(syn::Lit::Char(lit_char)) => String::from(lit_char.value()),
        _ => String::from(text),
    }
}

pub uninterp spec fn quote_of(s: Seq<char>) -> Seq<char>;

/// Relies on `proc_macro2::Literal::string` and its `Display` impl: the
/// source form of a string literal with the given content, and (with
/// `syn::LitStr::value`, which unescapes what `Literal::string` escaped)
/// unquoting it gives the content back. A pure function of the content.
#[verifier::external_body]
pub(crate) fn quote_string(value: &str) -> (r: String)
    ensures
        r@ == quote_of(value@),
        unquote_of(r@) == value@,
{
    proc_macro2::Literal::string(value).to_string()
}

pub uninterp spec fn ident_parse_of(s: Seq<char>) -> Result<Seq<char>, Seq<char>>;

/// Relies on `syn::parse_str::<proc_macro2::Ident>`, `Ident`'s `Display`
/// impl and `syn::Error`'s `Display` impl: whether the text is a legal
/// identifier, and its spelling — or the parser's diagnostic. A pure
/// function of the text.
#[verifier::external_body]
pub(crate) fn parse_ident_text(text: &str) -> (r: Result<String, String>)
    ensures
        r is Ok <==> ident_parse_of(text@) is Ok,
        r matches Ok(t) ==> (ident_parse_of(text@) matches Ok(spelling) && spelling == t@),
        r matches Err(m) ==> (ident_parse_of(text@) matches Err(diagnostic) && diagnostic == m@),
{
    match syn::parse_str::<proc_macro2::Ident>(text) {
        Ok(ident) => Ok(ident.to_string()),
        Err(error) => Err(error.to_string()),
    }
}

pub uninterp spec fn lit_parse_of(s: Seq<char>) -> Result<Seq<char>, Seq<char>>;

/// Relies on `proc_macro2::Literal`'s `FromStr` impl and the `Display` impls
/// of `Literal` and `LexError`: whether the text is a legal literal, and its
/// source form — or the lexer's diagnostic. A pure function of the text.
#[verifier::external_body]
pub(crate) fn parse_literal_text(text: &str) -> (r: Result<String, String>)
    ensures
        r is Ok <==> lit_parse_of(text@) is Ok,
        r matches Ok(t) ==> (lit_parse_of(text@) matches Ok(source) && source == t@),
        r matches Err(m) ==> (lit_parse_of(text@) matches Err(diagnostic) && diagnostic == m@),
{
    match <proc_macro2::Literal as core::str::FromStr>::from_str(text) {
        Ok(lit) => Ok(lit.to_string()),
        Err(error) => Err(error.to_string()),
    }
}

/// Builds a string-literal token holding `value`, at `span`.
pub fn string_literal(value: &str, span: usize) -> (t: Token)
    ensures
        t@ == (TokView::Literal { text: quote_of(value@), span: span as nat }),
{
    Token::Literal { text: quote_string(value), span }
}

/// Re-parses `value` as a generic literal and builds the literal token, or
/// reports exactly which text failed, with the lexer's diagnostic.
pub fn parse_literal(value: &str, span: usize) -> (r: Result<Token, Error>)
    ensures
        match r {
            Ok(t) => lit_parse_of(value@) matches Ok(text) && t@ == (TokView::Literal {
                text,
                span: span as nat,
            }),
            Err(e) => lit_parse_of(value@) matches Err(message) && e@ == (
            ErrV::InvalidLiteralText { text: value@, message, span: span as nat }),
        },
{
    match parse_literal_text(value) {
        Ok(text) => Ok(Token::Literal { text, span }),
        Err(message) => Err(
            Error::InvalidLiteralText { text: value.to_owned(), message, span },
        ),
    }
}

/// Re-validates `value` as a legal identifier and builds the identifier
/// token, or reports exactly which text failed, with the parser's
/// diagnostic.
pub fn parse_ident(value: &str, span: usize) -> (r: Result<Token, Error>)
    ensures
        match r {
            Ok(t) => ident_parse_of(value@) matches Ok(text) && t@ == (TokView::Ident {
                text,
                span: span as nat,
            }),
            Err(e) => ident_parse_of(value@) matches Err(message) && e@ == (
            ErrV::InvalidIdentifierText { text: value@, message, span: span as nat }),
        },
{
    match parse_ident_text(value) {
        Ok(text) => Ok(Token::Ident { text, span }),
        Err(message) => Err(
            Error::InvalidIdentifierText { text: value.to_owned(), message, span },
        ),
    }
}

// ---------------------------------------------------------------------------
// Concatenating a token stream to one string.
// ---------------------------------------------------------------------------
pub open spec fn delim_open(d: Delim) -> Seq<char> {
    match d {
        Delim::Paren => seq!['('],
        Delim::Brace => seq!['{'],
        Delim::Bracket => seq!['['],
        Delim::Invisible => Seq::empty(),
    }
}

pub open spec fn delim_close(d: Delim) -> Seq<char> {
    match d {
        Delim::Paren => seq![')'],
        Delim::Brace => seq!['}'],
        Delim::Bracket => seq![']'],
        Delim::Invisible => Seq::empty(),
    }
}

/// What one token contributes to a concatenation: identifiers and punctuation
/// verbatim, literals unquoted, groups flattened with their bracket
/// characters re-inserted.
pub open spec fn tok_concat(t: TokView) -> Seq<char>
    decreases t,
{
    match t {
        TokView::Ident { text, .. } => text,
        TokView::Punct { ch, .. } => seq![ch],
        TokView::Literal { text, .. } => unquote_of(text),
        TokView::Group { delim, tokens, .. } => delim_open(delim) + stream_concat(tokens)
            + delim_close(delim),
    }
}

pub open spec fn stream_concat(ts: Seq<TokView>) -> Seq<char>
    decreases ts,
{
    if ts.len() == 0 {
        Seq::empty()
    } else {
        tok_concat(ts[0]) + stream_concat(ts.drop_first())
    }
}

pub proof fn lemma_stream_concat_push(ts: Seq<TokView>, t: TokView)
    ensures
        stream_concat(ts.push(t)) == stream_concat(ts) + tok_concat(t),
    decreases ts,
{
    if ts.len() == 0 {
        assert(ts.push(t)[0] == t);
        assert(ts.push(t).drop_first() =~= Seq::<TokView>::empty());
        assert(stream_concat(ts) + tok_concat(t) =~= tok_concat(t));
        assert(stream_concat(ts.push(t)) =~= tok_concat(t) + stream_concat(Seq::empty()));
        assert(tok_concat(t) + stream_concat(Seq::<TokView>::empty()) =~= tok_concat(t));
    } else {
        assert(ts.push(t)[0] == ts[0]);
        assert(ts.push(t).drop_first() =~= ts.drop_first().push(t));
        lemma_stream_concat_push(ts.drop_first(), t);
        assert(stream_concat(ts.push(t)) == tok_concat(ts[0]) + (stream_concat(ts.drop_first())
            + tok_concat(t)));
        assert(tok_concat(ts[0]) + (stream_concat(ts.drop_first()) + tok_concat(t)) =~= (tok_concat(
            ts[0],
        ) + stream_concat(ts.drop_first())) + tok_concat(t));
    }
}

/// Concatenates the tokens of a fully evaluated stream into one string.
pub fn concat_recursive(arguments: &Vec<Token>) -> (r: String)
    ensures
        r@ == stream_concat(toks_view(arguments@)),
{
    let mut output: Vec<char> = Vec::new();
    concat_recursive_internal(&mut output, arguments);
    string_from_chars(&output)
}

fn concat_recursive_internal(output: &mut Vec<char>, arguments: &Vec<Token>)
    ensures
        final(output)@ == old(output)@ + stream_concat(toks_view(arguments@)),
    decreases arguments@,
{
    let ghost all = toks_view(arguments@);
    proof {
        lemma_toks_view_len(arguments@);
    }
    let mut i: usize = 0;
    while i < arguments.len()
        invariant
            i <= arguments@.len(),
            all == toks_view(arguments@),
            all.len() == arguments@.len(),
            output@ == old(output)@ + stream_concat(all.take(i as int)),
        decreases arguments@.len() - i,
    {
        proof {
            lemma_toks_view_index(arguments@, i as int);
            assert(all.take(i as int + 1) =~= all.take(i as int).push(all[i as int]));
            lemma_stream_concat_push(all.take(i as int), all[i as int]);
            vstd::seq::axiom_seq_index_decreases(arguments@, i as int);
        }
        match &arguments[i] {
            Token::Ident { text, .. } => {
                let mut cs = chars_of(text.as_str());
                output.append(&mut cs);
            },
            Token::Punct { ch, .. } => {
                output.push(*ch);
            },
            Token::Literal { text, .. } => {
                let unquoted = unquote_literal(text.as_str());
                let mut cs = chars_of(unquoted.as_str());
                output.append(&mut cs);
            },
            Token::Group { delim, tokens, .. } => {
                match delim {
                    Delim::Paren => output.push('('),
                    Delim::Brace => output.push('{'),
                    Delim::Bracket => output.push('['),
                    Delim::Invisible => {},
                }
                concat_recursive_internal(output, tokens);
                match delim {
                    Delim::Paren => output.push(')'),
                    Delim::Brace => output.push('}'),
                    Delim::Bracket => output.push(']'),
                    Delim::Invisible => {},
                }
            },
        }
        i = i + 1;
    }
    proof {
        assert(all.take(arguments@.len() as int) =~= all);
    }
}

} // verus!
