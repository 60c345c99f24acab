//! The mathematical semantics of evaluation: a big-step, depth-first,
//! left-to-right evaluator over modelled token streams. The executable
//! interpreter is proved to return exactly what this evaluator says.

use vstd::prelude::*;

use crate::commands::{ident_parse_of, kind_of_name, lit_parse_of, quote_of, stream_concat,
    CommandKind};
use crate::errors::ErrV;
use crate::string_conversion::{spec_capitalize, spec_decapitalize, spec_insert_spaces,
    spec_lower_camel, spec_lower_kebab, spec_lower_snake, spec_title, spec_upper_camel,
    spec_upper_snake, str_lower_of, str_upper_of};
use crate::token::{Delim, TokView};

verus! {

/// The variable store, modelled as a mapping from names to token streams.
pub type StoreV = Map<Seq<char>, Seq<TokView>>;

/// What evaluating a stream yields: the output stream and the store after it,
/// or the error that aborted everything.
pub type EvalR = Result<(Seq<TokView>, StoreV), ErrV>;

// ---------------------------------------------------------------------------
// Sizes, for termination.
// ---------------------------------------------------------------------------
pub open spec fn tok_size(t: TokView) -> nat
    decreases t,
{
    match t {
        TokView::Group { tokens, .. } => 2 + stream_size(tokens),
        _ => 1,
    }
}

pub open spec fn stream_size(ts: Seq<TokView>) -> nat
    decreases ts,
{
    if ts.len() == 0 {
        0
    } else {
        tok_size(ts[0]) + stream_size(ts.drop_first())
    }
}

pub proof fn lemma_tok_size_pos(t: TokView)
    ensures
        tok_size(t) >= 1,
{
}

pub proof fn lemma_stream_size_skip(ts: Seq<TokView>, k: int)
    requires
        0 <= k <= ts.len(),
    ensures
        stream_size(ts.skip(k)) + k <= stream_size(ts),
    decreases k,
{
    if k > 0 {
        lemma_tok_size_pos(ts[0]);
        assert(ts.skip(k) =~= ts.drop_first().skip(k - 1));
        lemma_stream_size_skip(ts.drop_first(), k - 1);
    } else {
        assert(ts.skip(0) =~= ts);
    }
}

// ---------------------------------------------------------------------------
// Recognition: how the head of a stream is classified.
// ---------------------------------------------------------------------------
/// The cheap probe for the command shape: a bracketed group whose stream
/// starts `! <identifier>`. Yields the name and what follows it.
pub open spec fn command_start(t: TokView) -> Option<(Seq<char>, Seq<TokView>)> {
    match t {
        TokView::Group { delim, tokens: inner, .. } => {
            if delim == Delim::Bracket && inner.len() >= 2 {
                match (inner[0], inner[1]) {
                    (TokView::Punct { ch, .. }, TokView::Ident { text, .. }) => if ch == '!' {
                        Some((text, inner.skip(2)))
                    } else {
                        None
                    },
                    _ => None,
                }
            } else {
                None
            }
        },
        _ => None,
    }
}

/// The `#<identifier> =` prefix that an assignment argument must start with.
/// Yields the variable name and the tokens after the `=`.
pub open spec fn set_prefix(args: Seq<TokView>) -> Option<(Seq<char>, Seq<TokView>)> {
    if args.len() >= 3 && (args[0] matches TokView::Punct { ch: '#', .. }) && (
    args[2] matches TokView::Punct { ch: '=', .. }) {
        match args[1] {
            TokView::Ident { text, .. } => Some((text, args.skip(3))),
            _ => None,
        }
    } else {
        None
    }
}

/// The classification of the next item of a stream.
pub enum HeadItem {
    /// A well-formed invocation of a registered command.
    Cmd { kind: CommandKind, args: Seq<TokView>, span: nat },
    /// The command probe matched, but the name is unregistered or the closing
    /// `!` is missing: a hard error, never plain text.
    CmdErr { name: Seq<char>, span: nat },
    /// A variable reference: `#` immediately followed by an identifier.
    Subst { name: Seq<char>, name_span: nat },
    /// A group that is not a command: evaluated recursively, then re-wrapped.
    Nested { delim: Delim, inner: Seq<TokView>, span: nat },
    /// Any other leaf: copied unchanged.
    Plain,
    End,
}

pub open spec fn classify_head(ts: Seq<TokView>) -> HeadItem {
    if ts.len() == 0 {
        HeadItem::End
    } else {
        match ts[0] {
            TokView::Group { delim, tokens: inner, span } => match command_start(ts[0]) {
                Some((name, rest)) => match kind_of_name(name) {
                    Some(kind) => if rest.len() >= 1 && (rest[0] matches TokView::Punct {
                        ch: '!',
                        ..
                    }) {
                        HeadItem::Cmd { kind, args: rest.skip(1), span }
                    } else {
                        HeadItem::CmdErr { name, span }
                    },
                    None => HeadItem::CmdErr { name, span },
                },
                None => HeadItem::Nested { delim, inner, span },
            },
            TokView::Punct { ch, .. } => {
                if ch == '#' && ts.len() >= 2 {
                    match ts[1] {
                        TokView::Ident { text, span } => HeadItem::Subst {
                            name: text,
                            name_span: span,
                        },
                        _ => HeadItem::Plain,
                    }
                } else {
                    HeadItem::Plain
                }
            },
            _ => HeadItem::Plain,
        }
    }
}

// ---------------------------------------------------------------------------
// The evaluator.
// ---------------------------------------------------------------------------
pub open spec fn compose(prefix: Seq<TokView>, r: EvalR) -> EvalR {
    match r {
        Ok((out, store)) => Ok((prefix + out, store)),
        Err(e) => Err(e),
    }
}

/// What a concatenating command makes of its concatenated argument string.
pub open spec fn converted(kind: CommandKind, s: Seq<char>, span: nat) -> Result<TokView, ErrV> {
    match kind {
        CommandKind::StringCommand => Ok(TokView::Literal { text: quote_of(s), span }),
        CommandKind::IdentCommand => ident_converted(s, span),
        CommandKind::IdentCamelCommand => ident_converted(spec_upper_camel(s), span),
        CommandKind::IdentSnakeCommand => ident_converted(spec_lower_snake(s), span),
        CommandKind::IdentUpperSnakeCommand => ident_converted(spec_upper_snake(s), span),
        CommandKind::LiteralCommand => match lit_parse_of(s) {
            Ok(text) => Ok(TokView::Literal { text, span }),
            Err(message) => Err(ErrV::InvalidLiteralText { text: s, message, span }),
        },
        CommandKind::UpperCommand => string_lit_of(str_upper_of(s), span),
        CommandKind::LowerCommand => string_lit_of(str_lower_of(s), span),
        CommandKind::SnakeCommand => string_lit_of(spec_lower_snake(s), span),
        CommandKind::LowerSnakeCommand => string_lit_of(spec_lower_snake(s), span),
        CommandKind::UpperSnakeCommand => string_lit_of(spec_upper_snake(s), span),
        CommandKind::CamelCommand => string_lit_of(spec_upper_camel(s), span),
        CommandKind::LowerCamelCommand => string_lit_of(spec_lower_camel(s), span),
        CommandKind::UpperCamelCommand => string_lit_of(spec_upper_camel(s), span),
        CommandKind::KebabCommand => string_lit_of(spec_lower_kebab(s), span),
        CommandKind::CapitalizeCommand => string_lit_of(spec_capitalize(s), span),
        CommandKind::DecapitalizeCommand => string_lit_of(spec_decapitalize(s), span),
        CommandKind::TitleCommand => string_lit_of(spec_title(s), span),
        CommandKind::InsertSpacesCommand => string_lit_of(spec_insert_spaces(s), span),
        // The three core commands never concatenate; they are handled before
        // this function is reached.
        CommandKind::SetCommand => arbitrary(),
        CommandKind::RawCommand => arbitrary(),
        CommandKind::IgnoreCommand => arbitrary(),
    }
}

pub open spec fn string_lit_of(text: Seq<char>, span: nat) -> Result<TokView, ErrV> {
    Ok(TokView::Literal { text: quote_of(text), span })
}

pub open spec fn ident_converted(text: Seq<char>, span: nat) -> Result<TokView, ErrV> {
    match ident_parse_of(text) {
        Ok(spelling) => Ok(TokView::Ident { text: spelling, span }),
        Err(message) => Err(ErrV::InvalidIdentifierText { text, message, span }),
    }
}

/// Evaluates a whole stream under a store: items in order, depth first, the
/// store threaded left to right, any error aborting everything.
pub open spec fn eval_stream(store: StoreV, ts: Seq<TokView>) -> EvalR
    decreases stream_size(ts), 0int,
    via eval_stream_decreases
{
    match classify_head(ts) {
        HeadItem::End => Ok((Seq::empty(), store)),
        HeadItem::Cmd { kind, args, span } => match eval_command(store, kind, args, span) {
            Ok((out, store2)) => compose(out, eval_stream(store2, ts.drop_first())),
            Err(e) => Err(e),
        },
        HeadItem::CmdErr { name, span } => Err(ErrV::UnknownCommand { name, span }),
        HeadItem::Subst { name, name_span } => if store.contains_key(name) {
            compose(store[name], eval_stream(store, ts.skip(2)))
        } else {
            Err(ErrV::UndefinedVariable { name, span: name_span })
        },
        HeadItem::Nested { delim, inner, span } => match eval_stream(store, inner) {
            Ok((out_inner, store2)) => compose(
                seq![TokView::Group { delim, tokens: out_inner, span }],
                eval_stream(store2, ts.drop_first()),
            ),
            Err(e) => Err(e),
        },
        HeadItem::Plain => compose(seq![ts[0]], eval_stream(store, ts.drop_first())),
    }
}

/// Executes one command on its raw argument stream. Every command except the
/// raw passthrough first evaluates its argument eagerly; only `set` writes to
/// the store.
pub open spec fn eval_command(store: StoreV, kind: CommandKind, args: Seq<TokView>, span: nat) -> EvalR
    decreases stream_size(args), 1int,
    via eval_command_decreases
{
    match kind {
        CommandKind::SetCommand => match set_prefix(args) {
            Some((name, rhs)) => match eval_stream(store, rhs) {
                Ok((out, store2)) => Ok((Seq::empty(), store2.insert(name, out))),
                Err(e) => Err(e),
            },
            None => Err(ErrV::MalformedAssignment { span }),
        },
        CommandKind::RawCommand => Ok((args, store)),
        CommandKind::IgnoreCommand => Ok((Seq::empty(), store)),
        _ => match eval_stream(store, args) {
            Ok((out, store2)) => match converted(kind, stream_concat(out), span) {
                Ok(tok) => Ok((seq![tok], store2)),
                Err(e) => Err(e),
            },
            Err(e) => Err(e),
        },
    }
}

#[via_fn]
proof fn eval_stream_decreases(store: StoreV, ts: Seq<TokView>) {
    if ts.len() > 0 {
        lemma_tok_size_pos(ts[0]);
        if ts.len() >= 2 {
            lemma_stream_size_skip(ts, 2);
        }
        match ts[0] {
            TokView::Group { tokens: inner, .. } => {
                assert(stream_size(ts) >= tok_size(ts[0]));
                assert(tok_size(ts[0]) == 2 + stream_size(inner));
                if inner.len() >= 2 {
                    lemma_stream_size_skip(inner, 2);
                    let rest = inner.skip(2);
                    if rest.len() >= 1 {
                        lemma_stream_size_skip(rest, 1);
                    }
                }
            },
            _ => {},
        }
    }
}

#[via_fn]
proof fn eval_command_decreases(store: StoreV, kind: CommandKind, args: Seq<TokView>, span: nat) {
    if set_prefix(args) is Some {
        lemma_stream_size_skip(args, 3);
    }
}

/// How much smaller than the whole stream each classified part is: what the
/// interpreter's recursion and loop decrease by.
pub proof fn lemma_classify_sizes(ts: Seq<TokView>)
    ensures
        classify_head(ts) is End <==> ts.len() == 0,
        ts.len() > 0 ==> stream_size(ts.drop_first()) < stream_size(ts),
        classify_head(ts) matches HeadItem::Cmd { args, .. } ==> stream_size(args) < stream_size(
            ts,
        ),
        classify_head(ts) matches HeadItem::Nested { inner, .. } ==> stream_size(inner)
            < stream_size(ts),
        classify_head(ts) is Subst ==> stream_size(ts.skip(2)) < stream_size(ts),
{
    if ts.len() > 0 {
        lemma_tok_size_pos(ts[0]);
        if ts.len() >= 2 {
            lemma_stream_size_skip(ts, 2);
        }
        match ts[0] {
            TokView::Group { tokens: inner, .. } => {
                assert(stream_size(ts) >= tok_size(ts[0]));
                assert(tok_size(ts[0]) == 2 + stream_size(inner));
                if inner.len() >= 2 {
                    lemma_stream_size_skip(inner, 2);
                    let rest = inner.skip(2);
                    if rest.len() >= 1 {
                        lemma_stream_size_skip(rest, 1);
                    }
                }
            },
            _ => {},
        }
    }
}

// ---------------------------------------------------------------------------
// Composition facts the interpreter loop rests on.
// ---------------------------------------------------------------------------
pub proof fn lemma_compose_assoc(a: Seq<TokView>, b: Seq<TokView>, r: EvalR)
    ensures
        compose(a, compose(b, r)) == compose(a + b, r),
{
    match r {
        Ok((out, store)) => {
            assert(a + (b + out) =~= (a + b) + out);
        },
        Err(e) => {},
    }
}

pub proof fn lemma_compose_empty(r: EvalR)
    ensures
        compose(Seq::empty(), r) == r,
{
    match r {
        Ok((out, store)) => {
            assert(Seq::<TokView>::empty() + out =~= out);
        },
        Err(e) => {},
    }
}

} // verus!
