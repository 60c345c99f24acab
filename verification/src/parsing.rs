//! The grammar recognizer: a peekable cursor over a token stream and the
//! staged, speculative matching of command invocations and variable
//! references. Every "consume if" operation is atomic: on a mismatch it
//! consumes nothing.

use vstd::prelude::*;

use crate::commands::{kind_of_name, parse_supported_command_kind, CommandKind};
use crate::errors::{ErrV, Error};
use crate::semantics::{classify_head, command_start, set_prefix, HeadItem};
use crate::token::{clone_tokens, lemma_toks_view_index, lemma_toks_view_len, tok_span,
    token_span, toks_view, Delim, TokView, Token};

verus! {

/// A cursor over a token stream: non-destructive lookahead, explicit
/// consumption.
pub struct Tokens {
    pub toks: Vec<Token>,
    pub pos: usize,
}

impl Tokens {
    pub open spec fn wf(&self) -> bool {
        self.pos <= self.toks@.len()
    }

    /// The stream still ahead of the cursor.
    pub open spec fn remaining(&self) -> Seq<TokView> {
        toks_view(self.toks@).skip(self.pos as int)
    }

    pub fn new(tokens: Vec<Token>) -> (r: Tokens)
        ensures
            r.wf(),
            r.remaining() == toks_view(tokens@),
    {
        let r = Tokens { toks: tokens, pos: 0 };
        proof {
            assert(r.remaining() =~= toks_view(r.toks@));
        }
        r
    }

    pub fn peek(&self) -> (r: Option<&Token>)
        requires
            self.wf(),
        ensures
            match r {
                Some(t) => self.remaining().len() > 0 && t@ == self.remaining()[0],
                None => self.remaining().len() == 0,
            },
    {
        proof {
            lemma_toks_view_len(self.toks@);
        }
        if self.pos < self.toks.len() {
            proof {
                lemma_toks_view_index(self.toks@, self.pos as int);
            }
            Some(&self.toks[self.pos])
        } else {
            None
        }
    }

    pub fn next(&mut self) -> (r: Option<Token>)
        requires
            old(self).wf(),
        ensures
            final(self).wf(),
            final(self).toks == old(self).toks,
            match r {
                Some(t) => old(self).remaining().len() > 0 && t@ == old(self).remaining()[0]
                    && final(self).remaining() == old(self).remaining().drop_first(),
                None => old(self).remaining().len() == 0 && *final(self) == *old(self),
            },
    {
        proof {
            lemma_toks_view_len(self.toks@);
        }
        if self.pos < self.toks.len() {
            proof {
                lemma_toks_view_index(self.toks@, self.pos as int);
                assert(toks_view(self.toks@).skip(self.pos as int + 1) =~= toks_view(
                    self.toks@,
                ).skip(self.pos as int).drop_first());
            }
            let t = self.toks[self.pos].clone();
            self.pos = self.pos + 1;
            Some(t)
        } else {
            None
        }
    }

    /// Collects everything still ahead of the cursor, unevaluated.
    pub fn into_token_stream(self) -> (r: Vec<Token>)
        requires
            self.wf(),
        ensures
            toks_view(r@) == self.remaining(),
    {
        let Tokens { toks, pos } = self;
        let mut out: Vec<Token> = Vec::new();
        let mut i: usize = pos;
        proof {
            lemma_toks_view_len(toks@);
        }
        while i < toks.len()
            invariant
                pos <= i <= toks@.len(),
                toks_view(toks@).len() == toks@.len(),
                toks_view(out@) == toks_view(toks@).subrange(pos as int, i as int),
            decreases toks@.len() - i,
        {
            proof {
                lemma_toks_view_index(toks@, i as int);
                vstd::seq::axiom_seq_index_decreases(toks@, i as int);
            }
            let t = toks[i].clone();
            proof {
                crate::token::lemma_toks_view_push(out@, t);
                assert(toks_view(toks@).subrange(pos as int, i as int).push(
                    toks_view(toks@)[i as int],
                ) =~= toks_view(toks@).subrange(pos as int, i as int + 1));
            }
            out.push(t);
            i = i + 1;
        }
        proof {
            assert(toks_view(toks@).subrange(pos as int, toks@.len() as int) =~= toks_view(
                toks@,
            ).skip(pos as int));
        }
        out
    }
}

// ---------------------------------------------------------------------------
// Atomic "consume if" helpers.
// ---------------------------------------------------------------------------
/// Consumes the next token only if it is the punctuation `ch`; returns its
/// span. Zero tokens are consumed on a mismatch.
pub fn consume_if_punct_matching(tokens: &mut Tokens, ch: char) -> (r: Option<usize>)
    requires
        old(tokens).wf(),
    ensures
        final(tokens).wf(),
        final(tokens).toks == old(tokens).toks,
        match r {
            Some(sp) => old(tokens).remaining().len() > 0 && old(tokens).remaining()[0] == (
            TokView::Punct { ch, span: sp as nat }) && final(tokens).remaining() == old(
                tokens,
            ).remaining().drop_first(),
            None => *final(tokens) == *old(tokens) && !(old(tokens).remaining().len() > 0 && (old(
                tokens,
            ).remaining()[0] matches TokView::Punct { ch: c, .. } && c == ch)),
        },
{
    let matched: Option<usize> = match tokens.peek() {
        Some(t) => match t {
            Token::Punct { ch: c, span } => if *c == ch {
                Some(*span)
            } else {
                None
            },
            _ => None,
        },
        None => None,
    };
    match matched {
        Some(sp) => {
            tokens.next();
            Some(sp)
        },
        None => None,
    }
}

/// Consumes the next token only if it is an identifier; returns its text and
/// span. Zero tokens are consumed on a mismatch.
pub fn consume_if_ident(tokens: &mut Tokens) -> (r: Option<(String, usize)>)
    requires
        old(tokens).wf(),
    ensures
        final(tokens).wf(),
        final(tokens).toks == old(tokens).toks,
        match r {
            Some(id) => old(tokens).remaining().len() > 0 && old(tokens).remaining()[0] == (
            TokView::Ident { text: id.0@, span: id.1 as nat }) && final(tokens).remaining() == old(
                tokens,
            ).remaining().drop_first(),
            None => *final(tokens) == *old(tokens) && !(old(tokens).remaining().len() > 0 && old(
                tokens,
            ).remaining()[0] is Ident),
        },
{
    let is_ident: bool = match tokens.peek() {
        Some(t) => match t {
            Token::Ident { .. } => true,
            _ => false,
        },
        None => false,
    };
    if is_ident {
        match tokens.next() {
            Some(Token::Ident { text, span }) => Some((text, span)),
            _ => None,
        }
    } else {
        None
    }
}

/// Consumes the `#<identifier> =` prefix of an assignment argument; returns
/// the variable name. On a mismatch the prefix may be partially consumed, but
/// the caller reports an error and discards the cursor.
pub fn consume_set_statement(tokens: &mut Tokens) -> (r: Option<String>)
    requires
        old(tokens).wf(),
    ensures
        final(tokens).wf(),
        final(tokens).toks == old(tokens).toks,
        match r {
            Some(name) => set_prefix(old(tokens).remaining()) matches Some(p) && p.0 == name@
                && final(tokens).remaining() == p.1,
            None => set_prefix(old(tokens).remaining()) is None,
        },
{
    let ghost rem = old(tokens).remaining();
    let marker = consume_if_punct_matching(tokens, '#');
    if marker.is_none() {
        return None;
    }
    let ident = consume_if_ident(tokens);
    let name = match ident {
        Some(id) => id.0,
        None => {
            return None;
        },
    };
    let eq = consume_if_punct_matching(tokens, '=');
    if eq.is_none() {
        return None;
    }
    proof {
        assert(rem.drop_first().drop_first().drop_first() =~= rem.skip(3));
        assert(rem.drop_first()[0] == rem[1]);
        assert(rem.drop_first().drop_first()[0] == rem[2]);
    }
    Some(name)
}

/// The cheap probe for a command: a bracketed group whose stream starts
/// `! <identifier>`. On a match, returns the name and a cursor over what
/// follows it; otherwise the group is left for ordinary recursive
/// evaluation.
pub fn consume_if_command_start(group: &Token) -> (r: Option<(String, Tokens)>)
    ensures
        match r {
            Some(pair) => command_start(group@) matches Some(c) && c.0 == pair.0@ && pair.1.wf()
                && pair.1.remaining() == c.1,
            None => command_start(group@) is None,
        },
{
    let (delim, inner): (&Delim, &Vec<Token>) = match group {
        Token::Group { delim, tokens, .. } => (delim, tokens),
        _ => {
            return None;
        },
    };
    if !matches!(delim, Delim::Bracket) {
        return None;
    }
    let mut group_tokens = Tokens::new(clone_tokens(inner));
    let ghost inner_views = toks_view(inner@);
    let bang = consume_if_punct_matching(&mut group_tokens, '!');
    if bang.is_none() {
        proof {
            if inner_views.len() >= 2 {
                assert(inner_views[0] == group_tokens.remaining()[0]);
            }
        }
        return None;
    }
    let ident = consume_if_ident(&mut group_tokens);
    match ident {
        Some(id) => {
            proof {
                assert(inner_views[0] is Punct);
                assert(inner_views.drop_first()[0] == inner_views[1]);
                assert(inner_views.drop_first().drop_first() =~= inner_views.skip(2));
            }
            Some((id.0, group_tokens))
        },
        None => {
            proof {
                if inner_views.len() >= 2 {
                    assert(inner_views.drop_first()[0] == inner_views[1]);
                }
            }
            None
        },
    }
}

/// Once the probe has matched, checks that the name is registered and that
/// the closing `!` follows. `None` here is a hard error at the caller.
pub fn consume_command_end(command_ident: &str, tokens: &mut Tokens) -> (r: Option<CommandKind>)
    requires
        old(tokens).wf(),
    ensures
        final(tokens).wf(),
        final(tokens).toks == old(tokens).toks,
        match r {
            Some(kind) => kind_of_name(command_ident@) == Some(kind) && old(
                tokens,
            ).remaining().len() > 0 && (old(tokens).remaining()[0] matches TokView::Punct {
                ch: '!',
                ..
            }) && final(tokens).remaining() == old(tokens).remaining().drop_first(),
            None => *final(tokens) == *old(tokens) && (kind_of_name(command_ident@) is None || !(old(
                tokens,
            ).remaining().len() > 0 && (old(tokens).remaining()[0] matches TokView::Punct {
                ch: '!',
                ..
            }))),
        },
{
    let command_kind = match parse_supported_command_kind(command_ident) {
        Some(kind) => kind,
        None => {
            return None;
        },
    };
    match consume_if_punct_matching(tokens, '!') {
        Some(_sp) => Some(command_kind),
        None => None,
    }
}

// ---------------------------------------------------------------------------
// The classified next item.
// ---------------------------------------------------------------------------
/// A resolved command invocation: the kind, the raw argument stream, and the
/// span of the whole `[!name! ...]` group.
pub struct CommandInvocation {
    pub command_kind: CommandKind,
    pub argument_stream: Tokens,
    pub command_span: usize,
}

impl CommandInvocation {
    pub fn new(command_kind: CommandKind, group: &Token, argument_tokens: Tokens) -> (r: Self)
        ensures
            r.command_kind == command_kind,
            r.argument_stream == argument_tokens,
            r.command_span as nat == tok_span(group@),
    {
        CommandInvocation { command_kind, argument_stream: argument_tokens, command_span: token_span(
            group,
        ) }
    }
}

/// A variable reference: the marker punctuation and the identifier
/// immediately after it.
pub struct VariableSubstitution {
    pub marker: char,
    pub variable_name: String,
    pub name_span: usize,
}

impl VariableSubstitution {
    pub fn new(marker: char, variable_name: String, name_span: usize) -> (r: Self)
        ensures
            r.marker == marker,
            r.variable_name == variable_name,
            r.name_span == name_span,
    {
        VariableSubstitution { marker, variable_name, name_span }
    }
}

pub enum NextItem {
    CommandInvocation(CommandInvocation),
    VariableSubstitution(VariableSubstitution),
    Group(Token),
    Leaf(Token),
    EndOfStream,
}

fn consume_if_command_invocation(group: &Token) -> (r: Result<Option<CommandInvocation>, Error>)
    ensures
        match r {
            Ok(opt) => match command_start(group@) {
                Some(c) => match kind_of_name(c.0) {
                    Some(kind) => c.1.len() >= 1 && (c.1[0] matches TokView::Punct { ch: '!', .. })
                        && (opt matches Some(ci) && ci.command_kind == kind
                        && ci.argument_stream.wf() && ci.argument_stream.remaining() == c.1.skip(1)
                        && ci.command_span as nat == tok_span(group@)),
                    None => false,
                },
                None => opt is None,
            },
            Err(e) => command_start(group@) matches Some(c) && (kind_of_name(c.0) is None || !(
            c.1.len() >= 1 && (c.1[0] matches TokView::Punct { ch: '!', .. }))) && e@ == (
            ErrV::UnknownCommand { name: c.0, span: tok_span(group@) }),
        },
{
    let (command_ident, mut remaining_tokens): (String, Tokens) = match consume_if_command_start(
        group,
    ) {
        Some(pair) => pair,
        None => {
            return Ok(None);
        },
    };
    // From here on the call convention was clearly intended: any further
    // mismatch is a hard error, never plain text.
    match consume_command_end(command_ident.as_str(), &mut remaining_tokens) {
        Some(command_kind) => {
            proof {
                assert(remaining_tokens.remaining() =~= command_start(group@)->Some_0.1.skip(1));
            }
            Ok(Some(CommandInvocation::new(command_kind, group, remaining_tokens)))
        },
        None => Err(
            Error::UnknownCommand { name: command_ident, span: token_span(group) },
        ),
    }
}

pub fn consume_if_variable_substitution(punct: &Token, tokens: &mut Tokens) -> (r: Option<
    VariableSubstitution,
>)
    requires
        old(tokens).wf(),
        punct@ is Punct,
    ensures
        final(tokens).wf(),
        final(tokens).toks == old(tokens).toks,
        match r {
            Some(vs) => punct@ matches TokView::Punct { ch: '#', .. } && old(
                tokens,
            ).remaining().len() > 0 && (old(tokens).remaining()[0] matches TokView::Ident {
                text,
                span,
            } && vs.variable_name@ == text && vs.name_span as nat == span) && vs.marker == '#'
                && final(tokens).remaining() == old(tokens).remaining().drop_first(),
            None => *final(tokens) == *old(tokens) && !(punct@ matches TokView::Punct { ch: '#', .. }
                && old(tokens).remaining().len() > 0 && old(tokens).remaining()[0] is Ident),
        },
{
    let ch: char = match punct {
        Token::Punct { ch, .. } => *ch,
        _ => {
            return None;
        },
    };
    if ch != '#' {
        return None;
    }
    match consume_if_ident(tokens) {
        Some(id) => Some(VariableSubstitution::new('#', id.0, id.1)),
        None => None,
    }
}

/// Classifies and consumes the next item: a command invocation, a variable
/// substitution, a group for recursion, a plain leaf, or the end of the
/// stream. The one error here is the hard command-shape error.
pub fn parse_next_item(tokens: &mut Tokens) -> (r: Result<NextItem, Error>)
    requires
        old(tokens).wf(),
    ensures
        final(tokens).wf(),
        final(tokens).toks == old(tokens).toks,
        match r {
            Ok(item) => match classify_head(old(tokens).remaining()) {
                HeadItem::End => item is EndOfStream && *final(tokens) == *old(tokens),
                HeadItem::Cmd { kind, args, span } => item matches NextItem::CommandInvocation(ci)
                    && ci.command_kind == kind && ci.argument_stream.wf()
                    && ci.argument_stream.remaining() == args && ci.command_span as nat == span
                    && final(tokens).remaining() == old(tokens).remaining().drop_first(),
                HeadItem::CmdErr { .. } => false,
                HeadItem::Subst { name, name_span } => item matches NextItem::VariableSubstitution(
                    vs,
                ) && vs.variable_name@ == name && vs.name_span as nat == name_span && vs.marker
                    == '#' && final(tokens).remaining() == old(tokens).remaining().skip(2),
                HeadItem::Nested { .. } => item matches NextItem::Group(g) && g@ == old(
                    tokens,
                ).remaining()[0] && final(tokens).remaining() == old(tokens).remaining().drop_first(),
                HeadItem::Plain => item matches NextItem::Leaf(t) && t@ == old(
                    tokens,
                ).remaining()[0] && final(tokens).remaining() == old(tokens).remaining().drop_first(),
            },
            Err(e) => classify_head(old(tokens).remaining()) matches HeadItem::CmdErr {
                name,
                span,
            } && e@ == (ErrV::UnknownCommand { name, span }),
        },
{
    let ghost rem = old(tokens).remaining();
    let head = tokens.next();
    match head {
        None => Ok(NextItem::EndOfStream),
        Some(t) => {
            let is_group = matches!(&t, Token::Group { .. });
            let is_punct = matches!(&t, Token::Punct { .. });
            if is_group {
                match consume_if_command_invocation(&t) {
                    Ok(Some(command_invocation)) => Ok(
                        NextItem::CommandInvocation(command_invocation),
                    ),
                    Ok(None) => Ok(NextItem::Group(t)),
                    Err(e) => Err(e),
                }
            } else if is_punct {
                match consume_if_variable_substitution(&t, tokens) {
                    Some(variable_substitution) => {
                        proof {
                            assert(rem.drop_first()[0] == rem[1]);
                            assert(rem.drop_first().drop_first() =~= rem.skip(2));
                        }
                        Ok(NextItem::VariableSubstitution(variable_substitution))
                    },
                    None => {
                        proof {
                            if rem.len() >= 2 {
                                assert(rem.drop_first()[0] == rem[1]);
                            }
                        }
                        Ok(NextItem::Leaf(t))
                    },
                }
            } else {
                Ok(NextItem::Leaf(t))
            }
        },
    }
}

} // verus!
