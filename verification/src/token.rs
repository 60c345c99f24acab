//! The token tree that the interpreter runs over: leaves (identifier,
//! punctuation, literal) and delimiter-wrapped groups, each carrying an opaque
//! source position for diagnostics.

use vstd::prelude::*;

verus! {

/// The delimiter of a group token.
#[derive(Clone, Copy, PartialEq, Eq, Structural, Debug)]
pub enum Delim {
    Paren,
    Brace,
    Bracket,
    /// A transparent delimiter: the group nests tokens without any visible
    /// bracket characters around them.
    Invisible,
}

/// One lexical token: a leaf, or a delimited group of nested tokens.
///
/// `span` is an opaque source-position identifier, carried through evaluation
/// so that errors can point at the token that caused them.
#[derive(Debug, PartialEq, Eq)]
pub enum Token {
    Ident { text: String, span: usize },
    Punct { ch: char, span: usize },
    Literal { text: String, span: usize },
    Group { delim: Delim, tokens: Vec<Token>, span: usize },
}

/// The mathematical model of a token: the same tree over `Seq<char>`.
pub enum TokView {
    Ident { text: Seq<char>, span: nat },
    Punct { ch: char, span: nat },
    Literal { text: Seq<char>, span: nat },
    Group { delim: Delim, tokens: Seq<TokView>, span: nat },
}

pub open spec fn tok_view(t: Token) -> TokView
    decreases t,
{
    match t {
        Token::Ident { text, span } => TokView::Ident { text: text@, span: span as nat },
        Token::Punct { ch, span } => TokView::Punct { ch, span: span as nat },
        Token::Literal { text, span } => TokView::Literal { text: text@, span: span as nat },
        Token::Group { delim, tokens, span } => TokView::Group {
            delim,
            tokens: toks_view(tokens@),
            span: span as nat,
        },
    }
}

pub open spec fn toks_view(ts: Seq<Token>) -> Seq<TokView>
    decreases ts,
{
    if ts.len() == 0 {
        Seq::empty()
    } else {
        seq![tok_view(ts[0])] + toks_view(ts.drop_first())
    }
}

impl View for Token {
    type V = TokView;

    open spec fn view(&self) -> TokView {
        tok_view(*self)
    }
}

/// The source position a token carries.
pub open spec fn tok_span(t: TokView) -> nat {
    match t {
        TokView::Ident { span, .. } => span,
        TokView::Punct { span, .. } => span,
        TokView::Literal { span, .. } => span,
        TokView::Group { span, .. } => span,
    }
}

/// The span of a token, for diagnostics.
pub fn token_span(t: &Token) -> (r: usize)
    ensures
        r as nat == tok_span(t@),
{
    match t {
        Token::Ident { span, .. } => *span,
        Token::Punct { span, .. } => *span,
        Token::Literal { span, .. } => *span,
        Token::Group { span, .. } => *span,
    }
}


pub proof fn lemma_toks_view_len(ts: Seq<Token>)
    ensures
        toks_view(ts).len() == ts.len(),
    decreases ts,
{
    if ts.len() > 0 {
        lemma_toks_view_len(ts.drop_first());
    }
}

pub proof fn lemma_toks_view_index(ts: Seq<Token>, i: int)
    requires
        0 <= i < ts.len(),
    ensures
        toks_view(ts).len() == ts.len(),
        toks_view(ts)[i] == tok_view(ts[i]),
    decreases ts,
{
    lemma_toks_view_len(ts);
    if i > 0 {
        lemma_toks_view_index(ts.drop_first(), i - 1);
    }
}

pub proof fn lemma_toks_view_push(ts: Seq<Token>, t: Token)
    ensures
        toks_view(ts.push(t)) == toks_view(ts).push(tok_view(t)),
{
    lemma_toks_view_len(ts);
    lemma_toks_view_len(ts.push(t));
    assert forall|i: int| 0 <= i < ts.len() + 1 implies toks_view(ts.push(t))[i] == toks_view(
        ts,
    ).push(tok_view(t))[i] by {
        lemma_toks_view_index(ts.push(t), i);
        if i < ts.len() {
            lemma_toks_view_index(ts, i);
        }
    }
    assert(toks_view(ts.push(t)) =~= toks_view(ts).push(tok_view(t)));
}

pub proof fn lemma_toks_view_append(a: Seq<Token>, b: Seq<Token>)
    ensures
        toks_view(a + b) == toks_view(a) + toks_view(b),
{
    lemma_toks_view_len(a);
    lemma_toks_view_len(b);
    lemma_toks_view_len(a + b);
    assert forall|i: int| 0 <= i < a.len() + b.len() implies toks_view(a + b)[i] == (toks_view(a)
        + toks_view(b))[i] by {
        lemma_toks_view_index(a + b, i);
        if i < a.len() {
            lemma_toks_view_index(a, i);
            assert((a + b)[i] == a[i]);
        } else {
            lemma_toks_view_index(b, i - a.len());
            assert((a + b)[i] == b[i - a.len()]);
        }
    }
    assert(toks_view(a + b) =~= toks_view(a) + toks_view(b));
}

impl Clone for Token {
    /// A deep copy: the copy has the same model as the original.
    fn clone(&self) -> (r: Self)
        ensures
            r@ == self@,
        decreases *self,
    {
        match self {
            Token::Ident { text, span } => Token::Ident { text: text.clone(), span: *span },
            Token::Punct { ch, span } => Token::Punct { ch: *ch, span: *span },
            Token::Literal { text, span } => Token::Literal { text: text.clone(), span: *span },
            Token::Group { delim, tokens, span } => {
                let copied = clone_tokens(tokens);
                proof {
                    assert(toks_view(copied@) =~= toks_view(tokens@)) by {
                        lemma_views_equal_toks_view(copied@, tokens@);
                    }
                }
                Token::Group { delim: *delim, tokens: copied, span: *span }
            },
        }
    }
}

/// Two token sequences whose elements have equal models have equal models.
pub proof fn lemma_views_equal_toks_view(a: Seq<Token>, b: Seq<Token>)
    requires
        a.len() == b.len(),
        forall|i: int| 0 <= i < a.len() ==> tok_view(#[trigger] a[i]) == tok_view(b[i]),
    ensures
        toks_view(a) == toks_view(b),
{
    lemma_toks_view_len(a);
    lemma_toks_view_len(b);
    assert forall|i: int| 0 <= i < a.len() implies toks_view(a)[i] == toks_view(b)[i] by {
        lemma_toks_view_index(a, i);
        lemma_toks_view_index(b, i);
    }
    assert(toks_view(a) =~= toks_view(b));
}

/// A deep copy of a whole token sequence.
pub fn clone_tokens(ts: &Vec<Token>) -> (r: Vec<Token>)
    ensures
        r@.len() == ts@.len(),
        forall|i: int| 0 <= i < ts@.len() ==> tok_view(#[trigger] r@[i]) == tok_view(ts@[i]),
        toks_view(r@) == toks_view(ts@),
    decreases ts@,
{
    let mut out: Vec<Token> = Vec::new();
    let mut i: usize = 0;
    while i < ts.len()
        invariant
            i <= ts@.len(),
            out@.len() == i,
            forall|j: int| 0 <= j < i ==> tok_view(#[trigger] out@[j]) == tok_view(ts@[j]),
        decreases ts@.len() - i,
    {
        proof {
            vstd::seq::axiom_seq_index_decreases(ts@, i as int);
        }
        let t = ts[i].clone();
        out.push(t);
        i = i + 1;
    }
    proof {
        lemma_views_equal_toks_view(out@, ts@);
    }
    out
}

} // verus!
