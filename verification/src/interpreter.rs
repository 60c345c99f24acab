//! The interpreter: drives recursive, depth-first, left-to-right evaluation
//! over a token stream, threading one variable store through the whole
//! session. Proved to return exactly what the semantics module's evaluator
//! says.

use vstd::prelude::*;

use crate::commands::{concat_recursive, parse_ident, parse_literal, str_eq, string_literal,
    CommandKind};
use crate::errors::{ErrV, Error};
use crate::parsing::{consume_set_statement, parse_next_item, CommandInvocation, NextItem, Tokens,
    VariableSubstitution};
use crate::semantics::{compose, converted, eval_command, eval_stream, lemma_classify_sizes,
    lemma_compose_assoc, lemma_stream_size_skip, set_prefix, stream_size, StoreV};
use crate::string_conversion::{capitalize, decapitalize, insert_spaces_between_words, title_case,
    to_lower_camel_case, to_lower_kebab_case, to_lower_snake_case, to_lowercase,
    to_upper_camel_case, to_upper_snake_case, to_uppercase};
use crate::token::{clone_tokens, lemma_toks_view_append, lemma_toks_view_push, tok_view,
    toks_view, TokView, Token};

verus! {

// ---------------------------------------------------------------------------
// The variable store.
// ---------------------------------------------------------------------------
/// The store a sequence of bindings models: later bindings win.
pub open spec fn entries_view(es: Seq<(String, Vec<Token>)>) -> StoreV
    decreases es,
{
    if es.len() == 0 {
        Map::empty()
    } else {
        entries_view(es.drop_last()).insert(es.last().0@, toks_view(es.last().1@))
    }
}

/// One evaluation session: the variable store, created empty at session
/// start and discarded at session end.
pub struct Interpreter {
    pub variables: Vec<(String, Vec<Token>)>,
}

impl View for Interpreter {
    type V = StoreV;

    open spec fn view(&self) -> StoreV {
        entries_view(self.variables@)
    }
}

impl Interpreter {
    pub fn new() -> (r: Self)
        ensures
            r@ == Map::<Seq<char>, Seq<TokView>>::empty(),
    {
        Interpreter { variables: Vec::new() }
    }

    /// Binds `name` to `tokens`; an existing binding is replaced, never
    /// merged.
    pub fn set_variable(&mut self, name: String, tokens: Vec<Token>)
        ensures
            final(self)@ == old(self)@.insert(name@, toks_view(tokens@)),
    {
        let ghost old_es = self.variables@;
        let ghost namev = name@;
        let ghost toksv = toks_view(tokens@);
        self.variables.push((name, tokens));
        proof {
            assert(self.variables@.drop_last() =~= old_es);
            assert(self.variables@.last().0@ == namev);
            assert(toks_view(self.variables@.last().1@) == toksv);
        }
    }

    /// Looks a name up; `Some` exactly when the name is bound, with the
    /// stream it is bound to.
    pub fn get_variable(&self, name: &str) -> (r: Option<&Vec<Token>>)
        ensures
            match r {
                Some(v) => self@.contains_key(name@) && toks_view(v@) == self@[name@],
                None => !self@.contains_key(name@),
            },
    {
        let ghost es = self.variables@;
        let mut i: usize = self.variables.len();
        proof {
            assert(es.take(es.len() as int) =~= es);
        }
        while i > 0
            invariant
                i <= es.len(),
                es == self.variables@,
                entries_view(es).contains_key(name@) == entries_view(
                    es.take(i as int),
                ).contains_key(name@),
                entries_view(es).contains_key(name@) ==> entries_view(es)[name@] == entries_view(
                    es.take(i as int),
                )[name@],
            decreases i,
        {
            i = i - 1;
            let entry = &self.variables[i];
            proof {
                assert(es.take(i as int + 1).drop_last() =~= es.take(i as int));
                assert(es.take(i as int + 1).last() == es[i as int]);
            }
            if str_eq(entry.0.as_str(), name) {
                return Some(&entry.1);
            }
        }
        proof {
            assert(es.take(0) =~= Seq::<(String, Vec<Token>)>::empty());
        }
        None
    }

    /// Evaluates a whole stream: commands executed, variables substituted,
    /// groups recursed into, plain leaves copied; any error aborts
    /// everything with no partial output.
    #[verifier::loop_isolation(false)]
    pub fn interpret_tokens(&mut self, source_tokens: Tokens) -> (r: Result<Vec<Token>, Error>)
        requires
            source_tokens.wf(),
        ensures
            match r {
                Ok(out) => eval_stream(old(self)@, source_tokens.remaining()) == Ok::<
                    (Seq<TokView>, StoreV),
                    ErrV,
                >((toks_view(out@), final(self)@)),
                Err(e) => eval_stream(old(self)@, source_tokens.remaining()) == Err::<
                    (Seq<TokView>, StoreV),
                    ErrV,
                >(e@),
            },
        decreases stream_size(source_tokens.remaining()), 0int,
    {
        let ghost entry_rem = source_tokens.remaining();
        let ghost store0 = self@;
        let mut source = source_tokens;
        let mut expanded: Vec<Token> = Vec::new();
        proof {
            assert(toks_view(expanded@) =~= Seq::<TokView>::empty());
            crate::semantics::lemma_compose_empty(eval_stream(store0, entry_rem));
        }
        loop
            invariant
                source.wf(),
                stream_size(source.remaining()) <= stream_size(entry_rem),
                eval_stream(store0, entry_rem) == compose(
                    toks_view(expanded@),
                    eval_stream(self@, source.remaining()),
                ),
            decreases stream_size(source.remaining()),
        {
            let ghost rem_before = source.remaining();
            let ghost store_before = self@;
            proof {
                lemma_classify_sizes(rem_before);
            }
            match parse_next_item(&mut source) {
                Err(e) => {
                    return Err(e);
                },
                Ok(NextItem::EndOfStream) => {
                    proof {
                        assert(toks_view(expanded@) + Seq::<TokView>::empty() =~= toks_view(
                            expanded@,
                        ));
                    }
                    return Ok(expanded);
                },
                Ok(NextItem::CommandInvocation(command_invocation)) => {
                    match command_invocation.execute(self) {
                        Ok(mut command_output) => {
                            proof {
                                lemma_toks_view_append(expanded@, command_output@);
                                lemma_compose_assoc(
                                    toks_view(expanded@),
                                    toks_view(command_output@),
                                    eval_stream(self@, source.remaining()),
                                );
                            }
                            expanded.append(&mut command_output);
                        },
                        Err(e) => {
                            return Err(e);
                        },
                    }
                },
                Ok(NextItem::VariableSubstitution(variable_substitution)) => {
                    match variable_substitution.execute(self) {
                        Ok(mut substituted) => {
                            proof {
                                lemma_toks_view_append(expanded@, substituted@);
                                lemma_compose_assoc(
                                    toks_view(expanded@),
                                    toks_view(substituted@),
                                    eval_stream(self@, source.remaining()),
                                );
                            }
                            expanded.append(&mut substituted);
                        },
                        Err(e) => {
                            return Err(e);
                        },
                    }
                },
                Ok(NextItem::Group(group_token)) => {
                    match group_token {
                        Token::Group { delim, tokens: inner, span } => {
                            let inner_cursor = Tokens::new(inner);
                            match self.interpret_tokens(inner_cursor) {
                                Ok(inner_output) => {
                                    let new_group = Token::Group {
                                        delim,
                                        tokens: inner_output,
                                        span,
                                    };
                                    proof {
                                        lemma_toks_view_push(expanded@, new_group);
                                        assert(toks_view(expanded@).push(tok_view(new_group))
                                            =~= toks_view(expanded@) + seq![tok_view(new_group)]);
                                        lemma_compose_assoc(
                                            toks_view(expanded@),
                                            seq![tok_view(new_group)],
                                            eval_stream(self@, source.remaining()),
                                        );
                                    }
                                    expanded.push(new_group);
                                },
                                Err(e) => {
                                    return Err(e);
                                },
                            }
                        },
                        other => {
                            // classify_head says this item is a group
                            proof {
                                assert(false);
                            }
                            return Ok(expanded);
                        },
                    }
                },
                Ok(NextItem::Leaf(token_tree)) => {
                    proof {
                        lemma_toks_view_push(expanded@, token_tree);
                        assert(toks_view(expanded@).push(tok_view(token_tree)) =~= toks_view(
                            expanded@,
                        ) + seq![tok_view(token_tree)]);
                        lemma_compose_assoc(
                            toks_view(expanded@),
                            seq![tok_view(token_tree)],
                            eval_stream(self@, source.remaining()),
                        );
                    }
                    expanded.push(token_tree);
                },
            }
        }
    }
}

// ---------------------------------------------------------------------------
// Variable substitution.
// ---------------------------------------------------------------------------
impl VariableSubstitution {
    /// Substitutes a copy of the stored stream, or fails with the name and
    /// the span of the reference.
    pub fn execute(self, interpreter: &Interpreter) -> (r: Result<Vec<Token>, Error>)
        ensures
            match r {
                Ok(out) => interpreter@.contains_key(self.variable_name@) && toks_view(out@)
                    == interpreter@[self.variable_name@],
                Err(e) => !interpreter@.contains_key(self.variable_name@) && e@ == (
                ErrV::UndefinedVariable {
                    name: self.variable_name@,
                    span: self.name_span as nat,
                }),
            },
    {
        let VariableSubstitution { marker, variable_name, name_span } = self;
        match interpreter.get_variable(variable_name.as_str()) {
            Some(substituted) => Ok(clone_tokens(substituted)),
            None => Err(Error::UndefinedVariable { name: variable_name, span: name_span }),
        }
    }
}

// ---------------------------------------------------------------------------
// Command execution.
// ---------------------------------------------------------------------------
/// The conversion step of a concatenating command, applied to the
/// concatenated argument string.
fn execute_converted(kind: CommandKind, concatenated: &str, span: usize) -> (r: Result<
    Token,
    Error,
>)
    requires
        !(kind is SetCommand),
        !(kind is RawCommand),
        !(kind is IgnoreCommand),
    ensures
        match r {
            Ok(t) => converted(kind, concatenated@, span as nat) == Ok::<TokView, ErrV>(t@),
            Err(e) => converted(kind, concatenated@, span as nat) == Err::<TokView, ErrV>(e@),
        },
{
    match kind {
        CommandKind::StringCommand => Ok(string_literal(concatenated, span)),
        CommandKind::IdentCommand => parse_ident(concatenated, span),
        CommandKind::IdentCamelCommand => parse_ident(
            to_upper_camel_case(concatenated).as_str(),
            span,
        ),
        CommandKind::IdentSnakeCommand => parse_ident(
            to_lower_snake_case(concatenated).as_str(),
            span,
        ),
        CommandKind::IdentUpperSnakeCommand => parse_ident(
            to_upper_snake_case(concatenated).as_str(),
            span,
        ),
        CommandKind::LiteralCommand => parse_literal(concatenated, span),
        CommandKind::UpperCommand => Ok(string_literal(to_uppercase(concatenated).as_str(), span)),
        CommandKind::LowerCommand => Ok(string_literal(to_lowercase(concatenated).as_str(), span)),
        CommandKind::SnakeCommand => Ok(
            string_literal(to_lower_snake_case(concatenated).as_str(), span),
        ),
        CommandKind::LowerSnakeCommand => Ok(
            string_literal(to_lower_snake_case(concatenated).as_str(), span),
        ),
        CommandKind::UpperSnakeCommand => Ok(
            string_literal(to_upper_snake_case(concatenated).as_str(), span),
        ),
        CommandKind::CamelCommand => Ok(
            string_literal(to_upper_camel_case(concatenated).as_str(), span),
        ),
        CommandKind::LowerCamelCommand => Ok(
            string_literal(to_lower_camel_case(concatenated).as_str(), span),
        ),
        CommandKind::UpperCamelCommand => Ok(
            string_literal(to_upper_camel_case(concatenated).as_str(), span),
        ),
        CommandKind::KebabCommand => Ok(
            string_literal(to_lower_kebab_case(concatenated).as_str(), span),
        ),
        CommandKind::CapitalizeCommand => Ok(
            string_literal(capitalize(concatenated).as_str(), span),
        ),
        CommandKind::DecapitalizeCommand => Ok(
            string_literal(decapitalize(concatenated).as_str(), span),
        ),
        CommandKind::TitleCommand => Ok(string_literal(title_case(concatenated).as_str(), span)),
        CommandKind::InsertSpacesCommand => Ok(
            string_literal(insert_spaces_between_words(concatenated).as_str(), span),
        ),
        CommandKind::SetCommand => {
            proof {
                assert(false);
            }
            Err(Error::MalformedAssignment { span })
        },
        CommandKind::RawCommand => {
            proof {
                assert(false);
            }
            Err(Error::MalformedAssignment { span })
        },
        CommandKind::IgnoreCommand => {
            proof {
                assert(false);
            }
            Err(Error::MalformedAssignment { span })
        },
    }
}

impl CommandInvocation {
    /// Executes the command on its raw argument stream: every command except
    /// the raw passthrough evaluates its argument eagerly first; only the
    /// assignment writes to the store.
    pub fn execute(self, interpreter: &mut Interpreter) -> (r: Result<Vec<Token>, Error>)
        requires
            self.argument_stream.wf(),
        ensures
            match r {
                Ok(out) => eval_command(
                    old(interpreter)@,
                    self.command_kind,
                    self.argument_stream.remaining(),
                    self.command_span as nat,
                ) == Ok::<(Seq<TokView>, StoreV), ErrV>((toks_view(out@), final(interpreter)@)),
                Err(e) => eval_command(
                    old(interpreter)@,
                    self.command_kind,
                    self.argument_stream.remaining(),
                    self.command_span as nat,
                ) == Err::<(Seq<TokView>, StoreV), ErrV>(e@) && ((self.command_kind is SetCommand
                    && set_prefix(self.argument_stream.remaining()) is None)
                    ==> final(interpreter)@ == old(interpreter)@),
            },
        decreases stream_size(self.argument_stream.remaining()), 1int,
    {
        let CommandInvocation { command_kind, argument_stream, command_span } = self;
        let ghost args = argument_stream.remaining();
        match command_kind {
            CommandKind::SetCommand => {
                let mut argument_tokens = argument_stream;
                match consume_set_statement(&mut argument_tokens) {
                    Some(variable_name) => {
                        proof {
                            lemma_stream_size_skip(args, 3);
                        }
                        match interpreter.interpret_tokens(argument_tokens) {
                            Ok(result_tokens) => {
                                interpreter.set_variable(variable_name, result_tokens);
                                Ok(Vec::new())
                            },
                            Err(e) => Err(e),
                        }
                    },
                    None => Err(Error::MalformedAssignment { span: command_span }),
                }
            },
            CommandKind::RawCommand => Ok(argument_stream.into_token_stream()),
            CommandKind::IgnoreCommand => Ok(Vec::new()),
            _ => {
                match interpreter.interpret_tokens(argument_stream) {
                    Ok(interpreted) => {
                        let concatenated = concat_recursive(&interpreted);
                        match execute_converted(command_kind, concatenated.as_str(), command_span) {
                            Ok(converted_token) => {
                                let mut out: Vec<Token> = Vec::new();
                                proof {
                                    lemma_toks_view_push(out@, converted_token);
                                    assert(Seq::<TokView>::empty().push(tok_view(converted_token))
                                        =~= seq![tok_view(converted_token)]);
                                }
                                out.push(converted_token);
                                Ok(out)
                            },
                            Err(e) => Err(e),
                        }
                    },
                    Err(e) => Err(e),
                }
            },
        }
    }
}

/// Runs one whole evaluation session over a token stream, with a fresh,
/// empty variable store.
pub fn interpret(token_stream: Vec<Token>) -> (r: Result<Vec<Token>, Error>)
    ensures
        match r {
            Ok(out) => eval_stream(Map::empty(), toks_view(token_stream@)) matches Ok(p) && p.0
                == toks_view(out@),
            Err(e) => eval_stream(Map::empty(), toks_view(token_stream@)) == Err::<
                (Seq<TokView>, StoreV),
                ErrV,
            >(e@),
        },
{
    let mut interpreter = Interpreter::new();
    interpreter.interpret_tokens(Tokens::new(token_stream))
}

} // verus!
