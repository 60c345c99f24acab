//! The evaluation errors. Every error is fatal: it aborts the whole
//! evaluation and carries the span of the construct that caused it.

use vstd::prelude::*;

use crate::commands::all_command_names;
use crate::commands::CommandKind;

verus! {

/// The model of an error: the same data over `Seq<char>`.
pub enum ErrV {
    /// A bracketed group opened like a command (`[!name`), but the name is
    /// not registered or the closing `!` is missing.
    UnknownCommand { name: Seq<char>, span: nat },
    /// A variable reference names a variable that was never assigned.
    UndefinedVariable { name: Seq<char>, span: nat },
    /// An assignment argument does not start with `#<identifier> =`.
    MalformedAssignment { span: nat },
    /// A concatenated string did not re-parse as a legal identifier;
    /// `message` is the parser's own diagnostic.
    InvalidIdentifierText { text: Seq<char>, message: Seq<char>, span: nat },
    /// A concatenated string did not re-parse as a legal literal; `message`
    /// is the lexer's own diagnostic.
    InvalidLiteralText { text: Seq<char>, message: Seq<char>, span: nat },
}

#[derive(Debug)]
pub enum Error {
    UnknownCommand { name: String, span: usize },
    UndefinedVariable { name: String, span: usize },
    MalformedAssignment { span: usize },
    InvalidIdentifierText { text: String, message: String, span: usize },
    InvalidLiteralText { text: String, message: String, span: usize },
}

impl View for Error {
    type V = ErrV;

    open spec fn view(&self) -> ErrV {
        match self {
            Error::UnknownCommand { name, span } => ErrV::UnknownCommand {
                name: name@,
                span: *span as nat,
            },
            Error::UndefinedVariable { name, span } => ErrV::UndefinedVariable {
                name: name@,
                span: *span as nat,
            },
            Error::MalformedAssignment { span } => ErrV::MalformedAssignment { span: *span as nat },
            Error::InvalidIdentifierText { text, message, span } => ErrV::InvalidIdentifierText {
                text: text@,
                message: message@,
                span: *span as nat,
            },
            Error::InvalidLiteralText { text, message, span } => ErrV::InvalidLiteralText {
                text: text@,
                message: message@,
                span: *span as nat,
            },
        }
    }
}

/// The diagnostic text of each error: command-shape errors enumerate every
/// registered command name, and both they and unbound-variable errors
/// suggest the raw escape.
pub open spec fn message_of(e: ErrV) -> Seq<char> {
    match e {
        ErrV::UnknownCommand { name, .. } => "Expected `[!<command>! ..]`, for <command> one of: "@
            + all_command_names()
            + ".\nIf this wasn't intended to be a preinterpret command, you can work around this with [!raw! [!"@
            + name + " ... ]]"@,
        ErrV::UndefinedVariable { name, .. } => "The variable #"@ + name
            + " wasn't set.\nIf this wasn't intended to be a variable, work around this with [!raw! #"@
            + name + "]"@,
        ErrV::MalformedAssignment { .. } => "A set call is expected to start with `#variable_name = ..`"@,
        ErrV::InvalidIdentifierText { text, message, .. } => "`"@ + text
            + "` is not a valid ident: "@ + message,
        ErrV::InvalidLiteralText { text, message, .. } => "`"@ + text
            + "` is not a valid literal: "@ + message,
    }
}

impl Error {
    /// Renders the error's diagnostic message.
    pub fn describe(&self) -> (r: String)
        ensures
            r@ == message_of(self@),
    {
        match self {
            Error::UnknownCommand { name, .. } => {
                let mut m = String::from_str(
                    "Expected `[!<command>! ..]`, for <command> one of: ",
                );
                let names = CommandKind::list_all();
                m.append(names.as_str());
                m.append(
                    ".\nIf this wasn't intended to be a preinterpret command, you can work around this with [!raw! [!",
                );
                m.append(name.as_str());
                m.append(" ... ]]");
                proof {
                    assert(m@ =~= message_of(self@));
                }
                m
            },
            Error::UndefinedVariable { name, .. } => {
                let mut m = String::from_str("The variable #");
                m.append(name.as_str());
                m.append(
                    " wasn't set.\nIf this wasn't intended to be a variable, work around this with [!raw! #",
                );
                m.append(name.as_str());
                m.append("]");
                proof {
                    assert(m@ =~= message_of(self@));
                }
                m
            },
            Error::MalformedAssignment { .. } => String::from_str(
                "A set call is expected to start with `#variable_name = ..`",
            ),
            Error::InvalidIdentifierText { text, message, .. } => {
                let mut m = String::from_str("`");
                m.append(text.as_str());
                m.append("` is not a valid ident: ");
                m.append(message.as_str());
                proof {
                    assert(m@ =~= message_of(self@));
                }
                m
            },
            Error::InvalidLiteralText { text, message, .. } => {
                let mut m = String::from_str("`");
                m.append(text.as_str());
                m.append("` is not a valid literal: ");
                m.append(message.as_str());
                proof {
                    assert(m@ =~= message_of(self@));
                }
                m
            },
        }
    }

    /// The span the error points at.
    pub fn span(&self) -> (r: usize)
        ensures
            r as nat == match self@ {
                ErrV::UnknownCommand { span, .. } => span,
                ErrV::UndefinedVariable { span, .. } => span,
                ErrV::MalformedAssignment { span } => span,
                ErrV::InvalidIdentifierText { span, .. } => span,
                ErrV::InvalidLiteralText { span, .. } => span,
            },
    {
        match self {
            Error::UnknownCommand { span, .. } => *span,
            Error::UndefinedVariable { span, .. } => *span,
            Error::MalformedAssignment { span } => *span,
            Error::InvalidIdentifierText { span, .. } => *span,
            Error::InvalidLiteralText { span, .. } => *span,
        }
    }
}

} // verus!
