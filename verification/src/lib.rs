//! A small interpreter over a lexical token tree, for macro-style code
//! generation: variable assignment and substitution, plus a closed toolkit of
//! commands that transform token streams (case conversion, concatenation,
//! literal and identifier construction).
//!
//! The input is a tree of [`token::Token`]s. [`interpreter::interpret`] walks
//! it depth first, left to right: command invocations (`[!name! ...]`) are
//! executed, variable references (`#name`) are substituted, other groups are
//! evaluated recursively and re-wrapped, and plain leaves are copied. The
//! whole evaluation is specified by the big-step evaluator in [`semantics`],
//! and every public function is proved against it.

pub mod commands;
pub mod errors;
pub mod interpreter;
pub mod laws;
pub mod parsing;
pub mod semantics;
pub mod string_conversion;
pub mod token;
