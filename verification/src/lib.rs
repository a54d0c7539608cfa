//! A small interpreter for a Forth-like stack language.
//!
//! A text is split into tokens at whitespace. A token that reads as an
//! integer is pushed on a stack of at most a hundred `i64` values; any
//! other token is a word, matched without regard to case: one of the
//! built-in words, or a word that the text itself has defined between `:`
//! and `;`. What the words write is kept until it is taken.
//!
//! - [`stack`]: the bounded stack and its operations.
//! - [`token`], [`number`], [`text`]: tokens, numbers as text, and strings.
//! - [`builtin`]: the built-in words.
//! - [`dictionary`]: the defined words.
//! - [`machine`]: what a text does to the interpreter, as mathematics.
//! - [`forth`]: the interpreter itself, whose `run` does what `machine` says.
//! - [`laws`]: what holds of every run.
//! - [`prompt`]: what a prompt says after each line.

pub mod builtin;
pub mod dictionary;
pub mod forth;
pub mod laws;
pub mod machine;
pub mod number;
pub mod prompt;
pub mod stack;
pub mod text;
pub mod token;
