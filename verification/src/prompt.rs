//! What a prompt that reads a line at a time says after each line.

use vstd::prelude::*;
use vstd::string::StringExecFns;
use crate::forth::{outcome, Error};
use crate::machine::Fault;
use crate::number::{decimal, write_decimal};
use crate::text::same_text;

verus! {

/// What the prompt does after a line.
#[derive(Debug, PartialEq, Eq)]
pub enum Answer {
    /// The line ran to its end: the prompt says ` ok`.
    Done,
    /// The line was empty and ran to its end: the prompt says nothing.
    Nothing,
    /// The line failed: the prompt says why, and reads on.
    Failed(String),
    /// The line asked to stop: the prompt reads no more.
    Leave,
}

/// What the prompt does after a line, as mathematics.
pub enum AnswerModel {
    Done,
    Nothing,
    Failed(Seq<char>),
    Leave,
}

impl View for Answer {
    type V = AnswerModel;

    open spec fn view(&self) -> AnswerModel {
        match self {
            Answer::Done => AnswerModel::Done,
            Answer::Nothing => AnswerModel::Nothing,
            Answer::Failed(why) => AnswerModel::Failed(why@),
            Answer::Leave => AnswerModel::Leave,
        }
    }
}

/// What the prompt says of a fault.
pub open spec fn message(fault: Fault) -> Seq<char> {
    match fault {
        Fault::Overflow => " Stack overflow"@,
        Fault::Underflow => " Stack underflow"@,
        Fault::Bye => Seq::empty(),
        Fault::UnknownWord(word) => " "@ + word + " ?"@,
        Fault::DivisionByZero => " Division by zero"@,
        Fault::InvalidChar(v) => " "@ + decimal(v as int) + " is no character"@,
        Fault::UnmatchedParen => " ) outside a comment"@,
        Fault::NestedDefinition => " : inside a definition"@,
        Fault::UnmatchedSemicolon => " ; outside a definition"@,
        Fault::RecursionLimit => " Words nested too deep"@,
    }
}

/// What the prompt does after the line `line` has been run with the result
/// `r`. A line that is nothing but a line end is answered by silence.
pub open spec fn answer_model(line: Seq<char>, r: Result<(), Fault>) -> AnswerModel {
    match r {
        Ok(_) => if line == "\n"@ {
            AnswerModel::Nothing
        } else {
            AnswerModel::Done
        },
        Err(Fault::Bye) => AnswerModel::Leave,
        Err(fault) => AnswerModel::Failed(message(fault)),
    }
}

impl Error {
    /// What the prompt says of the error.
    pub fn message(&self) -> (text: String)
        ensures
            text@ == message(self@),
    {
        match self {
            Error::Overflow => String::from_str(" Stack overflow"),
            Error::Underflow => String::from_str(" Stack underflow"),
            Error::Bye => String::new(),
            Error::UnknownWord(word) => {
                let mut text = String::from_str(" ");
                text.append(word.as_str());
                text.append(" ?");
                text
            },
            Error::DivisionByZero => String::from_str(" Division by zero"),
            Error::InvalidChar(v) => {
                let mut text = String::from_str(" ");
                write_decimal(&mut text, *v);
                text.append(" is no character");
                text
            },
            Error::UnmatchedParen => String::from_str(" ) outside a comment"),
            Error::NestedDefinition => String::from_str(" : inside a definition"),
            Error::UnmatchedSemicolon => String::from_str(" ; outside a definition"),
            Error::RecursionLimit => String::from_str(" Words nested too deep"),
        }
    }
}

/// What the prompt does after the line `line` has been run with the result
/// `result`.
pub fn answer(line: &str, result: &Result<(), Error>) -> (a: Answer)
    ensures
        a@ == answer_model(line@, outcome(*result)),
{
    match result {
        Ok(_) => {
            if same_text(line, "\n") {
                Answer::Nothing
            } else {
                Answer::Done
            }
        },
        Err(Error::Bye) => Answer::Leave,
        Err(error) => Answer::Failed(error.message()),
    }
}

} // verus!
