//! What the interpreter does, as mathematics: the state of the machine and
//! the effect of a text on it, token by token.

use vstd::prelude::*;
use crate::builtin::{builtin_of, Builtin};
use crate::stack;
use crate::number::{decimal, list_text, parse_i64};
use crate::stack::{
    add_model, div_model, dup_model, equals_model, gt_model, lt_model, mul_model, over_model,
    pop_model, push_model, rot_model, sub_model, swap_model,
};
use crate::text::{is_scalar_value, uppercase};
use crate::token::tokens;

verus! {

/// How deep words may call words.
pub const MAX_DEPTH: usize = 256;

/// The text that is run once, before any other, to define the derived words.
pub const BUILTIN: &'static str = "\n: print . cr ;\n";

/// The state of the machine.
#[verifier::ext_equal]
pub struct Machine {
    /// The values on the stack, bottom first.
    pub stack: Seq<i64>,
    /// All that has been written and not yet taken.
    pub out: Seq<char>,
    /// The text of each defined word, by its name in upper case.
    pub words: Map<Seq<char>, Seq<char>>,
}

/// Why the machine stopped before the end of a text.
pub enum Fault {
    /// A push on a full stack.
    Overflow,
    /// A value was needed from an empty stack.
    Underflow,
    /// `BYE` was met: no failure, but the request to stop.
    Bye,
    /// A token that is no number, no built-in word and no defined word; with
    /// its upper-case form.
    UnknownWord(Seq<char>),
    /// A division by zero.
    DivisionByZero,
    /// `EMIT` of a number that is no Unicode scalar value; with the number.
    InvalidChar(i64),
    /// `)` outside a comment.
    UnmatchedParen,
    /// `:` inside a definition.
    NestedDefinition,
    /// `;` outside a definition.
    UnmatchedSemicolon,
    /// Words called words more than `MAX_DEPTH` deep.
    RecursionLimit,
}

/// What the machine takes the next token for.
#[verifier::ext_equal]
pub enum Mode {
    /// A number or a word, to be carried out.
    Interpret,
    /// Part of a comment.
    Comment,
    /// The name of the word that a definition begins.
    Name,
    /// Part of the text of the word `name`, of which `text` has been read.
    Body { name: Seq<char>, text: Seq<char> },
}

/// What a step or a run gives: the machine as it is left, and whether the
/// end was reached.
pub type Outcome = (Machine, Result<(), Fault>);

/// The fault that a failed stack operation is reported as.
pub open spec fn fault_of(e: stack::Error) -> Fault {
    match e {
        stack::Error::Overflow => Fault::Overflow,
        stack::Error::Underflow => Fault::Underflow,
        stack::Error::DivisionByZero => Fault::DivisionByZero,
    }
}

/// How the result of a stack operation is reported.
pub open spec fn lifted(r: Result<(), stack::Error>) -> Result<(), Fault> {
    match r {
        Ok(_) => Ok(()),
        Err(e) => Err(fault_of(e)),
    }
}

/// The machine after a stack operation with the given effect.
pub open spec fn on_stack(m: Machine, effect: (Seq<i64>, Result<(), stack::Error>)) -> Outcome {
    (Machine { stack: effect.0, ..m }, lifted(effect.1))
}

/// The machine after `text` has been written.
pub open spec fn written(m: Machine, text: Seq<char>) -> Machine {
    Machine { out: m.out + text, ..m }
}

/// `.`: the top value leaves the stack and its decimal text is written.
pub open spec fn print_model(m: Machine) -> (Machine, Result<(), stack::Error>) {
    match pop_model(m.stack) {
        (rest, Ok(v)) => (Machine { stack: rest, out: m.out + decimal(v as int), ..m }, Ok(())),
        (rest, Err(e)) => (Machine { stack: rest, ..m }, Err(e)),
    }
}

/// `EMIT`: the top value leaves the stack and the character with that code
/// point is written, if there is one.
pub open spec fn emit_model(m: Machine) -> Outcome {
    match pop_model(m.stack) {
        (rest, Ok(v)) => if is_scalar_value(v as int) {
            (Machine { stack: rest, out: m.out.push(v as char), ..m }, Ok(()))
        } else {
            (Machine { stack: rest, ..m }, Err(Fault::InvalidChar(v)))
        },
        (rest, Err(e)) => (Machine { stack: rest, ..m }, Err(fault_of(e))),
    }
}

/// `DROP`: the top value leaves the stack.
pub open spec fn drop_model(m: Machine) -> Outcome {
    match pop_model(m.stack) {
        (rest, Ok(_)) => (Machine { stack: rest, ..m }, Ok(())),
        (rest, Err(e)) => (Machine { stack: rest, ..m }, Err(fault_of(e))),
    }
}

/// What the built-in word `b` does to the machine when it is carried out.
pub open spec fn perform(m: Machine, b: Builtin) -> Outcome {
    match b {
        Builtin::Add => on_stack(m, add_model(m.stack)),
        Builtin::Sub => on_stack(m, sub_model(m.stack)),
        Builtin::Mul => on_stack(m, mul_model(m.stack)),
        Builtin::Div => on_stack(m, div_model(m.stack)),
        Builtin::Print => (print_model(m).0, lifted(print_model(m).1)),
        Builtin::Colon => (m, Ok(())),
        Builtin::Semicolon => (m, Err(Fault::UnmatchedSemicolon)),
        Builtin::Less => on_stack(m, lt_model(m.stack)),
        Builtin::Greater => on_stack(m, gt_model(m.stack)),
        Builtin::Equals => on_stack(m, equals_model(m.stack)),
        Builtin::Cr => (written(m, seq!['\n']), Ok(())),
        Builtin::Dup => on_stack(m, dup_model(m.stack)),
        Builtin::Swap => on_stack(m, swap_model(m.stack)),
        Builtin::Over => on_stack(m, over_model(m.stack)),
        Builtin::Emit => emit_model(m),
        Builtin::Drop => drop_model(m),
        Builtin::Rot => on_stack(m, rot_model(m.stack)),
        Builtin::Bye => (m, Err(Fault::Bye)),
        Builtin::ShowStack => (written(m, list_text(m.stack).push('\n')), Ok(())),
        Builtin::OpenParen => (m, Ok(())),
        Builtin::CloseParen => (m, Err(Fault::UnmatchedParen)),
    }
}

/// What the machine takes the next token for, after the built-in word `b`
/// has been carried out.
pub open spec fn mode_after(b: Builtin) -> Mode {
    match b {
        Builtin::Colon => Mode::Name,
        Builtin::OpenParen => Mode::Comment,
        _ => Mode::Interpret,
    }
}

/// The machine after the word `name` has been defined as `text`.
pub open spec fn defined(m: Machine, name: Seq<char>, text: Seq<char>) -> Machine {
    Machine { words: m.words.insert(uppercase(name), text), ..m }
}

/// The effect of one token: the machine and the mode after it, and whether
/// the run goes on. `depth` is how deep words may still call words.
pub open spec fn step(m: Machine, mode: Mode, token: Seq<char>, depth: nat) -> (
    Machine,
    Mode,
    Result<(), Fault>,
)
    decreases depth, 1nat, 0nat,
{
    match mode {
        Mode::Comment => if token == ")"@ {
            (m, Mode::Interpret, Ok(()))
        } else {
            (m, Mode::Comment, Ok(()))
        },
        Mode::Name => if token == ":"@ {
            (m, mode, Err(Fault::NestedDefinition))
        } else {
            (m, Mode::Body { name: token, text: Seq::empty() }, Ok(()))
        },
        Mode::Body { name, text } => if token == ";"@ {
            (defined(m, name, text), Mode::Interpret, Ok(()))
        } else if token == ":"@ {
            (m, mode, Err(Fault::NestedDefinition))
        } else {
            (m, Mode::Body { name, text: (text + token).push(' ') }, Ok(()))
        },
        Mode::Interpret => match parse_i64(token) {
            Some(n) => {
                let (after, r) = on_stack(m, push_model(m.stack, n));
                (after, Mode::Interpret, r)
            },
            None => match builtin_of(uppercase(token)) {
                Some(b) => {
                    let (after, r) = perform(m, b);
                    (after, mode_after(b), r)
                },
                None => {
                    let (after, r) = call(m, uppercase(token), depth);
                    (after, Mode::Interpret, r)
                },
            },
        },
    }
}

/// The effect of the defined word `name`: its text is run as it stands in
/// the dictionary at that moment, one level deeper.
pub open spec fn call(m: Machine, name: Seq<char>, depth: nat) -> Outcome
    decreases depth, 0nat, 0nat,
{
    if !m.words.contains_key(name) {
        (m, Err(Fault::UnknownWord(name)))
    } else if depth == 0 {
        (m, Err(Fault::RecursionLimit))
    } else {
        run_tokens(m, Mode::Interpret, tokens(m.words[name]), (depth - 1) as nat)
    }
}

/// The effect of the tokens `toks`, one after the other, up to the first
/// that fails: the machine and the mode at the end, and whether the end was
/// reached.
pub open spec fn run_from(m: Machine, mode: Mode, toks: Seq<Seq<char>>, depth: nat) -> (
    Machine,
    Mode,
    Result<(), Fault>,
)
    decreases depth, 2nat, toks.len(),
{
    if toks.len() == 0 {
        (m, mode, Ok(()))
    } else {
        let (after, next, r) = step(m, mode, toks.first(), depth);
        if r is Err {
            (after, next, r)
        } else {
            run_from(after, next, toks.drop_first(), depth)
        }
    }
}

/// The effect of a run of the tokens `toks`. What is left unfinished at the
/// end, a comment or a definition, is dropped.
pub open spec fn run_tokens(m: Machine, mode: Mode, toks: Seq<Seq<char>>, depth: nat) -> Outcome
    decreases depth, 3nat, 0nat,
{
    let end = run_from(m, mode, toks, depth);
    (end.0, end.2)
}

/// The effect of running the text `code`.
pub open spec fn run_model(m: Machine, code: Seq<char>) -> Outcome {
    run_tokens(m, Mode::Interpret, tokens(code), MAX_DEPTH as nat)
}

} // verus!
