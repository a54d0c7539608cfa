//! The interpreter: a stack, a dictionary and the text written so far, and
//! the running of a text on them.

use vstd::prelude::*;
use vstd::string::StringExecFns;
use crate::builtin::{lookup_builtin, Builtin};
use crate::dictionary::Dictionary;
use crate::laws::lemma_builtin_text;
use crate::machine;
use crate::machine::{
    emit_model, fault_of, lifted, on_stack, print_model, run_from, run_model, step, written,
    Fault, Machine, Mode, BUILTIN, MAX_DEPTH,
};
use crate::stack;
use crate::stack::{flag, push_model, Stack};
use crate::number::{decimal, joined, list_text, parse_number, write_decimal};
use crate::text::{same_text, to_uppercase, uppercase};
use crate::token::tokenize;

verus! {

/// Why a run stopped before the end of its text.
#[derive(Debug, PartialEq, Eq)]
pub enum Error {
    /// A push on a full stack.
    Overflow,
    /// A value was needed from an empty stack.
    Underflow,
    /// `BYE` was met: no failure, but the request to stop.
    Bye,
    /// A token that is no number, no built-in word and no defined word; with
    /// its upper-case form.
    UnknownWord(String),
    /// A division by zero.
    DivisionByZero,
    /// `EMIT` of a number that is no Unicode scalar value; with the number.
    InvalidChar(i64),
    /// `)` outside a comment.
    UnmatchedParen,
    /// `:` inside a definition.
    NestedDefinition,
    /// `;` outside a definition.
    UnmatchedSemicolon,
    /// Words called words more than `MAX_DEPTH` deep.
    RecursionLimit,
}

impl View for Error {
    type V = Fault;

    open spec fn view(&self) -> Fault {
        match self {
            Error::Overflow => Fault::Overflow,
            Error::Underflow => Fault::Underflow,
            Error::Bye => Fault::Bye,
            Error::UnknownWord(word) => Fault::UnknownWord(word@),
            Error::DivisionByZero => Fault::DivisionByZero,
            Error::InvalidChar(v) => Fault::InvalidChar(*v),
            Error::UnmatchedParen => Fault::UnmatchedParen,
            Error::NestedDefinition => Fault::NestedDefinition,
            Error::UnmatchedSemicolon => Fault::UnmatchedSemicolon,
            Error::RecursionLimit => Fault::RecursionLimit,
        }
    }
}

impl From<stack::Error> for Error {
    fn from(err: stack::Error) -> (e: Self)
        ensures
            e@ == fault_of(err),
    {
        match err {
            stack::Error::Overflow => Error::Overflow,
            stack::Error::Underflow => Error::Underflow,
            stack::Error::DivisionByZero => Error::DivisionByZero,
        }
    }
}

impl vstd::std_specs::convert::FromSpecImpl<stack::Error> for Error {
    open spec fn obeys_from_spec() -> bool {
        true
    }

    open spec fn from_spec(err: stack::Error) -> Error {
        match err {
            stack::Error::Overflow => Error::Overflow,
            stack::Error::Underflow => Error::Underflow,
            stack::Error::DivisionByZero => Error::DivisionByZero,
        }
    }
}

/// What a result says of the run: that it reached the end, or the fault.
pub open spec fn outcome(r: Result<(), Error>) -> Result<(), Fault> {
    match r {
        Ok(_) => Ok(()),
        Err(e) => Err(e@),
    }
}

/// The result of a stack operation as the interpreter reports it.
fn lift(r: Result<(), stack::Error>) -> (out: Result<(), Error>)
    ensures
        outcome(out) == lifted(r),
{
    match r {
        Ok(_) => Ok(()),
        Err(e) => Err(Error::from(e)),
    }
}

/// The interpreter.
pub struct VM {
    stack: Stack<i64>,
    out: String,
    words: Dictionary,
}

impl View for VM {
    type V = Machine;

    closed spec fn view(&self) -> Machine {
        Machine { stack: self.stack@, out: self.out@, words: self.words@ }
    }
}

/// What the interpreter takes the next token for.
#[derive(Clone, Copy, PartialEq, Eq, Structural)]
enum Phase {
    Interpret,
    Comment,
    Name,
    Body,
}

/// The mode that a phase stands for, with the name and the text of the
/// definition under way.
spec fn mode_of(phase: Phase, name: Seq<char>, text: Seq<char>) -> Mode {
    match phase {
        Phase::Interpret => Mode::Interpret,
        Phase::Comment => Mode::Comment,
        Phase::Name => Mode::Name,
        Phase::Body => Mode::Body { name, text },
    }
}

impl VM {
    /// An interpreter with an empty stack and no defined words, which writes
    /// after what `out` holds.
    pub fn new(out: String) -> (vm: Self)
        ensures
            vm@ == (Machine { stack: Seq::empty(), out: out@, words: Map::empty() }),
    {
        VM { stack: Stack::new(0), out, words: Dictionary::new() }
    }

    /// Runs the built-in text, which defines the derived words.
    pub fn init_dict(&mut self) -> (r: Result<(), Error>)
        ensures
            (final(self)@, outcome(r)) == run_model(old(self)@, BUILTIN@),
            r is Ok,
            final(self)@ == (Machine {
                words: old(self)@.words.insert("PRINT"@, ". cr "@),
                ..old(self)@
            }),
    {
        proof {
            lemma_builtin_text(self@);
        }
        self.run(BUILTIN)
    }

    /// Runs `code`: its tokens are carried out one after the other, up to
    /// the first that fails.
    pub fn run(&mut self, code: &str) -> (r: Result<(), Error>)
        ensures
            (final(self)@, outcome(r)) == run_model(old(self)@, code@),
    {
        let toks = tokenize(code);
        self.run_tokens(&toks, MAX_DEPTH)
    }

    /// Pushes the flag of `b`.
    pub fn push_bool(&mut self, b: bool) -> (r: Result<(), Error>)
        ensures
            (final(self)@, outcome(r)) == on_stack(old(self)@, push_model(old(self)@.stack, flag(b))),
    {
        if b {
            lift(self.stack.push(-1))
        } else {
            lift(self.stack.push(0))
        }
    }

    /// Runs the text of the defined word `word`, whose name is matched
    /// without regard to case.
    pub fn run_word(&mut self, word: &str) -> (r: Result<(), Error>)
        ensures
            (final(self)@, outcome(r)) == machine::call(
                old(self)@,
                uppercase(word@),
                MAX_DEPTH as nat,
            ),
    {
        let name = to_uppercase(word);
        self.call(name.as_str(), MAX_DEPTH)
    }

    /// Takes the top value off the stack and writes its decimal text.
    pub fn print(&mut self) -> (r: Result<(), stack::Error>)
        ensures
            (final(self)@, r) == print_model(old(self)@),
    {
        let a = self.stack.pop()?;
        write_decimal(&mut self.out, a);
        Ok(())
    }

    /// Takes the top value off the stack and writes the character with that
    /// code point.
    pub fn emit(&mut self) -> (r: Result<(), Error>)
        ensures
            (final(self)@, outcome(r)) == emit_model(old(self)@),
    {
        let a = match self.stack.pop() {
            Ok(a) => a,
            Err(e) => {
                return Err(Error::from(e));
            },
        };
        if a < 0 || a > 0x10FFFF {
            return Err(Error::InvalidChar(a));
        }
        match char::from_u32(a as u32) {
            Some(c) => {
                self.out.push(c);
                Ok(())
            },
            None => Err(Error::InvalidChar(a)),
        }
    }

    /// Writes the values on the stack, bottom first, and a line end.
    fn show_stack(&mut self)
        ensures
            final(self)@ == written(
                old(self)@,
                list_text(old(self)@.stack).push('\n'),
            ),
    {
        let ghost before = self.out@;
        let ghost items = self.stack@;
        self.out.push('[');
        let n = self.stack.len();
        let mut i: usize = 0;
        while i < n
            invariant
                i <= n,
                n == items.len(),
                self.stack@ == items,
                self.words@ == old(self).words@,
                self.out@ == before + seq!['['] + joined(items.take(i as int)),
            decreases n - i,
        {
            if i > 0 {
                self.out.push(',');
                self.out.push(' ');
            }
            let v = match self.stack.get(i) {
                Some(v) => v,
                None => 0,
            };
            write_decimal(&mut self.out, v);
            assert(items.take(i + 1).drop_last() =~= items.take(i as int));
            i += 1;
        }
        self.out.push(']');
        self.out.push('\n');
        assert(items.take(n as int) =~= items);
    }

    /// Carries out the built-in word `b`.
    fn perform(&mut self, b: Builtin) -> (r: Result<(), Error>)
        ensures
            (final(self)@, outcome(r)) == machine::perform(old(self)@, b),
    {
        match b {
            Builtin::Add => lift(self.stack.add()),
            Builtin::Sub => lift(self.stack.sub()),
            Builtin::Mul => lift(self.stack.mul()),
            Builtin::Div => lift(self.stack.div()),
            Builtin::Print => lift(self.print()),
            Builtin::Colon => Ok(()),
            Builtin::Semicolon => Err(Error::UnmatchedSemicolon),
            Builtin::Less => lift(self.stack.lt()),
            Builtin::Greater => lift(self.stack.gt()),
            Builtin::Equals => lift(self.stack.equals()),
            Builtin::Cr => {
                self.out.push('\n');
                Ok(())
            },
            Builtin::Dup => lift(self.stack.dup()),
            Builtin::Swap => lift(self.stack.swap()),
            Builtin::Over => lift(self.stack.over()),
            Builtin::Emit => self.emit(),
            Builtin::Drop => match self.stack.pop() {
                Ok(_) => Ok(()),
                Err(e) => Err(Error::from(e)),
            },
            Builtin::Rot => lift(self.stack.rot()),
            Builtin::Bye => Err(Error::Bye),
            Builtin::ShowStack => {
                self.show_stack();
                Ok(())
            },
            Builtin::OpenParen => Ok(()),
            Builtin::CloseParen => Err(Error::UnmatchedParen),
        }
    }

    /// Runs the text of the defined word `name`, one level deeper.
    fn call(&mut self, name: &str, depth: usize) -> (r: Result<(), Error>)
        ensures
            (final(self)@, outcome(r)) == machine::call(old(self)@, name@, depth as nat),
        decreases depth, 0nat,
    {
        let toks = match self.words.get(name) {
            Some(body) => tokenize(body),
            None => {
                return Err(Error::UnknownWord(name.to_owned()));
            },
        };
        if depth == 0 {
            return Err(Error::RecursionLimit);
        }
        self.run_tokens(&toks, depth - 1)
    }

    /// Carries out `toks` one after the other, up to the first that fails.
    fn run_tokens(&mut self, toks: &Vec<String>, depth: usize) -> (r: Result<(), Error>)
        ensures
            (final(self)@, outcome(r)) == machine::run_tokens(
                old(self)@,
                Mode::Interpret,
                toks.deep_view(),
                depth as nat,
            ),
        decreases depth, 1nat,
    {
        let ghost all = toks.deep_view();
        let ghost goal = machine::run_tokens(old(self)@, Mode::Interpret, all, depth as nat);
        let mut phase = Phase::Interpret;
        let mut name = String::new();
        let mut text = String::new();
        let mut i: usize = 0;
        assert(all.skip(0) =~= all);
        while i < toks.len()
            invariant
                i <= toks.len(),
                all == toks.deep_view(),
                goal == machine::run_tokens(old(self)@, Mode::Interpret, all, depth as nat),
                goal == machine::run_tokens(
                    self@,
                    mode_of(phase, name@, text@),
                    all.skip(i as int),
                    depth as nat,
                ),
            decreases toks.len() - i,
        {
            let token = toks[i].as_str();
            let ghost before = self@;
            let ghost mode = mode_of(phase, name@, text@);
            let ghost next = step(before, mode, token@, depth as nat);
            proof {
                // the run from here is this token's step, and the run of the rest
                let rest = all.skip(i as int);
                assert(rest.drop_first() =~= all.skip(i + 1));
                assert(run_from(before, mode, rest, depth as nat) == if next.2 is Err {
                    next
                } else {
                    run_from(next.0, next.1, all.skip(i + 1), depth as nat)
                });
            }
            match phase {
                Phase::Comment => {
                    if same_text(token, ")") {
                        phase = Phase::Interpret;
                    }
                },
                Phase::Name => {
                    if same_text(token, ":") {
                        return Err(Error::NestedDefinition);
                    }
                    name = token.to_owned();
                    text = String::new();
                    phase = Phase::Body;
                },
                Phase::Body => {
                    if same_text(token, ";") {
                        let key = to_uppercase(name.as_str());
                        let mut body = String::new();
                        core::mem::swap(&mut body, &mut text);
                        self.words.insert(key, body);
                        phase = Phase::Interpret;
                    } else if same_text(token, ":") {
                        return Err(Error::NestedDefinition);
                    } else {
                        text.append(token);
                        text.push(' ');
                    }
                },
                Phase::Interpret => {
                    match parse_number(token) {
                        Some(n) => {
                            lift(self.stack.push(n))?;
                        },
                        None => {
                            let upper = to_uppercase(token);
                            match lookup_builtin(upper.as_str()) {
                                Some(b) => {
                                    self.perform(b)?;
                                    phase =
                                    match b {
                                        Builtin::Colon => Phase::Name,
                                        Builtin::OpenParen => Phase::Comment,
                                        _ => Phase::Interpret,
                                    };
                                },
                                None => {
                                    self.call(upper.as_str(), depth)?;
                                },
                            }
                        },
                    }
                },
            }
            // the step was carried out as the machine lays it down
            assert(next == (self@, mode_of(phase, name@, text@), Ok::<(), Fault>(())));
            i += 1;
        }
        Ok(())
    }

    /// The stack.
    pub fn stack(&self) -> (s: &Stack<i64>)
        ensures
            s@ == self@.stack,
    {
        &self.stack
    }

    /// What has been written and not yet taken.
    pub fn output(&self) -> (s: &str)
        ensures
            s@ == self@.out,
    {
        self.out.as_str()
    }

    /// Hands out what has been written, and starts anew with nothing.
    pub fn take_output(&mut self) -> (s: String)
        ensures
            s@ == old(self)@.out,
            final(self)@ == (Machine { out: Seq::empty(), ..old(self)@ }),
    {
        let mut s = String::new();
        core::mem::swap(&mut s, &mut self.out);
        s
    }

    /// The text of the defined word `name`, a name in upper case as the
    /// dictionary holds it.
    pub fn definition(&self, name: &str) -> (r: Option<&str>)
        ensures
            match r {
                Some(body) => self@.words.contains_key(name@) && body@ == self@.words[name@],
                None => !self@.words.contains_key(name@),
            },
    {
        self.words.get(name)
    }
}

} // verus!
