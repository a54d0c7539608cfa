//! The built-in words: their names, and how a token is recognised as one.

use vstd::prelude::*;
use crate::text::same_text;

verus! {

/// A word that the interpreter knows without a definition.
#[derive(Debug, Clone, Copy, PartialEq, Eq, Structural)]
pub enum Builtin {
    /// `+`
    Add,
    /// `-`
    Sub,
    /// `*`
    Mul,
    /// `/`
    Div,
    /// `.`
    Print,
    /// `:`
    Colon,
    /// `;`
    Semicolon,
    /// `<`
    Less,
    /// `>`
    Greater,
    /// `=`
    Equals,
    /// `CR`
    Cr,
    /// `DUP`
    Dup,
    /// `SWAP`
    Swap,
    /// `OVER`
    Over,
    /// `EMIT`
    Emit,
    /// `DROP`
    Drop,
    /// `ROT`
    Rot,
    /// `BYE`
    Bye,
    /// `.S`
    ShowStack,
    /// `(`
    OpenParen,
    /// `)`
    CloseParen,
}

/// The built-in word that is written `upper`, a name in upper case.
pub open spec fn builtin_of(upper: Seq<char>) -> Option<Builtin> {
    if upper == "+"@ {
        Some(Builtin::Add)
    } else if upper == "-"@ {
        Some(Builtin::Sub)
    } else if upper == "*"@ {
        Some(Builtin::Mul)
    } else if upper == "/"@ {
        Some(Builtin::Div)
    } else if upper == "."@ {
        Some(Builtin::Print)
    } else if upper == ":"@ {
        Some(Builtin::Colon)
    } else if upper == ";"@ {
        Some(Builtin::Semicolon)
    } else if upper == "<"@ {
        Some(Builtin::Less)
    } else if upper == ">"@ {
        Some(Builtin::Greater)
    } else if upper == "="@ {
        Some(Builtin::Equals)
    } else if upper == "CR"@ {
        Some(Builtin::Cr)
    } else if upper == "DUP"@ {
        Some(Builtin::Dup)
    } else if upper == "SWAP"@ {
        Some(Builtin::Swap)
    } else if upper == "OVER"@ {
        Some(Builtin::Over)
    } else if upper == "EMIT"@ {
        Some(Builtin::Emit)
    } else if upper == "DROP"@ {
        Some(Builtin::Drop)
    } else if upper == "ROT"@ {
        Some(Builtin::Rot)
    } else if upper == "BYE"@ {
        Some(Builtin::Bye)
    } else if upper == ".S"@ {
        Some(Builtin::ShowStack)
    } else if upper == "("@ {
        Some(Builtin::OpenParen)
    } else if upper == ")"@ {
        Some(Builtin::CloseParen)
    } else {
        None
    }
}

/// What the names of the built-in words hold, character by character.
pub proof fn lemma_builtin_names()
    ensures
        "+"@ == seq!['+'],
        "-"@ == seq!['-'],
        "*"@ == seq!['*'],
        "/"@ == seq!['/'],
        "."@ == seq!['.'],
        ":"@ == seq![':'],
        ";"@ == seq![';'],
        "<"@ == seq!['<'],
        ">"@ == seq!['>'],
        "="@ == seq!['='],
        "CR"@ == seq!['C', 'R'],
        "DUP"@ == seq!['D', 'U', 'P'],
        "SWAP"@ == seq!['S', 'W', 'A', 'P'],
        "OVER"@ == seq!['O', 'V', 'E', 'R'],
        "EMIT"@ == seq!['E', 'M', 'I', 'T'],
        "DROP"@ == seq!['D', 'R', 'O', 'P'],
        "ROT"@ == seq!['R', 'O', 'T'],
        "BYE"@ == seq!['B', 'Y', 'E'],
        ".S"@ == seq!['.', 'S'],
        "("@ == seq!['('],
        ")"@ == seq![')'],
{
    reveal_strlit("+");
    reveal_strlit("-");
    reveal_strlit("*");
    reveal_strlit("/");
    reveal_strlit(".");
    reveal_strlit(":");
    reveal_strlit(";");
    reveal_strlit("<");
    reveal_strlit(">");
    reveal_strlit("=");
    reveal_strlit("CR");
    reveal_strlit("DUP");
    reveal_strlit("SWAP");
    reveal_strlit("OVER");
    reveal_strlit("EMIT");
    reveal_strlit("DROP");
    reveal_strlit("ROT");
    reveal_strlit("BYE");
    reveal_strlit(".S");
    reveal_strlit("(");
    reveal_strlit(")");
}

/// Finds the built-in word that is written `upper`, a name in upper case.
pub fn lookup_builtin(upper: &str) -> (r: Option<Builtin>)
    ensures
        r == builtin_of(upper@),
{
    if same_text(upper, "+") {
        Some(Builtin::Add)
    } else if same_text(upper, "-") {
        Some(Builtin::Sub)
    } else if same_text(upper, "*") {
        Some(Builtin::Mul)
    } else if same_text(upper, "/") {
        Some(Builtin::Div)
    } else if same_text(upper, ".") {
        Some(Builtin::Print)
    } else if same_text(upper, ":") {
        Some(Builtin::Colon)
    } else if same_text(upper, ";") {
        Some(Builtin::Semicolon)
    } else if same_text(upper, "<") {
        Some(Builtin::Less)
    } else if same_text(upper, ">") {
        Some(Builtin::Greater)
    } else if same_text(upper, "=") {
        Some(Builtin::Equals)
    } else if same_text(upper, "CR") {
        Some(Builtin::Cr)
    } else if same_text(upper, "DUP") {
        Some(Builtin::Dup)
    } else if same_text(upper, "SWAP") {
        Some(Builtin::Swap)
    } else if same_text(upper, "OVER") {
        Some(Builtin::Over)
    } else if same_text(upper, "EMIT") {
        Some(Builtin::Emit)
    } else if same_text(upper, "DROP") {
        Some(Builtin::Drop)
    } else if same_text(upper, "ROT") {
        Some(Builtin::Rot)
    } else if same_text(upper, "BYE") {
        Some(Builtin::Bye)
    } else if same_text(upper, ".S") {
        Some(Builtin::ShowStack)
    } else if same_text(upper, "(") {
        Some(Builtin::OpenParen)
    } else if same_text(upper, ")") {
        Some(Builtin::CloseParen)
    } else {
        None
    }
}

} // verus!
