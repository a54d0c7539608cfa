//! What holds of every run, proved from the description of the machine.

use vstd::prelude::*;
use crate::builtin::{builtin_of, lemma_builtin_names, Builtin};
use crate::machine::{
    call, defined, perform, run_from, run_model, run_tokens, step, Fault, Machine, Mode,
    BUILTIN, MAX_DEPTH,
};
use crate::stack::CAPACITY;
use crate::number::{is_digit, parse_i64};
use crate::text::uppercase;
use crate::token::{
    appended, are_words, lemma_appended_reads_back, lemma_tokens_after_space,
    lemma_tokens_after_word, tokens,
};

verus! {

/// Whether `token` is carried out as the built-in word `b`.
pub open spec fn is_builtin(token: Seq<char>, b: Builtin) -> bool {
    parse_i64(token) is None && builtin_of(uppercase(token)) == Some(b)
}

/// Whether `token` is looked up in the dictionary: it is no number and no
/// built-in word.
pub open spec fn is_name(token: Seq<char>) -> bool {
    parse_i64(token) is None && builtin_of(uppercase(token)) is None
}

/// A run is its first token's step and then, if that did not fail, the run
/// of the rest.
pub proof fn lemma_run_unfolds(
    m: Machine,
    mode: Mode,
    token: Seq<char>,
    rest: Seq<Seq<char>>,
    depth: nat,
)
    ensures
        run_from(m, mode, seq![token] + rest, depth) == if step(m, mode, token, depth).2 is Err {
            step(m, mode, token, depth)
        } else {
            run_from(step(m, mode, token, depth).0, step(m, mode, token, depth).1, rest, depth)
        },
        run_tokens(m, mode, seq![token] + rest, depth) == if step(m, mode, token, depth).2 is Err {
            (step(m, mode, token, depth).0, step(m, mode, token, depth).2)
        } else {
            run_tokens(
                step(m, mode, token, depth).0,
                step(m, mode, token, depth).1,
                rest,
                depth,
            )
        },
{
    assert((seq![token] + rest).drop_first() =~= rest);
}

/// A run of one text after another is the run of the first and then, from
/// where that ended, the run of the second, unless the first failed.
pub proof fn lemma_run_splits(
    m: Machine,
    mode: Mode,
    first: Seq<Seq<char>>,
    second: Seq<Seq<char>>,
    depth: nat,
)
    ensures
        run_from(m, mode, first + second, depth) == if run_from(m, mode, first, depth).2 is Err {
            run_from(m, mode, first, depth)
        } else {
            run_from(
                run_from(m, mode, first, depth).0,
                run_from(m, mode, first, depth).1,
                second,
                depth,
            )
        },
    decreases first.len(),
{
    if first.len() > 0 {
        let token = first.first();
        let rest = first.drop_first();
        assert(first + second =~= seq![token] + (rest + second));
        lemma_run_unfolds(m, mode, token, rest, depth);
        lemma_run_unfolds(m, mode, token, rest + second, depth);
        let next = step(m, mode, token, depth);
        if next.2 is Ok {
            lemma_run_splits(next.0, next.1, rest, second, depth);
        }
    }
}

/// A failure ends the run: the tokens after the one that failed are not
/// carried out, and the machine stays as that token left it.
pub proof fn lemma_failure_ends_run(
    m: Machine,
    mode: Mode,
    token: Seq<char>,
    rest: Seq<Seq<char>>,
    depth: nat,
)
    requires
        step(m, mode, token, depth).2 is Err,
    ensures
        run_tokens(m, mode, seq![token] + rest, depth) == (
            step(m, mode, token, depth).0,
            step(m, mode, token, depth).2,
        ),
{
    lemma_run_unfolds(m, mode, token, rest, depth);
}

/// `BYE`, where it is carried out, ends the run at once: nothing that
/// follows is carried out, and the machine stays as the tokens before `BYE`
/// left it.
pub proof fn lemma_bye_halts(
    m: Machine,
    before: Seq<Seq<char>>,
    bye: Seq<char>,
    rest: Seq<Seq<char>>,
    depth: nat,
)
    requires
        run_from(m, Mode::Interpret, before, depth).1 == Mode::Interpret,
        run_from(m, Mode::Interpret, before, depth).2 is Ok,
        is_builtin(bye, Builtin::Bye),
    ensures
        run_tokens(m, Mode::Interpret, before + seq![bye] + rest, depth) == (
            run_from(m, Mode::Interpret, before, depth).0,
            Err::<(), Fault>(Fault::Bye),
        ),
{
    let reached = run_from(m, Mode::Interpret, before, depth).0;
    assert(before + seq![bye] + rest =~= before + (seq![bye] + rest));
    lemma_run_splits(m, Mode::Interpret, before, seq![bye] + rest, depth);
    lemma_run_unfolds(reached, Mode::Interpret, bye, rest, depth);
}

/// `BYE` in the text of a word ends the call of the word, with the machine
/// as the tokens before `BYE` left it.
pub proof fn lemma_bye_ends_call(
    m: Machine,
    name: Seq<char>,
    before: Seq<Seq<char>>,
    bye: Seq<char>,
    rest: Seq<Seq<char>>,
    depth: nat,
)
    requires
        m.words.contains_key(name),
        tokens(m.words[name]) == before + seq![bye] + rest,
        depth > 0,
        run_from(m, Mode::Interpret, before, (depth - 1) as nat).1 == Mode::Interpret,
        run_from(m, Mode::Interpret, before, (depth - 1) as nat).2 is Ok,
        is_builtin(bye, Builtin::Bye),
    ensures
        call(m, name, depth) == (
            run_from(m, Mode::Interpret, before, (depth - 1) as nat).0,
            Err::<(), Fault>(Fault::Bye),
        ),
{
    lemma_bye_halts(m, before, bye, rest, (depth - 1) as nat);
}

/// `BYE` inside the text of a word ends the run that called the word as
/// well: nothing that follows the call is carried out.
pub proof fn lemma_bye_unwinds(m: Machine, word: Seq<char>, rest: Seq<Seq<char>>, depth: nat)
    requires
        is_name(word),
        call(m, uppercase(word), depth).1 == Err::<(), Fault>(Fault::Bye),
    ensures
        run_tokens(m, Mode::Interpret, seq![word] + rest, depth) == (
            call(m, uppercase(word), depth).0,
            Err::<(), Fault>(Fault::Bye),
        ),
{
    lemma_run_unfolds(m, Mode::Interpret, word, rest, depth);
}

/// A token that is no number, no built-in word and no defined word fails
/// with `UnknownWord` and its upper-case form, and leaves the machine as it
/// was.
pub proof fn lemma_unknown_word(m: Machine, word: Seq<char>, rest: Seq<Seq<char>>, depth: nat)
    requires
        is_name(word),
        !m.words.contains_key(uppercase(word)),
    ensures
        run_tokens(m, Mode::Interpret, seq![word] + rest, depth) == (
            m,
            Err::<(), Fault>(Fault::UnknownWord(uppercase(word))),
        ),
{
    lemma_run_unfolds(m, Mode::Interpret, word, rest, depth);
}

/// What stands in a comment is not carried out: the tokens from `(` to the
/// next `)` leave the machine as it was, whatever they are.
pub proof fn lemma_comment_is_skipped(
    m: Machine,
    comment: Seq<Seq<char>>,
    rest: Seq<Seq<char>>,
    depth: nat,
)
    requires
        forall|i: int| 0 <= i < comment.len() ==> comment[i] != ")"@,
    ensures
        run_tokens(m, Mode::Comment, comment + seq![")"@] + rest, depth) == run_tokens(
            m,
            Mode::Interpret,
            rest,
            depth,
        ),
        run_tokens(m, Mode::Interpret, seq!["("@] + comment + seq![")"@] + rest, depth)
            == run_tokens(m, Mode::Interpret, rest, depth),
    decreases comment.len(),
{
    let inside = comment + seq![")"@] + rest;
    if comment.len() == 0 {
        lemma_run_unfolds(m, Mode::Comment, ")"@, rest, depth);
    } else {
        let shorter = comment.drop_first();
        assert(inside =~= seq![comment.first()] + (shorter + seq![")"@] + rest));
        lemma_run_unfolds(m, Mode::Comment, comment.first(), shorter + seq![")"@] + rest, depth);
        lemma_comment_is_skipped(m, shorter, rest, depth);
    }
    lemma_symbols();
    assert(seq!["("@] + comment + seq![")"@] + rest =~= seq!["("@] + inside);
    lemma_run_unfolds(m, Mode::Interpret, "("@, inside, depth);
}

/// The signs of the language are carried out as the built-in words that
/// they name.
pub proof fn lemma_symbols()
    ensures
        is_builtin("("@, Builtin::OpenParen),
        is_builtin(")"@, Builtin::CloseParen),
        is_builtin(":"@, Builtin::Colon),
        is_builtin(";"@, Builtin::Semicolon),
        is_builtin("."@, Builtin::Print),
{
    lemma_builtin_names();
    lemma_sign("("@);
    lemma_sign(")"@);
    lemma_sign(":"@);
    lemma_sign(";"@);
    lemma_sign("."@);
}

/// A text of one ASCII character that is no letter and no digit is its own
/// upper-case form, and is no number.
proof fn lemma_sign(s: Seq<char>)
    requires
        s.len() == 1,
        s[0] as u32 <= 0x7F,
        !('a' <= s[0] <= 'z'),
        !('0' <= s[0] <= '9'),
    ensures
        uppercase(s) == s,
        parse_i64(s) is None,
{
}

/// Names are matched without regard to case: two tokens with one upper-case
/// form, neither of them a number, are carried out alike, and define the
/// same word.
pub proof fn lemma_case_is_ignored(
    m: Machine,
    a: Seq<char>,
    b: Seq<char>,
    text: Seq<char>,
    depth: nat,
)
    requires
        uppercase(a) == uppercase(b),
        parse_i64(a) is None,
        parse_i64(b) is None,
    ensures
        step(m, Mode::Interpret, a, depth) == step(m, Mode::Interpret, b, depth),
        defined(m, a, text) == defined(m, b, text),
{
}

/// A word defined again has its new text alone: the machine is as if the
/// earlier definition had not been made, and a call runs the new text.
pub proof fn lemma_redefinition_replaces(
    m: Machine,
    name: Seq<char>,
    again: Seq<char>,
    first: Seq<char>,
    second: Seq<char>,
    depth: nat,
)
    requires
        uppercase(name) == uppercase(again),
    ensures
        defined(defined(m, name, first), again, second) == defined(m, again, second),
        defined(m, again, second).words[uppercase(name)] == second,
        depth > 0 ==> call(defined(m, again, second), uppercase(name), depth) == run_tokens(
            defined(m, again, second),
            Mode::Interpret,
            tokens(second),
            (depth - 1) as nat,
        ),
{
    assert(defined(defined(m, name, first), again, second).words =~= defined(
        m,
        again,
        second,
    ).words);
}

/// The built-in text defines `PRINT` as `. cr`, and does nothing else.
pub proof fn lemma_builtin_text(m: Machine)
    ensures
        run_model(m, BUILTIN@) == (
            Machine { words: m.words.insert("PRINT"@, ". cr "@), ..m },
            Ok::<(), Fault>(()),
        ),
{
    reveal_strlit("\n: print . cr ;\n");
    reveal_strlit("print");
    reveal_strlit("PRINT");
    reveal_strlit(".");
    reveal_strlit("cr");
    reveal_strlit(". cr ");
    lemma_builtin_names();
    lemma_symbols();
    let colon = ":"@;
    let print = "print"@;
    let dot = "."@;
    let cr = "cr"@;
    let semicolon = ";"@;
    let nl = seq!['\n'];
    let sp = seq![' '];

    // the tokens of the text
    let t5 = nl;
    let t4 = semicolon + t5;
    let t3 = cr + (sp + t4);
    let t2 = dot + (sp + t3);
    let t1 = print + (sp + t2);
    let t0 = colon + (sp + t1);
    assert(BUILTIN@ =~= nl + t0);
    lemma_tokens_after_space('\n', t0);
    lemma_tokens_after_word(colon, sp + t1);
    lemma_tokens_after_space(' ', t1);
    lemma_tokens_after_word(print, sp + t2);
    lemma_tokens_after_space(' ', t2);
    lemma_tokens_after_word(dot, sp + t3);
    lemma_tokens_after_space(' ', t3);
    lemma_tokens_after_word(cr, sp + t4);
    lemma_tokens_after_space(' ', t4);
    lemma_tokens_after_word(semicolon, t5);
    lemma_tokens_after_space('\n', Seq::<char>::empty());
    let none = Seq::<Seq<char>>::empty();
    let r4 = seq![semicolon] + none;
    let r3 = seq![cr] + r4;
    let r2 = seq![dot] + r3;
    let r1 = seq![print] + r2;
    let r0 = seq![colon] + r1;

    // their effect
    let depth = MAX_DEPTH as nat;
    let body1 = (Seq::<char>::empty() + dot).push(' ');
    let body2 = (body1 + cr).push(' ');
    assert(body2 =~= ". cr "@);
    assert(uppercase(print) =~= "PRINT"@);
    lemma_run_unfolds(m, Mode::Interpret, colon, r1, depth);
    lemma_run_unfolds(m, Mode::Name, print, r2, depth);
    lemma_run_unfolds(m, Mode::Body { name: print, text: Seq::empty() }, dot, r3, depth);
    lemma_run_unfolds(m, Mode::Body { name: print, text: body1 }, cr, r4, depth);
    lemma_run_unfolds(m, Mode::Body { name: print, text: body2 }, semicolon, none, depth);
}

/// Inside a definition the tokens up to `;` are collected, not carried out,
/// and `;` gives the word the text collected.
pub proof fn lemma_body_is_collected(
    m: Machine,
    name: Seq<char>,
    text: Seq<char>,
    body: Seq<Seq<char>>,
    rest: Seq<Seq<char>>,
    depth: nat,
)
    requires
        forall|i: int| 0 <= i < body.len() ==> body[i] != ";"@ && body[i] != ":"@,
    ensures
        run_tokens(m, Mode::Body { name, text }, body + seq![";"@] + rest, depth) == run_tokens(
            defined(m, name, appended(text, body)),
            Mode::Interpret,
            rest,
            depth,
        ),
    decreases body.len(),
{
    let toks = body + seq![";"@] + rest;
    let mode = Mode::Body { name, text };
    if body.len() == 0 {
        lemma_run_unfolds(m, mode, ";"@, rest, depth);
    } else {
        let shorter = body.drop_first();
        assert(toks =~= seq![body.first()] + (shorter + seq![";"@] + rest));
        lemma_run_unfolds(m, mode, body.first(), shorter + seq![";"@] + rest, depth);
        lemma_body_is_collected(
            m,
            name,
            (text + body.first()).push(' '),
            shorter,
            rest,
            depth,
        );
    }
}

/// A definition, from `:` to `;`, carries nothing out: it gives the word
/// named after `:` the tokens up to `;` as its text, each with a space after
/// it.
pub proof fn lemma_definition(
    m: Machine,
    name: Seq<char>,
    body: Seq<Seq<char>>,
    rest: Seq<Seq<char>>,
    depth: nat,
)
    requires
        name != ":"@,
        forall|i: int| 0 <= i < body.len() ==> body[i] != ";"@ && body[i] != ":"@,
    ensures
        run_tokens(m, Mode::Interpret, seq![":"@, name] + body + seq![";"@] + rest, depth)
            == run_tokens(
            defined(m, name, appended(Seq::empty(), body)),
            Mode::Interpret,
            rest,
            depth,
        ),
{
    lemma_symbols();
    let inside = body + seq![";"@] + rest;
    assert(seq![":"@, name] + body + seq![";"@] + rest =~= seq![":"@] + (seq![name] + inside));
    lemma_run_unfolds(m, Mode::Interpret, ":"@, seq![name] + inside, depth);
    lemma_run_unfolds(m, Mode::Name, name, inside, depth);
    lemma_body_is_collected(m, name, Seq::empty(), body, rest, depth);
}

/// A call of a word carries out the tokens that its definition held, one
/// level deeper.
pub proof fn lemma_word_runs_its_definition(
    m: Machine,
    name: Seq<char>,
    body: Seq<Seq<char>>,
    depth: nat,
)
    requires
        are_words(body),
        depth > 0,
    ensures
        call(defined(m, name, appended(Seq::empty(), body)), uppercase(name), depth) == run_tokens(
            defined(m, name, appended(Seq::empty(), body)),
            Mode::Interpret,
            body,
            (depth - 1) as nat,
        ),
{
    lemma_appended_reads_back(Seq::empty(), body);
}

/// What no run undoes: the stack stays within its capacity, the words that
/// were defined stay defined, and what was written stays written.
pub open spec fn kept(before: Machine, after: Machine) -> bool {
    &&& after.stack.len() <= CAPACITY
    &&& forall|name: Seq<char>| #[trigger]
        before.words.contains_key(name) ==> after.words.contains_key(name)
    &&& before.out.is_prefix_of(after.out)
}

/// A built-in word keeps what no run undoes.
pub proof fn lemma_builtin_keeps(m: Machine, b: Builtin)
    requires
        m.stack.len() <= CAPACITY,
    ensures
        kept(m, perform(m, b).0),
{
}

/// A token keeps what no run undoes.
pub proof fn lemma_step_keeps(m: Machine, mode: Mode, token: Seq<char>, depth: nat)
    requires
        m.stack.len() <= CAPACITY,
    ensures
        kept(m, step(m, mode, token, depth).0),
    decreases depth, 1nat, 0nat,
{
    if mode is Interpret && parse_i64(token) is None {
        match builtin_of(uppercase(token)) {
            Some(b) => lemma_builtin_keeps(m, b),
            None => lemma_call_keeps(m, uppercase(token), depth),
        }
    }
}

/// A call keeps what no run undoes.
pub proof fn lemma_call_keeps(m: Machine, name: Seq<char>, depth: nat)
    requires
        m.stack.len() <= CAPACITY,
    ensures
        kept(m, call(m, name, depth).0),
    decreases depth, 0nat, 0nat,
{
    if m.words.contains_key(name) && depth > 0 {
        lemma_run_keeps(m, Mode::Interpret, tokens(m.words[name]), (depth - 1) as nat);
    }
}

/// A run undoes nothing: the stack stays within its capacity, no word is
/// lost from the dictionary, and nothing that was written is taken back.
pub proof fn lemma_run_keeps(m: Machine, mode: Mode, toks: Seq<Seq<char>>, depth: nat)
    requires
        m.stack.len() <= CAPACITY,
    ensures
        kept(m, run_from(m, mode, toks, depth).0),
        kept(m, run_tokens(m, mode, toks, depth).0),
    decreases depth, 2nat, toks.len(),
{
    if toks.len() > 0 {
        let next = step(m, mode, toks.first(), depth);
        lemma_step_keeps(m, mode, toks.first(), depth);
        if next.2 is Ok {
            lemma_run_keeps(next.0, next.1, toks.drop_first(), depth);
        }
    }
}

} // verus!
