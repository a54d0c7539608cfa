//! Tokens: the runs of characters between whitespace.

use vstd::prelude::*;

verus! {

/// Whether `c` separates tokens: the code points that Unicode marks as
/// `White_Space`.
pub open spec fn is_whitespace(c: char) -> bool {
    let n = c as u32;
    ||| 0x09 <= n <= 0x0D
    ||| n == 0x20
    ||| n == 0x85
    ||| n == 0xA0
    ||| n == 0x1680
    ||| 0x2000 <= n <= 0x200A
    ||| n == 0x2028
    ||| n == 0x2029
    ||| n == 0x202F
    ||| n == 0x205F
    ||| n == 0x3000
}

/// Whether `c` separates tokens.
pub fn is_space(c: char) -> (b: bool)
    ensures
        b == is_whitespace(c),
{
    let n = c as u32;
    (0x09 <= n && n <= 0x0D) || n == 0x20 || n == 0x85 || n == 0xA0 || n == 0x1680 || (0x2000 <= n
        && n <= 0x200A) || n == 0x2028 || n == 0x2029 || n == 0x202F || n == 0x205F || n == 0x3000
}

/// Whether no character of `s` is whitespace.
pub open spec fn is_solid(s: Seq<char>) -> bool {
    forall|i: int| 0 <= i < s.len() ==> !is_whitespace(#[trigger] s[i])
}

/// The length of the longest prefix of `s` that holds no whitespace.
pub open spec fn word_len(s: Seq<char>) -> nat
    decreases s.len(),
{
    if s.len() == 0 || is_whitespace(s[0]) {
        0
    } else {
        1 + word_len(s.drop_first())
    }
}

/// The tokens of `s`: its maximal runs of characters other than whitespace,
/// in the order in which they stand.
pub open spec fn tokens(s: Seq<char>) -> Seq<Seq<char>>
    decreases s.len(),
{
    if s.len() == 0 {
        Seq::empty()
    } else if is_whitespace(s[0]) {
        tokens(s.drop_first())
    } else {
        proof {
            lemma_word_len(s);
        }
        let n = word_len(s) as int;
        seq![s.take(n)] + tokens(s.skip(n))
    }
}

/// A word's length is within the text, and the word is its longest prefix
/// without whitespace.
pub proof fn lemma_word_len(s: Seq<char>)
    ensures
        word_len(s) <= s.len(),
        is_solid(s.take(word_len(s) as int)),
        word_len(s) < s.len() ==> is_whitespace(s[word_len(s) as int]),
        s.len() > 0 && !is_whitespace(s[0]) ==> word_len(s) > 0,
    decreases s.len(),
{
    if s.len() == 0 || is_whitespace(s[0]) {
    } else {
        let rest = s.drop_first();
        lemma_word_len(rest);
        let n = word_len(s) as int;
        assert forall|i: int| 0 <= i < n implies !is_whitespace(#[trigger] s.take(n)[i]) by {
            if i > 0 {
                assert(s.take(n)[i] == rest.take(n - 1)[i - 1]);
            }
        }
        if n < s.len() {
        }
    }
}

/// Leading whitespace holds no token.
pub proof fn lemma_tokens_after_space(space: char, rest: Seq<char>)
    requires
        is_whitespace(space),
    ensures
        tokens(seq![space] + rest) == tokens(rest),
{
    let s = seq![space] + rest;
    assert(s.drop_first() =~= rest);
}

/// A run without whitespace that ends the text, or that whitespace follows,
/// is the first token there.
pub proof fn lemma_tokens_after_word(word: Seq<char>, rest: Seq<char>)
    requires
        word.len() > 0,
        is_solid(word),
        rest.len() == 0 || is_whitespace(rest[0]),
    ensures
        tokens(word + rest) == seq![word] + tokens(rest),
{
    let s = word + rest;
    lemma_word_len_of_word(word, rest);
    assert(s.take(word.len() as int) =~= word);
    assert(s.skip(word.len() as int) =~= rest);
}

/// The word at the head of `word + rest` is `word`, where `word` holds no
/// whitespace and `rest` does not go on with the word.
proof fn lemma_word_len_of_word(word: Seq<char>, rest: Seq<char>)
    requires
        is_solid(word),
        rest.len() == 0 || is_whitespace(rest[0]),
    ensures
        word_len(word + rest) == word.len(),
    decreases word.len(),
{
    if word.len() > 0 {
        assert((word + rest).drop_first() =~= word.drop_first() + rest);
        assert(is_solid(word.drop_first()));
        lemma_word_len_of_word(word.drop_first(), rest);
    }
}

/// The head word of a text does not change with what follows the
/// whitespace after it.
proof fn lemma_word_len_within(a: Seq<char>, b: Seq<char>)
    requires
        word_len(a) < a.len(),
    ensures
        word_len(a + b) == word_len(a),
{
    let n = word_len(a) as int;
    lemma_word_len(a);
    lemma_word_len_of_word(a.take(n), a.skip(n) + b);
    assert(a.take(n) + (a.skip(n) + b) =~= a + b);
}

/// A text cut where whitespace ends it has the tokens of its two parts.
pub proof fn lemma_tokens_split(a: Seq<char>, b: Seq<char>)
    requires
        a.len() == 0 || is_whitespace(a.last()),
    ensures
        tokens(a + b) == tokens(a) + tokens(b),
    decreases a.len(),
{
    let s = a + b;
    if a.len() == 0 {
    } else if is_whitespace(a[0]) {
        assert(s.drop_first() =~= a.drop_first() + b);
        lemma_tokens_split(a.drop_first(), b);
    } else {
        let n = word_len(a) as int;
        lemma_word_len(a);
        assert(n < a.len()) by {
            if n == a.len() {
                assert(a.take(n)[n - 1] == a.last());
            }
        }
        lemma_word_len_within(a, b);
        assert(s.take(n) =~= a.take(n));
        assert(s.skip(n) =~= a.skip(n) + b);
        lemma_tokens_split(a.skip(n), b);
        assert(seq![a.take(n)] + (tokens(a.skip(n)) + tokens(b)) =~= (seq![a.take(n)] + tokens(
            a.skip(n),
        )) + tokens(b));
    }
}

/// Whether each of `toks` can be a token: it is not empty and holds no
/// whitespace.
pub open spec fn are_words(toks: Seq<Seq<char>>) -> bool {
    forall|i: int| 0 <= i < toks.len() ==> (#[trigger] toks[i]).len() > 0 && is_solid(toks[i])
}

/// No token is empty, and none holds whitespace.
pub proof fn lemma_tokens_are_words(s: Seq<char>)
    ensures
        are_words(tokens(s)),
    decreases s.len(),
{
    if s.len() == 0 {
    } else if is_whitespace(s[0]) {
        lemma_tokens_are_words(s.drop_first());
    } else {
        let n = word_len(s) as int;
        lemma_word_len(s);
        lemma_tokens_are_words(s.skip(n));
    }
}

/// The text of a definition after each of `toks` has been put at the end of
/// `text`, with a space after it.
pub open spec fn appended(text: Seq<char>, toks: Seq<Seq<char>>) -> Seq<char>
    decreases toks.len(),
{
    if toks.len() == 0 {
        text
    } else {
        appended((text + toks.first()).push(' '), toks.drop_first())
    }
}

/// The text of a definition reads back as the tokens that were put into it.
pub proof fn lemma_appended_reads_back(text: Seq<char>, toks: Seq<Seq<char>>)
    requires
        text.len() == 0 || is_whitespace(text.last()),
        are_words(toks),
    ensures
        tokens(appended(text, toks)) == tokens(text) + toks,
    decreases toks.len(),
{
    if toks.len() > 0 {
        let word = toks.first();
        let longer = (text + word).push(' ');
        let space = seq![' '];
        assert(longer =~= text + (word + space));
        assert(are_words(toks.drop_first()));
        lemma_appended_reads_back(longer, toks.drop_first());
        lemma_tokens_split(text, word + space);
        lemma_tokens_after_word(word, space);
        assert(tokens(space) == tokens(space.drop_first()));
        assert(tokens(text) + (seq![word] + tokens(space)) + toks.drop_first() =~= tokens(text)
            + toks);
    }
}

/// Splits `code` into its tokens.
pub fn tokenize(code: &str) -> (toks: Vec<String>)
    ensures
        toks.deep_view() == tokens(code@),
{
    let mut toks: Vec<String> = Vec::new();
    let mut word = String::new();
    assert(word@ + code@.skip(0) =~= code@);
    for c in it: code.chars()
        invariant
            it.seq() == code@,
            is_solid(word@),
            tokens(code@) == toks.deep_view() + tokens(word@ + code@.skip(it.index() as int)),
    {
        let ghost i = it.index() as int;
        let ghost rest = code@.skip(i);
        assert(rest.drop_first() =~= code@.skip(i + 1));
        if is_space(c) {
            if !word.as_str().is_empty() {
                proof {
                    lemma_tokens_after_word(word@, rest);
                }
                toks.push(word);
                word = String::new();
            }
        } else {
            let ghost before = word@;
            word.push(c);
            assert(before + rest =~= word@ + rest.drop_first());
        }
    }
    let ghost rest = code@.skip(code@.len() as int);
    if !word.as_str().is_empty() {
        proof {
            lemma_tokens_after_word(word@, rest);
        }
        toks.push(word);
    }
    toks
}

} // verus!
