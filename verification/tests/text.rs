use miniforth::builtin::{lookup_builtin, Builtin};
use miniforth::dictionary::Dictionary;
use miniforth::number::{parse_number, write_decimal};
use miniforth::text::same_text;
use miniforth::token::{is_space, tokenize};

#[test]
fn whitespace_is_what_the_standard_library_says() {
    for n in 0..=0x10FFFFu32 {
        if let Some(c) = char::from_u32(n) {
            assert_eq!(is_space(c), c.is_whitespace(), "at {:x}", n);
        }
    }
}

#[test]
fn tokens_are_the_runs_between_whitespace() {
    assert_eq!(tokenize("  1 2\t+\n. "), vec!["1", "2", "+", "."]);
    assert_eq!(tokenize("one"), vec!["one"]);
    assert_eq!(tokenize("a\u{3000}b\u{a0}c"), vec!["a", "b", "c"]);
}

#[test]
fn empty_text_has_no_tokens() {
    assert_eq!(tokenize(""), Vec::<String>::new());
    assert_eq!(tokenize(" \n\t "), Vec::<String>::new());
}

#[test]
fn tokens_agree_with_split_whitespace() {
    let texts = [
        ": DOUBLE DUP + ; 4 DOUBLE .",
        "( this is 5 + ignored ) 2 3 +",
        "\n: print . cr ;\n",
        "x",
        " x",
        "x ",
        "\u{2003}é\u{2028}ß \u{1680}",
        "a\r\nb\u{b}c\u{c}d\u{85}e\u{202f}f\u{205f}g",
    ];
    for text in texts {
        let expected: Vec<String> = text.split_whitespace().map(|t| t.to_string()).collect();
        assert_eq!(tokenize(text), expected);
    }
}

#[test]
fn numbers_are_read_as_the_standard_library_reads_them() {
    let tokens = [
        "0", "7", "42", "-1", "+5", "-0", "+0", "007", "-007", "", "-", "+", "--1", "+-1", "-+1",
        "1-", "1+", "1 ", " 1", "1.0", "1e3", "0x10", "a", "12a", "a12", "９", "9223372036854775807",
        "9223372036854775808", "-9223372036854775808", "-9223372036854775809",
        "+9223372036854775807", "+9223372036854775808", "18446744073709551616",
        "00000000000000000000000000000000000001", "99999999999999999999999999999999999999",
        "-99999999999999999999999999999999999999", "1_000", "٣", "-a", "+a", "1\u{0}",
    ];
    for token in tokens {
        assert_eq!(parse_number(token), token.parse::<i64>().ok(), "for {:?}", token);
    }
}

#[test]
fn number_values() {
    assert_eq!(parse_number("42"), Some(42));
    assert_eq!(parse_number("-42"), Some(-42));
    assert_eq!(parse_number("+42"), Some(42));
    assert_eq!(parse_number("-9223372036854775808"), Some(i64::MIN));
    assert_eq!(parse_number("9223372036854775807"), Some(i64::MAX));
    assert_eq!(parse_number("9223372036854775808"), None);
    assert_eq!(parse_number("-"), None);
    assert_eq!(parse_number(""), None);
}

fn decimal(v: i64) -> String {
    let mut out = String::new();
    write_decimal(&mut out, v);
    out
}

#[test]
fn decimal_text_is_what_the_standard_library_writes() {
    let mut values = vec![0, 1, -1, 9, 10, -10, 99, 100, 101, i64::MAX, i64::MIN, i64::MIN + 1];
    let mut p: i64 = 1;
    for _ in 0..18 {
        p *= 10;
        values.extend([p - 1, p, p + 1, -p, -p - 1, -p + 1]);
    }
    for v in values {
        assert_eq!(decimal(v), v.to_string());
    }
}

#[test]
fn decimal_text_values() {
    assert_eq!(decimal(8), "8");
    assert_eq!(decimal(-120), "-120");
    assert_eq!(decimal(i64::MIN), "-9223372036854775808");
}

#[test]
fn decimal_text_goes_after_what_is_there() {
    let mut out = String::from("n=");
    write_decimal(&mut out, 305);
    assert_eq!(out, "n=305");
}

#[test]
fn built_in_words_are_found_by_their_names() {
    let table = [
        ("+", Builtin::Add),
        ("-", Builtin::Sub),
        ("*", Builtin::Mul),
        ("/", Builtin::Div),
        (".", Builtin::Print),
        (":", Builtin::Colon),
        (";", Builtin::Semicolon),
        ("<", Builtin::Less),
        (">", Builtin::Greater),
        ("=", Builtin::Equals),
        ("CR", Builtin::Cr),
        ("DUP", Builtin::Dup),
        ("SWAP", Builtin::Swap),
        ("OVER", Builtin::Over),
        ("EMIT", Builtin::Emit),
        ("DROP", Builtin::Drop),
        ("ROT", Builtin::Rot),
        ("BYE", Builtin::Bye),
        (".S", Builtin::ShowStack),
        ("(", Builtin::OpenParen),
        (")", Builtin::CloseParen),
    ];
    for (name, word) in table {
        assert_eq!(lookup_builtin(name), Some(word));
    }
}

#[test]
fn other_names_are_no_built_in_words() {
    for name in ["", "dup", "DUPE", "DU", "D", "SWAPS", "PRINT", "++", ".s", "C", "CRR", "é", "BYE "] {
        assert_eq!(lookup_builtin(name), None, "for {:?}", name);
    }
}

#[test]
fn texts_are_the_same_when_their_characters_are() {
    assert!(same_text("", ""));
    assert!(same_text("DUP", "DUP"));
    assert!(!same_text("DUP", "DUPE"));
    assert!(!same_text("DUPE", "DUP"));
    assert!(!same_text("DUP", "DUp"));
    assert!(!same_text("", "x"));
    assert!(same_text("héllo", "héllo"));
}

#[test]
fn dictionary_starts_empty() {
    let words = Dictionary::new();
    assert_eq!(words.get("PRINT"), None);
}

#[test]
fn dictionary_holds_what_was_defined() {
    let mut words = Dictionary::new();
    words.insert("DOUBLE".to_string(), "DUP + ".to_string());
    words.insert("SQUARE".to_string(), "DUP * ".to_string());
    assert_eq!(words.get("DOUBLE"), Some("DUP + "));
    assert_eq!(words.get("SQUARE"), Some("DUP * "));
    assert_eq!(words.get("double"), None);
    assert_eq!(words.get("CUBE"), None);
}

#[test]
fn dictionary_keeps_the_latest_definition() {
    let mut words = Dictionary::new();
    words.insert("A".to_string(), "1 ".to_string());
    words.insert("B".to_string(), "2 ".to_string());
    words.insert("A".to_string(), "3 ".to_string());
    assert_eq!(words.get("A"), Some("3 "));
    assert_eq!(words.get("B"), Some("2 "));
}

/// A fixed sequence of numbers that looks random.
struct Sequence(u64);

impl Sequence {
    fn next(&mut self) -> u64 {
        self.0 = self.0.wrapping_mul(6364136223846793005).wrapping_add(1442695040888963407);
        self.0 >> 11
    }

    fn text(&mut self, alphabet: &[char], longest: u64) -> String {
        let len = self.next() % (longest + 1);
        (0..len).map(|_| alphabet[(self.next() % alphabet.len() as u64) as usize]).collect()
    }
}

#[test]
fn many_texts_split_as_the_standard_library_splits_them() {
    let alphabet = ['a', 'B', '1', ';', ':', '(', ')', ' ', ' ', '\n', '\t', '\u{a0}', '\u{3000}', 'é'];
    let mut sequence = Sequence(1);
    for _ in 0..2000 {
        let text = sequence.text(&alphabet, 24);
        let expected: Vec<String> = text.split_whitespace().map(|t| t.to_string()).collect();
        assert_eq!(tokenize(&text), expected, "for {:?}", text);
    }
}

#[test]
fn many_tokens_read_as_the_standard_library_reads_them() {
    let alphabet = ['0', '1', '2', '3', '7', '8', '9', '9', '-', '+', 'a'];
    let mut sequence = Sequence(2);
    for _ in 0..5000 {
        let token = sequence.text(&alphabet, 21);
        assert_eq!(parse_number(&token), token.parse::<i64>().ok(), "for {:?}", token);
    }
}

#[test]
fn many_numbers_are_written_as_the_standard_library_writes_them() {
    let mut sequence = Sequence(3);
    for _ in 0..5000 {
        let v = (sequence.next() << 11 | sequence.next() & 0x7ff) as i64 >> (sequence.next() % 64);
        assert_eq!(decimal(v), v.to_string());
        assert_eq!(parse_number(&decimal(v)), Some(v));
    }
}

#[test]
fn many_texts_compare_as_the_standard_library_compares_them() {
    let alphabet = ['a', 'b', 'é'];
    let mut sequence = Sequence(4);
    for _ in 0..2000 {
        let a = sequence.text(&alphabet, 4);
        let b = sequence.text(&alphabet, 4);
        assert_eq!(same_text(&a, &b), a == b, "for {:?} and {:?}", a, b);
    }
}
