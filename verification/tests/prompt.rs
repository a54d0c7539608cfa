use miniforth::forth::{Error, VM};
use miniforth::prompt::{answer, Answer};

#[test]
fn a_line_that_ran_is_answered_by_ok() {
    assert_eq!(answer("1 2 +\n", &Ok(())), Answer::Done);
    assert_eq!(answer("", &Ok(())), Answer::Done);
    assert_eq!(answer(" \n", &Ok(())), Answer::Done);
}

#[test]
fn a_bare_line_end_is_answered_by_silence() {
    assert_eq!(answer("\n", &Ok(())), Answer::Nothing);
}

#[test]
fn bye_ends_the_prompt() {
    assert_eq!(answer("bye\n", &Err(Error::Bye)), Answer::Leave);
    assert_eq!(answer("\n", &Err(Error::Bye)), Answer::Leave);
}

#[test]
fn a_failure_is_answered_by_its_message() {
    assert_eq!(
        answer("+\n", &Err(Error::Underflow)),
        Answer::Failed(" Stack underflow".to_string())
    );
    assert_eq!(
        answer("\n", &Err(Error::Overflow)),
        Answer::Failed(" Stack overflow".to_string())
    );
}

#[test]
fn messages() {
    assert_eq!(Error::Overflow.message(), " Stack overflow");
    assert_eq!(Error::Underflow.message(), " Stack underflow");
    assert_eq!(Error::UnknownWord("FOOBAR".to_string()).message(), " FOOBAR ?");
    assert_eq!(Error::Bye.message(), "");
    assert_eq!(Error::DivisionByZero.message(), " Division by zero");
    assert_eq!(Error::InvalidChar(-55296).message(), " -55296 is no character");
    assert_eq!(Error::UnmatchedParen.message(), " ) outside a comment");
    assert_eq!(Error::NestedDefinition.message(), " : inside a definition");
    assert_eq!(Error::UnmatchedSemicolon.message(), " ; outside a definition");
    assert_eq!(Error::RecursionLimit.message(), " Words nested too deep");
}

#[test]
fn a_session() {
    let mut vm = VM::new(String::new());
    vm.init_dict().unwrap();
    let mut said = Vec::new();
    for line in ["2 3 + .\n", "\n", "nope\n", ": sq dup * ;\n", "7 sq print\n", "bye\n", "1 .\n"] {
        let result = vm.run(line);
        let a = answer(line, &result);
        said.push((vm.take_output(), a));
        if said.last().unwrap().1 == Answer::Leave {
            break;
        }
    }
    assert_eq!(
        said,
        vec![
            ("5".to_string(), Answer::Done),
            ("".to_string(), Answer::Nothing),
            ("".to_string(), Answer::Failed(" NOPE ?".to_string())),
            ("".to_string(), Answer::Done),
            ("49\n".to_string(), Answer::Done),
            ("".to_string(), Answer::Leave),
        ]
    );
}
