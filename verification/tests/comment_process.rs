use hsml::parser::comment::process::{process_dev_comment, process_native_comment};
use hsml::parser::failure::{FailureKind, ParseFailure};

#[test]
fn it_should_process_dev_comment() {
    let input = "// This is a dev comment\n";

    let (rest, comment) = process_dev_comment(input).unwrap();

    assert_eq!(comment, " This is a dev comment");
    assert_eq!(rest, "\n");
}

#[test]
fn it_should_process_native_comment() {
    let input = "//! This is a native comment\n";

    let (rest, comment) = process_native_comment(input).unwrap();

    assert_eq!(comment, " This is a native comment");
    assert_eq!(rest, "\n");
}

#[test]
fn it_should_not_process_dev_comment() {
    let input = "//! This is not a dev comment\n";

    assert_eq!(
        Err(ParseFailure {
            input: String::from("! This is not a dev comment\n"),
            kind: FailureKind::UnexpectedToken,
        }),
        process_dev_comment(input)
    );
}

#[test]
fn it_should_not_process_native_comment() {
    let input = "// This is not a native comment\n";

    assert_eq!(
        Err(ParseFailure {
            input: String::from("// This is not a native comment\n"),
            kind: FailureKind::UnexpectedToken,
        }),
        process_native_comment(input)
    );
}
