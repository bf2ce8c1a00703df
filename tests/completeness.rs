use partiql_cli::completeness::{classify_input, Completeness};

#[test]
fn empty_buffer_is_empty() {
    assert_eq!(classify_input(""), Completeness::Empty);
}

#[test]
fn terminator_completes_and_is_stripped() {
    assert_eq!(
        classify_input("SELECT a FROM t;"),
        Completeness::Complete("SELECT a FROM t".to_string())
    );
}

#[test]
fn line_break_completes_and_is_stripped() {
    assert_eq!(
        classify_input("SELECT a FROM t\n"),
        Completeness::Complete("SELECT a FROM t".to_string())
    );
}

#[test]
fn other_last_character_is_incomplete() {
    assert_eq!(classify_input("SELECT a"), Completeness::Incomplete);
    assert_eq!(classify_input(" "), Completeness::Incomplete);
}

#[test]
fn terminator_mid_buffer_does_not_end_statement() {
    // A terminator followed by more input keeps the whole buffer pending, so the
    // first statement is submitted again with whatever follows it.
    assert_eq!(classify_input("SELECT 1; SELECT 2"), Completeness::Incomplete);
    assert_eq!(
        classify_input("SELECT 1; SELECT 2;"),
        Completeness::Complete("SELECT 1; SELECT 2".to_string())
    );
}

#[test]
fn lone_terminator_completes_an_empty_statement() {
    assert_eq!(classify_input(";"), Completeness::Complete(String::new()));
}

#[test]
fn only_the_last_character_is_stripped() {
    assert_eq!(classify_input(";;"), Completeness::Complete(";".to_string()));
    assert_eq!(classify_input("a\n\n"), Completeness::Complete("a\n".to_string()));
}
