use partiql_cli::args::OutputFormat;
use partiql_cli::directive::{parse_directives, Directives};

fn d(query: &str, output: OutputFormat, dump_ast: bool, dump_plan: bool) -> Directives {
    Directives { query: query.to_string(), output, dump_ast, dump_plan }
}

#[test]
fn no_directive_keeps_text_and_default_format() {
    assert_eq!(
        parse_directives("SELECT a FROM t", OutputFormat::IonLines),
        d("SELECT a FROM t", OutputFormat::IonLines, false, false)
    );
}

#[test]
fn each_format_directive_sets_its_format() {
    let p = OutputFormat::Partiql;
    assert_eq!(parse_directives("\\table SELECT 1", p), d(" SELECT 1", OutputFormat::Table, false, false));
    assert_eq!(parse_directives("\\ion-lines 1", p), d(" 1", OutputFormat::IonLines, false, false));
    assert_eq!(parse_directives("\\ion-pretty 1", p), d(" 1", OutputFormat::IonPretty, false, false));
    assert_eq!(
        parse_directives("\\partiql 1", OutputFormat::Table),
        d(" 1", OutputFormat::Partiql, false, false)
    );
}

#[test]
fn dump_directives_set_flags() {
    let p = OutputFormat::Partiql;
    assert_eq!(parse_directives("\\ast 1", p), d(" 1", p, true, false));
    assert_eq!(parse_directives("\\plan 1", p), d(" 1", p, false, true));
    assert_eq!(parse_directives("\\ast\\plan\\table 1", p), d(" 1", OutputFormat::Table, true, true));
}

#[test]
fn first_format_directive_wins() {
    assert_eq!(
        parse_directives("\\table\\ion-lines 1", OutputFormat::Partiql),
        d("\\ion-lines 1", OutputFormat::Table, false, false)
    );
}

#[test]
fn dump_directive_after_format_is_query_text() {
    assert_eq!(
        parse_directives("\\table\\ast 1", OutputFormat::Partiql),
        d("\\ast 1", OutputFormat::Table, false, false)
    );
}

#[test]
fn directive_is_matched_as_a_prefix() {
    assert_eq!(
        parse_directives("\\tables 1", OutputFormat::Partiql),
        d("s 1", OutputFormat::Table, false, false)
    );
}

#[test]
fn unrecognized_backslash_is_left_alone() {
    assert_eq!(
        parse_directives("\\x SELECT 1", OutputFormat::Partiql),
        d("\\x SELECT 1", OutputFormat::Partiql, false, false)
    );
}

#[test]
fn reparsing_stripped_text_changes_nothing() {
    let first = parse_directives("\\ast\\table SELECT a FROM t", OutputFormat::Partiql);
    assert_eq!(first, d(" SELECT a FROM t", OutputFormat::Table, true, false));
    let again = parse_directives(&first.query, OutputFormat::Partiql);
    assert_eq!(again, d(" SELECT a FROM t", OutputFormat::Partiql, false, false));
}

#[test]
fn doubled_directive_is_removed_once() {
    let first = parse_directives("\\table\\table x", OutputFormat::Partiql);
    assert_eq!(first, d("\\table x", OutputFormat::Table, false, false));
}
