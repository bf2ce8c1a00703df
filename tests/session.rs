use partiql_cli::args::OutputFormat;
use partiql_cli::directive::Directives;
use partiql_cli::session::{Session, SessionState, Step};

fn run(query: &str, output: OutputFormat) -> Step {
    Step::Execute(Directives { query: query.to_string(), output, dump_ast: false, dump_plan: false })
}

#[test]
fn incomplete_line_accumulates_until_terminator() {
    let mut s = Session::new(OutputFormat::Partiql);
    assert_eq!(s.on_line("SELECT a "), Step::Continue);
    assert_eq!(s.state(), SessionState::Accumulating);
    assert_eq!(s.on_line("FROM t;"), run("SELECT a FROM t", OutputFormat::Partiql));
    assert_eq!(s.state(), SessionState::Executing);
}

#[test]
fn lines_are_joined_without_separator() {
    let mut s = Session::new(OutputFormat::Partiql);
    assert_eq!(s.on_line("SELECT a"), Step::Continue);
    assert_eq!(s.on_line("FROM t;"), run("SELECT aFROM t", OutputFormat::Partiql));
}

#[test]
fn empty_line_prompts_again() {
    let mut s = Session::new(OutputFormat::Partiql);
    assert_eq!(s.on_line(""), Step::Prompt);
    assert_eq!(s.state(), SessionState::Prompting);
}

#[test]
fn statement_runs_once_then_history_grows() {
    let mut s = Session::new(OutputFormat::Table);
    assert_eq!(s.on_line("SELECT 1;"), run("SELECT 1", OutputFormat::Table));
    s.on_executed();
    assert_eq!(s.state(), SessionState::Rendering);
    s.on_rendered();
    assert_eq!(s.state(), SessionState::Prompting);
    assert_eq!(s.history(), &vec!["SELECT 1;".to_string()]);
    assert_eq!(s.on_line("x"), Step::Continue);
}

#[test]
fn failed_statement_leaves_session_open() {
    let mut s = Session::new(OutputFormat::Partiql);
    assert_eq!(s.on_line("1 + 'x';"), run("1 + 'x'", OutputFormat::Partiql));
    s.on_executed();
    s.on_rendered();
    assert_eq!(s.state(), SessionState::Prompting);
    assert_eq!(s.on_line("SELECT 2;"), run("SELECT 2", OutputFormat::Partiql));
}

#[test]
fn directives_apply_to_the_complete_statement() {
    let mut s = Session::new(OutputFormat::Partiql);
    assert_eq!(s.on_line("\\table SELECT a FROM [{a:1},{a:2}]\n"), run(" SELECT a FROM [{a:1},{a:2}]", OutputFormat::Table));
}

#[test]
fn end_of_input_hands_out_history() {
    let mut s = Session::new(OutputFormat::Partiql);
    s.on_line("1;");
    s.on_executed();
    s.on_rendered();
    s.on_line("2\n");
    s.on_executed();
    s.on_rendered();
    let h = s.on_end_of_input();
    assert_eq!(h, vec!["1;".to_string(), "2\n".to_string()]);
    assert_eq!(s.state(), SessionState::Exit);
    assert!(s.history().is_empty());
}
