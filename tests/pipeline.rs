use partiql_cli::args::OutputFormat;
use partiql_cli::directive::parse_directives;
use partiql_cli::environment::{
    bindings_of_pairs, environment_kind, get_bindings, load_query_environment, EnvironmentError, EnvironmentKind,
};
use partiql_cli::error::ErrorKind;
use partiql_cli::evaluate::{evaluate, execute, Compiler};
use partiql_eval::env::basic::MapBindings;
use partiql_value::{Bag, Tuple, Value};

fn record(name: &str, v: i64) -> Value {
    let mut t = Tuple::new();
    t.insert(name, Value::from(v));
    Value::from(t)
}

#[test]
fn select_over_list_gives_two_records() {
    let compiler = Compiler::new().unwrap();
    let out = evaluate(&compiler, "SELECT a FROM [{'a':1},{'a':2}]", &MapBindings::default()).unwrap();
    assert_eq!(out, Value::from(Bag::from(vec![record("a", 1), record("a", 2)])));
}

#[test]
fn select_with_bare_keys_as_written() {
    // Bare keys are variable references, which are missing in an empty
    // environment, so each record loses its attribute.
    let compiler = Compiler::new().unwrap();
    let out = evaluate(&compiler, "SELECT a FROM [{a:1},{a:2}]", &MapBindings::default()).unwrap();
    assert_eq!(out, Value::from(Bag::from(vec![Value::from(Tuple::new()), Value::from(Tuple::new())])));
}

#[test]
fn syntax_error_gives_one_group_for_the_query() {
    let compiler = Compiler::new().unwrap();
    let e = evaluate(&compiler, "SELECT FROM WHERE", &MapBindings::default()).unwrap_err();
    assert_eq!(e.query(), "SELECT FROM WHERE");
    assert!(!e.related().is_empty());
    assert_eq!(e.related()[0].kind(), ErrorKind::SyntaxError);
}

#[test]
fn adding_text_to_a_number() {
    // In permissive mode the engine compiles the addition and evaluates it to
    // MISSING rather than rejecting it.
    let compiler = Compiler::new().unwrap();
    assert_eq!(evaluate(&compiler, "1 + 'x'", &MapBindings::default()).unwrap(), Value::Missing);
}

#[test]
fn environment_round_trip() {
    let compiler = Compiler::new().unwrap();
    let env = load_query_environment(&compiler, "{'a': 1, 'b': 'x'}").unwrap();
    assert_eq!(evaluate(&compiler, "a", &env).unwrap(), Value::from(1));
    assert_eq!(evaluate(&compiler, "b", &env).unwrap(), Value::from("x"));
}

#[test]
fn environment_that_is_not_a_record() {
    let compiler = Compiler::new().unwrap();
    assert!(matches!(load_query_environment(&compiler, "[1, 2]"), Err(EnvironmentError::NotARecord)));
}

#[test]
fn environment_query_that_fails() {
    let compiler = Compiler::new().unwrap();
    match load_query_environment(&compiler, "SELECT FROM") {
        Err(EnvironmentError::Diagnostics(e)) => assert_eq!(e.query(), "SELECT FROM"),
        _ => panic!("expected diagnostics"),
    }
}

#[test]
fn environment_kind_by_extension() {
    assert!(matches!(environment_kind("data/env.env"), Ok(EnvironmentKind::Query)));
    assert!(matches!(environment_kind("x.ion"), Ok(EnvironmentKind::Ion)));
    assert!(matches!(environment_kind("x.json"), Err(EnvironmentError::UnsupportedExtension(e)) if e == "json"));
    assert!(matches!(environment_kind("noext"), Err(EnvironmentError::MissingExtension)));
}

#[test]
fn same_query_twice_gives_same_value() {
    let compiler = Compiler::new().unwrap();
    let env = load_query_environment(&compiler, "{'a': 1, 'b': 'x'}").unwrap();
    let q = "SELECT v FROM <<{'v': a}, {'v': 2}>>";
    let first = evaluate(&compiler, q, &env).unwrap();
    let second = evaluate(&compiler, q, &env).unwrap();
    assert_eq!(first, second);
}

#[test]
fn execute_dumps_on_request() {
    let compiler = Compiler::new().unwrap();
    let request = parse_directives("\\ast\\plan 1 + 1", OutputFormat::Partiql);
    let run = execute(&compiler, &request, &MapBindings::default());
    assert_eq!(run.outcome.unwrap(), Value::from(2));
    assert!(run.ast.is_some());
    assert!(run.plan.is_some());
    let plain = parse_directives("1 + 1", OutputFormat::Partiql);
    let run = execute(&compiler, &plain, &MapBindings::default());
    assert!(run.ast.is_none() && run.plan.is_none());
}

#[test]
fn execute_failure_names_the_stripped_query() {
    let compiler = Compiler::new().unwrap();
    let request = parse_directives("\\table SELECT FROM", OutputFormat::Partiql);
    let run = execute(&compiler, &request, &MapBindings::default());
    let e = run.outcome.unwrap_err();
    assert_eq!(e.query(), " SELECT FROM");
    assert!(run.ast.is_none());
}


#[test]
fn ion_environment_round_trip() {
    let compiler = Compiler::new().unwrap();
    let env = get_bindings(&compiler, "env.ion", "{a: 1, b: \"x\"}").unwrap();
    assert_eq!(evaluate(&compiler, "a", &env).unwrap(), Value::from(1));
    assert_eq!(evaluate(&compiler, "b", &env).unwrap(), Value::from("x"));
}

#[test]
fn query_environment_through_get_bindings() {
    let compiler = Compiler::new().unwrap();
    let env = get_bindings(&compiler, "env.env", "{'a': 1, 'b': 'x'}").unwrap();
    assert_eq!(evaluate(&compiler, "a", &env).unwrap(), Value::from(1));
}

#[test]
fn get_bindings_refuses_other_files() {
    let compiler = Compiler::new().unwrap();
    assert!(matches!(get_bindings(&compiler, "env.txt", "{}"), Err(EnvironmentError::UnsupportedExtension(e)) if e == "txt"));
    assert!(matches!(get_bindings(&compiler, "env", "{}"), Err(EnvironmentError::MissingExtension)));
    assert!(matches!(get_bindings(&compiler, "env.ion", "[1, 2]"), Err(EnvironmentError::InvalidIon)));
    assert!(matches!(get_bindings(&compiler, "env.ion", ""), Err(EnvironmentError::InvalidIon)));
}

#[test]
fn default_rendering_is_native_pretty_print() {
    let request = parse_directives("SELECT a FROM [{'a':1},{'a':2}]", OutputFormat::Partiql);
    assert_eq!(request.output, OutputFormat::Partiql);
    let table = parse_directives("\\table SELECT a FROM [{a:1},{a:2}]", OutputFormat::Partiql);
    assert_eq!(table.output, OutputFormat::Table);
    assert_eq!(table.query, " SELECT a FROM [{a:1},{a:2}]");
}

#[test]
fn names_equal_ignoring_case_are_refused() {
    let compiler = Compiler::new().unwrap();
    assert!(matches!(
        get_bindings(&compiler, "env.env", "{'a': 1, 'A': 2}"),
        Err(EnvironmentError::DuplicateName(n)) if n == "A"
    ));
    assert!(matches!(
        get_bindings(&compiler, "env.ion", "{a: 1, b: 2, B: 3}"),
        Err(EnvironmentError::DuplicateName(n)) if n == "B"
    ));
    let pairs = vec![("x".to_string(), Value::from(1)), ("X".to_string(), Value::from(2))];
    assert!(matches!(bindings_of_pairs(pairs), Err(EnvironmentError::DuplicateName(n)) if n == "X"));
}

#[test]
fn distinct_names_become_bindings() {
    let compiler = Compiler::new().unwrap();
    let pairs = vec![("x".to_string(), Value::from(1)), ("y".to_string(), Value::from(2))];
    let env = bindings_of_pairs(pairs).unwrap();
    assert_eq!(evaluate(&compiler, "x + y", &env).unwrap(), Value::from(3));
}

#[test]
fn stages_in_order() {
    let compiler = Compiler::new().unwrap();
    assert!(compiler.parse("SELECT FROM").is_err());
    let parsed = compiler.parse("SELECT a FROM t").unwrap();
    assert_eq!(parsed.text(), "SELECT a FROM t");
    let plan = compiler.plan(&parsed).unwrap();
    let eval = compiler.compile(&plan).unwrap();
    let out = compiler.evaluate(&parsed, eval, &MapBindings::default()).unwrap();
    // A missing table is one absent row in permissive mode.
    assert_eq!(out, Value::from(Bag::from(vec![Value::from(Tuple::new())])));
}
