use partiql_cli::error::{CLIError, CLIErrors, ErrorKind, Label, Location};
use partiql_cli::fault::{EvaluationFault, LowerFault, ParseFault, PlanningFault};

#[test]
fn syntax_fault_keeps_its_span() {
    let f = ParseFault::Syntax("bad".to_string(), 3, 7);
    let e = CLIError::from_parse_fault("SELECT x y", &f);
    assert_eq!(
        e,
        CLIError::SyntaxError {
            src: "SELECT x y".to_string(),
            msg: "Syntax error `bad`".to_string(),
            loc: Location { start: 3, end: 7 },
        }
    );
    assert_eq!(e.kind(), ErrorKind::SyntaxError);
    assert_eq!(e.label(), Some(Label { text: "Syntax error `bad`".to_string(), offset: 3, len: 4 }));
    assert_eq!(e.source_code(), Some(&"SELECT x y".to_string()));
}

#[test]
fn token_and_lexical_faults_are_syntax_errors() {
    let loc = Location { start: 0, end: 1 };
    let t = CLIError::from_parse_fault("q", &ParseFault::UnexpectedToken("FROM".to_string(), 0, 1));
    assert_eq!(t, CLIError::SyntaxError { src: "q".to_string(), msg: "Unexpected token `FROM`".to_string(), loc });
    let l = CLIError::from_parse_fault("q", &ParseFault::Lexical("x".to_string(), 0, 1));
    assert_eq!(l, CLIError::SyntaxError { src: "q".to_string(), msg: "Lexical error `x`".to_string(), loc });
    let u = CLIError::from_parse_fault("q", &ParseFault::Unknown(5));
    assert_eq!(
        u,
        CLIError::SyntaxError {
            src: "q".to_string(),
            msg: "Unknown parser error".to_string(),
            loc: Location { start: 5, end: 5 },
        }
    );
}

#[test]
fn end_of_input_is_anchored_at_last_byte() {
    let e = CLIError::from_parse_fault("SELECT é", &ParseFault::UnexpectedEndOfInput);
    assert_eq!(
        e,
        CLIError::SyntaxError {
            src: "SELECT é".to_string(),
            msg: "Unexpected end of input".to_string(),
            loc: Location { start: 8, end: 8 },
        }
    );
    let empty = CLIError::from_parse_fault("", &ParseFault::UnexpectedEndOfInput);
    assert_eq!(empty.label(), Some(Label { text: "Unexpected end of input".to_string(), offset: 0, len: 0 }));
}

#[test]
fn parser_illegal_state_is_internal() {
    let e = CLIError::from_parse_fault("q", &ParseFault::IllegalState("boom".to_string()));
    assert_eq!(e.kind(), ErrorKind::InternalCompilerError);
    assert_eq!(
        e.description(),
        "Internal Compiler Error: `Parser Illegal State: boom`\nplease report this (https://github.com/partiql/partiql-lang-rust/issues)."
    );
    assert_eq!(e.label(), None);
}

#[test]
fn unknown_parse_fault_is_unknown_error() {
    let e = CLIError::from_parse_fault("q", &ParseFault::Other("odd".to_string()));
    assert_eq!(e, CLIError::UnknownError("odd".to_string()));
    assert_eq!(e.source_code(), None);
    assert_eq!(e.description(), "Unknown error: odd");
}

#[test]
fn lowering_faults_map_to_kinds() {
    let q = "1 + 'x'";
    assert_eq!(
        CLIError::from_lower_fault(q, &LowerFault::Literal { literal: "1".to_string(), error: "e".to_string() }),
        CLIError::CompileError {
            src: q.to_string(),
            msg: "Compiler literal value error. Literal: `1`. Error: `e`".to_string(),
        }
    );
    assert_eq!(
        CLIError::from_lower_fault(q, &LowerFault::InvalidNumberOfArguments("f".to_string())),
        CLIError::CompileError {
            src: q.to_string(),
            msg: "Compiler function error: Invalid number of args. Error: `f`".to_string(),
        }
    );
    assert_eq!(
        CLIError::from_lower_fault(q, &LowerFault::UnsupportedFunction("f".to_string())),
        CLIError::CompileError {
            src: q.to_string(),
            msg: "Compiler function error: Unsupported function. Error: `f`".to_string(),
        }
    );
    assert_eq!(
        CLIError::from_lower_fault(q, &LowerFault::UnsupportedAggregationFunction("g".to_string())),
        CLIError::CompileError {
            src: q.to_string(),
            msg: "Compiler function error: Unsupported aggregate function. Error: `g`".to_string(),
        }
    );
    assert_eq!(
        CLIError::from_lower_fault(q, &LowerFault::IllegalState("s".to_string())),
        CLIError::InternalCompilerError { src: q.to_string(), msg: "Compiler Illegal State: s".to_string() }
    );
    assert_eq!(
        CLIError::from_lower_fault(q, &LowerFault::Other("o".to_string())),
        CLIError::UnknownError("o".to_string())
    );
}

#[test]
fn planning_and_evaluation_faults_map_to_kinds() {
    assert_eq!(
        CLIError::from_planning_fault("q", &PlanningFault::IllegalState("s".to_string())),
        CLIError::InternalCompilerError { src: "q".to_string(), msg: "Planner Illegal State: s".to_string() }
    );
    assert_eq!(
        CLIError::from_planning_fault("q", &PlanningFault::Other("o".to_string())),
        CLIError::UnknownError("o".to_string())
    );
    assert_eq!(
        CLIError::from_evaluation_fault("q", &EvaluationFault::InvalidEvaluationPlan("p".to_string())),
        CLIError::InternalCompilerError {
            src: "q".to_string(),
            msg: "Compiler function error: Invalid Plan. Error: `p`".to_string(),
        }
    );
    assert_eq!(
        CLIError::from_evaluation_fault("q", &EvaluationFault::Other("o".to_string())),
        CLIError::UnknownError("o".to_string())
    );
}

#[test]
fn several_faults_fan_out_in_one_group() {
    let faults = vec![
        ParseFault::Unknown(1),
        ParseFault::Other("o".to_string()),
    ];
    let g = CLIErrors::from_parse_faults("abc", &faults);
    assert_eq!(g.query(), "abc");
    assert_eq!(g.related().len(), 2);
    assert_eq!(g.related()[1], CLIError::UnknownError("o".to_string()));
}

#[test]
fn stage_failure_without_errors_still_yields_one_diagnostic() {
    let g = CLIErrors::from_evaluation_faults("q", &Vec::new());
    assert_eq!(g.query(), "q");
    assert_eq!(
        g.related(),
        &vec![CLIError::InternalCompilerError {
            src: "q".to_string(),
            msg: "Evaluating failed without reporting an error".to_string(),
        }]
    );
}

#[test]
fn compile_fault_gives_one_compile_error() {
    let g = CLIErrors::from_lower_faults("1 + 'x'", &vec![LowerFault::UnsupportedFunction("plus".to_string())]);
    assert_eq!(g.query(), "1 + 'x'");
    assert_eq!(g.related().len(), 1);
    assert_eq!(g.related()[0].kind(), ErrorKind::CompileError);
}

#[test]
fn io_read_error_group() {
    let g = CLIErrors::io_read_error("");
    assert_eq!(g.related(), &vec![CLIError::IOReadError]);
    assert_eq!(g.related()[0].description(), "I/O Error reading input environment");
    assert_eq!(g.related()[0].kind(), ErrorKind::IOReadError);
}

#[test]
fn inverted_span_has_zero_length_label() {
    let e = CLIError::SyntaxError { src: "q".to_string(), msg: "m".to_string(), loc: Location { start: 4, end: 2 } };
    assert_eq!(e.label(), Some(Label { text: "m".to_string(), offset: 4, len: 0 }));
}
