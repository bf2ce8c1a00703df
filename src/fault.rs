use vstd::prelude::*;
use vstd::string::*;
use vstd::utf8::encode_utf8;

use crate::error::{joined, quoted, quoted_message, CLIError, CLIErrorView, CLIErrors, CLIErrorsView, Location, group_of};

verus! {

/// What the parser reported about one error, as plain values.
#[derive(Debug, Clone, PartialEq, Eq)]
pub enum ParseFault {
    /// A syntax error, with its detail and the byte range it covers.
    Syntax(String, u32, u32),
    /// A token that was not expected, with the byte range it covers.
    UnexpectedToken(String, u32, u32),
    /// A lexical error, with its detail and the byte range it covers.
    Lexical(String, u32, u32),
    /// An error of no particular kind, at a byte offset.
    Unknown(u32),
    IllegalState(String),
    UnexpectedEndOfInput,
    /// A kind of parse error that has no case here, with its text.
    Other(String),
}

/// The model of `ParseFault`.
pub enum ParseFaultView {
    Syntax { detail: Seq<char>, loc: Location },
    UnexpectedToken { token: Seq<char>, loc: Location },
    Lexical { detail: Seq<char>, loc: Location },
    Unknown { at: usize },
    IllegalState(Seq<char>),
    UnexpectedEndOfInput,
    Other(Seq<char>),
}

impl View for ParseFault {
    type V = ParseFaultView;

    open spec fn view(&self) -> ParseFaultView {
        match self {
            ParseFault::Syntax(detail, start, end) => ParseFaultView::Syntax {
                detail: detail@,
                loc: location_of(*start, *end),
            },
            ParseFault::UnexpectedToken(token, start, end) => ParseFaultView::UnexpectedToken {
                token: token@,
                loc: location_of(*start, *end),
            },
            ParseFault::Lexical(detail, start, end) => ParseFaultView::Lexical {
                detail: detail@,
                loc: location_of(*start, *end),
            },
            ParseFault::Unknown(at) => ParseFaultView::Unknown { at: *at as usize },
            ParseFault::IllegalState(m) => ParseFaultView::IllegalState(m@),
            ParseFault::UnexpectedEndOfInput => ParseFaultView::UnexpectedEndOfInput,
            ParseFault::Other(m) => ParseFaultView::Other(m@),
        }
    }
}

/// The location covering the byte offsets `start` to `end`.
pub open spec fn location_of(start: u32, end: u32) -> Location {
    Location { start: start as usize, end: end as usize }
}

/// The location covering the byte offsets `start` to `end`.
fn location(start: u32, end: u32) -> (r: Location)
    ensures
        r == location_of(start, end),
{
    Location { start: start as usize, end: end as usize }
}

/// What the logical planner reported about one error, as plain values.
#[derive(Debug, Clone, PartialEq, Eq)]
pub enum LowerFault {
    IllegalState(String),
    Literal { literal: String, error: String },
    InvalidNumberOfArguments(String),
    UnsupportedFunction(String),
    UnsupportedAggregationFunction(String),
    /// A kind of lowering error that has no case here, with its text.
    Other(String),
}

/// The model of `LowerFault`.
pub enum LowerFaultView {
    IllegalState(Seq<char>),
    Literal { literal: Seq<char>, error: Seq<char> },
    InvalidNumberOfArguments(Seq<char>),
    UnsupportedFunction(Seq<char>),
    UnsupportedAggregationFunction(Seq<char>),
    Other(Seq<char>),
}

impl View for LowerFault {
    type V = LowerFaultView;

    open spec fn view(&self) -> LowerFaultView {
        match self {
            LowerFault::IllegalState(m) => LowerFaultView::IllegalState(m@),
            LowerFault::Literal { literal, error } => LowerFaultView::Literal {
                literal: literal@,
                error: error@,
            },
            LowerFault::InvalidNumberOfArguments(m) => LowerFaultView::InvalidNumberOfArguments(m@),
            LowerFault::UnsupportedFunction(m) => LowerFaultView::UnsupportedFunction(m@),
            LowerFault::UnsupportedAggregationFunction(m) => LowerFaultView::UnsupportedAggregationFunction(m@),
            LowerFault::Other(m) => LowerFaultView::Other(m@),
        }
    }
}

/// What the physical compiler reported about one error, as plain values.
#[derive(Debug, Clone, PartialEq, Eq)]
pub enum PlanningFault {
    IllegalState(String),
    /// A kind of planning error that has no case here, with its text.
    Other(String),
}

/// What the evaluator reported about one error, as plain values.
#[derive(Debug, Clone, PartialEq, Eq)]
pub enum EvaluationFault {
    InvalidEvaluationPlan(String),
    /// A kind of evaluation error that has no case here, with its text.
    Other(String),
}

/// The single-point location at the last byte of `src`, or at its start when it
/// is empty.
pub open spec fn end_location(src: Seq<char>) -> Location {
    let n = encode_utf8(src).len() as usize;
    let at = if n == 0 { 0usize } else { (n - 1) as usize };
    Location { start: at, end: at }
}

/// The diagnostic for one parse error of the query `src`.
pub open spec fn parse_error_of(src: Seq<char>, f: ParseFaultView) -> CLIErrorView {
    match f {
        ParseFaultView::Syntax { detail, loc } => CLIErrorView::SyntaxError {
            src,
            msg: quoted("Syntax error `"@, detail),
            loc,
        },
        ParseFaultView::UnexpectedToken { token, loc } => CLIErrorView::SyntaxError {
            src,
            msg: quoted("Unexpected token `"@, token),
            loc,
        },
        ParseFaultView::Lexical { detail, loc } => CLIErrorView::SyntaxError {
            src,
            msg: quoted("Lexical error `"@, detail),
            loc,
        },
        ParseFaultView::Unknown { at } => CLIErrorView::SyntaxError {
            src,
            msg: "Unknown parser error"@,
            loc: Location { start: at, end: at },
        },
        ParseFaultView::IllegalState(m) => CLIErrorView::InternalCompilerError {
            src,
            msg: "Parser Illegal State: "@ + m,
        },
        ParseFaultView::UnexpectedEndOfInput => CLIErrorView::SyntaxError {
            src,
            msg: "Unexpected end of input"@,
            loc: end_location(src),
        },
        ParseFaultView::Other(m) => CLIErrorView::UnknownError(m),
    }
}

/// The diagnostic for one lowering error of the query `src`.
pub open spec fn lower_error_of(src: Seq<char>, f: LowerFaultView) -> CLIErrorView {
    match f {
        LowerFaultView::IllegalState(m) => CLIErrorView::InternalCompilerError {
            src,
            msg: "Compiler Illegal State: "@ + m,
        },
        LowerFaultView::Literal { literal, error } => CLIErrorView::CompileError {
            src,
            msg: "Compiler literal value error. Literal: `"@ + literal + "`. Error: `"@ + error
                + "`"@,
        },
        LowerFaultView::InvalidNumberOfArguments(m) => CLIErrorView::CompileError {
            src,
            msg: quoted("Compiler function error: Invalid number of args. Error: `"@, m),
        },
        LowerFaultView::UnsupportedFunction(m) => CLIErrorView::CompileError {
            src,
            msg: quoted("Compiler function error: Unsupported function. Error: `"@, m),
        },
        LowerFaultView::UnsupportedAggregationFunction(m) => CLIErrorView::CompileError {
            src,
            msg: quoted("Compiler function error: Unsupported aggregate function. Error: `"@, m),
        },
        LowerFaultView::Other(m) => CLIErrorView::UnknownError(m),
    }
}

/// The diagnostic for one planning error of the query `src`.
pub open spec fn planning_error_of(src: Seq<char>, f: PlanningFault) -> CLIErrorView {
    match f {
        PlanningFault::IllegalState(m) => CLIErrorView::InternalCompilerError {
            src,
            msg: "Planner Illegal State: "@ + m@,
        },
        PlanningFault::Other(m) => CLIErrorView::UnknownError(m@),
    }
}

/// The diagnostic for one evaluation error of the query `src`.
pub open spec fn evaluation_error_of(src: Seq<char>, f: EvaluationFault) -> CLIErrorView {
    match f {
        EvaluationFault::InvalidEvaluationPlan(m) => CLIErrorView::InternalCompilerError {
            src,
            msg: quoted("Compiler function error: Invalid Plan. Error: `"@, m@),
        },
        EvaluationFault::Other(m) => CLIErrorView::UnknownError(m@),
    }
}

impl CLIError {
    /// The diagnostic for one parse error of `source`. An error without a
    /// location is anchored at the last byte of the source.
    pub fn from_parse_fault(source: &str, f: &ParseFault) -> (r: CLIError)
        ensures
            r@ == parse_error_of(source@, f@),
    {
        let src = source.to_string();
        match f {
            ParseFault::Syntax(detail, start, end) => CLIError::SyntaxError {
                src,
                msg: quoted_message("Syntax error `", detail.as_str()),
                loc: location(*start, *end),
            },
            ParseFault::UnexpectedToken(token, start, end) => CLIError::SyntaxError {
                src,
                msg: quoted_message("Unexpected token `", token.as_str()),
                loc: location(*start, *end),
            },
            ParseFault::Lexical(detail, start, end) => CLIError::SyntaxError {
                src,
                msg: quoted_message("Lexical error `", detail.as_str()),
                loc: location(*start, *end),
            },
            ParseFault::Unknown(at) => CLIError::SyntaxError {
                src,
                msg: String::from_str("Unknown parser error"),
                loc: location(*at, *at),
            },
            ParseFault::IllegalState(m) => CLIError::InternalCompilerError {
                src,
                msg: joined("Parser Illegal State: ", m.as_str()),
            },
            ParseFault::UnexpectedEndOfInput => {
                let n = source.len();
                let at: usize = if n == 0 { 0 } else { n - 1 };
                assert(Location { start: at, end: at } == end_location(source@));
                CLIError::SyntaxError {
                    src,
                    msg: String::from_str("Unexpected end of input"),
                    loc: Location { start: at, end: at },
                }
            },
            ParseFault::Other(m) => CLIError::UnknownError(m.clone()),
        }
    }

    /// The diagnostic for one lowering error of `source`.
    pub fn from_lower_fault(source: &str, f: &LowerFault) -> (r: CLIError)
        ensures
            r@ == lower_error_of(source@, f@),
    {
        let src = source.to_string();
        match f {
            LowerFault::IllegalState(m) => CLIError::InternalCompilerError {
                src,
                msg: joined("Compiler Illegal State: ", m.as_str()),
            },
            LowerFault::Literal { literal, error } => {
                let mut msg = String::from_str("Compiler literal value error. Literal: `");
                msg.append(literal.as_str());
                msg.append("`. Error: `");
                msg.append(error.as_str());
                msg.append("`");
                CLIError::CompileError { src, msg }
            },
            LowerFault::InvalidNumberOfArguments(m) => CLIError::CompileError {
                src,
                msg: quoted_message(
                    "Compiler function error: Invalid number of args. Error: `",
                    m.as_str(),
                ),
            },
            LowerFault::UnsupportedFunction(m) => CLIError::CompileError {
                src,
                msg: quoted_message(
                    "Compiler function error: Unsupported function. Error: `",
                    m.as_str(),
                ),
            },
            LowerFault::UnsupportedAggregationFunction(m) => CLIError::CompileError {
                src,
                msg: quoted_message(
                    "Compiler function error: Unsupported aggregate function. Error: `",
                    m.as_str(),
                ),
            },
            LowerFault::Other(m) => CLIError::UnknownError(m.clone()),
        }
    }

    /// The diagnostic for one planning error of `source`.
    pub fn from_planning_fault(source: &str, f: &PlanningFault) -> (r: CLIError)
        ensures
            r@ == planning_error_of(source@, *f),
    {
        match f {
            PlanningFault::IllegalState(m) => CLIError::InternalCompilerError {
                src: source.to_string(),
                msg: joined("Planner Illegal State: ", m.as_str()),
            },
            PlanningFault::Other(m) => CLIError::UnknownError(m.clone()),
        }
    }

    /// The diagnostic for one evaluation error of `source`.
    pub fn from_evaluation_fault(source: &str, f: &EvaluationFault) -> (r: CLIError)
        ensures
            r@ == evaluation_error_of(source@, *f),
    {
        match f {
            EvaluationFault::InvalidEvaluationPlan(m) => CLIError::InternalCompilerError {
                src: source.to_string(),
                msg: quoted_message("Compiler function error: Invalid Plan. Error: `", m.as_str()),
            },
            EvaluationFault::Other(m) => CLIError::UnknownError(m.clone()),
        }
    }
}

/// The name of the parsing stage.
pub const PARSE_STAGE: &'static str = "Parsing";

/// The name of the logical planning stage.
pub const PLAN_STAGE: &'static str = "Planning";

/// The name of the physical compilation stage.
pub const COMPILE_STAGE: &'static str = "Compiling";

/// The name of the evaluation stage.
pub const EVALUATE_STAGE: &'static str = "Evaluating";

impl CLIErrors {
    /// The group for a failed parse of `query`: one diagnostic per parse error.
    pub fn from_parse_faults(query: &str, faults: &Vec<ParseFault>) -> (r: CLIErrors)
        ensures
            r@ == group_of(query@, PARSE_STAGE@, faults@.map_values(|f: ParseFault| parse_error_of(query@, f@))),
            r@.query == query@,
            r@.related.len() > 0,
    {
        let mut related: Vec<CLIError> = Vec::new();
        let mut i: usize = 0;
        while i < faults.len()
            invariant
                i <= faults.len(),
                related@.len() == i,
                forall|j: int| 0 <= j < i ==> #[trigger] related@[j]@ == parse_error_of(query@, faults@[j]@),
            decreases faults.len() - i,
        {
            let e = CLIError::from_parse_fault(query, &faults[i]);
            related.push(e);
            i = i + 1;
        }
        assert(related@.map_values(|e: CLIError| e@) =~= faults@.map_values(|f: ParseFault| parse_error_of(query@, f@)));
        CLIErrors::new(query, PARSE_STAGE, related)
    }

    /// The group for a failed lowering of `query`: one diagnostic per error.
    pub fn from_lower_faults(query: &str, faults: &Vec<LowerFault>) -> (r: CLIErrors)
        ensures
            r@ == group_of(query@, PLAN_STAGE@, faults@.map_values(|f: LowerFault| lower_error_of(query@, f@))),
            r@.query == query@,
            r@.related.len() > 0,
    {
        let mut related: Vec<CLIError> = Vec::new();
        let mut i: usize = 0;
        while i < faults.len()
            invariant
                i <= faults.len(),
                related@.len() == i,
                forall|j: int| 0 <= j < i ==> #[trigger] related@[j]@ == lower_error_of(query@, faults@[j]@),
            decreases faults.len() - i,
        {
            let e = CLIError::from_lower_fault(query, &faults[i]);
            related.push(e);
            i = i + 1;
        }
        assert(related@.map_values(|e: CLIError| e@) =~= faults@.map_values(|f: LowerFault| lower_error_of(query@, f@)));
        CLIErrors::new(query, PLAN_STAGE, related)
    }

    /// The group for a failed compilation of `query`: one diagnostic per error.
    pub fn from_planning_faults(query: &str, faults: &Vec<PlanningFault>) -> (r: CLIErrors)
        ensures
            r@ == group_of(query@, COMPILE_STAGE@, faults@.map_values(|f: PlanningFault| planning_error_of(query@, f))),
            r@.query == query@,
            r@.related.len() > 0,
    {
        let mut related: Vec<CLIError> = Vec::new();
        let mut i: usize = 0;
        while i < faults.len()
            invariant
                i <= faults.len(),
                related@.len() == i,
                forall|j: int| 0 <= j < i ==> #[trigger] related@[j]@ == planning_error_of(query@, faults@[j]),
            decreases faults.len() - i,
        {
            let e = CLIError::from_planning_fault(query, &faults[i]);
            related.push(e);
            i = i + 1;
        }
        assert(related@.map_values(|e: CLIError| e@) =~= faults@.map_values(|f: PlanningFault| planning_error_of(query@, f)));
        CLIErrors::new(query, COMPILE_STAGE, related)
    }

    /// The group for a failed evaluation of `query`: one diagnostic per error.
    pub fn from_evaluation_faults(query: &str, faults: &Vec<EvaluationFault>) -> (r: CLIErrors)
        ensures
            r@ == group_of(query@, EVALUATE_STAGE@, faults@.map_values(|f: EvaluationFault| evaluation_error_of(query@, f))),
            r@.query == query@,
            r@.related.len() > 0,
    {
        let mut related: Vec<CLIError> = Vec::new();
        let mut i: usize = 0;
        while i < faults.len()
            invariant
                i <= faults.len(),
                related@.len() == i,
                forall|j: int| 0 <= j < i ==> #[trigger] related@[j]@ == evaluation_error_of(query@, faults@[j]),
            decreases faults.len() - i,
        {
            let e = CLIError::from_evaluation_fault(query, &faults[i]);
            related.push(e);
            i = i + 1;
        }
        assert(related@.map_values(|e: CLIError| e@) =~= faults@.map_values(|f: EvaluationFault| evaluation_error_of(query@, f)));
        CLIErrors::new(query, EVALUATE_STAGE, related)
    }
}

} // verus!
