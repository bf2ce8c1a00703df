use vstd::prelude::*;

use crate::directive::Directives;
use crate::error::CLIErrors;
use crate::fault::{EvaluationFault, LowerFault, ParseFault, PlanningFault};
use partiql_ast_passes::error::{AstTransformError, AstTransformationError};
use partiql_catalog::{Extension, PartiqlCatalog};
use partiql_eval::env::basic::MapBindings;
use partiql_eval::error::{EvalErr, EvaluationError, PlanErr, PlanningError};
use partiql_eval::eval::{BasicContext, EvalPlan, Evaluated};
use partiql_eval::plan::{EvaluationMode, EvaluatorPlanner};
use partiql_logical::{BindingsOp, LogicalPlan};
use partiql_parser::{ParseError, Parsed, Parser, ParserError};
use partiql_value::{DateTime, Value};
use unicase::UniCase;

verus! {

/// The engine's catalog of functions and extensions, carried as is.
#[verifier::external_type_specification]
#[verifier::external_body]
pub struct ExPartiqlCatalog(PartiqlCatalog);

/// A parsed query, carried from the parser to the planner.
#[verifier::external_type_specification]
#[verifier::external_body]
pub struct ExParsed<'a>(Parsed<'a>);

/// The parser's errors, read only by `parse_faults`.
#[verifier::external_type_specification]
#[verifier::external_body]
pub struct ExParserError<'a>(ParserError<'a>);

/// The planner's errors, read only by `lower_faults`.
#[verifier::external_type_specification]
#[verifier::external_body]
pub struct ExAstTransformationError(AstTransformationError);

/// A logical plan, carried from the planner to the compiler.
#[verifier::external_type_specification]
#[verifier::external_body]
#[verifier::reject_recursive_types(T)]
pub struct ExLogicalPlan<T: Default>(LogicalPlan<T>);

/// The operators of a logical plan.
#[verifier::external_type_specification]
#[verifier::external_body]
pub struct ExBindingsOp(BindingsOp);

/// An executable plan, carried from the compiler to the evaluator.
#[verifier::external_type_specification]
#[verifier::external_body]
pub struct ExEvalPlan(EvalPlan);

/// The compiler's errors, read only by `planning_faults`.
#[verifier::external_type_specification]
#[verifier::external_body]
pub struct ExPlanErr(PlanErr);

/// The evaluator's errors, read only by `evaluation_faults`.
#[verifier::external_type_specification]
#[verifier::external_body]
pub struct ExEvalErr(EvalErr);

/// The evaluator's result, read only by `result_of`.
#[verifier::external_type_specification]
#[verifier::external_body]
pub struct ExEvaluated(Evaluated);

/// A binding environment: names and their values.
#[verifier::external_type_specification]
#[verifier::external_body]
#[verifier::reject_recursive_types(T)]
pub struct ExMapBindings<T>(MapBindings<T>);

/// A value of the query language.
#[verifier::external_type_specification]
#[verifier::external_body]
pub struct ExValue(Value);

/// Whether the parser accepts `text`.
pub uninterp spec fn parses(text: Seq<char>) -> bool;

/// Whether the planner lowers the parsed `text` to a logical plan, with the
/// catalog that `Compiler::new` builds.
pub uninterp spec fn lowers(text: Seq<char>) -> bool;

/// Whether the logical plan of `text` compiles in permissive mode, with the
/// catalog that `Compiler::new` builds.
pub uninterp spec fn compiles(text: Seq<char>) -> bool;

/// Whether two names are equal once their case is folded, as `UniCase` compares them.
pub uninterp spec fn same_ignoring_case(a: Seq<char>, b: Seq<char>) -> bool;

/// The names bound in an environment, in the order they were inserted.
pub uninterp spec fn binding_names(b: MapBindings<Value>) -> Seq<Seq<char>>;

/// Relies on `PartiqlCatalog::default`: a catalog without extensions.
#[verifier::external_body]
fn empty_catalog() -> PartiqlCatalog {
    PartiqlCatalog::default()
}

/// Relies on `IonExtension::load`: registers the Ion table functions in the
/// catalog, or says why it could not.
#[verifier::external_body]
fn load_ion_extension(catalog: &mut PartiqlCatalog) -> Result<(), String> {
    partiql_extension_ion_functions::IonExtension {}.load(catalog).map_err(|e| e.to_string())
}

/// Relies on `Parser::parse`: the syntax tree of `text`, or the parse errors.
/// Whether it succeeds depends on the text alone.
#[verifier::external_body]
fn parse_text<'a>(text: &'a str) -> (r: Result<Parsed<'a>, ParserError<'a>>)
    ensures
        r is Ok <==> parses(text@),
{
    Parser::default().parse(text)
}

/// Relies on the variants of `ParseError` and the byte offsets of their
/// locations: each parse error as plain values.
#[verifier::external_body]
fn parse_faults(e: ParserError<'_>) -> Vec<ParseFault> {
    e.errors.into_iter().map(|f| match f {
        ParseError::SyntaxError(l) => ParseFault::Syntax(l.inner, l.location.start.0.0, l.location.end.0.0),
        ParseError::UnexpectedToken(l) => ParseFault::UnexpectedToken(l.inner.token.to_string(), l.location.start.0.0, l.location.end.0.0),
        ParseError::LexicalError(l) => ParseFault::Lexical(l.inner.to_string(), l.location.start.0.0, l.location.end.0.0),
        ParseError::Unknown(p) => ParseFault::Unknown(p.0.0),
        ParseError::IllegalState(m) => ParseFault::IllegalState(m),
        ParseError::UnexpectedEndOfInput => ParseFault::UnexpectedEndOfInput,
        other => ParseFault::Other(other.to_string()),
    }).collect()
}

/// Relies on `LogicalPlanner::lower`: the logical plan of a parsed query, or the
/// lowering errors. The query was parsed from its text and the catalog is the
/// one `Compiler::new` builds, so whether it succeeds depends on the text alone.
#[verifier::external_body]
fn lower_parsed(compiler: &Compiler, query: &ParsedQuery<'_>) -> (r: Result<LogicalPlan<BindingsOp>, AstTransformationError>)
    ensures
        r is Ok <==> lowers(query.source()),
{
    partiql_logical_planner::LogicalPlanner::new(&compiler.catalog).lower(&query.parsed)
}

/// Relies on the variants of `AstTransformError`: each lowering error as plain values.
#[verifier::external_body]
fn lower_faults(e: &AstTransformationError) -> Vec<LowerFault> {
    e.errors.iter().map(|f| match f {
        AstTransformError::IllegalState(m) => LowerFault::IllegalState(m.clone()),
        AstTransformError::Literal { literal, error } => LowerFault::Literal { literal: literal.clone(), error: error.clone() },
        AstTransformError::InvalidNumberOfArguments(m) => LowerFault::InvalidNumberOfArguments(m.clone()),
        AstTransformError::UnsupportedFunction(m) => LowerFault::UnsupportedFunction(m.clone()),
        AstTransformError::UnsupportedAggregationFunction(m) => LowerFault::UnsupportedAggregationFunction(m.clone()),
        other => LowerFault::Other(other.to_string()),
    }).collect()
}

/// Relies on `EvaluatorPlanner::compile` in permissive mode: the executable plan
/// of a logical plan, or the planning errors. The plan was lowered from its text
/// with the catalog `Compiler::new` builds, so whether it succeeds depends on the
/// text alone.
#[verifier::external_body]
fn compile_permissive(compiler: &Compiler, plan: &QueryPlan<'_>) -> (r: Result<EvalPlan, PlanErr>)
    ensures
        r is Ok <==> compiles(plan.source()),
{
    EvaluatorPlanner::new(EvaluationMode::Permissive, &compiler.catalog).compile(&plan.plan)
}

/// Relies on the variants of `PlanningError`: each planning error as plain values.
#[verifier::external_body]
fn planning_faults(e: &PlanErr) -> Vec<PlanningFault> {
    e.errors.iter().map(|f| match f {
        PlanningError::IllegalState(m) => PlanningFault::IllegalState(m.clone()),
        other => PlanningFault::Other(other.to_string()),
    }).collect()
}

/// Relies on `EvalPlan::execute_mut`: runs the plan against a copy of `bindings`,
/// with the wall-clock time taken now as the system context.
#[verifier::external_body]
fn execute_plan(plan: &mut EvalPlan, bindings: &MapBindings<Value>) -> Result<Evaluated, EvalErr> {
    let sys = partiql_catalog::context::SystemContext { now: DateTime::from_system_now_utc() };
    let ctx = BasicContext::new(bindings.clone(), sys);
    plan.execute_mut(&ctx)
}

/// Relies on the variants of `EvaluationError`: each evaluation error as plain values.
#[verifier::external_body]
fn evaluation_faults(e: &EvalErr) -> Vec<EvaluationFault> {
    e.errors.iter().map(|f| match f {
        EvaluationError::InvalidEvaluationPlan(m) => EvaluationFault::InvalidEvaluationPlan(m.clone()),
        other => EvaluationFault::Other(other.to_string()),
    }).collect()
}

/// Relies on the `result` field of `Evaluated`.
#[verifier::external_body]
fn result_of(e: Evaluated) -> Value {
    e.result
}

/// Relies on `Debug` of the syntax tree: its text.
#[verifier::external_body]
fn ast_text(parsed: &Parsed<'_>) -> String {
    format!("{:#?}", parsed.ast)
}

/// Relies on `Display` of `LogicalPlan`: its text.
#[verifier::external_body]
fn plan_text(plan: &LogicalPlan<BindingsOp>) -> String {
    format!("{plan}")
}

/// Relies on `MapBindings::default`: an environment without bindings.
#[verifier::external_body]
pub(crate) fn empty_bindings() -> (r: MapBindings<Value>)
    ensures
        binding_names(r) == Seq::<Seq<char>>::empty(),
{
    MapBindings::default()
}

/// Relies on `UniCase`'s equality: whether two names are equal ignoring case.
#[verifier::external_body]
pub(crate) fn eq_ignoring_case(a: &str, b: &str) -> (r: bool)
    ensures
        r == same_ignoring_case(a@, b@),
{
    UniCase::new(a) == UniCase::new(b)
}

/// Relies on `MapBindings::insert`: binds `name` to `value`. It panics when a
/// bound name equals `name` ignoring case, which `requires` rules out.
#[verifier::external_body]
pub(crate) fn insert_binding(b: &mut MapBindings<Value>, name: &str, value: Value)
    requires
        forall|i: int|
            0 <= i < binding_names(*old(b)).len() ==> !same_ignoring_case(
                #[trigger] binding_names(*old(b))[i],
                name@,
            ) && !same_ignoring_case(name@, binding_names(*old(b))[i]),
    ensures
        binding_names(*final(b)) == binding_names(*old(b)).push(name@),
{
    b.insert(name, value)
}

/// Relies on the `Tuple` variant of `Value` and `Tuple::into_pairs`: the
/// attributes of a record value in order, if it is one.
#[verifier::external_body]
pub(crate) fn record_pairs(v: Value) -> Option<Vec<(String, Value)>> {
    match v {
        Value::Tuple(t) => Some(t.into_pairs().collect()),
        _ => None,
    }
}

/// The query engine, with its catalog of functions and extensions. It is built
/// once and only read afterwards.
pub struct Compiler {
    catalog: PartiqlCatalog,
}

/// A query's text with its syntax tree, as `Compiler::parse` made them.
pub struct ParsedQuery<'a> {
    text: &'a str,
    parsed: Parsed<'a>,
}

impl<'a> ParsedQuery<'a> {
    /// The text the query was parsed from.
    pub closed spec fn source(&self) -> Seq<char> {
        self.text@
    }

    /// The text the query was parsed from.
    pub fn text(&self) -> (r: &'a str)
        ensures
            r@ == self.source(),
    {
        self.text
    }
}

/// A query's text with its logical plan, as `Compiler::plan` made them.
pub struct QueryPlan<'a> {
    text: &'a str,
    plan: LogicalPlan<BindingsOp>,
}

impl<'a> QueryPlan<'a> {
    /// The text the plan was made from.
    pub closed spec fn source(&self) -> Seq<char> {
        self.text@
    }
}

/// Whether `r` is a failure of `query` with at least one diagnostic.
pub open spec fn fails_with_group<T>(r: Result<T, CLIErrors>, query: Seq<char>) -> bool {
    r is Err ==> r->Err_0@.query == query && r->Err_0@.related.len() > 0
}

/// Whether `r` follows the order of the stages for `query`: a query that does not
/// parse, lower or compile fails at that stage, and a value comes back only when
/// all three succeeded.
pub open spec fn stops_at_first_failure<T>(r: Result<T, CLIErrors>, query: Seq<char>) -> bool {
    &&& !parses(query) ==> r is Err
    &&& parses(query) && !lowers(query) ==> r is Err
    &&& parses(query) && lowers(query) && !compiles(query) ==> r is Err
    &&& r is Ok ==> parses(query) && lowers(query) && compiles(query)
}

impl Compiler {
    /// The engine with the Ion extension loaded, or why the extension could not
    /// be loaded.
    pub fn new() -> (r: Result<Compiler, String>) {
        let mut catalog = empty_catalog();
        match load_ion_extension(&mut catalog) {
            Ok(()) => Ok(Compiler { catalog }),
            Err(e) => Err(e),
        }
    }

    /// Parses `query`; it succeeds exactly when the parser accepts the text, and
    /// otherwise gives one group of diagnostics for it.
    pub fn parse<'a>(&self, query: &'a str) -> (r: Result<ParsedQuery<'a>, CLIErrors>)
        ensures
            r is Ok <==> parses(query@),
            r is Ok ==> r->Ok_0.source() == query@,
            fails_with_group(r, query@),
    {
        match parse_text(query) {
            Ok(parsed) => Ok(ParsedQuery { text: query, parsed }),
            Err(e) => Err(CLIErrors::from_parse_faults(query, &parse_faults(e))),
        }
    }

    /// Lowers a parsed query to a logical plan; it succeeds exactly when the
    /// planner accepts it, and otherwise gives one group of diagnostics.
    pub fn plan<'a>(&self, query: &ParsedQuery<'a>) -> (r: Result<QueryPlan<'a>, CLIErrors>)
        ensures
            r is Ok <==> lowers(query.source()),
            r is Ok ==> r->Ok_0.source() == query.source(),
            fails_with_group(r, query.source()),
    {
        match lower_parsed(self, query) {
            Ok(plan) => Ok(QueryPlan { text: query.text, plan }),
            Err(e) => Err(CLIErrors::from_lower_faults(query.text, &lower_faults(&e))),
        }
    }

    /// Compiles a logical plan in permissive mode, where unsupported constructs
    /// become errors at run time; it succeeds exactly when the compiler accepts
    /// the plan, and otherwise gives one group of diagnostics.
    pub fn compile(&self, plan: &QueryPlan) -> (r: Result<EvalPlan, CLIErrors>)
        ensures
            r is Ok <==> compiles(plan.source()),
            fails_with_group(r, plan.source()),
    {
        match compile_permissive(self, plan) {
            Ok(p) => Ok(p),
            Err(e) => Err(CLIErrors::from_planning_faults(plan.text, &planning_faults(&e))),
        }
    }

    /// Runs an executable plan against `bindings`, which it leaves as they are;
    /// on failure, one group of diagnostics.
    pub fn evaluate(&self, query: &ParsedQuery, plan: EvalPlan, bindings: &MapBindings<Value>) -> (r: Result<Value, CLIErrors>)
        ensures
            fails_with_group(r, query.source()),
    {
        let mut plan = plan;
        match execute_plan(&mut plan, bindings) {
            Ok(evaluated) => Ok(result_of(evaluated)),
            Err(e) => Err(CLIErrors::from_evaluation_faults(query.text, &evaluation_faults(&e))),
        }
    }
}

/// Runs `query` through parsing, planning, compilation and evaluation against
/// `globals`, in that order, stopping at the first stage that fails. Exactly one
/// of a value and a group of diagnostics comes back; a group holds the query's
/// text and at least one diagnostic. The environment is only read.
pub fn evaluate(compiler: &Compiler, query: &str, globals: &MapBindings<Value>) -> (r: Result<Value, CLIErrors>)
    ensures
        fails_with_group(r, query@),
        stops_at_first_failure(r, query@),
{
    let parsed = match compiler.parse(query) {
        Ok(p) => p,
        Err(e) => return Err(e),
    };
    let plan = match compiler.plan(&parsed) {
        Ok(p) => p,
        Err(e) => return Err(e),
    };
    let eval = match compiler.compile(&plan) {
        Ok(p) => p,
        Err(e) => return Err(e),
    };
    compiler.evaluate(&parsed, eval, globals)
}

/// One run of a statement of the shell, with the dumps its directives asked for.
pub struct Execution {
    /// The value, or the diagnostics of the stage that failed.
    pub outcome: Result<Value, CLIErrors>,
    /// The syntax tree, when asked for and the query parsed.
    pub ast: Option<String>,
    /// The logical plan, when asked for and the query was planned.
    pub plan: Option<String>,
}

/// Runs the query of `request` as `evaluate` does, and renders the syntax tree
/// and the logical plan when its directives ask for them.
pub fn execute(compiler: &Compiler, request: &Directives, globals: &MapBindings<Value>) -> (r: Execution)
    ensures
        fails_with_group(r.outcome, request.query@),
        stops_at_first_failure(r.outcome, request.query@),
        r.ast is Some <==> request.dump_ast && parses(request.query@),
        r.plan is Some <==> request.dump_plan && parses(request.query@) && lowers(request.query@),
{
    let query = request.query.as_str();
    let parsed = match compiler.parse(query) {
        Ok(p) => p,
        Err(e) => return Execution { outcome: Err(e), ast: None, plan: None },
    };
    let ast = if request.dump_ast {
        Some(ast_text(&parsed.parsed))
    } else {
        None
    };
    let plan = match compiler.plan(&parsed) {
        Ok(p) => p,
        Err(e) => return Execution { outcome: Err(e), ast, plan: None },
    };
    let plan_dump = if request.dump_plan {
        Some(plan_text(&plan.plan))
    } else {
        None
    };
    let outcome = match compiler.compile(&plan) {
        Ok(eval) => compiler.evaluate(&parsed, eval, globals),
        Err(e) => Err(e),
    };
    Execution { outcome, ast, plan: plan_dump }
}

} // verus!
