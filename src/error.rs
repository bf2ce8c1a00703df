use vstd::prelude::*;
use vstd::string::*;
use vstd::utf8::encode_utf8;

verus! {

/// A byte-offset range into a query's text.
#[derive(Debug, Clone, Copy, PartialEq, Eq, Structural)]
pub struct Location {
    pub start: usize,
    pub end: usize,
}

/// The kind of a diagnostic.
#[derive(Debug, Clone, Copy, PartialEq, Eq, Structural)]
pub enum ErrorKind {
    SyntaxError,
    CompileError,
    InternalCompilerError,
    IOReadError,
    UnknownError,
}

/// One failure of one stage, located in the query where the stage says where.
#[derive(Debug, Clone, PartialEq, Eq)]
pub enum CLIError {
    /// Malformed input.
    SyntaxError { src: String, msg: String, loc: Location },
    /// Well-formed input that planning or compilation rejected.
    CompileError { src: String, msg: String },
    /// An invariant broken inside the engine: a defect, not a mistake of the user.
    InternalCompilerError { src: String, msg: String },
    /// The environment could not be read.
    IOReadError,
    /// Any failure that has no kind of its own.
    UnknownError(String),
}

/// The model of `CLIError`.
pub enum CLIErrorView {
    SyntaxError { src: Seq<char>, msg: Seq<char>, loc: Location },
    CompileError { src: Seq<char>, msg: Seq<char> },
    InternalCompilerError { src: Seq<char>, msg: Seq<char> },
    IOReadError,
    UnknownError(Seq<char>),
}

impl View for CLIError {
    type V = CLIErrorView;

    open spec fn view(&self) -> CLIErrorView {
        match self {
            CLIError::SyntaxError { src, msg, loc } => CLIErrorView::SyntaxError {
                src: src@,
                msg: msg@,
                loc: *loc,
            },
            CLIError::CompileError { src, msg } => CLIErrorView::CompileError {
                src: src@,
                msg: msg@,
            },
            CLIError::InternalCompilerError { src, msg } => CLIErrorView::InternalCompilerError {
                src: src@,
                msg: msg@,
            },
            CLIError::IOReadError => CLIErrorView::IOReadError,
            CLIError::UnknownError(m) => CLIErrorView::UnknownError(m@),
        }
    }
}

/// A span with its caption, for a renderer to highlight.
#[derive(Debug, Clone, PartialEq, Eq)]
pub struct Label {
    pub text: String,
    pub offset: usize,
    pub len: usize,
}

/// The kind of a diagnostic's model.
pub open spec fn kind_of(e: CLIErrorView) -> ErrorKind {
    match e {
        CLIErrorView::SyntaxError { .. } => ErrorKind::SyntaxError,
        CLIErrorView::CompileError { .. } => ErrorKind::CompileError,
        CLIErrorView::InternalCompilerError { .. } => ErrorKind::InternalCompilerError,
        CLIErrorView::IOReadError => ErrorKind::IOReadError,
        CLIErrorView::UnknownError(_) => ErrorKind::UnknownError,
    }
}

/// The call to action that every internal compiler error carries.
pub const REPORT_REQUEST: &'static str =
    "please report this (https://github.com/partiql/partiql-lang-rust/issues).";

/// The one-line description of a diagnostic.
pub open spec fn description_of(e: CLIErrorView) -> Seq<char> {
    match e {
        CLIErrorView::SyntaxError { .. } => "PartiQL syntax error:"@,
        CLIErrorView::CompileError { .. } => "PartiQL compile error:"@,
        CLIErrorView::InternalCompilerError { msg, .. } => "Internal Compiler Error: `"@ + msg
            + "`\n"@ + REPORT_REQUEST@,
        CLIErrorView::IOReadError => "I/O Error reading input environment"@,
        CLIErrorView::UnknownError(m) => "Unknown error: "@ + m,
    }
}

/// `prefix`, then `detail`, then a closing backquote.
pub open spec fn quoted(prefix: Seq<char>, detail: Seq<char>) -> Seq<char> {
    prefix + detail + "`"@
}

/// Builds `prefix`, `detail` and a closing backquote into one string.
pub fn quoted_message(prefix: &str, detail: &str) -> (r: String)
    ensures
        r@ == quoted(prefix@, detail@),
{
    let mut m = String::from_str(prefix);
    m.append(detail);
    m.append("`");
    m
}

/// Builds `prefix` and `detail` into one string.
pub fn joined(prefix: &str, detail: &str) -> (r: String)
    ensures
        r@ == prefix@ + detail@,
{
    let mut m = String::from_str(prefix);
    m.append(detail);
    m
}

impl CLIError {
    /// The kind of this diagnostic.
    pub fn kind(&self) -> (r: ErrorKind)
        ensures
            r == kind_of(self@),
    {
        match self {
            CLIError::SyntaxError { .. } => ErrorKind::SyntaxError,
            CLIError::CompileError { .. } => ErrorKind::CompileError,
            CLIError::InternalCompilerError { .. } => ErrorKind::InternalCompilerError,
            CLIError::IOReadError => ErrorKind::IOReadError,
            CLIError::UnknownError(_) => ErrorKind::UnknownError,
        }
    }

    /// The query text the diagnostic points into, where it has one.
    pub fn source_code(&self) -> (r: Option<&String>)
        ensures
            match self@ {
                CLIErrorView::SyntaxError { src, .. } => r is Some && r->0@ == src,
                CLIErrorView::CompileError { src, .. } => r is Some && r->0@ == src,
                CLIErrorView::InternalCompilerError { src, .. } => r is Some && r->0@ == src,
                _ => r is None,
            },
    {
        match self {
            CLIError::SyntaxError { src, .. } => Some(src),
            CLIError::CompileError { src, .. } => Some(src),
            CLIError::InternalCompilerError { src, .. } => Some(src),
            CLIError::IOReadError => None,
            CLIError::UnknownError(_) => None,
        }
    }

    /// The span to highlight: a syntax error's location, captioned with its
    /// message. An inverted range is shown with length zero.
    pub fn label(&self) -> (r: Option<Label>)
        ensures
            match self@ {
                CLIErrorView::SyntaxError { msg, loc, .. } => r is Some && r->0.text@ == msg
                    && r->0.offset == loc.start && r->0.len == (if loc.end >= loc.start {
                    loc.end - loc.start
                } else {
                    0
                }),
                _ => r is None,
            },
    {
        match self {
            CLIError::SyntaxError { msg, loc, .. } => {
                let len = if loc.end >= loc.start {
                    loc.end - loc.start
                } else {
                    0
                };
                Some(Label { text: msg.clone(), offset: loc.start, len })
            },
            _ => None,
        }
    }

    /// The one-line description; an internal compiler error asks to be reported.
    pub fn description(&self) -> (r: String)
        ensures
            r@ == description_of(self@),
    {
        match self {
            CLIError::SyntaxError { .. } => String::from_str("PartiQL syntax error:"),
            CLIError::CompileError { .. } => String::from_str("PartiQL compile error:"),
            CLIError::InternalCompilerError { msg, .. } => {
                let mut m = String::from_str("Internal Compiler Error: `");
                m.append(msg.as_str());
                m.append("`\n");
                m.append(REPORT_REQUEST);
                m
            },
            CLIError::IOReadError => String::from_str("I/O Error reading input environment"),
            CLIError::UnknownError(m) => joined("Unknown error: ", m.as_str()),
        }
    }
}

/// All the diagnostics of one failed statement, with its text.
#[derive(Debug, Clone, PartialEq, Eq)]
pub struct CLIErrors {
    query: String,
    related: Vec<CLIError>,
}

/// The model of `CLIErrors`.
pub struct CLIErrorsView {
    pub query: Seq<char>,
    pub related: Seq<CLIErrorView>,
}

impl View for CLIErrors {
    type V = CLIErrorsView;

    closed spec fn view(&self) -> CLIErrorsView {
        CLIErrorsView { query: self.query@, related: self.related@.map_values(|e: CLIError| e@) }
    }
}

/// The text of the diagnostic for a failed stage that reported no error.
pub open spec fn unreported_message(stage: Seq<char>) -> Seq<char> {
    stage + " failed without reporting an error"@
}

/// The group for a stage failure of `query` that came with the diagnostics `diags`.
/// A stage that failed without saying why is an engine defect, reported as one
/// internal compiler error, so that a group is never empty.
pub open spec fn group_of(query: Seq<char>, stage: Seq<char>, diags: Seq<CLIErrorView>) -> CLIErrorsView {
    CLIErrorsView {
        query,
        related: if diags.len() == 0 {
            seq![CLIErrorView::InternalCompilerError { src: query, msg: unreported_message(stage) }]
        } else {
            diags
        },
    }
}

/// Whatever a failed stage reported, its group holds the statement's text and at
/// least one diagnostic.
pub proof fn lemma_group_of_failure(query: Seq<char>, stage: Seq<char>, diags: Seq<CLIErrorView>)
    ensures
        group_of(query, stage, diags).query == query,
        group_of(query, stage, diags).related.len() > 0,
        diags.len() > 0 ==> group_of(query, stage, diags).related == diags,
{
}

impl CLIErrors {
    /// The text of the statement that failed.
    pub fn query(&self) -> (r: &String)
        ensures
            r@ == self@.query,
    {
        &self.query
    }

    /// The diagnostics, in the order the stage reported them.
    pub fn related(&self) -> (r: &Vec<CLIError>)
        ensures
            r@.map_values(|e: CLIError| e@) == self@.related,
    {
        &self.related
    }

    /// Groups the diagnostics of one failed stage of `query`; `stage` names the
    /// stage for the case where it reported none.
    pub fn new(query: &str, stage: &str, related: Vec<CLIError>) -> (r: CLIErrors)
        ensures
            r@ == group_of(query@, stage@, related@.map_values(|e: CLIError| e@)),
            r@.related.len() > 0,
    {
        if related.len() == 0 {
            let msg = joined(stage, " failed without reporting an error");
            let e = CLIError::InternalCompilerError { src: query.to_string(), msg };
            let v = vec![e];
            let r = CLIErrors { query: query.to_string(), related: v };
            assert(r@.related =~= group_of(query@, stage@, related@.map_values(|e: CLIError| e@)).related);
            r
        } else {
            CLIErrors { query: query.to_string(), related }
        }
    }

    /// The group for an environment that could not be read.
    pub fn io_read_error(query: &str) -> (r: CLIErrors)
        ensures
            r@.query == query@,
            r@.related == seq![CLIErrorView::IOReadError],
    {
        let r = CLIErrors { query: query.to_string(), related: vec![CLIError::IOReadError] };
        assert(r@.related =~= seq![CLIErrorView::IOReadError]);
        r
    }
}

} // verus!
