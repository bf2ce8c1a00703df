use vstd::prelude::*;

use crate::args::OutputFormat;
use crate::text::has_prefix;

verus! {

/// Dumps the parsed syntax tree.
pub const AST_DIRECTIVE: &'static str = "\\ast";

/// Dumps the logical plan.
pub const PLAN_DIRECTIVE: &'static str = "\\plan";

/// Tabular output.
pub const TABLE_DIRECTIVE: &'static str = "\\table";

/// Single-line structured encoding.
pub const ION_LINES_DIRECTIVE: &'static str = "\\ion-lines";

/// Pretty structured encoding.
pub const ION_PRETTY_DIRECTIVE: &'static str = "\\ion-pretty";

/// The native pretty-printer.
pub const PARTIQL_DIRECTIVE: &'static str = "\\partiql";

/// A statement with its leading shell directives resolved.
#[derive(Debug, Clone, PartialEq, Eq)]
pub struct Directives {
    /// The query text left once the directives are removed.
    pub query: String,
    /// The output format to show the result in.
    pub output: OutputFormat,
    /// Whether the parsed syntax tree is to be dumped.
    pub dump_ast: bool,
    /// Whether the logical plan is to be dumped.
    pub dump_plan: bool,
}

/// The model of `Directives`.
pub struct DirectivesView {
    pub query: Seq<char>,
    pub output: OutputFormat,
    pub dump_ast: bool,
    pub dump_plan: bool,
}

impl View for Directives {
    type V = DirectivesView;

    open spec fn view(&self) -> DirectivesView {
        DirectivesView {
            query: self.query@,
            output: self.output,
            dump_ast: self.dump_ast,
            dump_plan: self.dump_plan,
        }
    }
}

/// `s` with the prefix `p` removed, when it has it.
pub open spec fn strip_prefix(s: Seq<char>, p: Seq<char>) -> Seq<char> {
    if p.is_prefix_of(s) {
        s.skip(p.len() as int)
    } else {
        s
    }
}

/// The output-format directives in priority order, with the format each selects.
pub open spec fn format_directive_of(s: Seq<char>) -> Option<(Seq<char>, OutputFormat)> {
    if TABLE_DIRECTIVE@.is_prefix_of(s) {
        Some((TABLE_DIRECTIVE@, OutputFormat::Table))
    } else if ION_LINES_DIRECTIVE@.is_prefix_of(s) {
        Some((ION_LINES_DIRECTIVE@, OutputFormat::IonLines))
    } else if ION_PRETTY_DIRECTIVE@.is_prefix_of(s) {
        Some((ION_PRETTY_DIRECTIVE@, OutputFormat::IonPretty))
    } else if PARTIQL_DIRECTIVE@.is_prefix_of(s) {
        Some((PARTIQL_DIRECTIVE@, OutputFormat::Partiql))
    } else {
        None
    }
}

/// Whether `s` begins with one of the recognized directives.
pub open spec fn starts_with_directive(s: Seq<char>) -> bool {
    AST_DIRECTIVE@.is_prefix_of(s) || PLAN_DIRECTIVE@.is_prefix_of(s) || format_directive_of(
        s,
    ) is Some
}

/// The text and output format after the output-format directive at the front
/// of `s`, if there is one; without one, `s` and `default`.
pub open spec fn format_stage(s: Seq<char>, default: OutputFormat) -> (Seq<char>, OutputFormat) {
    match format_directive_of(s) {
        Some((p, fmt)) => (s.skip(p.len() as int), fmt),
        None => (s, default),
    }
}

/// The meaning of a statement's leading directives: first `\ast`, then `\plan`, each
/// removed once when present, then at most one output-format directive, the first
/// that matches in priority order; without one, `default` is the format.
pub open spec fn directives_of(s: Seq<char>, default: OutputFormat) -> DirectivesView {
    let dump_ast = AST_DIRECTIVE@.is_prefix_of(s);
    let s1 = strip_prefix(s, AST_DIRECTIVE@);
    let dump_plan = PLAN_DIRECTIVE@.is_prefix_of(s1);
    let s2 = strip_prefix(s1, PLAN_DIRECTIVE@);
    let (query, output) = format_stage(s2, default);
    DirectivesView { query, output, dump_ast, dump_plan }
}

/// `s` with `p` removed from its front, when `s` begins with `p`.
fn strip<'a>(s: &'a str, p: &str) -> (r: (bool, &'a str))
    ensures
        r.0 == p@.is_prefix_of(s@),
        r.1@ == strip_prefix(s@, p@),
{
    if has_prefix(s, p) {
        let n = s.unicode_len();
        let m = p.unicode_len();
        let rest = s.substring_char(m, n);
        assert(rest@ =~= s@.skip(m as int));
        (true, rest)
    } else {
        (false, s)
    }
}

/// Resolves the shell directives at the front of a complete statement.
///
/// `\ast` and then `\plan` set their dump flags; of `\table`, `\ion-lines`,
/// `\ion-pretty` and `\partiql` the first that matches sets the output format and
/// ends the search. Each matched directive is removed exactly once; any other
/// leading backslash sequence is left as query text. Without a format directive
/// the output format is `default`.
pub fn parse_directives(text: &str, default: OutputFormat) -> (r: Directives)
    ensures
        r@ == directives_of(text@, default),
        !starts_with_directive(text@) ==> r@ == (DirectivesView {
            query: text@,
            output: default,
            dump_ast: false,
            dump_plan: false,
        }),
{
    let (dump_ast, s1) = strip(text, AST_DIRECTIVE);
    let (dump_plan, s2) = strip(s1, PLAN_DIRECTIVE);
    let (output, rest) = if has_prefix(s2, TABLE_DIRECTIVE) {
        (OutputFormat::Table, strip(s2, TABLE_DIRECTIVE).1)
    } else if has_prefix(s2, ION_LINES_DIRECTIVE) {
        (OutputFormat::IonLines, strip(s2, ION_LINES_DIRECTIVE).1)
    } else if has_prefix(s2, ION_PRETTY_DIRECTIVE) {
        (OutputFormat::IonPretty, strip(s2, ION_PRETTY_DIRECTIVE).1)
    } else if has_prefix(s2, PARTIQL_DIRECTIVE) {
        (OutputFormat::Partiql, strip(s2, PARTIQL_DIRECTIVE).1)
    } else {
        (default, s2)
    };
    Directives { query: rest.to_string(), output, dump_ast, dump_plan }
}

/// Parsing the directives again on a residual that begins with no directive
/// changes nothing: the query stays as it is, no flag is set, and the format is
/// the default.
pub proof fn lemma_directives_idempotent(text: Seq<char>, default: OutputFormat)
    requires
        !starts_with_directive(directives_of(text, default).query),
    ensures
        ({
            let first = directives_of(text, default);
            let again = directives_of(first.query, default);
            again.query == first.query && again.output == default && !again.dump_ast
                && !again.dump_plan
        }),
{
}

/// Each recognized directive at the front of a statement is removed exactly once
/// and sets its own flag or output format. After `\ast` the rest goes on to the
/// `\plan` and output-format directives, after `\plan` to the output-format
/// directives; after an output-format directive the rest is the query as it is.
pub proof fn lemma_directive_removed(rest: Seq<char>, default: OutputFormat)
    ensures
        directives_of(AST_DIRECTIVE@ + rest, default) == (DirectivesView {
            query: format_stage(strip_prefix(rest, PLAN_DIRECTIVE@), default).0,
            output: format_stage(strip_prefix(rest, PLAN_DIRECTIVE@), default).1,
            dump_ast: true,
            dump_plan: PLAN_DIRECTIVE@.is_prefix_of(rest),
        }),
        directives_of(PLAN_DIRECTIVE@ + rest, default) == (DirectivesView {
            query: format_stage(rest, default).0,
            output: format_stage(rest, default).1,
            dump_ast: false,
            dump_plan: true,
        }),
        directives_of(TABLE_DIRECTIVE@ + rest, default) == (DirectivesView {
            query: rest,
            output: OutputFormat::Table,
            dump_ast: false,
            dump_plan: false,
        }),
        directives_of(ION_LINES_DIRECTIVE@ + rest, default) == (DirectivesView {
            query: rest,
            output: OutputFormat::IonLines,
            dump_ast: false,
            dump_plan: false,
        }),
        directives_of(ION_PRETTY_DIRECTIVE@ + rest, default) == (DirectivesView {
            query: rest,
            output: OutputFormat::IonPretty,
            dump_ast: false,
            dump_plan: false,
        }),
        directives_of(PARTIQL_DIRECTIVE@ + rest, default) == (DirectivesView {
            query: rest,
            output: OutputFormat::Partiql,
            dump_ast: false,
            dump_plan: false,
        }),
{
    reveal_strlit("\\ast");
    reveal_strlit("\\plan");
    reveal_strlit("\\table");
    reveal_strlit("\\ion-lines");
    reveal_strlit("\\ion-pretty");
    reveal_strlit("\\partiql");
    let a = AST_DIRECTIVE@;
    let p = PLAN_DIRECTIVE@;
    let t = TABLE_DIRECTIVE@;
    let l = ION_LINES_DIRECTIVE@;
    let y = ION_PRETTY_DIRECTIVE@;
    let q = PARTIQL_DIRECTIVE@;
    lemma_prefix_of_concat(a, rest);
    lemma_prefix_of_concat(p, rest);
    lemma_prefix_of_concat(t, rest);
    lemma_prefix_of_concat(l, rest);
    lemma_prefix_of_concat(y, rest);
    lemma_prefix_of_concat(q, rest);
    // Tell the directives apart by their second, third or sixth character.
    assert(a[1] == 'a' && p[1] == 'p' && t[1] == 't' && l[1] == 'i' && y[1] == 'i' && q[1] == 'p');
    assert(p[2] == 'l' && q[2] == 'a');
    assert(l[5] == 'l' && y[5] == 'p');
    assert(!a.is_prefix_of(p + rest) && !a.is_prefix_of(t + rest) && !a.is_prefix_of(l + rest)
        && !a.is_prefix_of(y + rest) && !a.is_prefix_of(q + rest)) by {
        assert((p + rest)[1] == 'p' && (t + rest)[1] == 't' && (l + rest)[1] == 'i');
        assert((y + rest)[1] == 'i' && (q + rest)[1] == 'p');
    }
    assert(!p.is_prefix_of(t + rest) && !p.is_prefix_of(l + rest) && !p.is_prefix_of(y + rest)
        && !p.is_prefix_of(q + rest)) by {
        assert((t + rest)[1] == 't' && (l + rest)[1] == 'i' && (y + rest)[1] == 'i');
        assert((q + rest)[2] == 'a');
    }
    assert(!t.is_prefix_of(l + rest) && !t.is_prefix_of(y + rest) && !t.is_prefix_of(q + rest)) by {
        assert((l + rest)[1] == 'i' && (y + rest)[1] == 'i' && (q + rest)[1] == 'p');
    }
    assert(!l.is_prefix_of(y + rest) && !l.is_prefix_of(q + rest)) by {
        assert((y + rest)[5] == 'p' && (q + rest)[1] == 'p');
    }
    assert(!y.is_prefix_of(q + rest)) by {
        assert((q + rest)[1] == 'p');
    }
}

/// A sequence is a prefix of itself followed by anything, and removing it gives
/// back what followed.
proof fn lemma_prefix_of_concat(p: Seq<char>, rest: Seq<char>)
    ensures
        p.is_prefix_of(p + rest),
        (p + rest).skip(p.len() as int) == rest,
{
    assert((p + rest).subrange(0, p.len() as int) =~= p);
    assert((p + rest).skip(p.len() as int) =~= rest);
}

} // verus!
