use vstd::prelude::*;

verus! {

/// The command line: one subcommand.
#[derive(Debug, Clone, PartialEq, Eq)]
pub struct Args {
    pub command: Commands,
}

/// What the program is asked to do.
#[derive(Debug, Clone, PartialEq, Eq)]
pub enum Commands {
    /// Evaluate one query, with an optional environment file, and print the result.
    Eval { query: String, output: OutputFormat, environment: Option<String> },
    /// Run the interactive shell, with an optional environment file.
    Repl { environment: Option<String> },
}

/// How a result value is shown.
#[derive(Debug, Clone, Copy, PartialEq, Eq, Structural)]
pub enum OutputFormat {
    /// The native pretty-printer.
    Partiql,
    /// Structured encoding, one top-level item per line.
    IonLines,
    /// Structured encoding, pretty printed.
    IonPretty,
    /// A table with one column per attribute.
    Table,
}

/// How a syntax tree or a plan is shown.
#[derive(Debug, Clone, Copy, PartialEq, Eq, Structural)]
pub enum Format {
    /// JSON
    Json,
    /// Graphviz dot
    Dot,
    /// Graphviz svg output
    Svg,
    /// Graphviz svg rendered to png
    Png,
    /// Display rendered output
    Display,
}

} // verus!
