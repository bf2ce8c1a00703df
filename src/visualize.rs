use vstd::prelude::*;
use vstd::utf8::{decode_utf8, valid_utf8};

verus! {

/// The output formats of the graph layout engine.
#[derive(Debug, Clone, Copy, PartialEq, Eq, Structural)]
pub enum GraphVizFormat {
    /// Pretty-print
    Canon,
    /// Pretty-print; an alias of `Canon`
    PrettyPrint,
    /// Attributed dot
    Dot,
    /// Extended dot
    XDot,
    /// Svg
    Svg,
    /// Png
    Png,
}

/// The name by which the layout engine knows each format.
pub open spec fn format_name(f: GraphVizFormat) -> Seq<char> {
    match f {
        GraphVizFormat::Canon => "canon"@,
        GraphVizFormat::PrettyPrint => "prettyprint"@,
        GraphVizFormat::Dot => "dot"@,
        GraphVizFormat::XDot => "xdot"@,
        GraphVizFormat::Svg => "svg"@,
        GraphVizFormat::Png => "png"@,
    }
}

impl GraphVizFormat {
    /// The name by which the layout engine knows this format.
    pub fn name(&self) -> (r: &'static str)
        ensures
            r@ == format_name(*self),
    {
        match self {
            GraphVizFormat::Canon => "canon",
            GraphVizFormat::PrettyPrint => "prettyprint",
            GraphVizFormat::Dot => "dot",
            GraphVizFormat::XDot => "xdot",
            GraphVizFormat::Svg => "svg",
            GraphVizFormat::Png => "png",
        }
    }
}

/// A graph in the dot language.
pub struct Graph(pub String);

/// Relies on `String::from_utf8`: the text of bytes that are valid UTF-8, and
/// nothing otherwise.
#[verifier::external_body]
fn text_of_bytes(b: Vec<u8>) -> (r: Option<String>)
    ensures
        r is Some <==> valid_utf8(b@),
        r is Some ==> r->0@ == decode_utf8(b@),
{
    String::from_utf8(b).ok()
}

/// Whether `render` gives valid UTF-8 for `data` in `format`.
pub open spec fn renders_text<F: Fn(GraphVizFormat, String) -> Vec<u8>>(
    render: F,
    format: GraphVizFormat,
    data: Graph,
) -> bool {
    &&& render.requires((format, data.0))
    &&& forall|b: Vec<u8>| #[trigger] render.ensures((format, data.0), b) ==> valid_utf8(b@)
}

/// Whether `r` is the text of bytes that `render` gave for `data` in `format`.
pub open spec fn rendered_text<F: Fn(GraphVizFormat, String) -> Vec<u8>>(
    render: F,
    format: GraphVizFormat,
    data: Graph,
    r: String,
) -> bool {
    exists|b: Vec<u8>| #[trigger] render.ensures((format, data.0), b) && r@ == decode_utf8(b@)
}

/// Lays out `data` with `render` in the text format `format`, and reads the
/// result as text. The renderer must give valid UTF-8.
pub fn render_to_string<F: Fn(GraphVizFormat, String) -> Vec<u8>>(
    format: GraphVizFormat,
    data: Graph,
    render: F,
) -> (r: String)
    requires
        renders_text(render, format, data),
    ensures
        rendered_text(render, format, data, r),
{
    let ghost g = data.0;
    let bytes = render(format, data.0);
    assert(render.ensures((format, g), bytes));
    match text_of_bytes(bytes) {
        Some(text) => text,
        None => String::new(),
    }
}

/// The graph as attributed dot.
pub fn to_dot<F: Fn(GraphVizFormat, String) -> Vec<u8>>(data: Graph, render: F) -> (r: String)
    requires
        renders_text(render, GraphVizFormat::Dot, data),
    ensures
        rendered_text(render, GraphVizFormat::Dot, data, r),
{
    render_to_string(GraphVizFormat::Dot, data, render)
}

/// The graph as pretty-printed dot.
pub fn to_pretty_dot<F: Fn(GraphVizFormat, String) -> Vec<u8>>(data: Graph, render: F) -> (r: String)
    requires
        renders_text(render, GraphVizFormat::Canon, data),
    ensures
        rendered_text(render, GraphVizFormat::Canon, data, r),
{
    render_to_string(GraphVizFormat::Canon, data, render)
}

/// The graph as svg.
pub fn to_svg<F: Fn(GraphVizFormat, String) -> Vec<u8>>(data: Graph, render: F) -> (r: String)
    requires
        renders_text(render, GraphVizFormat::Svg, data),
    ensures
        rendered_text(render, GraphVizFormat::Svg, data, r),
{
    render_to_string(GraphVizFormat::Svg, data, render)
}

} // verus!
