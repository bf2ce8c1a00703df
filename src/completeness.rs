use vstd::prelude::*;

verus! {

/// The character that ends a statement explicitly.
pub const TERMINATOR: char = ';';

/// The line break, which ends a statement implicitly.
pub const LINE_BREAK: char = '\n';

/// How far the buffered input is from being a statement.
#[derive(Debug, Clone, PartialEq, Eq)]
pub enum Completeness {
    /// Nothing was typed.
    Empty,
    /// A whole statement, with its final terminator or line break removed.
    Complete(String),
    /// More input is needed.
    Incomplete,
}

/// The mathematical model of `Completeness`.
pub enum CompletenessView {
    Empty,
    Complete(Seq<char>),
    Incomplete,
}

impl View for Completeness {
    type V = CompletenessView;

    open spec fn view(&self) -> CompletenessView {
        match self {
            Completeness::Empty => CompletenessView::Empty,
            Completeness::Complete(s) => CompletenessView::Complete(s@),
            Completeness::Incomplete => CompletenessView::Incomplete,
        }
    }
}

/// Whether `c` ends a statement.
pub open spec fn ends_statement(c: char) -> bool {
    c == TERMINATOR || c == LINE_BREAK
}

/// The classification of a buffer: empty, ending in a terminator or line break
/// (which is stripped), or anything else.
pub open spec fn completeness_of(buf: Seq<char>) -> CompletenessView {
    if buf.len() == 0 {
        CompletenessView::Empty
    } else if ends_statement(buf.last()) {
        CompletenessView::Complete(buf.drop_last())
    } else {
        CompletenessView::Incomplete
    }
}

/// Decides whether the accumulated input `buf` is empty, a complete statement or
/// still incomplete. Only the last character counts: a terminator in the middle
/// of the buffer does not end the statement.
pub fn classify_input(buf: &str) -> (r: Completeness)
    ensures
        r@ == completeness_of(buf@),
        buf@.len() > 0 && ends_statement(buf@.last()) ==> r@ == CompletenessView::Complete(
            buf@.drop_last(),
        ),
        buf@.len() > 0 && !ends_statement(buf@.last()) ==> r@ == CompletenessView::Incomplete,
{
    let n = buf.unicode_len();
    if n == 0 {
        return Completeness::Empty;
    }
    let last = buf.get_char(n - 1);
    if last == TERMINATOR || last == LINE_BREAK {
        let body = buf.substring_char(0, n - 1);
        Completeness::Complete(body.to_string())
    } else {
        Completeness::Incomplete
    }
}

} // verus!
