use vstd::prelude::*;
use vstd::string::*;

use crate::pretty::{pretty_of, pretty_text, Attribute, ValueTree};
use crate::text::same_text;

verus! {

broadcast use vstd::std_specs::vec::group_vec_axioms;

/// One filled cell of a table.
#[derive(Debug, Clone, PartialEq, Eq)]
pub struct TableCell {
    /// The value's text, without enclosing quotes.
    pub text: String,
    /// Whether the value is `NULL` or `MISSING`.
    pub absent: bool,
}

/// A result laid out as a table. A cell is `None` where a row's record has no
/// attribute for the column.
pub struct TableLayout {
    pub header: Vec<String>,
    pub rows: Vec<Vec<Option<TableCell>>>,
}

/// `t` without the quotes at its front.
pub open spec fn strip_leading_quotes(t: Seq<char>) -> Seq<char>
    decreases t.len(),
{
    if t.len() > 0 && t[0] == '\'' {
        strip_leading_quotes(t.skip(1))
    } else {
        t
    }
}

/// `t` without the quotes at its end.
pub open spec fn strip_trailing_quotes(t: Seq<char>) -> Seq<char>
    decreases t.len(),
{
    if t.len() > 0 && t.last() == '\'' {
        strip_trailing_quotes(t.drop_last())
    } else {
        t
    }
}

/// The text of a value in a table cell: a text that both begins and ends with a
/// quote loses all its leading and trailing quotes.
pub open spec fn table_text_of(t: Seq<char>) -> Seq<char> {
    if t.len() > 0 && t[0] == '\'' && t.last() == '\'' {
        strip_trailing_quotes(strip_leading_quotes(t))
    } else {
        t
    }
}

/// The cell text of `t`.
pub fn table_text(t: &str) -> (r: String)
    ensures
        r@ == table_text_of(t@),
{
    let n = t.unicode_len();
    if n == 0 || t.get_char(0) != '\'' || t.get_char(n - 1) != '\'' {
        return t.to_string();
    }
    let mut i: usize = 0;
    assert(t@.skip(0) =~= t@);
    while i < n && t.get_char(i) == '\''
        invariant
            i <= n,
            n == t@.len(),
            strip_leading_quotes(t@) == strip_leading_quotes(t@.skip(i as int)),
        decreases n - i,
    {
        assert(t@.skip(i as int).skip(1) =~= t@.skip(i as int + 1));
        i = i + 1;
    }
    let ghost front = t@.skip(i as int);
    assert(strip_leading_quotes(front) == front);
    let mut j: usize = n;
    while j > i && t.get_char(j - 1) == '\''
        invariant
            i <= j <= n,
            n == t@.len(),
            front == t@.skip(i as int),
            strip_trailing_quotes(front) == strip_trailing_quotes(t@.subrange(i as int, j as int)),
        decreases j,
    {
        assert(t@.subrange(i as int, j as int).drop_last() =~= t@.subrange(i as int, j as int - 1));
        j = j - 1;
    }
    assert(t@.skip(i as int) =~= t@.subrange(i as int, n as int));
    t.substring_char(i, j).to_string()
}

/// The rows of a result: the items of a collection, none for `NULL` or
/// `MISSING`, and the value itself otherwise.
pub open spec fn rows_of(v: ValueTree) -> Seq<ValueTree> {
    match v {
        ValueTree::List(items) => items@,
        ValueTree::Bag(items) => items@,
        ValueTree::Absent(_) => Seq::empty(),
        _ => seq![v],
    }
}

/// The column names after adding, in order, the names of the first `k`
/// attributes that are not columns yet.
pub open spec fn add_names(cols: Seq<Seq<char>>, attrs: Seq<Attribute>, k: nat) -> Seq<Seq<char>>
    decreases k,
{
    if k == 0 || k > attrs.len() {
        cols
    } else {
        let c = add_names(cols, attrs, (k - 1) as nat);
        if c.contains(attrs[k - 1].name@) {
            c
        } else {
            c.push(attrs[k - 1].name@)
        }
    }
}

/// The columns of the first `i` rows: each attribute name of a record row, once,
/// in the order it first appears.
pub open spec fn columns_upto(rows: Seq<ValueTree>, i: nat) -> Seq<Seq<char>>
    decreases i,
{
    if i == 0 || i > rows.len() {
        Seq::empty()
    } else {
        let c = columns_upto(rows, (i - 1) as nat);
        match rows[i - 1] {
            ValueTree::Tuple(attrs) => add_names(c, attrs@, attrs.len() as nat),
            _ => c,
        }
    }
}

/// The model of a cell: its text and whether its value is absent.
pub open spec fn cell_of(v: ValueTree) -> (Seq<char>, bool) {
    (table_text_of(pretty_of(v, 0)), v is Absent)
}

/// The model of an optional cell.
pub open spec fn cell_view(c: Option<TableCell>) -> Option<(Seq<char>, bool)> {
    match c {
        Some(cell) => Some((cell.text@, cell.absent)),
        None => None,
    }
}

/// The position of the last of the first `k` attributes named `name`.
pub open spec fn last_named(attrs: Seq<Attribute>, name: Seq<char>, k: nat) -> Option<int>
    decreases k,
{
    if k == 0 || k > attrs.len() {
        None
    } else if attrs[k - 1].name@ == name {
        Some(k - 1)
    } else {
        last_named(attrs, name, (k - 1) as nat)
    }
}

/// The cell of `row` under the column `name`: the last attribute of that name
/// when the row is a record.
pub open spec fn row_cell(row: ValueTree, name: Seq<char>) -> Option<(Seq<char>, bool)> {
    match row {
        ValueTree::Tuple(attrs) => match last_named(attrs@, name, attrs.len() as nat) {
            Some(j) => Some(cell_of(attrs@[j].value)),
            None => None,
        },
        _ => None,
    }
}

/// Whether each row of `rows` is the single cell of the value beside it.
pub open spec fn single_cells(rows: Seq<Vec<Option<TableCell>>>, vals: Seq<ValueTree>) -> bool {
    forall|j: int|
        0 <= j < vals.len() ==> #[trigger] rows[j]@.len() == 1 && cell_view(rows[j]@[0]) == Some(
            cell_of(vals[j]),
        )
}

/// Whether each row of `rows` holds, under each column of `cols`, the cell of
/// the value beside it for that column.
pub open spec fn record_cells(rows: Seq<Vec<Option<TableCell>>>, vals: Seq<ValueTree>, cols: Seq<Seq<char>>) -> bool {
    forall|j: int|
        0 <= j < vals.len() ==> #[trigger] rows[j]@.len() == cols.len() && forall|c: int|
            0 <= c < cols.len() ==> cell_view(#[trigger] rows[j]@[c]) == row_cell(vals[j], cols[c])
}

/// Whether `t` lays out the result `v`: with record rows, one column per
/// attribute name and a row per row; otherwise one column `Value` and each row's
/// text in it.
pub open spec fn lays_out(t: TableLayout, v: ValueTree) -> bool {
    let rows = rows_of(v);
    let cols = columns_upto(rows, rows.len());
    &&& t.rows@.len() == rows.len()
    &&& if cols.len() == 0 {
        &&& t.header@.map_values(|h: String| h@) == seq!["Value"@]
        &&& single_cells(t.rows@, rows)
    } else {
        &&& t.header@.map_values(|h: String| h@) == cols
        &&& record_cells(t.rows@, rows, cols)
    }
}

/// The cell for `v`.
fn cell(v: &ValueTree) -> (r: TableCell)
    ensures
        (r.text@, r.absent) == cell_of(*v),
{
    let text = pretty_text(v);
    TableCell { text: table_text(text.as_str()), absent: matches!(v, ValueTree::Absent(_)) }
}

/// The position of the column `name`, if there is one.
fn find_column(cols: &Vec<String>, name: &str) -> (r: Option<usize>)
    ensures
        match r {
            Some(k) => k < cols@.len() && cols@[k as int]@ == name@,
            None => !cols@.map_values(|h: String| h@).contains(name@),
        },
{
    let mut k: usize = 0;
    while k < cols.len()
        invariant
            k <= cols.len(),
            forall|j: int| 0 <= j < k ==> cols@[j]@ != name@,
        decreases cols.len() - k,
    {
        if same_text(cols[k].as_str(), name) {
            return Some(k);
        }
        k = k + 1;
    }
    let ghost names = cols@.map_values(|h: String| h@);
    assert(!names.contains(name@)) by {
        if names.contains(name@) {
            let j = choose|j: int| 0 <= j < names.len() && #[trigger] names[j] == name@;
            assert(cols@[j]@ == name@);
        }
    }
    None
}

/// The values behind a sequence of references.
pub open spec fn values_of(rows: Seq<&ValueTree>) -> Seq<ValueTree> {
    rows.map_values(|r: &ValueTree| *r)
}

/// The rows of `v`, as `rows_of` gives them.
fn rows<'a>(v: &'a ValueTree) -> (r: Vec<&'a ValueTree>)
    ensures
        values_of(r@) == rows_of(*v),
{
    match v {
        ValueTree::List(items) => item_refs(items),
        ValueTree::Bag(items) => item_refs(items),
        ValueTree::Absent(_) => {
            let r = Vec::new();
            assert(values_of(r@) =~= rows_of(*v));
            r
        },
        _ => {
            let r = vec![v];
            assert(values_of(r@) =~= rows_of(*v));
            r
        },
    }
}

/// References to the items of a collection.
fn item_refs<'a>(items: &'a Vec<ValueTree>) -> (r: Vec<&'a ValueTree>)
    ensures
        values_of(r@) == items@,
{
    let mut r: Vec<&'a ValueTree> = Vec::new();
    let mut i: usize = 0;
    while i < items.len()
        invariant
            i <= items.len(),
            r@.len() == i,
            forall|j: int| 0 <= j < i ==> *#[trigger] r@[j] == items@[j],
        decreases items.len() - i,
    {
        r.push(&items[i]);
        i = i + 1;
    }
    assert(values_of(r@) =~= items@);
    r
}

/// The columns of `rows`, as `columns_upto` gives them.
fn columns(rows: &Vec<&ValueTree>) -> (r: Vec<String>)
    ensures
        r@.map_values(|h: String| h@) == columns_upto(values_of(rows@), rows@.len()),
{
    let ghost rs = values_of(rows@);
    let mut cols: Vec<String> = Vec::new();
    let mut i: usize = 0;
    assert(cols@.map_values(|h: String| h@) =~= columns_upto(rs, 0));
    while i < rows.len()
        invariant
            i <= rows@.len(),
            rs == values_of(rows@),
            cols@.map_values(|h: String| h@) == columns_upto(rs, i as nat),
        decreases rows.len() - i,
    {
        let row: &ValueTree = rows[i];
        match row {
            ValueTree::Tuple(attrs) => {
                let ghost before = columns_upto(rs, i as nat);
                let mut k: usize = 0;
                while k < attrs.len()
                    invariant
                        k <= attrs@.len(),
                        cols@.map_values(|h: String| h@) == add_names(before, attrs@, k as nat),
                    decreases attrs.len() - k,
                {
                    let name = attrs[k].name.as_str();
                    match find_column(&cols, name) {
                        Some(_) => {
                            proof {
                                let names = cols@.map_values(|h: String| h@);
                                let j = choose|j: int| 0 <= j < cols@.len() && cols@[j]@ == name@;
                                assert(names[j] == name@);
                            }
                        },
                        None => {
                            let ghost old_cols = cols@;
                            cols.push(attrs[k].name.clone());
                            proof {
                                assert(cols@.map_values(|h: String| h@) =~= old_cols.map_values(
                                    |h: String| h@,
                                ).push(attrs@[k as int].name@));
                            }
                        },
                    }
                    k = k + 1;
                }
            },
            _ => {},
        }
        i = i + 1;
    }
    cols
}

/// A position that `last_named` gives lies among the attributes it looked at.
proof fn lemma_last_named_bounds(attrs: Seq<Attribute>, name: Seq<char>, k: nat)
    ensures
        last_named(attrs, name, k) is Some ==> 0 <= last_named(attrs, name, k)->0 < k,
    decreases k,
{
    if k > 0 && k <= attrs.len() {
        lemma_last_named_bounds(attrs, name, (k - 1) as nat);
    }
}

/// The position of the last attribute named `name`, as `last_named` gives it.
fn last_attr(attrs: &Vec<Attribute>, name: &str) -> (r: Option<usize>)
    ensures
        match last_named(attrs@, name@, attrs@.len()) {
            Some(j) => r == Some(j as usize),
            None => r is None,
        },
        r is Some ==> r->0 < attrs@.len(),
{
    let mut found: Option<usize> = None;
    let mut k: usize = 0;
    while k < attrs.len()
        invariant
            k <= attrs@.len(),
            match last_named(attrs@, name@, k as nat) {
                Some(j) => found == Some(j as usize) && j < k,
                None => found is None,
            },
        decreases attrs.len() - k,
    {
        proof {
            lemma_last_named_bounds(attrs@, name@, k as nat);
        }
        if same_text(attrs[k].name.as_str(), name) {
            found = Some(k);
        }
        k = k + 1;
    }
    proof {
        lemma_last_named_bounds(attrs@, name@, k as nat);
    }
    found
}

/// The cell of `row` under the column `name`.
fn row_cell_of(row: &ValueTree, name: &str) -> (r: Option<TableCell>)
    ensures
        cell_view(r) == row_cell(*row, name@),
{
    match row {
        ValueTree::Tuple(attrs) => {
            proof {
                lemma_last_named_bounds(attrs@, name@, attrs@.len());
            }
            match last_attr(attrs, name) {
                Some(j) => Some(cell(&attrs[j].value)),
                None => None,
            }
        },
        _ => None,
    }
}

/// The cells of `row` under the columns `cols`.
fn record_row(row: &ValueTree, cols: &Vec<String>) -> (r: Vec<Option<TableCell>>)
    ensures
        r@.len() == cols@.len(),
        forall|c: int| 0 <= c < cols@.len() ==> cell_view(#[trigger] r@[c]) == row_cell(*row, cols@[c]@),
{
    let mut out: Vec<Option<TableCell>> = Vec::new();
    let mut c: usize = 0;
    while c < cols.len()
        invariant
            c <= cols@.len(),
            out@.len() == c,
            forall|d: int| 0 <= d < c ==> cell_view(#[trigger] out@[d]) == row_cell(*row, cols@[d]@),
        decreases cols.len() - c,
    {
        let cell_here = row_cell_of(row, cols[c].as_str());
        out.push(cell_here);
        c = c + 1;
    }
    out
}

/// The single-column table of rows that are not records.
fn value_table(rs: &Vec<&ValueTree>) -> (r: TableLayout)
    ensures
        r.header@.map_values(|h: String| h@) == seq!["Value"@],
        r.rows@.len() == rs@.len(),
        single_cells(r.rows@, values_of(rs@)),
{
    let mut out: Vec<Vec<Option<TableCell>>> = Vec::new();
    let mut i: usize = 0;
    while i < rs.len()
        invariant
            i <= rs@.len(),
            out@.len() == i,
            forall|j: int|
                0 <= j < i ==> #[trigger] out@[j]@.len() == 1 && cell_view(out@[j]@[0]) == Some(
                    cell_of(values_of(rs@)[j]),
                ),
        decreases rs.len() - i,
    {
        let c = cell(rs[i]);
        assert(*rs@[i as int] == values_of(rs@)[i as int]);
        out.push(vec![Some(c)]);
        i = i + 1;
    }
    let header = vec![String::from_str("Value")];
    assert(header@.map_values(|h: String| h@) =~= seq!["Value"@]);
    assert(single_cells(out@, values_of(rs@)));
    TableLayout { header, rows: out }
}

/// The table with the columns `cols`, a row for each row of `rs`.
fn record_table(rs: &Vec<&ValueTree>, cols: Vec<String>) -> (r: TableLayout)
    ensures
        r.header@ == cols@,
        r.rows@.len() == rs@.len(),
        record_cells(r.rows@, values_of(rs@), cols@.map_values(|h: String| h@)),
{
    let ghost names = cols@.map_values(|h: String| h@);
    let mut out: Vec<Vec<Option<TableCell>>> = Vec::new();
    let mut i: usize = 0;
    while i < rs.len()
        invariant
            i <= rs@.len(),
            out@.len() == i,
            names == cols@.map_values(|h: String| h@),
            forall|j: int|
                0 <= j < i ==> #[trigger] out@[j]@.len() == names.len() && forall|c: int|
                    0 <= c < names.len() ==> cell_view(#[trigger] out@[j]@[c]) == row_cell(
                        values_of(rs@)[j],
                        names[c],
                    ),
        decreases rs.len() - i,
    {
        let row = record_row(rs[i], &cols);
        assert forall|c: int| 0 <= c < names.len() implies cell_view(#[trigger] row@[c]) == row_cell(
            values_of(rs@)[i as int],
            names[c],
        ) by {
            assert(names[c] == cols@[c]@);
        }
        assert(*rs@[i as int] == values_of(rs@)[i as int]);
        out.push(row);
        i = i + 1;
    }
    assert(record_cells(out@, values_of(rs@), names));
    TableLayout { header: cols, rows: out }
}

/// Lays out the result `v` as a table. Each record row contributes its attribute
/// names as columns, in the order they first appear; a row shows, under each
/// column, its last attribute of that name, and nothing where it has none. When
/// no row is a record, the table has the single column `Value` with each row's
/// text. A cell's text is the value's pretty text with enclosing quotes removed.
pub fn table_layout(v: &ValueTree) -> (r: TableLayout)
    ensures
        lays_out(r, *v),
{
    let rs = rows(v);
    let cols = columns(&rs);
    if cols.len() == 0 {
        value_table(&rs)
    } else {
        let r = record_table(&rs, cols);
        assert(r.header@.map_values(|h: String| h@) =~= columns_upto(rows_of(*v), rows_of(*v).len()));
        r
    }
}

} // verus!
