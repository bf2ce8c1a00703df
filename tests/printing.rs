use partiql_cli::formatting::{table_layout, table_text, TableCell};
use partiql_cli::pretty::{pretty_text, Attribute, PrettyPrint, ValueTree};

fn number(n: i64) -> ValueTree {
    ValueTree::Scalar(n.to_string())
}

fn rec(pairs: Vec<(&str, ValueTree)>) -> ValueTree {
    ValueTree::Tuple(pairs.into_iter().map(|(k, v)| Attribute { name: k.to_string(), value: v }).collect())
}

fn cell(text: &str, absent: bool) -> Option<TableCell> {
    Some(TableCell { text: text.to_string(), absent })
}

#[test]
fn pretty_prints_nested_values() {
    let v = ValueTree::Bag(vec![rec(vec![("a", number(1))]), rec(vec![("a", number(2))])]);
    assert_eq!(pretty_text(&v), "<<\n  {\n    a: 1\n  },\n  {\n    a: 2\n  }\n>>");
}

#[test]
fn pretty_prints_list_and_scalar() {
    let v = ValueTree::List(vec![number(1), ValueTree::Scalar("'x'".to_string())]);
    let mut s = String::from("> ");
    v.pretty(&mut s);
    assert_eq!(s, "> [\n  1,\n  'x'\n]");
    assert_eq!(pretty_text(&ValueTree::List(vec![])), "[\n\n]");
    assert_eq!(pretty_text(&ValueTree::Absent("NULL".to_string())), "NULL");
}

#[test]
fn table_of_records_has_a_column_per_attribute() {
    let v = ValueTree::Bag(vec![rec(vec![("a", number(1))]), rec(vec![("a", number(2))])]);
    let t = table_layout(&v);
    assert_eq!(t.header, vec!["a".to_string()]);
    assert_eq!(t.rows, vec![vec![cell("1", false)], vec![cell("2", false)]]);
}

#[test]
fn table_columns_in_first_appearance_order() {
    let v = ValueTree::List(vec![
        rec(vec![("b", number(1)), ("a", ValueTree::Absent("MISSING".to_string()))]),
        rec(vec![("c", ValueTree::Scalar("'hi'".to_string())), ("b", number(3)), ("b", number(4))]),
    ]);
    let t = table_layout(&v);
    assert_eq!(t.header, vec!["b".to_string(), "a".to_string(), "c".to_string()]);
    assert_eq!(
        t.rows,
        vec![
            vec![cell("1", false), cell("MISSING", true), None],
            vec![cell("4", false), None, cell("hi", false)],
        ]
    );
}

#[test]
fn table_of_plain_values_has_one_value_column() {
    let v = ValueTree::List(vec![number(1), ValueTree::Scalar("'x'".to_string())]);
    let t = table_layout(&v);
    assert_eq!(t.header, vec!["Value".to_string()]);
    assert_eq!(t.rows, vec![vec![cell("1", false)], vec![cell("x", false)]]);
    let single = table_layout(&number(7));
    assert_eq!(single.rows, vec![vec![cell("7", false)]]);
    let none = table_layout(&ValueTree::Absent("NULL".to_string()));
    assert!(none.rows.is_empty());
}

#[test]
fn table_text_trims_enclosing_quotes() {
    assert_eq!(table_text("'abc'"), "abc");
    assert_eq!(table_text("''a''"), "a");
    assert_eq!(table_text("'"), "");
    assert_eq!(table_text("'abc"), "'abc");
    assert_eq!(table_text("abc"), "abc");
}
