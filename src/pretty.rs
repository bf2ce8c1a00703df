use vstd::prelude::*;
use vstd::string::*;

verus! {

broadcast use vstd::std_specs::vec::group_vec_axioms;

/// A result value as the printers read it.
#[derive(Debug)]
pub enum ValueTree {
    /// An ordered collection.
    List(Vec<ValueTree>),
    /// An unordered collection.
    Bag(Vec<ValueTree>),
    /// A record, its attributes in order.
    Tuple(Vec<Attribute>),
    /// `NULL` or `MISSING`, with its text.
    Absent(String),
    /// Any other value, with its text.
    Scalar(String),
}

/// One attribute of a record.
#[derive(Debug)]
pub struct Attribute {
    pub name: String,
    pub value: ValueTree,
}

/// Shows a value as text.
pub trait PrettyPrint {
    /// The text that `pretty` writes.
    spec fn pretty_spec(&self) -> Seq<char>;

    /// Writes the value's text at the end of `s`.
    fn pretty(&self, s: &mut String)
        ensures
            final(s)@ == old(s)@ + self.pretty_spec(),
    ;
}

/// Two spaces for each level of nesting.
pub open spec fn indent(n: nat) -> Seq<char>
    decreases n,
{
    if n == 0 {
        Seq::empty()
    } else {
        indent((n - 1) as nat) + "  "@
    }
}

/// The nesting level below `level`; it stays at the largest level it can count.
pub open spec fn next_level(level: usize) -> usize {
    if level < usize::MAX {
        (level + 1) as usize
    } else {
        level
    }
}

/// What follows the item at `i` of `n`: a comma and a line break, but after the
/// last one.
pub open spec fn separator(i: int, n: int) -> Seq<char> {
    if i + 1 < n {
        ",\n"@
    } else {
        Seq::empty()
    }
}

/// The text of `v` nested at `level`: a collection or record opens on its own
/// line, has one item per line indented one level deeper, and closes on a line at
/// its own level; any other value is its text.
pub open spec fn pretty_of(v: ValueTree, level: usize) -> Seq<char>
    decreases v, 0nat,
{
    match v {
        ValueTree::List(items) => "[\n"@ + items_text(items, level, items.len() as nat) + "\n"@
            + indent(level as nat) + "]"@,
        ValueTree::Bag(items) => "<<\n"@ + items_text(items, level, items.len() as nat) + "\n"@
            + indent(level as nat) + ">>"@,
        ValueTree::Tuple(attrs) => "{\n"@ + attrs_text(attrs, level, attrs.len() as nat) + "\n"@
            + indent(level as nat) + "}"@,
        ValueTree::Absent(t) => t@,
        ValueTree::Scalar(t) => t@,
    }
}

/// The lines of the first `n` items of a collection at `level`.
pub open spec fn items_text(items: Vec<ValueTree>, level: usize, n: nat) -> Seq<char>
    decreases items, n,
{
    if n == 0 || n > items.len() {
        Seq::empty()
    } else {
        items_text(items, level, (n - 1) as nat) + indent(level as nat) + "  "@ + pretty_of(
            items[n - 1],
            next_level(level),
        ) + separator(n - 1, items.len() as int)
    }
}

/// The lines of the first `n` attributes of a record at `level`.
pub open spec fn attrs_text(attrs: Vec<Attribute>, level: usize, n: nat) -> Seq<char>
    decreases attrs, n,
{
    if n == 0 || n > attrs.len() {
        Seq::empty()
    } else {
        attrs_text(attrs, level, (n - 1) as nat) + indent(level as nat) + "  "@ + attrs[n
            - 1].name@ + ": "@ + pretty_of(attrs[n - 1].value, next_level(level)) + separator(
            n - 1,
            attrs.len() as int,
        )
    }
}

/// Writes the indentation of `level` at the end of `s`.
fn write_indent(s: &mut String, level: usize)
    ensures
        final(s)@ == old(s)@ + indent(level as nat),
{
    let mut i: usize = 0;
    while i < level
        invariant
            i <= level,
            s@ == old(s)@ + indent(i as nat),
        decreases level - i,
    {
        s.append("  ");
        i = i + 1;
        proof {
            assert(s@ =~= old(s)@ + indent(i as nat));
        }
    }
}

/// Writes the text of `v` nested at `level` at the end of `s`.
fn write_pretty(v: &ValueTree, s: &mut String, level: usize)
    ensures
        final(s)@ == old(s)@ + pretty_of(*v, level),
    decreases v,
{
    match v {
        ValueTree::List(items) => {
            s.append("[\n");
            write_items(items, s, level);
            s.append("\n");
            write_indent(s, level);
            s.append("]");
            proof {
                assert(s@ =~= old(s)@ + pretty_of(*v, level));
            }
        },
        ValueTree::Bag(items) => {
            s.append("<<\n");
            write_items(items, s, level);
            s.append("\n");
            write_indent(s, level);
            s.append(">>");
            proof {
                assert(s@ =~= old(s)@ + pretty_of(*v, level));
            }
        },
        ValueTree::Tuple(attrs) => {
            s.append("{\n");
            write_attrs(attrs, s, level);
            s.append("\n");
            write_indent(s, level);
            s.append("}");
            proof {
                assert(s@ =~= old(s)@ + pretty_of(*v, level));
            }
        },
        ValueTree::Absent(t) => s.append(t.as_str()),
        ValueTree::Scalar(t) => s.append(t.as_str()),
    }
}

/// Writes the lines of the attributes of a record at `level` at the end of `s`.
fn write_attrs(attrs: &Vec<Attribute>, s: &mut String, level: usize)
    ensures
        final(s)@ == old(s)@ + attrs_text(*attrs, level, attrs.len() as nat),
    decreases attrs,
{
    let mut i: usize = 0;
    while i < attrs.len()
        invariant
            i <= attrs.len(),
            s@ == old(s)@ + attrs_text(*attrs, level, i as nat),
        decreases attrs.len() - i,
    {
        write_indent(s, level);
        s.append("  ");
        s.append(attrs[i].name.as_str());
        s.append(": ");
        proof {
            let a = attrs[i as int];
            assert(decreases_to!(*attrs => a));
        }
        write_pretty(&attrs[i].value, s, if level < usize::MAX { level + 1 } else { level });
        if i + 1 < attrs.len() {
            s.append(",\n");
        }
        i = i + 1;
        proof {
            assert(s@ =~= old(s)@ + attrs_text(*attrs, level, i as nat));
        }
    }
}

/// Writes the lines of the items of a collection at `level` at the end of `s`.
fn write_items(items: &Vec<ValueTree>, s: &mut String, level: usize)
    ensures
        final(s)@ == old(s)@ + items_text(*items, level, items.len() as nat),
    decreases items,
{
    let mut i: usize = 0;
    while i < items.len()
        invariant
            i <= items.len(),
            s@ == old(s)@ + items_text(*items, level, i as nat),
        decreases items.len() - i,
    {
        write_indent(s, level);
        s.append("  ");
        write_pretty(&items[i], s, if level < usize::MAX { level + 1 } else { level });
        if i + 1 < items.len() {
            s.append(",\n");
        }
        i = i + 1;
        proof {
            assert(s@ =~= old(s)@ + items_text(*items, level, i as nat));
        }
    }
}

impl PrettyPrint for ValueTree {
    open spec fn pretty_spec(&self) -> Seq<char> {
        pretty_of(*self, 0)
    }

    fn pretty(&self, s: &mut String) {
        write_pretty(self, s, 0);
    }
}

/// The text of `v` at the outermost level.
pub fn pretty_text(v: &ValueTree) -> (r: String)
    ensures
        r@ == pretty_of(*v, 0),
{
    let mut s = String::new();
    v.pretty(&mut s);
    s
}

} // verus!
