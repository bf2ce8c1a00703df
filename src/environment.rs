use vstd::prelude::*;

use crate::error::CLIErrors;
use crate::evaluate::{
    binding_names, empty_bindings, eq_ignoring_case, evaluate, insert_binding, record_pairs, same_ignoring_case,
    Compiler,
};
use crate::text::same_text;
use partiql_eval::env::basic::MapBindings;
use partiql_extension_ion::decode::{IonDecoderBuilder, IonDecoderConfig};
use partiql_extension_ion::Encoding;
use partiql_value::Value;

verus! {

/// What a path's extension is, as `std::path::Path::extension` finds it.
pub uninterp spec fn extension_of(path: Seq<char>) -> Option<Seq<char>>;

/// Relies on `Path::extension`: the part of the file name after its last dot,
/// if it has one; the result depends on the path alone.
#[verifier::external_body]
fn path_extension(path: &str) -> (r: Option<String>)
    ensures
        r is Some <==> extension_of(path@) is Some,
        r is Some ==> r->0@ == extension_of(path@)->0,
{
    std::path::Path::new(path).extension().map(|e| e.to_string_lossy().into_owned())
}

/// The kinds of environment file.
#[derive(Debug, Clone, Copy, PartialEq, Eq, Structural)]
pub enum EnvironmentKind {
    /// A `.env` file: a query whose result is a record.
    Query,
    /// A `.ion` file: one top-level record.
    Ion,
}

/// Why no environment could be made from a file. Each of these stops the
/// program before the shell starts.
#[derive(Debug, Clone, PartialEq, Eq)]
pub enum EnvironmentError {
    /// The path has no extension.
    MissingExtension,
    /// The path's extension is neither `env` nor `ion`.
    UnsupportedExtension(String),
    /// The file's value is not a record.
    NotARecord,
    /// The `.ion` file does not begin with a record value that can be decoded.
    InvalidIon,
    /// The record binds this name twice, ignoring case.
    DuplicateName(String),
    /// The file could not be read, or its query failed.
    Diagnostics(CLIErrors),
}

/// The kind of environment file at `path`, chosen by its extension.
pub open spec fn environment_kind_of(path: Seq<char>) -> Option<EnvironmentKind> {
    match extension_of(path) {
        Some(e) => if e == "env"@ {
            Some(EnvironmentKind::Query)
        } else if e == "ion"@ {
            Some(EnvironmentKind::Ion)
        } else {
            None
        },
        None => None,
    }
}

/// Tells from the extension of `path` how the environment file is to be read.
pub fn environment_kind(path: &str) -> (r: Result<EnvironmentKind, EnvironmentError>)
    ensures
        extension_of(path@) is None ==> r == Err::<EnvironmentKind, EnvironmentError>(
            EnvironmentError::MissingExtension,
        ),
        extension_of(path@) is Some ==> match environment_kind_of(path@) {
            Some(k) => r == Ok::<EnvironmentKind, EnvironmentError>(k),
            None => r is Err && r->Err_0 is UnsupportedExtension && r->Err_0->UnsupportedExtension_0@
                == extension_of(path@)->0,
        },
{
    match path_extension(path) {
        None => Err(EnvironmentError::MissingExtension),
        Some(ext) => {
            if same_text(ext.as_str(), "env") {
                Ok(EnvironmentKind::Query)
            } else if same_text(ext.as_str(), "ion") {
                Ok(EnvironmentKind::Ion)
            } else {
                Err(EnvironmentError::UnsupportedExtension(ext))
            }
        },
    }
}

/// The attribute names of a record, in order.
pub open spec fn names_of(pairs: Seq<(String, Value)>) -> Seq<Seq<char>> {
    pairs.map_values(|p: (String, Value)| p.0@)
}

/// Whether the names at `i` and `j` are equal ignoring case, compared either way.
pub open spec fn clash(names: Seq<Seq<char>>, i: int, j: int) -> bool {
    same_ignoring_case(names[i], names[j]) || same_ignoring_case(names[j], names[i])
}

/// Whether two of `names` are equal ignoring case.
pub open spec fn has_case_duplicate(names: Seq<Seq<char>>) -> bool {
    exists|i: int, j: int| 0 <= i < j < names.len() && #[trigger] clash(names, i, j)
}

/// The first name of `pairs` that an earlier name equals ignoring case, if any.
fn case_duplicate(pairs: &Vec<(String, Value)>) -> (r: Option<String>)
    ensures
        r is None <==> !has_case_duplicate(names_of(pairs@)),
{
    let ghost names = names_of(pairs@);
    let mut j: usize = 0;
    while j < pairs.len()
        invariant
            j <= pairs@.len(),
            names == names_of(pairs@),
            forall|a: int, b: int|
                0 <= a < b < j ==> !same_ignoring_case(names[a], names[b]) && !same_ignoring_case(
                    names[b],
                    names[a],
                ),
        decreases pairs.len() - j,
    {
        let mut i: usize = 0;
        while i < j
            invariant
                i <= j < pairs@.len(),
                names == names_of(pairs@),
                forall|a: int, b: int|
                    0 <= a < b < j ==> !same_ignoring_case(names[a], names[b]) && !same_ignoring_case(
                        names[b],
                        names[a],
                    ),
                forall|a: int|
                    0 <= a < i ==> !same_ignoring_case(names[a], names[j as int]) && !same_ignoring_case(
                        names[j as int],
                        names[a],
                    ),
            decreases j - i,
        {
            let a = pairs[i].0.as_str();
            let b = pairs[j].0.as_str();
            if eq_ignoring_case(a, b) || eq_ignoring_case(b, a) {
                assert(clash(names, i as int, j as int));
                return Some(pairs[j].0.clone());
            }
            i = i + 1;
        }
        j = j + 1;
    }
    None
}

/// The environment with one binding per attribute of a record, or the first
/// name that the record binds twice ignoring case.
pub fn bindings_of_pairs(pairs: Vec<(String, Value)>) -> (r: Result<
    MapBindings<Value>,
    EnvironmentError,
>)
    ensures
        r is Ok <==> !has_case_duplicate(names_of(pairs@)),
        r is Err ==> r->Err_0 is DuplicateName,
        r is Ok ==> binding_names(r->Ok_0).len() == pairs@.len(),
{
    if let Some(name) = case_duplicate(&pairs) {
        return Err(EnvironmentError::DuplicateName(name));
    }
    let ghost names = names_of(pairs@);
    let ghost n = pairs@.len();
    let mut rest = pairs;
    let mut b = empty_bindings();
    while rest.len() > 0
        invariant
            names.len() == n,
            !has_case_duplicate(names),
            rest@.len() <= n,
            forall|k: int| 0 <= k < rest@.len() ==> #[trigger] rest@[k].0@ == names[k],
            binding_names(b).len() == n - rest@.len(),
            forall|k: int|
                0 <= k < binding_names(b).len() ==> #[trigger] binding_names(b)[k] == names[n - 1 - k],
        decreases rest.len(),
    {
        let ghost k = rest@.len() - 1;
        let (name, value) = rest.pop().unwrap();
        proof {
            assert(name@ == names[k]);
            assert forall|i: int| 0 <= i < binding_names(b).len() implies !same_ignoring_case(
                #[trigger] binding_names(b)[i],
                name@,
            ) && !same_ignoring_case(name@, binding_names(b)[i]) by {
                assert(binding_names(b)[i] == names[n - 1 - i]);
                assert(k < n - 1 - i);
                if clash(names, k, n - 1 - i) {
                    assert(has_case_duplicate(names));
                }
            }
        }
        insert_binding(&mut b, name.as_str(), value);
    }
    Ok(b)
}

/// The environment defined by the text of a `.env` file: the query is evaluated
/// without bindings and its result must be a record.
pub fn load_query_environment(compiler: &Compiler, text: &str) -> (r: Result<
    MapBindings<Value>,
    EnvironmentError,
>)
    ensures
        r is Err ==> (r->Err_0 is NotARecord || r->Err_0 is DuplicateName || (r->Err_0 is Diagnostics
            && r->Err_0->Diagnostics_0@.query == text@ && r->Err_0->Diagnostics_0@.related.len()
            > 0)),
{
    let empty = empty_bindings();
    match evaluate(compiler, text, &empty) {
        Ok(v) => environment_of_value(v),
        Err(e) => Err(EnvironmentError::Diagnostics(e)),
    }
}

/// The environment for `value`, the content of an environment file: one binding
/// per attribute when it is a record whose names are distinct ignoring case.
pub fn environment_of_value(value: Value) -> (r: Result<MapBindings<Value>, EnvironmentError>)
    ensures
        r is Err ==> r->Err_0 is NotARecord || r->Err_0 is DuplicateName,
{
    match record_pairs(value) {
        Some(pairs) => bindings_of_pairs(pairs),
        None => Err(EnvironmentError::NotARecord),
    }
}

/// The attribute names of the record that an Ion text begins with, when it
/// begins with a record value in the PartiQL encoding; the result depends on the
/// text alone.
pub uninterp spec fn ion_record_names(text: Seq<char>) -> Option<Seq<Seq<char>>>;

/// Relies on `ion_rs::ReaderBuilder::build`, `IonDecoderBuilder::build`, the
/// decoder's iterator and `Tuple::into_pairs`: the attributes of the record that
/// an Ion text begins with, if it begins with one.
#[verifier::external_body]
fn decode_ion_record(text: &str) -> (r: Option<Vec<(String, Value)>>)
    ensures
        r is Some <==> ion_record_names(text@) is Some,
        r is Some ==> names_of(r->0@) == ion_record_names(text@)->0,
{
    let reader = ion_rs::ReaderBuilder::new().build(text.to_string()).ok()?;
    let config = IonDecoderConfig::default().with_mode(Encoding::PartiqlEncodedAsIon);
    let mut decoder = IonDecoderBuilder::new(config).build(reader).ok()?;
    match decoder.next()?.ok()? {
        Value::Tuple(t) => Some(t.into_pairs().collect()),
        _ => None,
    }
}

/// The environment held by the text of an environment file at `path`: a `.env`
/// file is a query whose result must be a record, an `.ion` file begins with a
/// record. The record's names must be distinct ignoring case. Any other
/// extension is refused.
pub fn get_bindings(compiler: &Compiler, path: &str, text: &str) -> (r: Result<
    MapBindings<Value>,
    EnvironmentError,
>)
    ensures
        extension_of(path@) is None ==> r == Err::<MapBindings<Value>, EnvironmentError>(
            EnvironmentError::MissingExtension,
        ),
        extension_of(path@) is Some && environment_kind_of(path@) is None ==> r is Err
            && r->Err_0 is UnsupportedExtension,
        environment_kind_of(path@) == Some(EnvironmentKind::Query) && r is Err ==> (
        r->Err_0 is NotARecord || r->Err_0 is DuplicateName || (r->Err_0 is Diagnostics
            && r->Err_0->Diagnostics_0@.query == text@)),
        environment_kind_of(path@) == Some(EnvironmentKind::Ion) ==> (r is Ok <==> (
        ion_record_names(text@) is Some && !has_case_duplicate(ion_record_names(text@)->0))),
        environment_kind_of(path@) == Some(EnvironmentKind::Ion) && ion_record_names(text@) is None
            ==> r == Err::<MapBindings<Value>, EnvironmentError>(EnvironmentError::InvalidIon),
{
    match environment_kind(path) {
        Err(e) => Err(e),
        Ok(EnvironmentKind::Query) => load_query_environment(compiler, text),
        Ok(EnvironmentKind::Ion) => match decode_ion_record(text) {
            Some(pairs) => bindings_of_pairs(pairs),
            None => Err(EnvironmentError::InvalidIon),
        },
    }
}

} // verus!
