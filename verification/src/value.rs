//! The Python values the SDK reads: what a callback returned, a config dict,
//! a content block given as a dict.

use vstd::prelude::*;

use crate::content::ContentBlock;
use crate::error::{err_view, ErrorView, PyErrorKind, SdkError};
use crate::text::{concat3, str_eq, string_from};

verus! {

/// A Python object, as far as the SDK looks into it.
///
/// `Int` holds a Python `int` that fits 128 bits; `BigInt` stands for a larger
/// one, by its sign and by whether Python's conversion of it to `float`
/// overflows (from about 2^1024 in magnitude). `Float` holds the IEEE-754 bit pattern of a
/// Python `float`. `PySet` holds the members of a `set` in some order. `Dict` holds the string-keyed entries of a `dict` in their
/// order. `Attachment` is an `Attachment` object; `Other` is any other object,
/// given by the name of its type.
#[derive(Debug, PartialEq, Eq)]
pub enum PyValue {
    NoneValue,
    Bool(bool),
    Int(i128),
    BigInt { negative: bool, float_overflows: bool },
    Float(u64),
    Str(String),
    List(Vec<PyValue>),
    Tuple(Vec<PyValue>),
    PySet(Vec<PyValue>),
    Dict(Vec<(String, PyValue)>),
    Attachment(ContentBlock),
    Other(String),
}

/// The mathematical form of a [`PyValue`]: strings as character sequences,
/// lists and dict entries as sequences.
pub enum PyData {
    NoneValue,
    Bool(bool),
    Int(int),
    BigInt { negative: bool, float_overflows: bool },
    Float(u64),
    Str(Seq<char>),
    List(Seq<PyData>),
    Tuple(Seq<PyData>),
    PySet(Seq<PyData>),
    Dict(Seq<(Seq<char>, PyData)>),
    Attachment(crate::content::ContentBlockView),
    Other(Seq<char>),
}

/// The mathematical form of a value.
pub open spec fn value_data(v: PyValue) -> PyData
    decreases v, 1nat,
{
    match v {
        PyValue::NoneValue => PyData::NoneValue,
        PyValue::Bool(b) => PyData::Bool(b),
        PyValue::Int(n) => PyData::Int(n as int),
        PyValue::BigInt { negative, float_overflows } => PyData::BigInt { negative, float_overflows },
        PyValue::Float(bits) => PyData::Float(bits),
        PyValue::Str(s) => PyData::Str(s@),
        PyValue::List(items) => PyData::List(values_data(items@)),
        PyValue::Tuple(items) => PyData::Tuple(values_data(items@)),
        PyValue::PySet(items) => PyData::PySet(values_data(items@)),
        PyValue::Dict(entries) => PyData::Dict(entries_data(entries@)),
        PyValue::Attachment(b) => PyData::Attachment(b@),
        PyValue::Other(name) => PyData::Other(name@),
    }
}

/// The mathematical form of a list of values.
pub open spec fn values_data(s: Seq<PyValue>) -> Seq<PyData>
    decreases s, 0nat,
{
    if s.len() == 0 {
        Seq::empty()
    } else {
        values_data(s.drop_last()).push(value_data(s.last()))
    }
}

/// The mathematical form of a list of dict entries.
pub open spec fn entries_data(s: Seq<(String, PyValue)>) -> Seq<(Seq<char>, PyData)>
    decreases s, 0nat,
{
    if s.len() == 0 {
        Seq::empty()
    } else {
        entries_data(s.drop_last()).push((s.last().0@, value_data(s.last().1)))
    }
}

impl View for PyValue {
    type V = PyData;

    open spec fn view(&self) -> PyData {
        value_data(*self)
    }
}

/// The qualified name of the Python type of `v`.
pub open spec fn py_type_of(v: PyValue) -> Seq<char> {
    match v {
        PyValue::NoneValue => "NoneType"@,
        PyValue::Bool(_) => "bool"@,
        PyValue::Int(_) => "int"@,
        PyValue::BigInt { .. } => "int"@,
        PyValue::Float(_) => "float"@,
        PyValue::Str(_) => "str"@,
        PyValue::List(_) => "list"@,
        PyValue::Tuple(_) => "tuple"@,
        PyValue::PySet(_) => "set"@,
        PyValue::Dict(_) => "dict"@,
        PyValue::Attachment(_) => "Attachment"@,
        PyValue::Other(name) => name@,
    }
}

/// The name of the Python type of `v`.
pub fn py_type_name(v: &PyValue) -> (r: String)
    ensures
        r@ == py_type_of(*v),
{
    match v {
        PyValue::NoneValue => string_from("NoneType"),
        PyValue::Bool(_) => string_from("bool"),
        PyValue::Int(_) => string_from("int"),
        PyValue::BigInt { .. } => string_from("int"),
        PyValue::Float(_) => string_from("float"),
        PyValue::Str(_) => string_from("str"),
        PyValue::List(_) => string_from("list"),
        PyValue::Tuple(_) => string_from("tuple"),
        PyValue::PySet(_) => string_from("set"),
        PyValue::Dict(_) => string_from("dict"),
        PyValue::Attachment(_) => string_from("Attachment"),
        PyValue::Other(name) => name.clone(),
    }
}

/// The `TypeError` raised when `v` is used where an instance of the type
/// named `target` is required.
pub open spec fn cast_error(v: PyValue, target: Seq<char>) -> ErrorView {
    if v is NoneValue {
        err_view(PyErrorKind::TypeError, "'None' is not an instance of '"@ + target + "'"@)
    } else {
        err_view(
            PyErrorKind::TypeError,
            "'"@ + py_type_of(v) + "' object is not an instance of '"@ + target + "'"@,
        )
    }
}

/// Builds the error that [`cast_error`] describes.
pub fn make_cast_error(v: &PyValue, target: &str) -> (e: SdkError)
    ensures
        e@ == cast_error(*v, target@),
{
    match v {
        PyValue::NoneValue => {
            let mut m = string_from("'None' is not an instance of '");
            m.append(target);
            m.append("'");
            SdkError::type_error(m)
        },
        _ => {
            let tn = py_type_name(v);
            let mut m = string_from("'");
            m.append(tn.as_str());
            m.append("' object is not an instance of '");
            m.append(target);
            m.append("'");
            SdkError::type_error(m)
        },
    }
}

/// The index of the first entry whose key is `key`, from position `i` on.
pub open spec fn key_index_from(entries: Seq<(String, PyValue)>, key: Seq<char>, i: int) -> Option<
    int,
>
    decreases entries.len() - i,
{
    if i < 0 || i >= entries.len() {
        None
    } else if entries[i].0@ == key {
        Some(i)
    } else {
        key_index_from(entries, key, i + 1)
    }
}

/// The value stored under `key`, as Python's `dict.get` finds it.
pub open spec fn dict_lookup(entries: Seq<(String, PyValue)>, key: Seq<char>) -> Option<PyValue> {
    match key_index_from(entries, key, 0) {
        Some(i) => Some(entries[i].1),
        None => None,
    }
}

pub proof fn lemma_key_index_from_bounds(entries: Seq<(String, PyValue)>, key: Seq<char>, i: int)
    ensures
        key_index_from(entries, key, i) matches Some(j) ==> i <= j < entries.len() && entries[j].0@
            == key,
    decreases entries.len() - i,
{
    if 0 <= i < entries.len() && entries[i].0@ != key {
        lemma_key_index_from_bounds(entries, key, i + 1);
    }
}

/// The position of the entry stored under `key`.
pub fn dict_find(entries: &Vec<(String, PyValue)>, key: &str) -> (r: Option<usize>)
    ensures
        match r {
            Some(i) => key_index_from(entries@, key@, 0) == Some(i as int) && i < entries.len(),
            None => key_index_from(entries@, key@, 0) is None,
        },
{
    let mut i: usize = 0;
    while i < entries.len()
        invariant
            i <= entries.len(),
            key_index_from(entries@, key@, 0) == key_index_from(entries@, key@, i as int),
        decreases entries.len() - i,
    {
        if str_eq(entries[i].0.as_str(), key) {
            return Some(i);
        }
        i += 1;
    }
    None
}

/// The value stored under `key`.
pub fn dict_get<'a>(entries: &'a Vec<(String, PyValue)>, key: &str) -> (r: Option<&'a PyValue>)
    ensures
        match r {
            Some(v) => dict_lookup(entries@, key@) == Some(*v),
            None => dict_lookup(entries@, key@) is None,
        },
{
    match dict_find(entries, key) {
        Some(i) => Some(&entries[i].1),
        None => None,
    }
}

/// The value stored under `key`, leaving out a stored `None`.
pub open spec fn dict_lookup_some(entries: Seq<(String, PyValue)>, key: Seq<char>) -> Option<
    PyValue,
> {
    match dict_lookup(entries, key) {
        Some(PyValue::NoneValue) => None,
        other => other,
    }
}

/// The value stored under `key`, unless it is absent or `None`.
pub fn dict_get_some<'a>(entries: &'a Vec<(String, PyValue)>, key: &str) -> (r: Option<
    &'a PyValue,
>)
    ensures
        match r {
            Some(v) => dict_lookup_some(entries@, key@) == Some(*v),
            None => dict_lookup_some(entries@, key@) is None,
        },
{
    match dict_get(entries, key) {
        Some(PyValue::NoneValue) => None,
        other => other,
    }
}

/// The result of extracting a `str`: its text, or the error Python raises.
pub open spec fn spec_extract_str(v: PyValue) -> Result<Seq<char>, ErrorView> {
    match v {
        PyValue::Str(s) => Ok(s@),
        _ => Err(cast_error(v, "str"@)),
    }
}

/// The mathematical form of a string-or-error result.
pub open spec fn str_result_view(r: Result<String, SdkError>) -> Result<Seq<char>, ErrorView> {
    match r {
        Ok(s) => Ok(s@),
        Err(e) => Err(e@),
    }
}

/// Extracts a `str` as Rust does with `extract::<String>()`.
pub fn extract_str(v: &PyValue) -> (r: Result<String, SdkError>)
    ensures
        str_result_view(r) == spec_extract_str(*v),
{
    match v {
        PyValue::Str(s) => Ok(s.clone()),
        _ => Err(make_cast_error(v, "str")),
    }
}

/// The text of `v` when it is a `str`.
pub open spec fn str_of(v: PyValue) -> Option<Seq<char>> {
    match v {
        PyValue::Str(s) => Some(s@),
        _ => None,
    }
}

/// The value of `v` when it is a `bool`.
pub open spec fn bool_of(v: PyValue) -> Option<bool> {
    match v {
        PyValue::Bool(b) => Some(b),
        _ => None,
    }
}

/// The result of extracting a `bool`.
pub open spec fn spec_extract_bool(v: PyValue) -> Result<bool, ErrorView> {
    match v {
        PyValue::Bool(b) => Ok(b),
        _ => Err(cast_error(v, "bool"@)),
    }
}

/// The mathematical form of a bool-or-error result.
pub open spec fn bool_result_view(r: Result<bool, SdkError>) -> Result<bool, ErrorView> {
    match r {
        Ok(b) => Ok(b),
        Err(e) => Err(e@),
    }
}

/// Extracts a `bool` as Rust does with `extract::<bool>()`.
pub fn extract_bool(v: &PyValue) -> (r: Result<bool, SdkError>)
    ensures
        bool_result_view(r) == spec_extract_bool(*v),
{
    match v {
        PyValue::Bool(b) => Ok(*b),
        _ => Err(make_cast_error(v, "bool")),
    }
}

/// The integer a Python value stands for when it is an `int` (a `bool`
/// counts as 0 or 1).
pub open spec fn int_of(v: PyValue) -> Option<int> {
    match v {
        PyValue::Int(n) => Some(n as int),
        PyValue::Bool(b) => Some(if b { 1int } else { 0int }),
        _ => None,
    }
}

/// The `TypeError` raised when `v` is used as an integer and is not one.
pub open spec fn not_an_integer(v: PyValue) -> ErrorView {
    err_view(PyErrorKind::TypeError, "'"@ + py_type_of(v) + "' object cannot be interpreted as an integer"@)
}

/// The result of extracting an unsigned machine-size integer.
pub open spec fn spec_extract_usize(v: PyValue) -> Result<usize, ErrorView> {
    match v {
        PyValue::BigInt { negative, .. } => if negative {
            Err(err_view(PyErrorKind::OverflowError, "can't convert negative int to unsigned"@))
        } else {
            Err(err_view(PyErrorKind::OverflowError, "int too big to convert"@))
        },
        _ => match int_of(v) {
            Some(n) => if n < 0 {
                Err(err_view(PyErrorKind::OverflowError, "can't convert negative int to unsigned"@))
            } else if n > usize::MAX {
                Err(err_view(PyErrorKind::OverflowError, "int too big to convert"@))
            } else {
                Ok(n as usize)
            },
            None => Err(not_an_integer(v)),
        },
    }
}

/// The mathematical form of a usize-or-error result.
pub open spec fn usize_result_view(r: Result<usize, SdkError>) -> Result<usize, ErrorView> {
    match r {
        Ok(n) => Ok(n),
        Err(e) => Err(e@),
    }
}

fn not_an_integer_error(v: &PyValue) -> (e: SdkError)
    ensures
        e@ == not_an_integer(*v),
{
    let tn = py_type_name(v);
    SdkError::type_error(concat3("'", tn.as_str(), "' object cannot be interpreted as an integer"))
}

/// Extracts an unsigned machine-size integer (`extract::<usize>()`).
pub fn extract_usize(v: &PyValue) -> (r: Result<usize, SdkError>)
    ensures
        usize_result_view(r) == spec_extract_usize(*v),
{
    let n: i128 = match v {
        PyValue::BigInt { negative, .. } => {
            return if *negative {
                Err(SdkError::new(PyErrorKind::OverflowError, string_from("can't convert negative int to unsigned")))
            } else {
                Err(SdkError::new(PyErrorKind::OverflowError, string_from("int too big to convert")))
            };
        },
        PyValue::Int(n) => *n,
        PyValue::Bool(b) => if *b { 1 } else { 0 },
        _ => return Err(not_an_integer_error(v)),
    };
    if n < 0 {
        Err(SdkError::new(PyErrorKind::OverflowError, string_from("can't convert negative int to unsigned")))
    } else if n > usize::MAX as i128 {
        Err(SdkError::new(PyErrorKind::OverflowError, string_from("int too big to convert")))
    } else {
        Ok(n as usize)
    }
}

/// The result of extracting a signed 64-bit integer.
pub open spec fn spec_extract_i64(v: PyValue) -> Result<i64, ErrorView> {
    match v {
        PyValue::BigInt { .. } => Err(
            err_view(PyErrorKind::OverflowError, "Python int too large to convert to C long"@),
        ),
        _ => match int_of(v) {
            Some(n) => if n < i64::MIN || n > i64::MAX {
                Err(err_view(PyErrorKind::OverflowError, "Python int too large to convert to C long"@))
            } else {
                Ok(n as i64)
            },
            None => Err(not_an_integer(v)),
        },
    }
}

/// The mathematical form of an i64-or-error result.
pub open spec fn i64_result_view(r: Result<i64, SdkError>) -> Result<i64, ErrorView> {
    match r {
        Ok(n) => Ok(n),
        Err(e) => Err(e@),
    }
}

/// Extracts a signed 64-bit integer (`extract::<i64>()`).
pub fn extract_i64(v: &PyValue) -> (r: Result<i64, SdkError>)
    ensures
        i64_result_view(r) == spec_extract_i64(*v),
{
    let n: i128 = match v {
        PyValue::BigInt { .. } => {
            return Err(SdkError::new(PyErrorKind::OverflowError, string_from("Python int too large to convert to C long")));
        },
        PyValue::Int(n) => *n,
        PyValue::Bool(b) => if *b { 1 } else { 0 },
        _ => return Err(not_an_integer_error(v)),
    };
    if n < i64::MIN as i128 || n > i64::MAX as i128 {
        Err(SdkError::new(PyErrorKind::OverflowError, string_from("Python int too large to convert to C long")))
    } else {
        Ok(n as i64)
    }
}

/// A `str` value holding `s`.
pub fn str_value(s: &str) -> (r: PyValue)
    ensures
        r@ == PyData::Str(s@),
        r == PyValue::Str(r->Str_0),
{
    PyValue::Str(string_from(s))
}

/// An `int` value holding `n`.
pub fn usize_value(n: usize) -> (r: PyValue)
    ensures
        r@ == PyData::Int(n as int),
{
    PyValue::Int(n as i128)
}

/// The mathematical form of a list of `str` values holding `v`.
pub open spec fn strings_data(v: Seq<String>) -> Seq<PyData> {
    v.map_values(|s: String| PyData::Str(s@))
}

/// Appends a value to a list, keeping track of the list's mathematical form.
pub fn push_value(items: &mut Vec<PyValue>, v: PyValue)
    ensures
        final(items)@ == old(items)@.push(v),
        values_data(final(items)@) == values_data(old(items)@).push(v@),
{
    let ghost prev = items@;
    items.push(v);
    assert(items@.drop_last() =~= prev);
}

/// A list of `str` values holding the strings of `v`.
pub fn str_list_value(v: &Vec<String>) -> (r: PyValue)
    ensures
        r@ == PyData::List(strings_data(v@)),
{
    let mut items: Vec<PyValue> = Vec::new();
    let mut i: usize = 0;
    assert(values_data(items@) =~= strings_data(v@.take(0)));
    while i < v.len()
        invariant
            i <= v.len(),
            values_data(items@) == strings_data(v@.take(i as int)),
        decreases v.len() - i,
    {
        push_value(&mut items, PyValue::Str(v[i].clone()));
        i += 1;
        assert(strings_data(v@.take(i as int)) =~= strings_data(v@.take(i - 1)).push(
            PyData::Str(v@[i - 1]@),
        ));
    }
    assert(v@.take(v.len() as int) =~= v@);
    PyValue::List(items)
}

/// Appends an entry to a dict, keeping track of the dict's mathematical form.
pub fn push_entry(entries: &mut Vec<(String, PyValue)>, key: &str, v: PyValue)
    ensures
        entries_data(final(entries)@) == entries_data(old(entries)@).push((key@, v@)),
        final(entries)@.len() == old(entries)@.len() + 1,
        final(entries)@.drop_last() == old(entries)@,
        final(entries)@.last().0@ == key@,
        final(entries)@.last().1 == v,
{
    let ghost prev = entries@;
    entries.push((string_from(key), v));
    assert(entries@.drop_last() =~= prev);
}

/// Takes the value stored under `key` out of a dict's entries.
pub fn dict_take(entries: Vec<(String, PyValue)>, key: &str) -> (r: Option<PyValue>)
    ensures
        r == dict_lookup(entries@, key@),
{
    let mut entries = entries;
    match dict_find(&entries, key) {
        Some(i) => {
            let (_k, v) = entries.remove(i);
            Some(v)
        },
        None => None,
    }
}

/// Takes the values stored under `k1` and `k2` out of a dict's entries.
pub fn dict_take2(entries: Vec<(String, PyValue)>, k1: &str, k2: &str) -> (r: (
    Option<PyValue>,
    Option<PyValue>,
))
    requires
        k1@ != k2@,
    ensures
        r.0 == dict_lookup(entries@, k1@),
        r.1 == dict_lookup(entries@, k2@),
{
    let mut entries = entries;
    let ghost before = entries@;
    let i1 = dict_find(&entries, k1);
    let i2 = dict_find(&entries, k2);
    match (i1, i2) {
        (Some(a), Some(b)) => {
            proof {
                lemma_key_index_from_bounds(before, k1@, 0);
                lemma_key_index_from_bounds(before, k2@, 0);
            }
            if a < b {
                let (_kb, vb) = entries.remove(b);
                let (_ka, va) = entries.remove(a);
                (Some(va), Some(vb))
            } else {
                let (_ka, va) = entries.remove(a);
                let (_kb, vb) = entries.remove(b);
                (Some(va), Some(vb))
            }
        },
        (Some(a), None) => {
            let (_ka, va) = entries.remove(a);
            (Some(va), None)
        },
        (None, Some(b)) => {
            let (_kb, vb) = entries.remove(b);
            (None, Some(vb))
        },
        (None, None) => (None, None),
    }
}

/// The texts of a list of strings.
pub open spec fn strings_view(v: Seq<String>) -> Seq<Seq<char>> {
    v.map_values(|s: String| s@)
}

/// Whether every value of `items` is a `str`.
pub open spec fn all_strs(items: Seq<PyValue>) -> bool {
    forall|i: int| 0 <= i < items.len() ==> (#[trigger] items[i]) is Str
}

/// The texts of a sequence of `str` values.
pub open spec fn strs_text(items: Seq<PyValue>) -> Seq<Seq<char>> {
    items.map_values(|v: PyValue| match v {
        PyValue::Str(s) => s@,
        _ => Seq::empty(),
    })
}

/// The value a dict's entries hold under `key`, as Python reads it: the
/// first entry with that key (`None` when there is none).
pub open spec fn entries_field(es: Seq<(Seq<char>, PyData)>, key: Seq<char>) -> Option<PyData>
    decreases es.len(),
{
    if es.len() == 0 {
        None
    } else if es[0].0 == key {
        Some(es[0].1)
    } else {
        entries_field(es.drop_first(), key)
    }
}

/// The value a dict holds under `key`; `None` for a missing key or a value
/// that is not a dict.
pub open spec fn data_field(d: PyData, key: Seq<char>) -> Option<PyData> {
    match d {
        PyData::Dict(es) => entries_field(es, key),
        _ => None,
    }
}

/// An entry whose key no earlier entry has is what a lookup of that key
/// finds.
pub proof fn lemma_entries_field_at(es: Seq<(Seq<char>, PyData)>, key: Seq<char>, i: int)
    requires
        0 <= i < es.len(),
        es[i].0 == key,
        forall|j: int| 0 <= j < i ==> #[trigger] es[j].0 != key,
    ensures
        entries_field(es, key) == Some(es[i].1),
    decreases i,
{
    if i > 0 {
        let rest = es.drop_first();
        assert(es[0].0 != key);
        assert forall|j: int| 0 <= j < i - 1 implies #[trigger] rest[j].0 != key by {
            assert(rest[j] == es[j + 1]);
        }
        lemma_entries_field_at(rest, key, i - 1);
    }
}

} // verus!
