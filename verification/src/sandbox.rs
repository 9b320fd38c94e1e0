//! The sandbox configuration read from the dict Python passes to a sandbox
//! factory.

use vstd::prelude::*;

use crate::error::{err_view, ErrorView, PyErrorKind, SdkError};
use crate::hook_outcome::is_number;
use crate::text::{chars_of, concat2, concat3, push_char, string_from};
use crate::value::{
    cast_error, strings_view, strs_text, dict_get, dict_lookup, extract_str, extract_usize, make_cast_error, py_type_name,
    py_type_of, spec_extract_str, spec_extract_usize, PyValue,
};

verus! {

/// The position of the first value of `items` that is not a `str`, from
/// position `i` on.
pub open spec fn first_non_str(items: Seq<PyValue>, i: int) -> Option<int>
    decreases items.len() - i,
{
    if i < 0 || i >= items.len() {
        None
    } else if !(items[i] is Str) {
        Some(i)
    } else {
        first_non_str(items, i + 1)
    }
}

/// The strings iterating over `v` and reading each item as a `str` gives:
/// the items of a list, tuple or set, the keys of a dict, the characters of a
/// string. The first item that is not a `str` is a `TypeError`; a value of
/// another type is not iterable (an object of a type the SDK does not know
/// counts as not iterable).
pub open spec fn spec_str_items(v: PyValue) -> Result<Seq<Seq<char>>, ErrorView> {
    match v {
        PyValue::List(items) => match first_non_str(items@, 0) {
            Some(j) => Err(cast_error(items@[j], "str"@)),
            None => Ok(strs_text(items@)),
        },
        PyValue::Tuple(items) => match first_non_str(items@, 0) {
            Some(j) => Err(cast_error(items@[j], "str"@)),
            None => Ok(strs_text(items@)),
        },
        PyValue::PySet(items) => match first_non_str(items@, 0) {
            Some(j) => Err(cast_error(items@[j], "str"@)),
            None => Ok(strs_text(items@)),
        },
        PyValue::Dict(entries) => Ok(entries@.map_values(|e: (String, PyValue)| e.0@)),
        PyValue::Str(s) => Ok(s@.map_values(|c: char| seq![c])),
        _ => Err(err_view(PyErrorKind::TypeError, "'"@ + py_type_of(v) + "' object is not iterable"@)),
    }
}

/// The mathematical form of a strings-or-error result.
pub open spec fn texts_result(r: Result<Vec<String>, SdkError>) -> Result<Seq<Seq<char>>, ErrorView> {
    match r {
        Ok(v) => Ok(strings_view(v@)),
        Err(e) => Err(e@),
    }
}

proof fn lemma_first_non_str_bounds(items: Seq<PyValue>, i: int)
    ensures
        first_non_str(items, i) matches Some(j) ==> i <= j < items.len() && !(items[j] is Str),
        (0 <= i && first_non_str(items, i) is None) ==> forall|k: int|
            i <= k < items.len() ==> (#[trigger] items[k]) is Str,
    decreases items.len() - i,
{
    if 0 <= i < items.len() && items[i] is Str {
        lemma_first_non_str_bounds(items, i + 1);
    }
}

/// Reads the values of a list, tuple or set as strings.
fn item_strings(items: &Vec<PyValue>) -> (r: Result<Vec<String>, SdkError>)
    ensures
        texts_result(r) == match first_non_str(items@, 0) {
            Some(j) => Err(cast_error(items@[j], "str"@)),
            None => Ok(strs_text(items@)),
        },
{
    let mut out: Vec<String> = Vec::new();
    let mut i: usize = 0;
    while i < items.len()
        invariant
            i <= items.len(),
            first_non_str(items@, 0) == first_non_str(items@, i as int),
            strings_view(out@) == strs_text(items@.take(i as int)),
        decreases items.len() - i,
    {
        match &items[i] {
            PyValue::Str(s) => {
                let ghost prev = out@;
                let c = s.clone();
                out.push(c);
                assert(strings_view(out@) =~= strings_view(prev).push(c@));
                assert(strs_text(items@.take(i + 1)) =~= strs_text(items@.take(i as int)).push(s@));
            },
            other => {
                return Err(make_cast_error(other, "str"));
            },
        }
        i += 1;
    }
    proof {
        lemma_first_non_str_bounds(items@, 0);
    }
    assert(items@.take(i as int) =~= items@);
    Ok(out)
}

/// The keys of a dict.
fn key_strings(entries: &Vec<(String, PyValue)>) -> (r: Vec<String>)
    ensures
        strings_view(r@) == entries@.map_values(|e: (String, PyValue)| e.0@),
{
    let mut out: Vec<String> = Vec::new();
    let mut i: usize = 0;
    while i < entries.len()
        invariant
            i <= entries.len(),
            strings_view(out@) == entries@.take(i as int).map_values(|e: (String, PyValue)| e.0@),
        decreases entries.len() - i,
    {
        let ghost prev = out@;
        let c = entries[i].0.clone();
        out.push(c);
        assert(strings_view(out@) =~= strings_view(prev).push(c@));
        assert(entries@.take(i + 1).map_values(|e: (String, PyValue)| e.0@) =~= entries@.take(
            i as int,
        ).map_values(|e: (String, PyValue)| e.0@).push(entries@[i as int].0@));
        i += 1;
    }
    assert(entries@.take(i as int) =~= entries@);
    out
}

/// The characters of a string, each as a string of its own.
fn char_strings(s: &str) -> (r: Vec<String>)
    ensures
        strings_view(r@) == s@.map_values(|c: char| seq![c]),
{
    let chars = chars_of(s);
    let mut out: Vec<String> = Vec::new();
    let mut i: usize = 0;
    while i < chars.len()
        invariant
            chars@ == s@,
            i <= chars.len(),
            strings_view(out@) == s@.take(i as int).map_values(|c: char| seq![c]),
        decreases chars.len() - i,
    {
        let ghost prev = out@;
        let mut one = String::new();
        push_char(&mut one, chars[i]);
        assert(one@ =~= seq![chars@[i as int]]);
        out.push(one);
        assert(strings_view(out@) =~= strings_view(prev).push(seq![chars@[i as int]]));
        assert(s@.take(i + 1).map_values(|c: char| seq![c]) =~= s@.take(i as int).map_values(
            |c: char| seq![c],
        ).push(seq![s@[i as int]]));
        i += 1;
    }
    assert(s@.take(i as int) =~= s@);
    out
}

/// Iterates over a value and reads each item as a string.
pub fn str_items(v: &PyValue) -> (r: Result<Vec<String>, SdkError>)
    ensures
        texts_result(r) == spec_str_items(*v),
{
    match v {
        PyValue::List(items) => item_strings(items),
        PyValue::Tuple(items) => item_strings(items),
        PyValue::PySet(items) => item_strings(items),
        PyValue::Dict(entries) => Ok(key_strings(entries)),
        PyValue::Str(s) => Ok(char_strings(s.as_str())),
        _ => {
            let tn = py_type_name(v);
            Err(SdkError::type_error(concat3("'", tn.as_str(), "' object is not iterable")))
        },
    }
}

/// The configuration a sandbox is created with. Resource limits left out
/// are not enforced; the timeout is the number of seconds as Python gave it
/// (a `float`, an `int` or a `bool`), turned into a duration by the runtime.
#[derive(Debug, PartialEq, Eq)]
pub struct SandboxSettings {
    pub fs_allowlist: Vec<String>,
    pub fs_denylist: Vec<String>,
    pub work_dir: Option<String>,
    pub max_memory_mb: Option<usize>,
    pub max_cpus: Option<usize>,
    pub max_processes: Option<usize>,
    pub max_disk_mb: Option<usize>,
    pub timeout_seconds: Option<PyValue>,
}

/// The mathematical form of [`SandboxSettings`].
pub struct SandboxView {
    pub fs_allowlist: Seq<Seq<char>>,
    pub fs_denylist: Seq<Seq<char>>,
    pub work_dir: Option<Seq<char>>,
    pub max_memory_mb: Option<usize>,
    pub max_cpus: Option<usize>,
    pub max_processes: Option<usize>,
    pub max_disk_mb: Option<usize>,
    pub timeout_seconds: Option<PyValue>,
}

/// The mathematical form of a settings-or-error result.
pub open spec fn sandbox_result_view(r: Result<SandboxSettings, SdkError>) -> Result<
    SandboxView,
    ErrorView,
> {
    match r {
        Ok(c) => Ok(
            SandboxView {
                fs_allowlist: strings_view(c.fs_allowlist@),
                fs_denylist: strings_view(c.fs_denylist@),
                work_dir: match c.work_dir {
                    Some(w) => Some(w@),
                    None => None,
                },
                max_memory_mb: c.max_memory_mb,
                max_cpus: c.max_cpus,
                max_processes: c.max_processes,
                max_disk_mb: c.max_disk_mb,
                timeout_seconds: c.timeout_seconds,
            },
        ),
        Err(e) => Err(e@),
    }
}

/// A path list entry: absent means none; otherwise the strings it holds.
pub open spec fn spec_path_list(o: Option<PyValue>) -> Result<Seq<Seq<char>>, ErrorView> {
    match o {
        None => Ok(Seq::empty()),
        Some(v) => spec_str_items(v),
    }
}

/// An optional entry: absent or `None` means none.
pub open spec fn present(o: Option<PyValue>) -> Option<PyValue> {
    match o {
        Some(PyValue::NoneValue) => None,
        other => other,
    }
}

/// An optional `str` entry.
pub open spec fn spec_opt_text(o: Option<PyValue>) -> Result<Option<Seq<char>>, ErrorView> {
    match present(o) {
        None => Ok(None),
        Some(v) => match spec_extract_str(v) {
            Ok(t) => Ok(Some(t)),
            Err(e) => Err(e),
        },
    }
}

/// An optional unsigned integer entry.
pub open spec fn spec_opt_count(o: Option<PyValue>) -> Result<Option<usize>, ErrorView> {
    match present(o) {
        None => Ok(None),
        Some(v) => match spec_extract_usize(v) {
            Ok(n) => Ok(Some(n)),
            Err(e) => Err(e),
        },
    }
}

/// An optional number of seconds: a number; the `OverflowError` Python
/// raises for an `int` too large for a `float`; or the `TypeError` it raises
/// when a value is used as a float and is not a number.
pub open spec fn spec_opt_seconds(o: Option<PyValue>) -> Result<Option<PyValue>, ErrorView> {
    match present(o) {
        None => Ok(None),
        Some(v) => if is_number(v) {
            Ok(Some(v))
        } else if v is BigInt {
            Err(err_view(PyErrorKind::OverflowError, "int too large to convert to float"@))
        } else {
            Err(err_view(PyErrorKind::TypeError, "must be real number, not "@ + py_type_of(v)))
        },
    }
}

/// The sandbox configuration a dict describes, its entries read in this
/// order: `fs_allowlist`, `fs_denylist` (any iterable of `str`), `work_dir`
/// (`str`), `max_memory_mb`, `max_cpus`, `max_processes`, `max_disk_mb`
/// (non-negative `int`), `timeout_seconds` (a number); each may be absent,
/// and all but the two lists may be `None`. The first entry that cannot be
/// read gives the error. No dict gives the empty configuration.
pub open spec fn spec_sandbox_config(config: Option<Seq<(String, PyValue)>>) -> Result<
    SandboxView,
    ErrorView,
> {
    match config {
        None => Ok(
            SandboxView {
                fs_allowlist: Seq::empty(),
                fs_denylist: Seq::empty(),
                work_dir: None,
                max_memory_mb: None,
                max_cpus: None,
                max_processes: None,
                max_disk_mb: None,
                timeout_seconds: None,
            },
        ),
        Some(e) => match spec_path_list(dict_lookup(e, "fs_allowlist"@)) {
            Err(err) => Err(err),
            Ok(allow) => match spec_path_list(dict_lookup(e, "fs_denylist"@)) {
                Err(err) => Err(err),
                Ok(deny) => match spec_opt_text(dict_lookup(e, "work_dir"@)) {
                    Err(err) => Err(err),
                    Ok(work_dir) => match spec_opt_count(dict_lookup(e, "max_memory_mb"@)) {
                        Err(err) => Err(err),
                        Ok(mem) => match spec_opt_count(dict_lookup(e, "max_cpus"@)) {
                            Err(err) => Err(err),
                            Ok(cpus) => match spec_opt_count(dict_lookup(e, "max_processes"@)) {
                                Err(err) => Err(err),
                                Ok(procs) => match spec_opt_count(dict_lookup(e, "max_disk_mb"@)) {
                                    Err(err) => Err(err),
                                    Ok(disk) => match spec_opt_seconds(
                                        dict_lookup(e, "timeout_seconds"@),
                                    ) {
                                        Err(err) => Err(err),
                                        Ok(timeout) => Ok(
                                            SandboxView {
                                                fs_allowlist: allow,
                                                fs_denylist: deny,
                                                work_dir,
                                                max_memory_mb: mem,
                                                max_cpus: cpus,
                                                max_processes: procs,
                                                max_disk_mb: disk,
                                                timeout_seconds: timeout,
                                            },
                                        ),
                                    },
                                },
                            },
                        },
                    },
                },
            },
        },
    }
}

fn read_path_list(e: &Vec<(String, PyValue)>, key: &str) -> (r: Result<Vec<String>, SdkError>)
    ensures
        texts_result(r) == spec_path_list(dict_lookup(e@, key@)),
{
    match dict_get(e, key) {
        None => {
            let v: Vec<String> = Vec::new();
            assert(strings_view(v@) =~= Seq::<Seq<char>>::empty());
            Ok(v)
        },
        Some(v) => str_items(v),
    }
}

fn read_opt_text(e: &Vec<(String, PyValue)>, key: &str) -> (r: Result<Option<String>, SdkError>)
    ensures
        match r {
            Ok(Some(t)) => spec_opt_text(dict_lookup(e@, key@)) == Ok::<Option<Seq<char>>, ErrorView>(Some(t@)),
            Ok(None) => spec_opt_text(dict_lookup(e@, key@)) == Ok::<Option<Seq<char>>, ErrorView>(None),
            Err(err) => spec_opt_text(dict_lookup(e@, key@)) == Err::<Option<Seq<char>>, ErrorView>(err@),
        },
{
    match dict_get(e, key) {
        None => Ok(None),
        Some(PyValue::NoneValue) => Ok(None),
        Some(v) => match extract_str(v) {
            Ok(t) => Ok(Some(t)),
            Err(err) => Err(err),
        },
    }
}

fn read_opt_count(e: &Vec<(String, PyValue)>, key: &str) -> (r: Result<Option<usize>, SdkError>)
    ensures
        match r {
            Ok(n) => spec_opt_count(dict_lookup(e@, key@)) == Ok::<Option<usize>, ErrorView>(n),
            Err(err) => spec_opt_count(dict_lookup(e@, key@)) == Err::<Option<usize>, ErrorView>(err@),
        },
{
    match dict_get(e, key) {
        None => Ok(None),
        Some(PyValue::NoneValue) => Ok(None),
        Some(v) => match extract_usize(v) {
            Ok(n) => Ok(Some(n)),
            Err(err) => Err(err),
        },
    }
}

fn read_opt_seconds(e: &Vec<(String, PyValue)>, key: &str) -> (r: Result<Option<PyValue>, SdkError>)
    ensures
        match r {
            Ok(t) => spec_opt_seconds(dict_lookup(e@, key@)) == Ok::<Option<PyValue>, ErrorView>(t),
            Err(err) => spec_opt_seconds(dict_lookup(e@, key@)) == Err::<Option<PyValue>, ErrorView>(err@),
        },
{
    match dict_get(e, key) {
        None => Ok(None),
        Some(PyValue::NoneValue) => Ok(None),
        Some(PyValue::Float(bits)) => Ok(Some(PyValue::Float(*bits))),
        Some(PyValue::Int(n)) => Ok(Some(PyValue::Int(*n))),
        Some(PyValue::BigInt { negative, float_overflows }) => if *float_overflows {
            Err(SdkError::new(PyErrorKind::OverflowError, string_from("int too large to convert to float")))
        } else {
            Ok(Some(PyValue::BigInt { negative: *negative, float_overflows: false }))
        },
        Some(PyValue::Bool(b)) => Ok(Some(PyValue::Bool(*b))),
        Some(v) => {
            let tn = py_type_name(v);
            Err(SdkError::type_error(concat2("must be real number, not ", tn.as_str())))
        },
    }
}

/// Reads the configuration dict of a sandbox factory (or its absence).
pub fn dict_to_sandbox_config(config: Option<&Vec<(String, PyValue)>>) -> (r: Result<
    SandboxSettings,
    SdkError,
>)
    ensures
        sandbox_result_view(r) == spec_sandbox_config(
            match config {
                Some(e) => Some(e@),
                None => None,
            },
        ),
{
    let e = match config {
        None => {
            let a: Vec<String> = Vec::new();
            let d: Vec<String> = Vec::new();
            assert(strings_view(a@) =~= Seq::<Seq<char>>::empty());
            return Ok(
                SandboxSettings {
                    fs_allowlist: a,
                    fs_denylist: d,
                    work_dir: None,
                    max_memory_mb: None,
                    max_cpus: None,
                    max_processes: None,
                    max_disk_mb: None,
                    timeout_seconds: None,
                },
            );
        },
        Some(e) => e,
    };
    let fs_allowlist = match read_path_list(e, "fs_allowlist") {
        Ok(v) => v,
        Err(err) => return Err(err),
    };
    let fs_denylist = match read_path_list(e, "fs_denylist") {
        Ok(v) => v,
        Err(err) => return Err(err),
    };
    let work_dir = match read_opt_text(e, "work_dir") {
        Ok(v) => v,
        Err(err) => return Err(err),
    };
    let max_memory_mb = match read_opt_count(e, "max_memory_mb") {
        Ok(v) => v,
        Err(err) => return Err(err),
    };
    let max_cpus = match read_opt_count(e, "max_cpus") {
        Ok(v) => v,
        Err(err) => return Err(err),
    };
    let max_processes = match read_opt_count(e, "max_processes") {
        Ok(v) => v,
        Err(err) => return Err(err),
    };
    let max_disk_mb = match read_opt_count(e, "max_disk_mb") {
        Ok(v) => v,
        Err(err) => return Err(err),
    };
    let timeout_seconds = match read_opt_seconds(e, "timeout_seconds") {
        Ok(v) => v,
        Err(err) => return Err(err),
    };
    Ok(
        SandboxSettings {
            fs_allowlist,
            fs_denylist,
            work_dir,
            max_memory_mb,
            max_cpus,
            max_processes,
            max_disk_mb,
            timeout_seconds,
        },
    )
}

/// Whether a dict entry holds a non-negative machine-size `int`.
pub open spec fn holds_count(e: Seq<(String, PyValue)>, key: Seq<char>, n: usize) -> bool {
    dict_lookup(e, key) == Some(PyValue::Int(n as i128))
}

/// A sandbox configuration keeps each limit the dict gives under the limit's
/// own name: a readable dict whose `max_memory_mb`, `max_cpus`,
/// `max_processes` or `max_disk_mb` holds `n` gives that limit as `n`, its
/// `work_dir` text is the working directory, and a limit left out is no
/// limit.
pub proof fn law_sandbox_limits_keep_their_names(e: Seq<(String, PyValue)>, n: usize, w: String)
    ensures
        spec_sandbox_config(Some(e)) matches Ok(c) ==> {
            &&& holds_count(e, "max_memory_mb"@, n) ==> c.max_memory_mb == Some(n)
            &&& holds_count(e, "max_cpus"@, n) ==> c.max_cpus == Some(n)
            &&& holds_count(e, "max_processes"@, n) ==> c.max_processes == Some(n)
            &&& holds_count(e, "max_disk_mb"@, n) ==> c.max_disk_mb == Some(n)
            &&& dict_lookup(e, "max_memory_mb"@) is None ==> c.max_memory_mb is None
            &&& dict_lookup(e, "max_cpus"@) is None ==> c.max_cpus is None
            &&& dict_lookup(e, "max_processes"@) is None ==> c.max_processes is None
            &&& dict_lookup(e, "max_disk_mb"@) is None ==> c.max_disk_mb is None
            &&& dict_lookup(e, "work_dir"@) == Some(PyValue::Str(w)) ==> c.work_dir == Some(w@)
        },
{
}

} // verus!
