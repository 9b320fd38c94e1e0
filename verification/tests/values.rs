use senza::error::PyErrorKind;
use senza::text::{concat3, lower_chars, str_eq};
use senza::value::{
    dict_get, extract_bool, extract_i64, extract_str, extract_usize, make_cast_error,
    py_type_name, PyValue,
};

#[test]
fn type_names_and_cast_errors() {
    assert_eq!(py_type_name(&PyValue::Float(0)), "float");
    assert_eq!(py_type_name(&PyValue::Other("Decimal".into())), "Decimal");
    assert_eq!(make_cast_error(&PyValue::NoneValue, "str").message, "'None' is not an instance of 'str'");
    assert_eq!(make_cast_error(&PyValue::Bool(true), "dict").message, "'bool' object is not an instance of 'dict'");
}

#[test]
fn integer_extraction() {
    assert_eq!(extract_usize(&PyValue::Int(5)).unwrap(), 5);
    assert_eq!(extract_usize(&PyValue::Bool(true)).unwrap(), 1);
    let e = extract_usize(&PyValue::Int(-5)).unwrap_err();
    assert_eq!((e.kind, e.message.as_str()), (PyErrorKind::OverflowError, "can't convert negative int to unsigned"));
    let e = extract_usize(&PyValue::BigInt { negative: false, float_overflows: false }).unwrap_err();
    assert_eq!(e.message, "int too big to convert");
    let e = extract_usize(&PyValue::Float(0)).unwrap_err();
    assert_eq!((e.kind, e.message.as_str()), (PyErrorKind::TypeError, "'float' object cannot be interpreted as an integer"));
    assert_eq!(extract_i64(&PyValue::Int(-7)).unwrap(), -7);
    let e = extract_i64(&PyValue::Int(i64::MAX as i128 + 1)).unwrap_err();
    assert_eq!(e.message, "Python int too large to convert to C long");
}

#[test]
fn string_and_bool_extraction() {
    assert_eq!(extract_str(&PyValue::Str("x".into())).unwrap(), "x");
    assert!(extract_str(&PyValue::Int(1)).is_err());
    assert!(extract_bool(&PyValue::Bool(false)).is_ok());
    assert_eq!(extract_bool(&PyValue::Int(1)).unwrap_err().message, "'int' object is not an instance of 'bool'");
}

#[test]
fn dict_lookup_finds_first_entry() {
    let e = vec![("k".to_string(), PyValue::Int(1)), ("k".to_string(), PyValue::Int(2))];
    assert_eq!(dict_get(&e, "k"), Some(&PyValue::Int(1)));
    assert_eq!(dict_get(&e, "z"), None);
}

#[test]
fn text_helpers() {
    assert!(str_eq("abc", "abc"));
    assert!(!str_eq("abc", "abd"));
    assert_eq!(concat3("a", "b", "c"), "abc");
    assert_eq!(lower_chars("AbÇ"), vec!['a', 'b', 'Ç']);
}
