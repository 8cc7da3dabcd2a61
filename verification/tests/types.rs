//! The type grammar: value types, function types, limits, globals.

use wasm::types::{
    FuncType, GlobalType, Limit, MemType, Mutability, NumType, RefType, TableType, ValueType,
};
use wasm::values::{DecodeError, ErrorKind, Parse};

#[test]
fn num_types_descending_tags() {
    assert_eq!(NumType::parse(&[0x7F], 0).unwrap(), (NumType::I32, 1));
    assert_eq!(NumType::parse(&[0x7E], 0).unwrap(), (NumType::I64, 1));
    assert_eq!(NumType::parse(&[0x7D], 0).unwrap(), (NumType::F32, 1));
    assert_eq!(NumType::parse(&[0x7C], 0).unwrap(), (NumType::F64, 1));
}

#[test]
fn ref_types() {
    assert_eq!(RefType::parse(&[0x70], 0).unwrap(), (RefType::FuncRef, 1));
    assert_eq!(RefType::parse(&[0x6F], 0).unwrap(), (RefType::ExternRef, 1));
}

#[test]
fn value_type_tries_num_then_ref() {
    assert_eq!(
        ValueType::parse(&[0x7F], 0).unwrap(),
        (ValueType::NumType(NumType::I32), 1)
    );
    assert_eq!(
        ValueType::parse(&[0x6F], 0).unwrap(),
        (ValueType::RefType(RefType::ExternRef), 1)
    );
    // Neither alternative accepts the byte: the last one's failure is
    // reported, with the cursor never advanced by the failed attempts.
    let e = ValueType::parse(&[0x6E], 0).unwrap_err();
    assert_eq!(e, DecodeError { kind: ErrorKind::UnexpectedByte, offset: 0 });
}

#[test]
fn func_type_params_and_results() {
    let (ft, end) = FuncType::parse(&[0x60, 0x01, 0x7F, 0x02, 0x7E, 0x70], 0).unwrap();
    assert_eq!(
        ft,
        FuncType {
            rt1: vec![ValueType::NumType(NumType::I32)],
            rt2: vec![
                ValueType::NumType(NumType::I64),
                ValueType::RefType(RefType::FuncRef),
            ],
        }
    );
    assert_eq!(end, 6);
    let e = FuncType::parse(&[0x61, 0x00, 0x00], 0).unwrap_err();
    assert_eq!(e, DecodeError { kind: ErrorKind::UnexpectedByte, offset: 0 });
}

#[test]
fn limits_with_and_without_max() {
    assert_eq!(
        Limit::parse(&[0x00, 0x05], 0).unwrap(),
        (Limit { min: 5, max: None }, 2)
    );
    assert_eq!(
        Limit::parse(&[0x01, 0x03, 0x07], 0).unwrap(),
        (Limit { min: 3, max: Some(7) }, 3)
    );
    let e = Limit::parse(&[0x02], 0).unwrap_err();
    assert_eq!(e, DecodeError { kind: ErrorKind::UnexpectedByte, offset: 0 });
}

#[test]
fn table_and_memory_types() {
    assert_eq!(
        TableType::parse(&[0x70, 0x00, 0x01], 0).unwrap(),
        (TableType { et: RefType::FuncRef, lim: Limit { min: 1, max: None } }, 3)
    );
    assert_eq!(
        MemType::parse(&[0x01, 0x01, 0x02], 0).unwrap(),
        (MemType { lim: Limit { min: 1, max: Some(2) } }, 3)
    );
}

#[test]
fn global_type_and_mutability() {
    assert_eq!(
        GlobalType::parse(&[0x7F, 0x00], 0).unwrap(),
        (GlobalType { t: ValueType::NumType(NumType::I32), m: Mutability::Const }, 2)
    );
    assert_eq!(
        GlobalType::parse(&[0x7E, 0x01], 0).unwrap(),
        (GlobalType { t: ValueType::NumType(NumType::I64), m: Mutability::Var }, 2)
    );
    let e = GlobalType::parse(&[0x7F, 0x02], 0).unwrap_err();
    assert_eq!(e, DecodeError { kind: ErrorKind::UnexpectedByte, offset: 1 });
}

#[test]
fn truncated_on_empty_input() {
    assert_eq!(
        ValueType::parse(&[], 0).unwrap_err(),
        DecodeError { kind: ErrorKind::Truncated, offset: 0 }
    );
    assert_eq!(
        FuncType::parse(&[], 0).unwrap_err(),
        DecodeError { kind: ErrorKind::Truncated, offset: 0 }
    );
    assert_eq!(
        Limit::parse(&[], 0).unwrap_err(),
        DecodeError { kind: ErrorKind::Truncated, offset: 0 }
    );
    assert_eq!(
        Mutability::parse(&[], 0).unwrap_err(),
        DecodeError { kind: ErrorKind::Truncated, offset: 0 }
    );
}
