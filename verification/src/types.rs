//! The type grammar: value types, function types, limits, table, memory
//! and global types.

use vstd::prelude::*;

use crate::values::{DecodeError, ErrorKind, Parse};

verus! {

/// A numeric value type, one byte from the descending range `0x7C..=0x7F`.
#[derive(Debug, Clone, Copy, PartialEq, Eq)]
pub enum NumType {
    I32,
    I64,
    F32,
    F64,
}

impl DeepView for NumType {
    type V = NumType;

    open spec fn deep_view(&self) -> NumType {
        *self
    }
}

/// Which `NumType` a tag byte denotes, if any.
pub open spec fn spec_num_type_of(b: u8) -> Option<NumType> {
    match b {
        0x7F => Some(NumType::I32),
        0x7E => Some(NumType::I64),
        0x7D => Some(NumType::F32),
        0x7C => Some(NumType::F64),
        _ => None,
    }
}

impl Parse for NumType {
    open spec fn spec_parse(s: Seq<u8>, pos: int) -> Result<(NumType, int), (ErrorKind, int)> {
        if pos < 0 || pos >= s.len() {
            Err((ErrorKind::Truncated, pos))
        } else {
            match spec_num_type_of(s[pos]) {
                Some(t) => Ok((t, pos + 1)),
                None => Err((ErrorKind::UnexpectedByte, pos)),
            }
        }
    }

    fn parse(s: &[u8], pos: usize) -> (r: Result<(NumType, usize), DecodeError>) {
        proof {
            // Names the spec decode, so that its definition is available
            // to the postcondition proof.
            let _sp = Self::spec_parse(s@, pos as int);
        }
        if pos >= s.len() {
            return Err(DecodeError { kind: ErrorKind::Truncated, offset: pos });
        }
        let b = s[pos];
        if b == 0x7F {
            Ok((NumType::I32, pos + 1))
        } else if b == 0x7E {
            Ok((NumType::I64, pos + 1))
        } else if b == 0x7D {
            Ok((NumType::F32, pos + 1))
        } else if b == 0x7C {
            Ok((NumType::F64, pos + 1))
        } else {
            Err(DecodeError { kind: ErrorKind::UnexpectedByte, offset: pos })
        }
    }
}

/// A reference type, one byte from `{0x70, 0x6F}`.
#[derive(Debug, Clone, Copy, PartialEq, Eq)]
pub enum RefType {
    FuncRef,
    ExternRef,
}

impl DeepView for RefType {
    type V = RefType;

    open spec fn deep_view(&self) -> RefType {
        *self
    }
}

/// Which `RefType` a tag byte denotes, if any.
pub open spec fn spec_ref_type_of(b: u8) -> Option<RefType> {
    match b {
        0x70 => Some(RefType::FuncRef),
        0x6F => Some(RefType::ExternRef),
        _ => None,
    }
}

impl Parse for RefType {
    open spec fn spec_parse(s: Seq<u8>, pos: int) -> Result<(RefType, int), (ErrorKind, int)> {
        if pos < 0 || pos >= s.len() {
            Err((ErrorKind::Truncated, pos))
        } else {
            match spec_ref_type_of(s[pos]) {
                Some(t) => Ok((t, pos + 1)),
                None => Err((ErrorKind::UnexpectedByte, pos)),
            }
        }
    }

    fn parse(s: &[u8], pos: usize) -> (r: Result<(RefType, usize), DecodeError>) {
        proof {
            // Names the spec decode, so that its definition is available
            // to the postcondition proof.
            let _sp = Self::spec_parse(s@, pos as int);
        }
        if pos >= s.len() {
            return Err(DecodeError { kind: ErrorKind::Truncated, offset: pos });
        }
        let b = s[pos];
        if b == 0x70 {
            Ok((RefType::FuncRef, pos + 1))
        } else if b == 0x6F {
            Ok((RefType::ExternRef, pos + 1))
        } else {
            Err(DecodeError { kind: ErrorKind::UnexpectedByte, offset: pos })
        }
    }
}

/// A value type: a numeric type or a reference type. The two tag ranges are
/// disjoint, so the ordered trial of the alternatives never backtracks past
/// a consumed byte.
#[derive(Debug, Clone, Copy, PartialEq, Eq)]
pub enum ValueType {
    NumType(NumType),
    RefType(RefType),
}

impl DeepView for ValueType {
    type V = ValueType;

    open spec fn deep_view(&self) -> ValueType {
        *self
    }
}

/// Which `ValueType` a tag byte denotes, if any: numeric types first, then
/// reference types, as ordered alternatives.
pub open spec fn spec_value_type_of(b: u8) -> Option<ValueType> {
    match spec_num_type_of(b) {
        Some(t) => Some(ValueType::NumType(t)),
        None => match spec_ref_type_of(b) {
            Some(t) => Some(ValueType::RefType(t)),
            None => None,
        },
    }
}

impl Parse for ValueType {
    /// Tries `NumType`, then `RefType`; if neither accepts the byte, the
    /// reported failure is the last alternative's `UnexpectedByte`.
    open spec fn spec_parse(s: Seq<u8>, pos: int) -> Result<(ValueType, int), (ErrorKind, int)> {
        if pos < 0 || pos >= s.len() {
            Err((ErrorKind::Truncated, pos))
        } else {
            match spec_value_type_of(s[pos]) {
                Some(t) => Ok((t, pos + 1)),
                None => Err((ErrorKind::UnexpectedByte, pos)),
            }
        }
    }

    fn parse(s: &[u8], pos: usize) -> (r: Result<(ValueType, usize), DecodeError>) {
        match NumType::parse(s, pos) {
            Ok((t, end)) => Ok((ValueType::NumType(t), end)),
            Err(_) => match RefType::parse(s, pos) {
                Ok((t, end)) => Ok((ValueType::RefType(t), end)),
                Err(e) => Err(e),
            },
        }
    }
}

/// A function type: a `0x60` lead byte, then the parameter types and the
/// result types, each a length-prefixed sequence of value types.
#[derive(Debug, Clone, PartialEq, Eq)]
pub struct FuncType {
    pub rt1: Vec<ValueType>,
    pub rt2: Vec<ValueType>,
}

/// The mathematical model of a [`FuncType`].
pub struct FuncTypeV {
    pub rt1: Seq<ValueType>,
    pub rt2: Seq<ValueType>,
}

impl DeepView for FuncType {
    type V = FuncTypeV;

    open spec fn deep_view(&self) -> FuncTypeV {
        FuncTypeV { rt1: self.rt1.deep_view(), rt2: self.rt2.deep_view() }
    }
}

impl Parse for FuncType {
    open spec fn spec_parse(s: Seq<u8>, pos: int) -> Result<(FuncTypeV, int), (ErrorKind, int)> {
        if pos < 0 || pos >= s.len() {
            Err((ErrorKind::Truncated, pos))
        } else if s[pos] != 0x60 {
            Err((ErrorKind::UnexpectedByte, pos))
        } else {
            match <Vec<ValueType> as Parse>::spec_parse(s, pos + 1) {
                Ok((rt1, mid)) => match <Vec<ValueType> as Parse>::spec_parse(s, mid) {
                    Ok((rt2, end)) => Ok((FuncTypeV { rt1, rt2 }, end)),
                    Err(e) => Err(e),
                },
                Err(e) => Err(e),
            }
        }
    }

    fn parse(s: &[u8], pos: usize) -> (r: Result<(FuncType, usize), DecodeError>) {
        if pos >= s.len() {
            return Err(DecodeError { kind: ErrorKind::Truncated, offset: pos });
        }
        if s[pos] != 0x60 {
            return Err(DecodeError { kind: ErrorKind::UnexpectedByte, offset: pos });
        }
        match <Vec<ValueType>>::parse(s, pos + 1) {
            Ok((rt1, mid)) => match <Vec<ValueType>>::parse(s, mid) {
                Ok((rt2, end)) => Ok((FuncType { rt1, rt2 }, end)),
                Err(e) => Err(e),
            },
            Err(e) => Err(e),
        }
    }
}

/// A limit: a minimum, and an optional maximum selected by a one-byte tag.
#[derive(Debug, Clone, Copy, PartialEq, Eq)]
pub struct Limit {
    pub min: u32,
    pub max: Option<u32>,
}

impl DeepView for Limit {
    type V = Limit;

    open spec fn deep_view(&self) -> Limit {
        *self
    }
}

impl Parse for Limit {
    /// Selector `0x00`: a minimum only; `0x01`: minimum then maximum; any
    /// other selector byte is `UnexpectedByte` at its own offset.
    open spec fn spec_parse(s: Seq<u8>, pos: int) -> Result<(Limit, int), (ErrorKind, int)> {
        if pos < 0 || pos >= s.len() {
            Err((ErrorKind::Truncated, pos))
        } else if s[pos] == 0x00 {
            match <u32 as Parse>::spec_parse(s, pos + 1) {
                Ok((min, end)) => Ok((Limit { min, max: None }, end)),
                Err(e) => Err(e),
            }
        } else if s[pos] == 0x01 {
            match <u32 as Parse>::spec_parse(s, pos + 1) {
                Ok((min, mid)) => match <u32 as Parse>::spec_parse(s, mid) {
                    Ok((max, end)) => Ok((Limit { min, max: Some(max) }, end)),
                    Err(e) => Err(e),
                },
                Err(e) => Err(e),
            }
        } else {
            Err((ErrorKind::UnexpectedByte, pos))
        }
    }

    fn parse(s: &[u8], pos: usize) -> (r: Result<(Limit, usize), DecodeError>) {
        if pos >= s.len() {
            return Err(DecodeError { kind: ErrorKind::Truncated, offset: pos });
        }
        if s[pos] == 0x00 {
            match u32::parse(s, pos + 1) {
                Ok((min, end)) => Ok((Limit { min, max: None }, end)),
                Err(e) => Err(e),
            }
        } else if s[pos] == 0x01 {
            match u32::parse(s, pos + 1) {
                Ok((min, mid)) => match u32::parse(s, mid) {
                    Ok((max, end)) => Ok((Limit { min, max: Some(max) }, end)),
                    Err(e) => Err(e),
                },
                Err(e) => Err(e),
            }
        } else {
            Err(DecodeError { kind: ErrorKind::UnexpectedByte, offset: pos })
        }
    }
}

/// A memory type: its limit.
#[derive(Debug, Clone, Copy, PartialEq, Eq)]
pub struct MemType {
    pub lim: Limit,
}

impl DeepView for MemType {
    type V = MemType;

    open spec fn deep_view(&self) -> MemType {
        *self
    }
}

impl Parse for MemType {
    open spec fn spec_parse(s: Seq<u8>, pos: int) -> Result<(MemType, int), (ErrorKind, int)> {
        match <Limit as Parse>::spec_parse(s, pos) {
            Ok((lim, end)) => Ok((MemType { lim }, end)),
            Err(e) => Err(e),
        }
    }

    fn parse(s: &[u8], pos: usize) -> (r: Result<(MemType, usize), DecodeError>) {
        match Limit::parse(s, pos) {
            Ok((lim, end)) => Ok((MemType { lim }, end)),
            Err(e) => Err(e),
        }
    }
}

/// A table type: its element reference type, then its limit.
#[derive(Debug, Clone, Copy, PartialEq, Eq)]
pub struct TableType {
    pub et: RefType,
    pub lim: Limit,
}

impl DeepView for TableType {
    type V = TableType;

    open spec fn deep_view(&self) -> TableType {
        *self
    }
}

impl Parse for TableType {
    open spec fn spec_parse(s: Seq<u8>, pos: int) -> Result<(TableType, int), (ErrorKind, int)> {
        match <RefType as Parse>::spec_parse(s, pos) {
            Ok((et, mid)) => match <Limit as Parse>::spec_parse(s, mid) {
                Ok((lim, end)) => Ok((TableType { et, lim }, end)),
                Err(e) => Err(e),
            },
            Err(e) => Err(e),
        }
    }

    fn parse(s: &[u8], pos: usize) -> (r: Result<(TableType, usize), DecodeError>) {
        match RefType::parse(s, pos) {
            Ok((et, mid)) => match Limit::parse(s, mid) {
                Ok((lim, end)) => Ok((TableType { et, lim }, end)),
                Err(e) => Err(e),
            },
            Err(e) => Err(e),
        }
    }
}

/// Whether a global may be assigned after instantiation.
#[derive(Debug, Clone, Copy, PartialEq, Eq)]
pub enum Mutability {
    Const,
    Var,
}

impl DeepView for Mutability {
    type V = Mutability;

    open spec fn deep_view(&self) -> Mutability {
        *self
    }
}

impl Parse for Mutability {
    /// A one-byte tag: `0x00` is `Const`, `0x01` is `Var`.
    open spec fn spec_parse(s: Seq<u8>, pos: int) -> Result<(Mutability, int), (ErrorKind, int)> {
        if pos < 0 || pos >= s.len() {
            Err((ErrorKind::Truncated, pos))
        } else if s[pos] == 0x00 {
            Ok((Mutability::Const, pos + 1))
        } else if s[pos] == 0x01 {
            Ok((Mutability::Var, pos + 1))
        } else {
            Err((ErrorKind::UnexpectedByte, pos))
        }
    }

    fn parse(s: &[u8], pos: usize) -> (r: Result<(Mutability, usize), DecodeError>) {
        if pos >= s.len() {
            return Err(DecodeError { kind: ErrorKind::Truncated, offset: pos });
        }
        match s[pos] {
            0x00 => Ok((Mutability::Const, pos + 1)),
            0x01 => Ok((Mutability::Var, pos + 1)),
            _ => Err(DecodeError { kind: ErrorKind::UnexpectedByte, offset: pos }),
        }
    }
}

/// A global's type: its value type, then its mutability.
#[derive(Debug, Clone, Copy, PartialEq, Eq)]
pub struct GlobalType {
    pub t: ValueType,
    pub m: Mutability,
}

impl DeepView for GlobalType {
    type V = GlobalType;

    open spec fn deep_view(&self) -> GlobalType {
        *self
    }
}

impl Parse for GlobalType {
    open spec fn spec_parse(s: Seq<u8>, pos: int) -> Result<(GlobalType, int), (ErrorKind, int)> {
        match <ValueType as Parse>::spec_parse(s, pos) {
            Ok((t, mid)) => match <Mutability as Parse>::spec_parse(s, mid) {
                Ok((m, end)) => Ok((GlobalType { t, m }, end)),
                Err(e) => Err(e),
            },
            Err(e) => Err(e),
        }
    }

    fn parse(s: &[u8], pos: usize) -> (r: Result<(GlobalType, usize), DecodeError>) {
        match ValueType::parse(s, pos) {
            Ok((t, mid)) => match Mutability::parse(s, mid) {
                Ok((m, end)) => Ok((GlobalType { t, m }, end)),
                Err(e) => Err(e),
            },
            Err(e) => Err(e),
        }
    }
}

} // verus!
