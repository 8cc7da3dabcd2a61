//! The code section's entries: a size-prefixed function body with its
//! declared locals.

use vstd::prelude::*;

use crate::instructions::{Expression, InstructionV};
use crate::types::ValueType;
use crate::values::{DecodeError, ErrorKind, Parse};

verus! {

/// A run of locals: how many, and of which value type.
#[derive(Debug, Clone, Copy, PartialEq, Eq)]
pub struct Local {
    pub count: u32,
    pub value_type: ValueType,
}

impl DeepView for Local {
    type V = Local;

    open spec fn deep_view(&self) -> Local {
        *self
    }
}

impl Parse for Local {
    open spec fn spec_parse(s: Seq<u8>, pos: int) -> Result<(Local, int), (ErrorKind, int)> {
        match <u32 as Parse>::spec_parse(s, pos) {
            Ok((count, mid)) => match <ValueType as Parse>::spec_parse(s, mid) {
                Ok((value_type, end)) => Ok((Local { count, value_type }, end)),
                Err(e) => Err(e),
            },
            Err(e) => Err(e),
        }
    }

    fn parse(s: &[u8], pos: usize) -> (r: Result<(Local, usize), DecodeError>) {
        match u32::parse(s, pos) {
            Ok((count, mid)) => match ValueType::parse(s, mid) {
                Ok((value_type, end)) => Ok((Local { count, value_type }, end)),
                Err(e) => Err(e),
            },
            Err(e) => Err(e),
        }
    }
}

/// A function body: its declared locals, then its expression.
#[derive(Debug, PartialEq, Eq)]
pub struct Func {
    pub locals: Vec<Local>,
    pub body: Expression,
}

/// The mathematical model of a [`Func`].
pub struct FuncV {
    pub locals: Seq<Local>,
    pub body: Seq<InstructionV>,
}

impl DeepView for Func {
    type V = FuncV;

    open spec fn deep_view(&self) -> FuncV {
        FuncV { locals: self.locals.deep_view(), body: self.body.deep_view() }
    }
}

impl Parse for Func {
    open spec fn spec_parse(s: Seq<u8>, pos: int) -> Result<(FuncV, int), (ErrorKind, int)> {
        match <Vec<Local> as Parse>::spec_parse(s, pos) {
            Ok((locals, mid)) => match <Expression as Parse>::spec_parse(s, mid) {
                Ok((body, end)) => Ok((FuncV { locals, body }, end)),
                Err(e) => Err(e),
            },
            Err(e) => Err(e),
        }
    }

    fn parse(s: &[u8], pos: usize) -> (r: Result<(Func, usize), DecodeError>) {
        match <Vec<Local>>::parse(s, pos) {
            Ok((locals, mid)) => match Expression::parse(s, mid) {
                Ok((body, end)) => Ok((Func { locals, body }, end)),
                Err(e) => Err(e),
            },
            Err(e) => Err(e),
        }
    }
}

/// A code entry: its declared byte size, then the function body. The
/// declared size is stored but not enforced against the bytes the body
/// actually consumed.
#[derive(Debug, PartialEq, Eq)]
pub struct Code {
    pub size: u32,
    pub code: Func,
}

/// The mathematical model of a [`Code`].
pub struct CodeV {
    pub size: u32,
    pub code: FuncV,
}

impl DeepView for Code {
    type V = CodeV;

    open spec fn deep_view(&self) -> CodeV {
        CodeV { size: self.size, code: self.code.deep_view() }
    }
}

impl Parse for Code {
    open spec fn spec_parse(s: Seq<u8>, pos: int) -> Result<(CodeV, int), (ErrorKind, int)> {
        match <u32 as Parse>::spec_parse(s, pos) {
            Ok((size, mid)) => match <Func as Parse>::spec_parse(s, mid) {
                Ok((code, end)) => Ok((CodeV { size, code }, end)),
                Err(e) => Err(e),
            },
            Err(e) => Err(e),
        }
    }

    fn parse(s: &[u8], pos: usize) -> (r: Result<(Code, usize), DecodeError>) {
        match u32::parse(s, pos) {
            Ok((size, mid)) => match Func::parse(s, mid) {
                Ok((code, end)) => Ok((Code { size, code }, end)),
                Err(e) => Err(e),
            },
            Err(e) => Err(e),
        }
    }
}

} // verus!
