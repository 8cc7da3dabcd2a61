//! Parametric instructions: opcodes `0x1A..=0x1C`.

use vstd::prelude::*;

use crate::types::ValueType;
use crate::values::{DecodeError, ErrorKind, Parse};

verus! {

/// A stack drop, an untyped select, or a select annotated with its types.
#[derive(Debug, Clone, PartialEq, Eq)]
pub enum ParametricInstruction {
    Drop,
    Select,
    SelectTyped(Vec<ValueType>),
}

/// The mathematical model of a [`ParametricInstruction`].
pub enum ParametricInstructionV {
    Drop,
    Select,
    SelectTyped(Seq<ValueType>),
}

impl DeepView for ParametricInstruction {
    type V = ParametricInstructionV;

    open spec fn deep_view(&self) -> ParametricInstructionV {
        match self {
            ParametricInstruction::Drop => ParametricInstructionV::Drop,
            ParametricInstruction::Select => ParametricInstructionV::Select,
            ParametricInstruction::SelectTyped(ts) => ParametricInstructionV::SelectTyped(
                ts.deep_view(),
            ),
        }
    }
}

/// Decodes a parametric instruction whose opcode byte stands at `pos`.
pub open spec fn spec_parametric(s: Seq<u8>, pos: int) -> Result<
    (ParametricInstructionV, int),
    (ErrorKind, int),
> {
    if pos < 0 || pos >= s.len() {
        Err((ErrorKind::Truncated, pos))
    } else {
        let b = s[pos];
        if b == 0x1A {
            Ok((ParametricInstructionV::Drop, pos + 1))
        } else if b == 0x1B {
            Ok((ParametricInstructionV::Select, pos + 1))
        } else if b == 0x1C {
            match <Vec<ValueType> as Parse>::spec_parse(s, pos + 1) {
                Ok((ts, end)) => Ok((ParametricInstructionV::SelectTyped(ts), end)),
                Err(e) => Err(e),
            }
        } else {
            Err((ErrorKind::UnrecognizedOpcode, pos))
        }
    }
}

/// Executable counterpart of [`spec_parametric`].
pub fn parse_parametric(s: &[u8], pos: usize) -> (r: Result<
    (ParametricInstruction, usize),
    DecodeError,
>)
    ensures
        ({
            let sp = spec_parametric(s@, pos as int);
            match (r, sp) {
                (Ok((v, end)), Ok((sv, send))) => v.deep_view() == sv && end as int == send && pos
                    < end <= s@.len(),
                (Err(e), Err((k, off))) => e.kind == k && e.offset as int == off,
                _ => false,
            }
        }),
{
    if pos >= s.len() {
        return Err(DecodeError { kind: ErrorKind::Truncated, offset: pos });
    }
    let b = s[pos];
    if b == 0x1A {
        Ok((ParametricInstruction::Drop, pos + 1))
    } else if b == 0x1B {
        Ok((ParametricInstruction::Select, pos + 1))
    } else if b == 0x1C {
        match <Vec<ValueType>>::parse(s, pos + 1) {
            Ok((ts, end)) => Ok((ParametricInstruction::SelectTyped(ts), end)),
            Err(e) => Err(e),
        }
    } else {
        Err(DecodeError { kind: ErrorKind::UnrecognizedOpcode, offset: pos })
    }
}

} // verus!
