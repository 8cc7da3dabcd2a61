//! Reference instructions: opcodes `0xD0..=0xD2`.

use vstd::prelude::*;

use crate::modules::indices::FuncIdx;
use crate::types::RefType;
use crate::values::{DecodeError, ErrorKind, Parse};

verus! {

/// A null reference, a null test, or a function reference.
#[derive(Debug, Clone, Copy, PartialEq, Eq)]
pub enum ReferenceInstruction {
    Null(RefType),
    IsNull,
    Func(FuncIdx),
}

impl DeepView for ReferenceInstruction {
    type V = ReferenceInstruction;

    open spec fn deep_view(&self) -> ReferenceInstruction {
        *self
    }
}

/// Decodes a reference instruction whose opcode byte stands at `pos`.
pub open spec fn spec_reference(s: Seq<u8>, pos: int) -> Result<
    (ReferenceInstruction, int),
    (ErrorKind, int),
> {
    if pos < 0 || pos >= s.len() {
        Err((ErrorKind::Truncated, pos))
    } else {
        let b = s[pos];
        if b == 0xD0 {
            match <RefType as Parse>::spec_parse(s, pos + 1) {
                Ok((t, end)) => Ok((ReferenceInstruction::Null(t), end)),
                Err(e) => Err(e),
            }
        } else if b == 0xD1 {
            Ok((ReferenceInstruction::IsNull, pos + 1))
        } else if b == 0xD2 {
            match <FuncIdx as Parse>::spec_parse(s, pos + 1) {
                Ok((x, end)) => Ok((ReferenceInstruction::Func(x), end)),
                Err(e) => Err(e),
            }
        } else {
            Err((ErrorKind::UnrecognizedOpcode, pos))
        }
    }
}

/// Executable counterpart of [`spec_reference`].
pub fn parse_reference(s: &[u8], pos: usize) -> (r: Result<
    (ReferenceInstruction, usize),
    DecodeError,
>)
    ensures
        ({
            let sp = spec_reference(s@, pos as int);
            match (r, sp) {
                (Ok((v, end)), Ok((sv, send))) => v == sv && end as int == send && pos < end
                    <= s@.len(),
                (Err(e), Err((k, off))) => e.kind == k && e.offset as int == off,
                _ => false,
            }
        }),
{
    if pos >= s.len() {
        return Err(DecodeError { kind: ErrorKind::Truncated, offset: pos });
    }
    let b = s[pos];
    if b == 0xD0 {
        match RefType::parse(s, pos + 1) {
            Ok((t, end)) => Ok((ReferenceInstruction::Null(t), end)),
            Err(e) => Err(e),
        }
    } else if b == 0xD1 {
        Ok((ReferenceInstruction::IsNull, pos + 1))
    } else if b == 0xD2 {
        match FuncIdx::parse(s, pos + 1) {
            Ok((x, end)) => Ok((ReferenceInstruction::Func(x), end)),
            Err(e) => Err(e),
        }
    } else {
        Err(DecodeError { kind: ErrorKind::UnrecognizedOpcode, offset: pos })
    }
}

} // verus!
