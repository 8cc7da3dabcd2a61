//! Variable instructions: local and global access, opcodes `0x20..=0x24`.

use vstd::prelude::*;

use crate::modules::indices::{GlobalIdx, LocalIdx};
use crate::values::{DecodeError, ErrorKind, Parse};

verus! {

/// A local or global variable access.
#[derive(Debug, Clone, Copy, PartialEq, Eq)]
pub enum VariableInstruction {
    LocalGet(LocalIdx),
    LocalSet(LocalIdx),
    LocalTee(LocalIdx),
    GlobalGet(GlobalIdx),
    GlobalSet(GlobalIdx),
}

impl DeepView for VariableInstruction {
    type V = VariableInstruction;

    open spec fn deep_view(&self) -> VariableInstruction {
        *self
    }
}

/// Decodes a variable instruction whose opcode byte stands at `pos`.
pub open spec fn spec_variable(s: Seq<u8>, pos: int) -> Result<
    (VariableInstruction, int),
    (ErrorKind, int),
> {
    if pos < 0 || pos >= s.len() {
        Err((ErrorKind::Truncated, pos))
    } else {
        let b = s[pos];
        if b == 0x20 || b == 0x21 || b == 0x22 {
            match <LocalIdx as Parse>::spec_parse(s, pos + 1) {
                Ok((x, end)) => Ok(
                    (
                        if b == 0x20 {
                            VariableInstruction::LocalGet(x)
                        } else if b == 0x21 {
                            VariableInstruction::LocalSet(x)
                        } else {
                            VariableInstruction::LocalTee(x)
                        },
                        end,
                    ),
                ),
                Err(e) => Err(e),
            }
        } else if b == 0x23 || b == 0x24 {
            match <GlobalIdx as Parse>::spec_parse(s, pos + 1) {
                Ok((x, end)) => Ok(
                    (
                        if b == 0x23 {
                            VariableInstruction::GlobalGet(x)
                        } else {
                            VariableInstruction::GlobalSet(x)
                        },
                        end,
                    ),
                ),
                Err(e) => Err(e),
            }
        } else {
            Err((ErrorKind::UnrecognizedOpcode, pos))
        }
    }
}

/// Executable counterpart of [`spec_variable`].
pub fn parse_variable(s: &[u8], pos: usize) -> (r: Result<(VariableInstruction, usize), DecodeError>)
    ensures
        ({
            let sp = spec_variable(s@, pos as int);
            match (r, sp) {
                (Ok((v, end)), Ok((sv, send))) => v == sv && end as int == send && pos < end
                    <= s@.len(),
                (Err(e), Err((k, off))) => e.kind == k && e.offset as int == off,
                _ => false,
            }
        }),
{
    if pos >= s.len() {
        return Err(DecodeError { kind: ErrorKind::Truncated, offset: pos });
    }
    let b = s[pos];
    if b == 0x20 || b == 0x21 || b == 0x22 {
        match LocalIdx::parse(s, pos + 1) {
            Ok((x, end)) => Ok(
                (
                    if b == 0x20 {
                        VariableInstruction::LocalGet(x)
                    } else if b == 0x21 {
                        VariableInstruction::LocalSet(x)
                    } else {
                        VariableInstruction::LocalTee(x)
                    },
                    end,
                ),
            ),
            Err(e) => Err(e),
        }
    } else if b == 0x23 || b == 0x24 {
        match GlobalIdx::parse(s, pos + 1) {
            Ok((x, end)) => Ok(
                (
                    if b == 0x23 {
                        VariableInstruction::GlobalGet(x)
                    } else {
                        VariableInstruction::GlobalSet(x)
                    },
                    end,
                ),
            ),
            Err(e) => Err(e),
        }
    } else {
        Err(DecodeError { kind: ErrorKind::UnrecognizedOpcode, offset: pos })
    }
}

} // verus!
