//! Table instructions: opcodes `0x25`, `0x26`, and the extended forms
//! under prefix `0xFC` with sub-opcodes `12..=17`.

use vstd::prelude::*;

use crate::modules::indices::{ElemIdx, TableIdx};
use crate::values::{DecodeError, ErrorKind, Parse};

verus! {

/// A table access, or one of the extended table operations.
#[derive(Debug, Clone, Copy, PartialEq, Eq)]
pub enum TableInstruction {
    TableGet(TableIdx),
    TableSet(TableIdx),
    TableInit(ElemIdx, TableIdx),
    TableDrop(ElemIdx),
    TableCopy(TableIdx, TableIdx),
    TableGrow(TableIdx),
    TableSize(TableIdx),
    TableFill(TableIdx),
}

impl DeepView for TableInstruction {
    type V = TableInstruction;

    open spec fn deep_view(&self) -> TableInstruction {
        *self
    }
}

/// Decodes a `TableGet`/`TableSet` whose opcode byte stands at `pos`.
pub open spec fn spec_table(s: Seq<u8>, pos: int) -> Result<
    (TableInstruction, int),
    (ErrorKind, int),
> {
    if pos < 0 || pos >= s.len() {
        Err((ErrorKind::Truncated, pos))
    } else {
        let b = s[pos];
        if b == 0x25 || b == 0x26 {
            match <TableIdx as Parse>::spec_parse(s, pos + 1) {
                Ok((x, end)) => Ok(
                    (
                        if b == 0x25 {
                            TableInstruction::TableGet(x)
                        } else {
                            TableInstruction::TableSet(x)
                        },
                        end,
                    ),
                ),
                Err(e) => Err(e),
            }
        } else {
            Err((ErrorKind::UnrecognizedOpcode, pos))
        }
    }
}

/// Decodes the operands of an extended table instruction. `pos` stands just
/// past the LEB128 sub-opcode `sub`; `start` is the offset of the `0xFC`
/// prefix byte, used for error reporting.
pub open spec fn spec_table_prefixed(s: Seq<u8>, pos: int, sub: u32, start: int) -> Result<
    (TableInstruction, int),
    (ErrorKind, int),
> {
    if sub == 12 {
        match <ElemIdx as Parse>::spec_parse(s, pos) {
            Ok((e, mid)) => match <TableIdx as Parse>::spec_parse(s, mid) {
                Ok((t, end)) => Ok((TableInstruction::TableInit(e, t), end)),
                Err(er) => Err(er),
            },
            Err(er) => Err(er),
        }
    } else if sub == 13 {
        match <ElemIdx as Parse>::spec_parse(s, pos) {
            Ok((e, end)) => Ok((TableInstruction::TableDrop(e), end)),
            Err(er) => Err(er),
        }
    } else if sub == 14 {
        match <TableIdx as Parse>::spec_parse(s, pos) {
            Ok((t1, mid)) => match <TableIdx as Parse>::spec_parse(s, mid) {
                Ok((t2, end)) => Ok((TableInstruction::TableCopy(t1, t2), end)),
                Err(er) => Err(er),
            },
            Err(er) => Err(er),
        }
    } else if sub == 15 || sub == 16 || sub == 17 {
        match <TableIdx as Parse>::spec_parse(s, pos) {
            Ok((t, end)) => Ok(
                (
                    if sub == 15 {
                        TableInstruction::TableGrow(t)
                    } else if sub == 16 {
                        TableInstruction::TableSize(t)
                    } else {
                        TableInstruction::TableFill(t)
                    },
                    end,
                ),
            ),
            Err(er) => Err(er),
        }
    } else {
        Err((ErrorKind::UnrecognizedOpcode, start))
    }
}

/// Executable counterpart of [`spec_table`].
pub fn parse_table(s: &[u8], pos: usize) -> (r: Result<(TableInstruction, usize), DecodeError>)
    ensures
        ({
            let sp = spec_table(s@, pos as int);
            match (r, sp) {
                (Ok((v, end)), Ok((sv, send))) => v == sv && end as int == send && pos < end
                    <= s@.len(),
                (Err(e), Err((k, off))) => e.kind == k && e.offset as int == off,
                _ => false,
            }
        }),
{
    if pos >= s.len() {
        return Err(DecodeError { kind: ErrorKind::Truncated, offset: pos });
    }
    let b = s[pos];
    if b == 0x25 || b == 0x26 {
        match TableIdx::parse(s, pos + 1) {
            Ok((x, end)) => Ok(
                (
                    if b == 0x25 {
                        TableInstruction::TableGet(x)
                    } else {
                        TableInstruction::TableSet(x)
                    },
                    end,
                ),
            ),
            Err(e) => Err(e),
        }
    } else {
        Err(DecodeError { kind: ErrorKind::UnrecognizedOpcode, offset: pos })
    }
}

/// Executable counterpart of [`spec_table_prefixed`].
pub fn parse_table_prefixed(s: &[u8], pos: usize, sub: u32, start: usize) -> (r: Result<
    (TableInstruction, usize),
    DecodeError,
>)
    requires
        pos <= s@.len(),
    ensures
        ({
            let sp = spec_table_prefixed(s@, pos as int, sub, start as int);
            match (r, sp) {
                (Ok((v, end)), Ok((sv, send))) => v == sv && end as int == send && pos <= end
                    <= s@.len(),
                (Err(e), Err((k, off))) => e.kind == k && e.offset as int == off,
                _ => false,
            }
        }),
{
    if sub == 12 {
        match ElemIdx::parse(s, pos) {
            Ok((e, mid)) => match TableIdx::parse(s, mid) {
                Ok((t, end)) => Ok((TableInstruction::TableInit(e, t), end)),
                Err(er) => Err(er),
            },
            Err(er) => Err(er),
        }
    } else if sub == 13 {
        match ElemIdx::parse(s, pos) {
            Ok((e, end)) => Ok((TableInstruction::TableDrop(e), end)),
            Err(er) => Err(er),
        }
    } else if sub == 14 {
        match TableIdx::parse(s, pos) {
            Ok((t1, mid)) => match TableIdx::parse(s, mid) {
                Ok((t2, end)) => Ok((TableInstruction::TableCopy(t1, t2), end)),
                Err(er) => Err(er),
            },
            Err(er) => Err(er),
        }
    } else if sub == 15 || sub == 16 || sub == 17 {
        match TableIdx::parse(s, pos) {
            Ok((t, end)) => Ok(
                (
                    if sub == 15 {
                        TableInstruction::TableGrow(t)
                    } else if sub == 16 {
                        TableInstruction::TableSize(t)
                    } else {
                        TableInstruction::TableFill(t)
                    },
                    end,
                ),
            ),
            Err(er) => Err(er),
        }
    } else {
        Err(DecodeError { kind: ErrorKind::UnrecognizedOpcode, offset: start })
    }
}

} // verus!
