//! Memory instructions: the load/store opcodes `0x28..=0x3E`, `Size`/`Grow`
//! with their reserved zero byte, and the extended forms under prefix
//! `0xFC` with sub-opcodes `8..=11`.

use vstd::prelude::*;

use crate::modules::indices::DataIdx;
use crate::values::{DecodeError, ErrorKind, Parse};
use crate::Suffix;

verus! {

/// The reserved byte carried by `Size`, `Grow` and the extended forms:
/// it must equal zero exactly.
type Zero = Suffix<0x00>;

/// The alignment and offset immediate carried by every load and store.
#[derive(Debug, Clone, Copy, PartialEq, Eq)]
pub struct MemArg {
    pub align: u32,
    pub offset: u32,
}

impl DeepView for MemArg {
    type V = MemArg;

    open spec fn deep_view(&self) -> MemArg {
        *self
    }
}

impl Parse for MemArg {
    open spec fn spec_parse(s: Seq<u8>, pos: int) -> Result<(MemArg, int), (ErrorKind, int)> {
        match <u32 as Parse>::spec_parse(s, pos) {
            Ok((align, mid)) => match <u32 as Parse>::spec_parse(s, mid) {
                Ok((offset, end)) => Ok((MemArg { align, offset }, end)),
                Err(e) => Err(e),
            },
            Err(e) => Err(e),
        }
    }

    fn parse(s: &[u8], pos: usize) -> (r: Result<(MemArg, usize), DecodeError>) {
        match u32::parse(s, pos) {
            Ok((align, mid)) => match u32::parse(s, mid) {
                Ok((offset, end)) => Ok((MemArg { align, offset }, end)),
                Err(e) => Err(e),
            },
            Err(e) => Err(e),
        }
    }
}

/// A memory access or one of the extended bulk-memory operations.
#[derive(Debug, Clone, Copy, PartialEq, Eq)]
pub enum MemoryInstruction {
    I32Load(MemArg),
    I64Load(MemArg),
    F32Load(MemArg),
    F64Load(MemArg),
    I32Load8S(MemArg),
    I32Load8U(MemArg),
    I32Load16S(MemArg),
    I32Load16U(MemArg),
    I64Load8S(MemArg),
    I64Load8U(MemArg),
    I64Load16S(MemArg),
    I64Load16U(MemArg),
    I64Load32S(MemArg),
    I64Load32U(MemArg),
    I32Store(MemArg),
    I64Store(MemArg),
    F32Store(MemArg),
    F64Store(MemArg),
    I32Store8(MemArg),
    I32Store16(MemArg),
    I64Store8(MemArg),
    I64Store16(MemArg),
    I64Store32(MemArg),
    Size,
    Grow,
    Init(DataIdx),
    Drop(DataIdx),
    Copy,
    Fill,
}

impl DeepView for MemoryInstruction {
    type V = MemoryInstruction;

    open spec fn deep_view(&self) -> MemoryInstruction {
        *self
    }
}

/// The sequential correspondence from a load/store opcode in `0x28..=0x3E`
/// to its variant.
pub open spec fn spec_simple(op: u8, mem_arg: MemArg) -> MemoryInstruction {
    match op {
        0x28 => MemoryInstruction::I32Load(mem_arg),
        0x29 => MemoryInstruction::I64Load(mem_arg),
        0x2A => MemoryInstruction::F32Load(mem_arg),
        0x2B => MemoryInstruction::F64Load(mem_arg),
        0x2C => MemoryInstruction::I32Load8S(mem_arg),
        0x2D => MemoryInstruction::I32Load8U(mem_arg),
        0x2E => MemoryInstruction::I32Load16S(mem_arg),
        0x2F => MemoryInstruction::I32Load16U(mem_arg),
        0x30 => MemoryInstruction::I64Load8S(mem_arg),
        0x31 => MemoryInstruction::I64Load8U(mem_arg),
        0x32 => MemoryInstruction::I64Load16S(mem_arg),
        0x33 => MemoryInstruction::I64Load16U(mem_arg),
        0x34 => MemoryInstruction::I64Load32S(mem_arg),
        0x35 => MemoryInstruction::I64Load32U(mem_arg),
        0x36 => MemoryInstruction::I32Store(mem_arg),
        0x37 => MemoryInstruction::I64Store(mem_arg),
        0x38 => MemoryInstruction::F32Store(mem_arg),
        0x39 => MemoryInstruction::F64Store(mem_arg),
        0x3A => MemoryInstruction::I32Store8(mem_arg),
        0x3B => MemoryInstruction::I32Store16(mem_arg),
        0x3C => MemoryInstruction::I64Store8(mem_arg),
        0x3D => MemoryInstruction::I64Store16(mem_arg),
        _ => MemoryInstruction::I64Store32(mem_arg),
    }
}

/// Maps a load/store opcode to its variant around the decoded immediate.
pub fn simple(op: u8, mem_arg: MemArg) -> (r: MemoryInstruction)
    requires
        0x28 <= op <= 0x3E,
    ensures
        r == spec_simple(op, mem_arg),
{
    match op {
        0x28 => MemoryInstruction::I32Load(mem_arg),
        0x29 => MemoryInstruction::I64Load(mem_arg),
        0x2A => MemoryInstruction::F32Load(mem_arg),
        0x2B => MemoryInstruction::F64Load(mem_arg),
        0x2C => MemoryInstruction::I32Load8S(mem_arg),
        0x2D => MemoryInstruction::I32Load8U(mem_arg),
        0x2E => MemoryInstruction::I32Load16S(mem_arg),
        0x2F => MemoryInstruction::I32Load16U(mem_arg),
        0x30 => MemoryInstruction::I64Load8S(mem_arg),
        0x31 => MemoryInstruction::I64Load8U(mem_arg),
        0x32 => MemoryInstruction::I64Load16S(mem_arg),
        0x33 => MemoryInstruction::I64Load16U(mem_arg),
        0x34 => MemoryInstruction::I64Load32S(mem_arg),
        0x35 => MemoryInstruction::I64Load32U(mem_arg),
        0x36 => MemoryInstruction::I32Store(mem_arg),
        0x37 => MemoryInstruction::I64Store(mem_arg),
        0x38 => MemoryInstruction::F32Store(mem_arg),
        0x39 => MemoryInstruction::F64Store(mem_arg),
        0x3A => MemoryInstruction::I32Store8(mem_arg),
        0x3B => MemoryInstruction::I32Store16(mem_arg),
        0x3C => MemoryInstruction::I64Store8(mem_arg),
        0x3D => MemoryInstruction::I64Store16(mem_arg),
        _ => MemoryInstruction::I64Store32(mem_arg),
    }
}

/// Decodes a memory instruction whose opcode byte in `0x28..=0x40` stands
/// at `pos`.
pub open spec fn spec_memory(s: Seq<u8>, pos: int) -> Result<
    (MemoryInstruction, int),
    (ErrorKind, int),
> {
    if pos < 0 || pos >= s.len() {
        Err((ErrorKind::Truncated, pos))
    } else {
        let b = s[pos];
        if 0x28 <= b <= 0x3E {
            match <MemArg as Parse>::spec_parse(s, pos + 1) {
                Ok((m, end)) => Ok((spec_simple(b, m), end)),
                Err(e) => Err(e),
            }
        } else if b == 0x3F || b == 0x40 {
            match <Zero as Parse>::spec_parse(s, pos + 1) {
                Ok((_z, end)) => Ok(
                    (
                        if b == 0x3F {
                            MemoryInstruction::Size
                        } else {
                            MemoryInstruction::Grow
                        },
                        end,
                    ),
                ),
                Err(e) => Err(e),
            }
        } else {
            Err((ErrorKind::UnrecognizedOpcode, pos))
        }
    }
}

/// Decodes the operands of an extended memory instruction. `pos` stands
/// just past the LEB128 sub-opcode `sub`; `start` is the offset of the
/// `0xFC` prefix byte, used for error reporting.
pub open spec fn spec_memory_prefixed(s: Seq<u8>, pos: int, sub: u32, start: int) -> Result<
    (MemoryInstruction, int),
    (ErrorKind, int),
> {
    if sub == 8 {
        match <DataIdx as Parse>::spec_parse(s, pos) {
            Ok((x, mid)) => match <Zero as Parse>::spec_parse(s, mid) {
                Ok((_z, end)) => Ok((MemoryInstruction::Init(x), end)),
                Err(e) => Err(e),
            },
            Err(e) => Err(e),
        }
    } else if sub == 9 {
        match <DataIdx as Parse>::spec_parse(s, pos) {
            Ok((x, end)) => Ok((MemoryInstruction::Drop(x), end)),
            Err(e) => Err(e),
        }
    } else if sub == 10 {
        match <Zero as Parse>::spec_parse(s, pos) {
            Ok((_z, mid)) => match <Zero as Parse>::spec_parse(s, mid) {
                Ok((_z2, end)) => Ok((MemoryInstruction::Copy, end)),
                Err(e) => Err(e),
            },
            Err(e) => Err(e),
        }
    } else if sub == 11 {
        match <Zero as Parse>::spec_parse(s, pos) {
            Ok((_z, end)) => Ok((MemoryInstruction::Fill, end)),
            Err(e) => Err(e),
        }
    } else {
        Err((ErrorKind::UnrecognizedOpcode, start))
    }
}

/// Executable counterpart of [`spec_memory`].
pub fn parse_memory(s: &[u8], pos: usize) -> (r: Result<(MemoryInstruction, usize), DecodeError>)
    ensures
        ({
            let sp = spec_memory(s@, pos as int);
            match (r, sp) {
                (Ok((v, end)), Ok((sv, send))) => v == sv && end as int == send && pos < end
                    <= s@.len(),
                (Err(e), Err((k, off))) => e.kind == k && e.offset as int == off,
                _ => false,
            }
        }),
{
    if pos >= s.len() {
        return Err(DecodeError { kind: ErrorKind::Truncated, offset: pos });
    }
    let b = s[pos];
    if 0x28 <= b && b <= 0x3E {
        match MemArg::parse(s, pos + 1) {
            Ok((m, end)) => Ok((simple(b, m), end)),
            Err(e) => Err(e),
        }
    } else if b == 0x3F || b == 0x40 {
        match Zero::parse(s, pos + 1) {
            Ok((_z, end)) => Ok(
                (
                    if b == 0x3F {
                        MemoryInstruction::Size
                    } else {
                        MemoryInstruction::Grow
                    },
                    end,
                ),
            ),
            Err(e) => Err(e),
        }
    } else {
        Err(DecodeError { kind: ErrorKind::UnrecognizedOpcode, offset: pos })
    }
}

/// Executable counterpart of [`spec_memory_prefixed`].
pub fn parse_memory_prefixed(s: &[u8], pos: usize, sub: u32, start: usize) -> (r: Result<
    (MemoryInstruction, usize),
    DecodeError,
>)
    requires
        pos <= s@.len(),
    ensures
        ({
            let sp = spec_memory_prefixed(s@, pos as int, sub, start as int);
            match (r, sp) {
                (Ok((v, end)), Ok((sv, send))) => v == sv && end as int == send && pos <= end
                    <= s@.len(),
                (Err(e), Err((k, off))) => e.kind == k && e.offset as int == off,
                _ => false,
            }
        }),
{
    if sub == 8 {
        match DataIdx::parse(s, pos) {
            Ok((x, mid)) => match Zero::parse(s, mid) {
                Ok((_z, end)) => Ok((MemoryInstruction::Init(x), end)),
                Err(e) => Err(e),
            },
            Err(e) => Err(e),
        }
    } else if sub == 9 {
        match DataIdx::parse(s, pos) {
            Ok((x, end)) => Ok((MemoryInstruction::Drop(x), end)),
            Err(e) => Err(e),
        }
    } else if sub == 10 {
        match Zero::parse(s, pos) {
            Ok((_z, mid)) => match Zero::parse(s, mid) {
                Ok((_z2, end)) => Ok((MemoryInstruction::Copy, end)),
                Err(e) => Err(e),
            },
            Err(e) => Err(e),
        }
    } else if sub == 11 {
        match Zero::parse(s, pos) {
            Ok((_z, end)) => Ok((MemoryInstruction::Fill, end)),
            Err(e) => Err(e),
        }
    } else {
        Err(DecodeError { kind: ErrorKind::UnrecognizedOpcode, offset: start })
    }
}

} // verus!
