//! Numeric instructions: the four constant-carrying opcodes
//! `0x41..=0x44`, the bare arithmetic, comparison, conversion and
//! reinterpretation opcodes `0x45..=0xC2` mapped by sequential
//! correspondence, and the saturating truncations under prefix `0xFC`.
//!
//! Float constants are decoded as raw little-endian IEEE754 bit patterns
//! and never interpreted numerically: no arithmetic is evaluated at decode
//! time.

use vstd::prelude::*;

use crate::values::{DecodeError, ErrorKind, Parse, parse_u32le, parse_u64le, spec_parse_u32le, spec_parse_u64le};

verus! {

/// A numeric instruction. `F32Const` and `F64Const` carry the raw
/// little-endian IEEE754 bit pattern of their literal.
#[derive(Debug, Clone, Copy, PartialEq, Eq)]
pub enum NumericInstruction {
    I32Const(i32),
    I64Const(i64),
    F32Const(u32),
    F64Const(u64),
    I32Eqz,
    I32Eq,
    I32Ne,
    I32LtS,
    I32NeU,
    I32GtS,
    I32GtU,
    I32LeS,
    I32LeU,
    I32GeS,
    I32GeU,
    I64Eqz,
    I64Eq,
    I64Ne,
    I64LtS,
    I64NeU,
    I64GtS,
    I64GtU,
    I64LeS,
    I64LeU,
    I64GeS,
    I64GeU,
    F32Eq,
    F32Ne,
    F32Lt,
    F32Gt,
    F32Le,
    F32Ge,
    F64Eq,
    F64Ne,
    F64Lt,
    F64Gt,
    F64Le,
    F64Ge,
    I32Clz,
    I32Ctz,
    I32Popcnt,
    I32Add,
    I32Sub,
    I32Mul,
    I32DivS,
    I32DivU,
    I32RemS,
    I32RemU,
    I32And,
    I32Xor,
    I32Shl,
    I32ShrS,
    I32ShrU,
    I32Rotl,
    I32Rotr,
    I64Clz,
    I64Ctz,
    I64Popcnt,
    I64Add,
    I64Sub,
    I64Mul,
    I64DivS,
    I64DivU,
    I64RemS,
    I64RemU,
    I64And,
    I64Xor,
    I64Shl,
    I64ShrS,
    I64ShrU,
    I64Rotl,
    I64Rotr,
    F32Abs,
    F32Neg,
    F32Ceil,
    F32Floor,
    F32Trunc,
    F32Nearest,
    F32Sqrt,
    F32Add,
    F32Sub,
    F32Mul,
    F32Div,
    F32Min,
    F32Max,
    F32CopySign,
    F64Abs,
    F64Neg,
    F64Ceil,
    F64Floor,
    F64Trunc,
    F64Nearest,
    F64Sqrt,
    F64Add,
    F64Sub,
    F64Mul,
    F64Div,
    F64Min,
    F64Max,
    F64CopySign,
    I32WrapI64,
    I32TruncF32S,
    I32TruncF32U,
    I32TruncF64S,
    I32TruncF64U,
    I64ExtendI32S,
    I64ExtendI32U,
    I64TruncF32S,
    I64TruncF32U,
    I64TruncF64S,
    I64TruncF64U,
    F32ConvertI32S,
    F32ConvertI32U,
    F32ConvertI64S,
    F32ConvertI64u,
    F32DemoteF64,
    F64ConvertI32S,
    F64ConvertI32U,
    F64ConvertI64S,
    F64ConvertI64u,
    F64PromoteF32,
    I32ReinterpretF32,
    I64ReinterpretF64,
    F32ReinterpretI32,
    F64ReinterpretI64,
    I32Extend8S,
    I32Extend16S,
    I64Extend8S,
    I64Extend16S,
    I64Extend32S,
}

impl DeepView for NumericInstruction {
    type V = NumericInstruction;

    open spec fn deep_view(&self) -> NumericInstruction {
        *self
    }
}

/// The sequential correspondence from a bare numeric opcode in
/// `0x45..=0xC2` to its variant; `None` outside that range.
pub open spec fn spec_numeric_bare(op: u8) -> Option<NumericInstruction> {
    match op {
        0x45 => Some(NumericInstruction::I32Eqz),
        0x46 => Some(NumericInstruction::I32Eq),
        0x47 => Some(NumericInstruction::I32Ne),
        0x48 => Some(NumericInstruction::I32LtS),
        0x49 => Some(NumericInstruction::I32NeU),
        0x4A => Some(NumericInstruction::I32GtS),
        0x4B => Some(NumericInstruction::I32GtU),
        0x4C => Some(NumericInstruction::I32LeS),
        0x4D => Some(NumericInstruction::I32LeU),
        0x4E => Some(NumericInstruction::I32GeS),
        0x4F => Some(NumericInstruction::I32GeU),
        0x50 => Some(NumericInstruction::I64Eqz),
        0x51 => Some(NumericInstruction::I64Eq),
        0x52 => Some(NumericInstruction::I64Ne),
        0x53 => Some(NumericInstruction::I64LtS),
        0x54 => Some(NumericInstruction::I64NeU),
        0x55 => Some(NumericInstruction::I64GtS),
        0x56 => Some(NumericInstruction::I64GtU),
        0x57 => Some(NumericInstruction::I64LeS),
        0x58 => Some(NumericInstruction::I64LeU),
        0x59 => Some(NumericInstruction::I64GeS),
        0x5A => Some(NumericInstruction::I64GeU),
        0x5B => Some(NumericInstruction::F32Eq),
        0x5C => Some(NumericInstruction::F32Ne),
        0x5D => Some(NumericInstruction::F32Lt),
        0x5E => Some(NumericInstruction::F32Gt),
        0x5F => Some(NumericInstruction::F32Le),
        0x60 => Some(NumericInstruction::F32Ge),
        0x61 => Some(NumericInstruction::F64Eq),
        0x62 => Some(NumericInstruction::F64Ne),
        0x63 => Some(NumericInstruction::F64Lt),
        0x64 => Some(NumericInstruction::F64Gt),
        0x65 => Some(NumericInstruction::F64Le),
        0x66 => Some(NumericInstruction::F64Ge),
        0x67 => Some(NumericInstruction::I32Clz),
        0x68 => Some(NumericInstruction::I32Ctz),
        0x69 => Some(NumericInstruction::I32Popcnt),
        0x6A => Some(NumericInstruction::I32Add),
        0x6B => Some(NumericInstruction::I32Sub),
        0x6C => Some(NumericInstruction::I32Mul),
        0x6D => Some(NumericInstruction::I32DivS),
        0x6E => Some(NumericInstruction::I32DivU),
        0x6F => Some(NumericInstruction::I32RemS),
        0x70 => Some(NumericInstruction::I32RemU),
        0x71 => Some(NumericInstruction::I32And),
        0x72 => Some(NumericInstruction::I32Xor),
        0x73 => Some(NumericInstruction::I32Shl),
        0x74 => Some(NumericInstruction::I32ShrS),
        0x75 => Some(NumericInstruction::I32ShrU),
        0x76 => Some(NumericInstruction::I32Rotl),
        0x77 => Some(NumericInstruction::I32Rotr),
        0x78 => Some(NumericInstruction::I64Clz),
        0x79 => Some(NumericInstruction::I64Ctz),
        0x7A => Some(NumericInstruction::I64Popcnt),
        0x7B => Some(NumericInstruction::I64Add),
        0x7C => Some(NumericInstruction::I64Sub),
        0x7D => Some(NumericInstruction::I64Mul),
        0x7E => Some(NumericInstruction::I64DivS),
        0x7F => Some(NumericInstruction::I64DivU),
        0x80 => Some(NumericInstruction::I64RemS),
        0x81 => Some(NumericInstruction::I64RemU),
        0x82 => Some(NumericInstruction::I64And),
        0x83 => Some(NumericInstruction::I64Xor),
        0x84 => Some(NumericInstruction::I64Shl),
        0x85 => Some(NumericInstruction::I64ShrS),
        0x86 => Some(NumericInstruction::I64ShrU),
        0x87 => Some(NumericInstruction::I64Rotl),
        0x88 => Some(NumericInstruction::I64Rotr),
        0x89 => Some(NumericInstruction::F32Abs),
        0x8A => Some(NumericInstruction::F32Neg),
        0x8B => Some(NumericInstruction::F32Ceil),
        0x8C => Some(NumericInstruction::F32Floor),
        0x8D => Some(NumericInstruction::F32Trunc),
        0x8E => Some(NumericInstruction::F32Nearest),
        0x8F => Some(NumericInstruction::F32Sqrt),
        0x90 => Some(NumericInstruction::F32Add),
        0x91 => Some(NumericInstruction::F32Sub),
        0x92 => Some(NumericInstruction::F32Mul),
        0x93 => Some(NumericInstruction::F32Div),
        0x94 => Some(NumericInstruction::F32Min),
        0x95 => Some(NumericInstruction::F32Max),
        0x96 => Some(NumericInstruction::F32CopySign),
        0x97 => Some(NumericInstruction::F64Abs),
        0x98 => Some(NumericInstruction::F64Neg),
        0x99 => Some(NumericInstruction::F64Ceil),
        0x9A => Some(NumericInstruction::F64Floor),
        0x9B => Some(NumericInstruction::F64Trunc),
        0x9C => Some(NumericInstruction::F64Nearest),
        0x9D => Some(NumericInstruction::F64Sqrt),
        0x9E => Some(NumericInstruction::F64Add),
        0x9F => Some(NumericInstruction::F64Sub),
        0xA0 => Some(NumericInstruction::F64Mul),
        0xA1 => Some(NumericInstruction::F64Div),
        0xA2 => Some(NumericInstruction::F64Min),
        0xA3 => Some(NumericInstruction::F64Max),
        0xA4 => Some(NumericInstruction::F64CopySign),
        0xA5 => Some(NumericInstruction::I32WrapI64),
        0xA6 => Some(NumericInstruction::I32TruncF32S),
        0xA7 => Some(NumericInstruction::I32TruncF32U),
        0xA8 => Some(NumericInstruction::I32TruncF64S),
        0xA9 => Some(NumericInstruction::I32TruncF64U),
        0xAA => Some(NumericInstruction::I64ExtendI32S),
        0xAB => Some(NumericInstruction::I64ExtendI32U),
        0xAC => Some(NumericInstruction::I64TruncF32S),
        0xAD => Some(NumericInstruction::I64TruncF32U),
        0xAE => Some(NumericInstruction::I64TruncF64S),
        0xAF => Some(NumericInstruction::I64TruncF64U),
        0xB0 => Some(NumericInstruction::F32ConvertI32S),
        0xB1 => Some(NumericInstruction::F32ConvertI32U),
        0xB2 => Some(NumericInstruction::F32ConvertI64S),
        0xB3 => Some(NumericInstruction::F32ConvertI64u),
        0xB4 => Some(NumericInstruction::F32DemoteF64),
        0xB5 => Some(NumericInstruction::F64ConvertI32S),
        0xB6 => Some(NumericInstruction::F64ConvertI32U),
        0xB7 => Some(NumericInstruction::F64ConvertI64S),
        0xB8 => Some(NumericInstruction::F64ConvertI64u),
        0xB9 => Some(NumericInstruction::F64PromoteF32),
        0xBA => Some(NumericInstruction::I32ReinterpretF32),
        0xBB => Some(NumericInstruction::I64ReinterpretF64),
        0xBC => Some(NumericInstruction::F32ReinterpretI32),
        0xBD => Some(NumericInstruction::F64ReinterpretI64),
        0xBE => Some(NumericInstruction::I32Extend8S),
        0xBF => Some(NumericInstruction::I32Extend16S),
        0xC0 => Some(NumericInstruction::I64Extend8S),
        0xC1 => Some(NumericInstruction::I64Extend16S),
        0xC2 => Some(NumericInstruction::I64Extend32S),
        _ => None,
    }
}

/// Maps a bare numeric opcode to its variant.
pub fn numeric_bare(op: u8) -> (r: Option<NumericInstruction>)
    ensures
        r == spec_numeric_bare(op),
{
    match op {
        0x45 => Some(NumericInstruction::I32Eqz),
        0x46 => Some(NumericInstruction::I32Eq),
        0x47 => Some(NumericInstruction::I32Ne),
        0x48 => Some(NumericInstruction::I32LtS),
        0x49 => Some(NumericInstruction::I32NeU),
        0x4A => Some(NumericInstruction::I32GtS),
        0x4B => Some(NumericInstruction::I32GtU),
        0x4C => Some(NumericInstruction::I32LeS),
        0x4D => Some(NumericInstruction::I32LeU),
        0x4E => Some(NumericInstruction::I32GeS),
        0x4F => Some(NumericInstruction::I32GeU),
        0x50 => Some(NumericInstruction::I64Eqz),
        0x51 => Some(NumericInstruction::I64Eq),
        0x52 => Some(NumericInstruction::I64Ne),
        0x53 => Some(NumericInstruction::I64LtS),
        0x54 => Some(NumericInstruction::I64NeU),
        0x55 => Some(NumericInstruction::I64GtS),
        0x56 => Some(NumericInstruction::I64GtU),
        0x57 => Some(NumericInstruction::I64LeS),
        0x58 => Some(NumericInstruction::I64LeU),
        0x59 => Some(NumericInstruction::I64GeS),
        0x5A => Some(NumericInstruction::I64GeU),
        0x5B => Some(NumericInstruction::F32Eq),
        0x5C => Some(NumericInstruction::F32Ne),
        0x5D => Some(NumericInstruction::F32Lt),
        0x5E => Some(NumericInstruction::F32Gt),
        0x5F => Some(NumericInstruction::F32Le),
        0x60 => Some(NumericInstruction::F32Ge),
        0x61 => Some(NumericInstruction::F64Eq),
        0x62 => Some(NumericInstruction::F64Ne),
        0x63 => Some(NumericInstruction::F64Lt),
        0x64 => Some(NumericInstruction::F64Gt),
        0x65 => Some(NumericInstruction::F64Le),
        0x66 => Some(NumericInstruction::F64Ge),
        0x67 => Some(NumericInstruction::I32Clz),
        0x68 => Some(NumericInstruction::I32Ctz),
        0x69 => Some(NumericInstruction::I32Popcnt),
        0x6A => Some(NumericInstruction::I32Add),
        0x6B => Some(NumericInstruction::I32Sub),
        0x6C => Some(NumericInstruction::I32Mul),
        0x6D => Some(NumericInstruction::I32DivS),
        0x6E => Some(NumericInstruction::I32DivU),
        0x6F => Some(NumericInstruction::I32RemS),
        0x70 => Some(NumericInstruction::I32RemU),
        0x71 => Some(NumericInstruction::I32And),
        0x72 => Some(NumericInstruction::I32Xor),
        0x73 => Some(NumericInstruction::I32Shl),
        0x74 => Some(NumericInstruction::I32ShrS),
        0x75 => Some(NumericInstruction::I32ShrU),
        0x76 => Some(NumericInstruction::I32Rotl),
        0x77 => Some(NumericInstruction::I32Rotr),
        0x78 => Some(NumericInstruction::I64Clz),
        0x79 => Some(NumericInstruction::I64Ctz),
        0x7A => Some(NumericInstruction::I64Popcnt),
        0x7B => Some(NumericInstruction::I64Add),
        0x7C => Some(NumericInstruction::I64Sub),
        0x7D => Some(NumericInstruction::I64Mul),
        0x7E => Some(NumericInstruction::I64DivS),
        0x7F => Some(NumericInstruction::I64DivU),
        0x80 => Some(NumericInstruction::I64RemS),
        0x81 => Some(NumericInstruction::I64RemU),
        0x82 => Some(NumericInstruction::I64And),
        0x83 => Some(NumericInstruction::I64Xor),
        0x84 => Some(NumericInstruction::I64Shl),
        0x85 => Some(NumericInstruction::I64ShrS),
        0x86 => Some(NumericInstruction::I64ShrU),
        0x87 => Some(NumericInstruction::I64Rotl),
        0x88 => Some(NumericInstruction::I64Rotr),
        0x89 => Some(NumericInstruction::F32Abs),
        0x8A => Some(NumericInstruction::F32Neg),
        0x8B => Some(NumericInstruction::F32Ceil),
        0x8C => Some(NumericInstruction::F32Floor),
        0x8D => Some(NumericInstruction::F32Trunc),
        0x8E => Some(NumericInstruction::F32Nearest),
        0x8F => Some(NumericInstruction::F32Sqrt),
        0x90 => Some(NumericInstruction::F32Add),
        0x91 => Some(NumericInstruction::F32Sub),
        0x92 => Some(NumericInstruction::F32Mul),
        0x93 => Some(NumericInstruction::F32Div),
        0x94 => Some(NumericInstruction::F32Min),
        0x95 => Some(NumericInstruction::F32Max),
        0x96 => Some(NumericInstruction::F32CopySign),
        0x97 => Some(NumericInstruction::F64Abs),
        0x98 => Some(NumericInstruction::F64Neg),
        0x99 => Some(NumericInstruction::F64Ceil),
        0x9A => Some(NumericInstruction::F64Floor),
        0x9B => Some(NumericInstruction::F64Trunc),
        0x9C => Some(NumericInstruction::F64Nearest),
        0x9D => Some(NumericInstruction::F64Sqrt),
        0x9E => Some(NumericInstruction::F64Add),
        0x9F => Some(NumericInstruction::F64Sub),
        0xA0 => Some(NumericInstruction::F64Mul),
        0xA1 => Some(NumericInstruction::F64Div),
        0xA2 => Some(NumericInstruction::F64Min),
        0xA3 => Some(NumericInstruction::F64Max),
        0xA4 => Some(NumericInstruction::F64CopySign),
        0xA5 => Some(NumericInstruction::I32WrapI64),
        0xA6 => Some(NumericInstruction::I32TruncF32S),
        0xA7 => Some(NumericInstruction::I32TruncF32U),
        0xA8 => Some(NumericInstruction::I32TruncF64S),
        0xA9 => Some(NumericInstruction::I32TruncF64U),
        0xAA => Some(NumericInstruction::I64ExtendI32S),
        0xAB => Some(NumericInstruction::I64ExtendI32U),
        0xAC => Some(NumericInstruction::I64TruncF32S),
        0xAD => Some(NumericInstruction::I64TruncF32U),
        0xAE => Some(NumericInstruction::I64TruncF64S),
        0xAF => Some(NumericInstruction::I64TruncF64U),
        0xB0 => Some(NumericInstruction::F32ConvertI32S),
        0xB1 => Some(NumericInstruction::F32ConvertI32U),
        0xB2 => Some(NumericInstruction::F32ConvertI64S),
        0xB3 => Some(NumericInstruction::F32ConvertI64u),
        0xB4 => Some(NumericInstruction::F32DemoteF64),
        0xB5 => Some(NumericInstruction::F64ConvertI32S),
        0xB6 => Some(NumericInstruction::F64ConvertI32U),
        0xB7 => Some(NumericInstruction::F64ConvertI64S),
        0xB8 => Some(NumericInstruction::F64ConvertI64u),
        0xB9 => Some(NumericInstruction::F64PromoteF32),
        0xBA => Some(NumericInstruction::I32ReinterpretF32),
        0xBB => Some(NumericInstruction::I64ReinterpretF64),
        0xBC => Some(NumericInstruction::F32ReinterpretI32),
        0xBD => Some(NumericInstruction::F64ReinterpretI64),
        0xBE => Some(NumericInstruction::I32Extend8S),
        0xBF => Some(NumericInstruction::I32Extend16S),
        0xC0 => Some(NumericInstruction::I64Extend8S),
        0xC1 => Some(NumericInstruction::I64Extend16S),
        0xC2 => Some(NumericInstruction::I64Extend32S),
        _ => None,
    }
}

/// Decodes a numeric instruction whose opcode byte stands at `pos`.
pub open spec fn spec_numeric(s: Seq<u8>, pos: int) -> Result<
    (NumericInstruction, int),
    (ErrorKind, int),
> {
    if pos < 0 || pos >= s.len() {
        Err((ErrorKind::Truncated, pos))
    } else {
        let b = s[pos];
        if b == 0x41 {
            match <i32 as Parse>::spec_parse(s, pos + 1) {
                Ok((v, end)) => Ok((NumericInstruction::I32Const(v), end)),
                Err(e) => Err(e),
            }
        } else if b == 0x42 {
            match <i64 as Parse>::spec_parse(s, pos + 1) {
                Ok((v, end)) => Ok((NumericInstruction::I64Const(v), end)),
                Err(e) => Err(e),
            }
        } else if b == 0x43 {
            match spec_parse_u32le(s, pos + 1) {
                Ok((v, end)) => Ok((NumericInstruction::F32Const(v), end)),
                Err(e) => Err(e),
            }
        } else if b == 0x44 {
            match spec_parse_u64le(s, pos + 1) {
                Ok((v, end)) => Ok((NumericInstruction::F64Const(v), end)),
                Err(e) => Err(e),
            }
        } else {
            match spec_numeric_bare(b) {
                Some(v) => Ok((v, pos + 1)),
                None => Err((ErrorKind::UnrecognizedOpcode, pos)),
            }
        }
    }
}

/// Executable counterpart of [`spec_numeric`].
pub fn parse_numeric(s: &[u8], pos: usize) -> (r: Result<(NumericInstruction, usize), DecodeError>)
    ensures
        ({
            let sp = spec_numeric(s@, pos as int);
            match (r, sp) {
                (Ok((v, end)), Ok((sv, send))) => v == sv && end as int == send && pos < end
                    <= s@.len(),
                (Err(e), Err((k, off))) => e.kind == k && e.offset as int == off,
                _ => false,
            }
        }),
{
    if pos >= s.len() {
        return Err(DecodeError { kind: ErrorKind::Truncated, offset: pos });
    }
    let b = s[pos];
    if b == 0x41 {
        match i32::parse(s, pos + 1) {
            Ok((v, end)) => Ok((NumericInstruction::I32Const(v), end)),
            Err(e) => Err(e),
        }
    } else if b == 0x42 {
        match i64::parse(s, pos + 1) {
            Ok((v, end)) => Ok((NumericInstruction::I64Const(v), end)),
            Err(e) => Err(e),
        }
    } else if b == 0x43 {
        match parse_u32le(s, pos + 1) {
            Ok((v, end)) => Ok((NumericInstruction::F32Const(v), end)),
            Err(e) => Err(e),
        }
    } else if b == 0x44 {
        match parse_u64le(s, pos + 1) {
            Ok((v, end)) => Ok((NumericInstruction::F64Const(v), end)),
            Err(e) => Err(e),
        }
    } else {
        match numeric_bare(b) {
            Some(v) => Ok((v, pos + 1)),
            None => Err(DecodeError { kind: ErrorKind::UnrecognizedOpcode, offset: pos }),
        }
    }
}

/// A saturating truncation, encoded under prefix `0xFC` with a LEB128
/// sub-opcode in `0..=7`.
#[derive(Debug, Clone, Copy, PartialEq, Eq)]
pub enum SaturatingTruncationInstruction {
    I32TruncSatF32S,
    I32TruncSatF32U,
    I32TruncSatF64S,
    I32TruncSatF64U,
    I64TruncSatF32S,
    I64TruncSatF32U,
    I64TruncSatF64S,
    I64TruncSatF64U,
}

impl DeepView for SaturatingTruncationInstruction {
    type V = SaturatingTruncationInstruction;

    open spec fn deep_view(&self) -> SaturatingTruncationInstruction {
        *self
    }
}

/// The sequential correspondence from a sub-opcode in `0..=7` to its
/// saturating truncation variant; `None` outside that range.
pub open spec fn spec_saturating_of(sub: u32) -> Option<SaturatingTruncationInstruction> {
    match sub {
        0 => Some(SaturatingTruncationInstruction::I32TruncSatF32S),
        1 => Some(SaturatingTruncationInstruction::I32TruncSatF32U),
        2 => Some(SaturatingTruncationInstruction::I32TruncSatF64S),
        3 => Some(SaturatingTruncationInstruction::I32TruncSatF64U),
        4 => Some(SaturatingTruncationInstruction::I64TruncSatF32S),
        5 => Some(SaturatingTruncationInstruction::I64TruncSatF32U),
        6 => Some(SaturatingTruncationInstruction::I64TruncSatF64S),
        7 => Some(SaturatingTruncationInstruction::I64TruncSatF64U),
        _ => None,
    }
}

/// Maps a `0xFC` sub-opcode to its saturating truncation variant.
pub fn saturating_of(sub: u32) -> (r: Option<SaturatingTruncationInstruction>)
    ensures
        r == spec_saturating_of(sub),
{
    match sub {
        0 => Some(SaturatingTruncationInstruction::I32TruncSatF32S),
        1 => Some(SaturatingTruncationInstruction::I32TruncSatF32U),
        2 => Some(SaturatingTruncationInstruction::I32TruncSatF64S),
        3 => Some(SaturatingTruncationInstruction::I32TruncSatF64U),
        4 => Some(SaturatingTruncationInstruction::I64TruncSatF32S),
        5 => Some(SaturatingTruncationInstruction::I64TruncSatF32U),
        6 => Some(SaturatingTruncationInstruction::I64TruncSatF64S),
        7 => Some(SaturatingTruncationInstruction::I64TruncSatF64U),
        _ => None,
    }
}

} // verus!
