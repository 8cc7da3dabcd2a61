//! Control instructions: opcodes `0x00..=0x04` and `0x0C..=0x11`,
//! including the block forms whose bodies are nested instruction
//! sequences, and the three-way disambiguation of a block's type.

use vstd::prelude::*;

use crate::instructions::Instructions;
use crate::instructions::InstructionV;
use crate::modules::indices::{FuncIdx, LabelIdx, TableIdx, TypeIdx};
use crate::types::{spec_value_type_of, ValueType};
use crate::values::{parse_sleb_raw, spec_sleb_raw, DecodeError, ErrorKind, Parse};

verus! {

/// The byte that terminates an instruction sequence.
pub const END: u8 = 0x0B;

/// The type signature of a structured control construct: empty, a single
/// inline value type, or an index into the type section.
#[derive(Debug, Clone, Copy, PartialEq, Eq)]
pub enum BlockType {
    Empty,
    ValType(ValueType),
    TypeIdx(TypeIdx),
}

impl DeepView for BlockType {
    type V = BlockType;

    open spec fn deep_view(&self) -> BlockType {
        *self
    }
}

impl Parse for BlockType {
    /// Tried in order: the exact byte `0x40` (empty), an inline value
    /// type, and only then a type index, read as a *signed* LEB128 value
    /// of at most 5 groups (the block-type field is a 33-bit signed
    /// integer on the wire). The reserved byte patterns of the first two
    /// forms all decode negative, so trying them first keeps them from
    /// being misclassified as an index; a failed alternative consumes
    /// nothing. A signed value that is not representable as a 32-bit
    /// index — negative, or at least `2^32` — is `Malformed` at the
    /// varint's start.
    open spec fn spec_parse(s: Seq<u8>, pos: int) -> Result<(BlockType, int), (ErrorKind, int)> {
        if pos < 0 || pos >= s.len() {
            Err((ErrorKind::Truncated, pos))
        } else if s[pos] == 0x40 {
            Ok((BlockType::Empty, pos + 1))
        } else {
            match spec_value_type_of(s[pos]) {
                Some(t) => Ok((BlockType::ValType(t), pos + 1)),
                None => match spec_sleb_raw(s, pos, 5, pos) {
                    Ok((v, end)) => if 0 <= v < 0x1_0000_0000 {
                        Ok((BlockType::TypeIdx(TypeIdx(v as u32)), end))
                    } else {
                        Err((ErrorKind::Malformed, pos))
                    },
                    Err(e) => Err(e),
                },
            }
        }
    }

    fn parse(s: &[u8], pos: usize) -> (r: Result<(BlockType, usize), DecodeError>) {
        if pos >= s.len() {
            return Err(DecodeError { kind: ErrorKind::Truncated, offset: pos });
        }
        if s[pos] == 0x40 {
            return Ok((BlockType::Empty, pos + 1));
        }
        match ValueType::parse(s, pos) {
            Ok((t, end)) => Ok((BlockType::ValType(t), end)),
            Err(_) => match parse_sleb_raw(s, pos, 5, pos) {
                Ok((v, end)) => if 0 <= v && v < 0x1_0000_0000 {
                    Ok((BlockType::TypeIdx(TypeIdx(v as u32)), end))
                } else {
                    Err(DecodeError { kind: ErrorKind::Malformed, offset: pos })
                },
                Err(e) => Err(e),
            },
        }
    }
}

/// A control instruction. `Block`, `Loop` and `IfElse` own their nested
/// instruction sequences.
#[derive(Debug, PartialEq, Eq)]
pub enum ControlInstruction {
    Unreachable,
    Nop,
    Block(BlockType, Instructions),
    Loop(BlockType, Instructions),
    IfElse(BlockType, Instructions, Instructions),
    Br(LabelIdx),
    BrIf(LabelIdx),
    BrTable { table: Vec<LabelIdx>, default: LabelIdx },
    Return,
    Call(FuncIdx),
    CallIndirect(TypeIdx, TableIdx),
}

/// The mathematical model of a [`ControlInstruction`].
pub enum ControlInstructionV {
    Unreachable,
    Nop,
    Block(BlockType, Seq<InstructionV>),
    Loop(BlockType, Seq<InstructionV>),
    IfElse(BlockType, Seq<InstructionV>, Seq<InstructionV>),
    Br(LabelIdx),
    BrIf(LabelIdx),
    BrTable { table: Seq<LabelIdx>, default: LabelIdx },
    Return,
    Call(FuncIdx),
    CallIndirect(TypeIdx, TableIdx),
}

} // verus!
