//! Instruction and expression decoding, including nested control flow.

use wasm::instructions::control::{BlockType, ControlInstruction};
use wasm::instructions::memory::{MemArg, MemoryInstruction};
use wasm::instructions::numeric::{NumericInstruction, SaturatingTruncationInstruction};
use wasm::instructions::parametric::ParametricInstruction;
use wasm::instructions::reference::ReferenceInstruction;
use wasm::instructions::table::TableInstruction;
use wasm::instructions::variable::VariableInstruction;
use wasm::instructions::{Expression, Instruction, Instructions};
use wasm::modules::indices::{
    DataIdx, ElemIdx, FuncIdx, GlobalIdx, LabelIdx, LocalIdx, TableIdx, TypeIdx,
};
use wasm::types::{NumType, RefType, ValueType};
use wasm::values::{DecodeError, ErrorKind, Parse};

fn i32_const(v: i32) -> Instruction {
    Instruction::Numeric(NumericInstruction::I32Const(v))
}

#[test]
fn expression_single_const() {
    let (e, end) = Expression::parse(&[0x41, 0x2A, 0x0B], 0).unwrap();
    assert_eq!(e, Expression(vec![i32_const(42)]));
    // The terminator is consumed but not stored.
    assert_eq!(end, 3);
}

#[test]
fn empty_expression() {
    let (e, end) = Expression::parse(&[0x0B], 0).unwrap();
    assert_eq!(e, Expression(vec![]));
    assert_eq!(end, 1);
}

#[test]
fn expression_truncated_without_terminator() {
    let e = Expression::parse(&[0x41, 0x01], 0).unwrap_err();
    assert_eq!(e, DecodeError { kind: ErrorKind::Truncated, offset: 2 });
}

#[test]
fn block_with_body() {
    let (i, end) = Instruction::parse(&[0x02, 0x40, 0x41, 0x01, 0x0B], 0).unwrap();
    assert_eq!(
        i,
        Instruction::Control(ControlInstruction::Block(
            BlockType::Empty,
            Instructions(vec![i32_const(1)]),
        ))
    );
    assert_eq!(end, 5);
}

#[test]
fn if_with_else_branch() {
    let (i, end) = Instruction::parse(&[0x04, 0x40, 0x41, 0x00, 0x05, 0x41, 0x01, 0x0B], 0)
        .unwrap();
    assert_eq!(
        i,
        Instruction::Control(ControlInstruction::IfElse(
            BlockType::Empty,
            Instructions(vec![i32_const(0)]),
            Instructions(vec![i32_const(1)]),
        ))
    );
    assert_eq!(end, 8);
}

#[test]
fn if_without_else_branch() {
    let (i, end) = Instruction::parse(&[0x04, 0x40, 0x41, 0x07, 0x0B], 0).unwrap();
    assert_eq!(
        i,
        Instruction::Control(ControlInstruction::IfElse(
            BlockType::Empty,
            Instructions(vec![i32_const(7)]),
            Instructions(vec![]),
        ))
    );
    assert_eq!(end, 5);
}

#[test]
fn nested_blocks() {
    let (i, _) = Instruction::parse(&[0x03, 0x40, 0x02, 0x40, 0x0B, 0x0B], 0).unwrap();
    assert_eq!(
        i,
        Instruction::Control(ControlInstruction::Loop(
            BlockType::Empty,
            Instructions(vec![Instruction::Control(ControlInstruction::Block(
                BlockType::Empty,
                Instructions(vec![]),
            ))]),
        ))
    );
}

#[test]
fn block_type_forms() {
    // Inline value type.
    let (i, _) = Instruction::parse(&[0x02, 0x7F, 0x0B], 0).unwrap();
    assert_eq!(
        i,
        Instruction::Control(ControlInstruction::Block(
            BlockType::ValType(ValueType::NumType(NumType::I32)),
            Instructions(vec![]),
        ))
    );
    // A type index: a byte that is neither 0x40 nor a value type.
    let (i, _) = Instruction::parse(&[0x02, 0x05, 0x0B], 0).unwrap();
    assert_eq!(
        i,
        Instruction::Control(ControlInstruction::Block(
            BlockType::TypeIdx(TypeIdx(5)),
            Instructions(vec![]),
        ))
    );
    // The index is a signed varint: a multi-byte non-negative encoding.
    let (i, _) = Instruction::parse(&[0x02, 0x80, 0x01, 0x0B], 0).unwrap();
    assert_eq!(
        i,
        Instruction::Control(ControlInstruction::Block(
            BlockType::TypeIdx(TypeIdx(128)),
            Instructions(vec![]),
        ))
    );
}

#[test]
fn block_type_negative_index_is_malformed() {
    // 0x41 reads as the signed value -63, which is not an index.
    let e = Instruction::parse(&[0x02, 0x41, 0x0B], 0).unwrap_err();
    assert_eq!(e, DecodeError { kind: ErrorKind::Malformed, offset: 1 });
    // A multi-byte negative encoding (-1) likewise.
    let e = Instruction::parse(&[0x02, 0xFF, 0x7F, 0x0B], 0).unwrap_err();
    assert_eq!(e, DecodeError { kind: ErrorKind::Malformed, offset: 1 });
    // A non-negative value too large for a 32-bit index.
    let e = Instruction::parse(&[0x02, 0x80, 0x80, 0x80, 0x80, 0x10, 0x0B], 0).unwrap_err();
    assert_eq!(e, DecodeError { kind: ErrorKind::Malformed, offset: 1 });
}

#[test]
fn branch_instructions() {
    let (i, _) = Instruction::parse(&[0x0C, 0x02], 0).unwrap();
    assert_eq!(i, Instruction::Control(ControlInstruction::Br(LabelIdx(2))));
    let (i, end) = Instruction::parse(&[0x0E, 0x02, 0x00, 0x01, 0x02], 0).unwrap();
    assert_eq!(
        i,
        Instruction::Control(ControlInstruction::BrTable {
            table: vec![LabelIdx(0), LabelIdx(1)],
            default: LabelIdx(2),
        })
    );
    assert_eq!(end, 5);
}

#[test]
fn call_instructions() {
    let (i, _) = Instruction::parse(&[0x10, 0x03], 0).unwrap();
    assert_eq!(i, Instruction::Control(ControlInstruction::Call(FuncIdx(3))));
    let (i, _) = Instruction::parse(&[0x11, 0x01, 0x00], 0).unwrap();
    assert_eq!(
        i,
        Instruction::Control(ControlInstruction::CallIndirect(TypeIdx(1), TableIdx(0)))
    );
}

#[test]
fn reference_instructions() {
    let (i, _) = Instruction::parse(&[0xD0, 0x70], 0).unwrap();
    assert_eq!(i, Instruction::Reference(ReferenceInstruction::Null(RefType::FuncRef)));
    let (i, _) = Instruction::parse(&[0xD1], 0).unwrap();
    assert_eq!(i, Instruction::Reference(ReferenceInstruction::IsNull));
    let (i, _) = Instruction::parse(&[0xD2, 0x04], 0).unwrap();
    assert_eq!(i, Instruction::Reference(ReferenceInstruction::Func(FuncIdx(4))));
}

#[test]
fn parametric_instructions() {
    let (i, _) = Instruction::parse(&[0x1A], 0).unwrap();
    assert_eq!(i, Instruction::Parametric(ParametricInstruction::Drop));
    let (i, end) = Instruction::parse(&[0x1C, 0x01, 0x7F], 0).unwrap();
    assert_eq!(
        i,
        Instruction::Parametric(ParametricInstruction::SelectTyped(vec![ValueType::NumType(
            NumType::I32
        )]))
    );
    assert_eq!(end, 3);
}

#[test]
fn variable_instructions() {
    let (i, _) = Instruction::parse(&[0x20, 0x05], 0).unwrap();
    assert_eq!(i, Instruction::Variable(VariableInstruction::LocalGet(LocalIdx(5))));
    let (i, _) = Instruction::parse(&[0x24, 0x01], 0).unwrap();
    assert_eq!(i, Instruction::Variable(VariableInstruction::GlobalSet(GlobalIdx(1))));
}

#[test]
fn table_instructions() {
    let (i, _) = Instruction::parse(&[0x25, 0x00], 0).unwrap();
    assert_eq!(i, Instruction::Table(TableInstruction::TableGet(TableIdx(0))));
    let (i, end) = Instruction::parse(&[0xFC, 0x0C, 0x01, 0x02], 0).unwrap();
    assert_eq!(
        i,
        Instruction::Table(TableInstruction::TableInit(ElemIdx(1), TableIdx(2)))
    );
    assert_eq!(end, 4);
    let (i, _) = Instruction::parse(&[0xFC, 0x11, 0x03], 0).unwrap();
    assert_eq!(i, Instruction::Table(TableInstruction::TableFill(TableIdx(3))));
}

#[test]
fn memory_load_store() {
    let (i, end) = Instruction::parse(&[0x28, 0x02, 0x00], 0).unwrap();
    assert_eq!(
        i,
        Instruction::Memory(MemoryInstruction::I32Load(MemArg { align: 2, offset: 0 }))
    );
    assert_eq!(end, 3);
    let (i, _) = Instruction::parse(&[0x3E, 0x03, 0x10], 0).unwrap();
    assert_eq!(
        i,
        Instruction::Memory(MemoryInstruction::I64Store32(MemArg { align: 3, offset: 16 }))
    );
}

#[test]
fn memory_size_grow_reserved_byte() {
    let (i, end) = Instruction::parse(&[0x3F, 0x00], 0).unwrap();
    assert_eq!(i, Instruction::Memory(MemoryInstruction::Size));
    assert_eq!(end, 2);
    let (i, _) = Instruction::parse(&[0x40, 0x00], 0).unwrap();
    assert_eq!(i, Instruction::Memory(MemoryInstruction::Grow));
    // The reserved byte must equal zero exactly.
    let e = Instruction::parse(&[0x3F, 0x01], 0).unwrap_err();
    assert_eq!(e, DecodeError { kind: ErrorKind::ReservedFieldMismatch, offset: 1 });
}

#[test]
fn memory_extended_forms() {
    let (i, end) = Instruction::parse(&[0xFC, 0x08, 0x02, 0x00], 0).unwrap();
    assert_eq!(i, Instruction::Memory(MemoryInstruction::Init(DataIdx(2))));
    assert_eq!(end, 4);
    let (i, _) = Instruction::parse(&[0xFC, 0x09, 0x01], 0).unwrap();
    assert_eq!(i, Instruction::Memory(MemoryInstruction::Drop(DataIdx(1))));
    let (i, end) = Instruction::parse(&[0xFC, 0x0A, 0x00, 0x00], 0).unwrap();
    assert_eq!(i, Instruction::Memory(MemoryInstruction::Copy));
    assert_eq!(end, 4);
    let e = Instruction::parse(&[0xFC, 0x0B, 0x07], 0).unwrap_err();
    assert_eq!(e, DecodeError { kind: ErrorKind::ReservedFieldMismatch, offset: 2 });
}

#[test]
fn numeric_constants() {
    let (i, _) = Instruction::parse(&[0x41, 0x7F], 0).unwrap();
    assert_eq!(i, Instruction::Numeric(NumericInstruction::I32Const(-1)));
    let (i, _) = Instruction::parse(&[0x42, 0x2A], 0).unwrap();
    assert_eq!(i, Instruction::Numeric(NumericInstruction::I64Const(42)));
    // Float constants carry their raw little-endian bit pattern.
    let (i, end) = Instruction::parse(&[0x43, 0x00, 0x00, 0x80, 0x3F], 0).unwrap();
    assert_eq!(i, Instruction::Numeric(NumericInstruction::F32Const(0x3F80_0000)));
    assert_eq!(end, 5);
    assert_eq!(f32::from_bits(0x3F80_0000), 1.0f32);
    let (i, end) = Instruction::parse(
        &[0x44, 0x00, 0x00, 0x00, 0x00, 0x00, 0x00, 0xF0, 0x3F],
        0,
    )
    .unwrap();
    assert_eq!(
        i,
        Instruction::Numeric(NumericInstruction::F64Const(0x3FF0_0000_0000_0000))
    );
    assert_eq!(end, 9);
    assert_eq!(f64::from_bits(0x3FF0_0000_0000_0000), 1.0f64);
}

#[test]
fn numeric_bare_opcodes() {
    let (i, end) = Instruction::parse(&[0x45], 0).unwrap();
    assert_eq!(i, Instruction::Numeric(NumericInstruction::I32Eqz));
    assert_eq!(end, 1);
    let (i, _) = Instruction::parse(&[0x6A], 0).unwrap();
    assert_eq!(i, Instruction::Numeric(NumericInstruction::I32Add));
    let (i, _) = Instruction::parse(&[0xC2], 0).unwrap();
    assert_eq!(i, Instruction::Numeric(NumericInstruction::I64Extend32S));
}

#[test]
fn saturating_truncation_under_prefix() {
    let (i, end) = Instruction::parse(&[0xFC, 0x00], 0).unwrap();
    assert_eq!(
        i,
        Instruction::Saturating(SaturatingTruncationInstruction::I32TruncSatF32S)
    );
    assert_eq!(end, 2);
    let (i, _) = Instruction::parse(&[0xFC, 0x07], 0).unwrap();
    assert_eq!(
        i,
        Instruction::Saturating(SaturatingTruncationInstruction::I64TruncSatF64U)
    );
}

#[test]
fn unrecognized_opcodes() {
    // A byte in no family's accepted set.
    let e = Instruction::parse(&[0xC3], 0).unwrap_err();
    assert_eq!(e, DecodeError { kind: ErrorKind::UnrecognizedOpcode, offset: 0 });
    let e = Instruction::parse(&[0x1D], 0).unwrap_err();
    assert_eq!(e, DecodeError { kind: ErrorKind::UnrecognizedOpcode, offset: 0 });
    // A prefixed sub-opcode beyond every extended family.
    let e = Instruction::parse(&[0xFC, 0x12], 0).unwrap_err();
    assert_eq!(e, DecodeError { kind: ErrorKind::UnrecognizedOpcode, offset: 0 });
}

#[test]
fn instruction_truncated_on_empty() {
    let e = Instruction::parse(&[], 0).unwrap_err();
    assert_eq!(e, DecodeError { kind: ErrorKind::Truncated, offset: 0 });
}
