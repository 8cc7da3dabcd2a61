//! Instructions: opcode dispatch across the eight instruction families,
//! and the terminator-delimited instruction sequences that control-flow
//! bodies and expressions are made of.
//!
//! Dispatch selects a family from the single leading opcode byte, or, for
//! the extended families, from the `0xFC` prefix byte followed by a LEB128
//! sub-opcode. The families' accepted sets are disjoint, so at most one
//! family ever matches; a byte outside every set is `UnrecognizedOpcode`.

use vstd::prelude::*;

pub mod control;
pub mod memory;
pub mod numeric;
pub mod parametric;
pub mod reference;
pub mod table;
pub mod variable;

use crate::instructions::control::{ControlInstruction, ControlInstructionV};
use crate::instructions::memory::{spec_memory, spec_memory_prefixed, parse_memory, parse_memory_prefixed, MemoryInstruction};
use crate::instructions::numeric::{spec_numeric, spec_saturating_of, parse_numeric, saturating_of, NumericInstruction, SaturatingTruncationInstruction};
use crate::instructions::parametric::{spec_parametric, parse_parametric, ParametricInstruction, ParametricInstructionV};
use crate::instructions::reference::{spec_reference, parse_reference, ReferenceInstruction};
use crate::instructions::table::{spec_table, spec_table_prefixed, parse_table, parse_table_prefixed, TableInstruction};
use crate::instructions::variable::{spec_variable, parse_variable, VariableInstruction};
use crate::modules::indices::{FuncIdx, LabelIdx, TableIdx, TypeIdx};
use crate::values::{DecodeError, ErrorKind, Parse};

verus! {

/// An instruction sequence, as the body of a control construct: the
/// instructions up to, and excluding, the terminator byte.
#[derive(Debug, PartialEq, Eq)]
pub struct Instructions(pub Vec<Instruction>);

/// One decoded instruction, tagged by its family.
#[derive(Debug, PartialEq, Eq)]
pub enum Instruction {
    Control(ControlInstruction),
    Reference(ReferenceInstruction),
    Parametric(ParametricInstruction),
    Variable(VariableInstruction),
    Table(TableInstruction),
    Memory(MemoryInstruction),
    Numeric(NumericInstruction),
    Saturating(SaturatingTruncationInstruction),
}

/// An expression: an instruction sequence terminated by, and excluding,
/// the `0x0B` end marker.
#[derive(Debug, PartialEq, Eq)]
pub struct Expression(pub Vec<Instruction>);

/// The mathematical model of an [`Instruction`].
pub enum InstructionV {
    Control(ControlInstructionV),
    Reference(ReferenceInstruction),
    Parametric(ParametricInstructionV),
    Variable(VariableInstruction),
    Table(TableInstruction),
    Memory(MemoryInstruction),
    Numeric(NumericInstruction),
    Saturating(SaturatingTruncationInstruction),
}

/// The mathematical model of one instruction.
pub open spec fn instr_view(i: Instruction) -> InstructionV
    decreases i,
{
    match i {
        Instruction::Control(c) => InstructionV::Control(control_view(c)),
        Instruction::Reference(x) => InstructionV::Reference(x),
        Instruction::Parametric(x) => InstructionV::Parametric(x.deep_view()),
        Instruction::Variable(x) => InstructionV::Variable(x),
        Instruction::Table(x) => InstructionV::Table(x),
        Instruction::Memory(x) => InstructionV::Memory(x),
        Instruction::Numeric(x) => InstructionV::Numeric(x),
        Instruction::Saturating(x) => InstructionV::Saturating(x),
    }
}

/// The mathematical model of one control instruction.
pub open spec fn control_view(c: ControlInstruction) -> ControlInstructionV
    decreases c,
{
    match c {
        ControlInstruction::Unreachable => ControlInstructionV::Unreachable,
        ControlInstruction::Nop => ControlInstructionV::Nop,
        ControlInstruction::Block(bt, ins) => ControlInstructionV::Block(
            bt,
            seq_instr_view(ins.0@),
        ),
        ControlInstruction::Loop(bt, ins) => ControlInstructionV::Loop(bt, seq_instr_view(ins.0@)),
        ControlInstruction::IfElse(bt, t, e) => ControlInstructionV::IfElse(
            bt,
            seq_instr_view(t.0@),
            seq_instr_view(e.0@),
        ),
        ControlInstruction::Br(l) => ControlInstructionV::Br(l),
        ControlInstruction::BrIf(l) => ControlInstructionV::BrIf(l),
        ControlInstruction::BrTable { table, default } => ControlInstructionV::BrTable {
            table: table.deep_view(),
            default,
        },
        ControlInstruction::Return => ControlInstructionV::Return,
        ControlInstruction::Call(f) => ControlInstructionV::Call(f),
        ControlInstruction::CallIndirect(t, tb) => ControlInstructionV::CallIndirect(t, tb),
    }
}

/// The mathematical model of a sequence of instructions.
pub open spec fn seq_instr_view(s: Seq<Instruction>) -> Seq<InstructionV>
    decreases s,
{
    if s.len() == 0 {
        Seq::empty()
    } else {
        seq![instr_view(s[0])] + seq_instr_view(s.subrange(1, s.len() as int))
    }
}

/// Prefixing one instruction onto a sequence prefixes its model.
pub proof fn lemma_seq_instr_view_cons(x: Instruction, r: Seq<Instruction>)
    ensures
        seq_instr_view(seq![x] + r) == seq![instr_view(x)] + seq_instr_view(r),
{
    let s2 = seq![x] + r;
    assert(s2[0] == x);
    assert(s2.subrange(1, s2.len() as int) =~= r);
}

impl DeepView for Instruction {
    type V = InstructionV;

    open spec fn deep_view(&self) -> InstructionV {
        instr_view(*self)
    }
}

impl DeepView for Instructions {
    type V = Seq<InstructionV>;

    open spec fn deep_view(&self) -> Seq<InstructionV> {
        seq_instr_view(self.0@)
    }
}

impl DeepView for Expression {
    type V = Seq<InstructionV>;

    open spec fn deep_view(&self) -> Seq<InstructionV> {
        seq_instr_view(self.0@)
    }
}

/// Clamps a continuation position into `(pos, len]`, so that the
/// recursive grammar is well-founded by construction. Every successful
/// decode step in fact lands in that range, so the clamp never moves a
/// position that a proof meets.
pub open spec fn step_pos(end: int, pos: int, len: int) -> int {
    if end < pos + 1 {
        pos + 1
    } else if end > len {
        len
    } else {
        end
    }
}

/// Decodes instructions until a terminator byte: `0x0B` always ends the
/// sequence; `0x05` also ends it when `allow_else` holds (the split of an
/// if-else). Yields the instruction models, the terminator consumed, and
/// the cursor just past it. Input exhausted before a terminator is
/// `Truncated`.
pub open spec fn spec_until(s: Seq<u8>, pos: int, allow_else: bool) -> Result<
    ((Seq<InstructionV>, u8), int),
    (ErrorKind, int),
>
    decreases s.len() - pos, 2int,
{
    if pos < 0 || pos >= s.len() {
        Err((ErrorKind::Truncated, pos))
    } else if s[pos] == 0x0B {
        Ok(((Seq::empty(), 0x0Bu8), pos + 1))
    } else if allow_else && s[pos] == 0x05 {
        Ok(((Seq::empty(), 0x05u8), pos + 1))
    } else {
        match spec_instr(s, pos) {
            Ok((i, mid)) => match spec_until(s, step_pos(mid, pos, s.len() as int), allow_else) {
                Ok(((rest, t), end)) => Ok(((seq![i] + rest, t), end)),
                Err(e) => Err(e),
            },
            Err(e) => Err(e),
        }
    }
}

/// Decodes one instruction whose leading byte stands at `pos`: dispatches
/// on the disjoint per-family opcode ranges, or on the `0xFC` prefix and
/// its LEB128 sub-opcode; a byte in no family is `UnrecognizedOpcode`.
pub open spec fn spec_instr(s: Seq<u8>, pos: int) -> Result<(InstructionV, int), (ErrorKind, int)>
    decreases s.len() - pos, 1int,
{
    if pos < 0 || pos >= s.len() {
        Err((ErrorKind::Truncated, pos))
    } else {
        let b = s[pos];
        if b <= 0x04 || (0x0C <= b && b <= 0x11) {
            match spec_control(s, pos) {
                Ok((c, end)) => Ok((InstructionV::Control(c), end)),
                Err(e) => Err(e),
            }
        } else if 0xD0 <= b && b <= 0xD2 {
            match spec_reference(s, pos) {
                Ok((v, end)) => Ok((InstructionV::Reference(v), end)),
                Err(e) => Err(e),
            }
        } else if 0x1A <= b && b <= 0x1C {
            match spec_parametric(s, pos) {
                Ok((v, end)) => Ok((InstructionV::Parametric(v), end)),
                Err(e) => Err(e),
            }
        } else if 0x20 <= b && b <= 0x24 {
            match spec_variable(s, pos) {
                Ok((v, end)) => Ok((InstructionV::Variable(v), end)),
                Err(e) => Err(e),
            }
        } else if b == 0x25 || b == 0x26 {
            match spec_table(s, pos) {
                Ok((v, end)) => Ok((InstructionV::Table(v), end)),
                Err(e) => Err(e),
            }
        } else if 0x28 <= b && b <= 0x40 {
            match spec_memory(s, pos) {
                Ok((v, end)) => Ok((InstructionV::Memory(v), end)),
                Err(e) => Err(e),
            }
        } else if 0x41 <= b && b <= 0xC2 {
            match spec_numeric(s, pos) {
                Ok((v, end)) => Ok((InstructionV::Numeric(v), end)),
                Err(e) => Err(e),
            }
        } else if b == 0xFC {
            match <u32 as Parse>::spec_parse(s, pos + 1) {
                Ok((sub, p1)) => if sub <= 7 {
                    match spec_saturating_of(sub) {
                        Some(v) => Ok((InstructionV::Saturating(v), p1)),
                        None => Err((ErrorKind::UnrecognizedOpcode, pos)),
                    }
                } else if sub <= 11 {
                    match spec_memory_prefixed(s, p1, sub, pos) {
                        Ok((v, end)) => Ok((InstructionV::Memory(v), end)),
                        Err(e) => Err(e),
                    }
                } else if sub <= 17 {
                    match spec_table_prefixed(s, p1, sub, pos) {
                        Ok((v, end)) => Ok((InstructionV::Table(v), end)),
                        Err(e) => Err(e),
                    }
                } else {
                    Err((ErrorKind::UnrecognizedOpcode, pos))
                },
                Err(e) => Err(e),
            }
        } else {
            Err((ErrorKind::UnrecognizedOpcode, pos))
        }
    }
}

/// Decodes one control instruction whose opcode byte stands at `pos`.
/// `Block` and `Loop` decode a block type and then a `0x0B`-terminated
/// body; `IfElse` decodes its consequent until `0x0B` (empty alternative)
/// or `0x05` (an explicit alternative follows, until `0x0B`).
pub open spec fn spec_control(s: Seq<u8>, pos: int) -> Result<
    (ControlInstructionV, int),
    (ErrorKind, int),
>
    decreases s.len() - pos, 0int,
{
    if pos < 0 || pos >= s.len() {
        Err((ErrorKind::Truncated, pos))
    } else {
        let b = s[pos];
        if b == 0x00 {
            Ok((ControlInstructionV::Unreachable, pos + 1))
        } else if b == 0x01 {
            Ok((ControlInstructionV::Nop, pos + 1))
        } else if b == 0x02 || b == 0x03 {
            match <control::BlockType as Parse>::spec_parse(s, pos + 1) {
                Ok((bt, p1)) => match spec_until(s, step_pos(p1, pos, s.len() as int), false) {
                    Ok(((body, _t), p2)) => Ok(
                        (
                            if b == 0x02 {
                                ControlInstructionV::Block(bt, body)
                            } else {
                                ControlInstructionV::Loop(bt, body)
                            },
                            p2,
                        ),
                    ),
                    Err(e) => Err(e),
                },
                Err(e) => Err(e),
            }
        } else if b == 0x04 {
            match <control::BlockType as Parse>::spec_parse(s, pos + 1) {
                Ok((bt, p1)) => match spec_until(s, step_pos(p1, pos, s.len() as int), true) {
                    Ok(((thenb, t), p2)) => if t == 0x0B {
                        Ok((ControlInstructionV::IfElse(bt, thenb, Seq::empty()), p2))
                    } else {
                        match spec_until(s, step_pos(p2, pos, s.len() as int), false) {
                            Ok(((elseb, _t2), p3)) => Ok(
                                (ControlInstructionV::IfElse(bt, thenb, elseb), p3),
                            ),
                            Err(e) => Err(e),
                        }
                    },
                    Err(e) => Err(e),
                },
                Err(e) => Err(e),
            }
        } else if b == 0x0C {
            match <LabelIdx as Parse>::spec_parse(s, pos + 1) {
                Ok((l, end)) => Ok((ControlInstructionV::Br(l), end)),
                Err(e) => Err(e),
            }
        } else if b == 0x0D {
            match <LabelIdx as Parse>::spec_parse(s, pos + 1) {
                Ok((l, end)) => Ok((ControlInstructionV::BrIf(l), end)),
                Err(e) => Err(e),
            }
        } else if b == 0x0E {
            match <Vec<LabelIdx> as Parse>::spec_parse(s, pos + 1) {
                Ok((table, mid)) => match <LabelIdx as Parse>::spec_parse(s, mid) {
                    Ok((default, end)) => Ok(
                        (ControlInstructionV::BrTable { table, default }, end),
                    ),
                    Err(e) => Err(e),
                },
                Err(e) => Err(e),
            }
        } else if b == 0x0F {
            Ok((ControlInstructionV::Return, pos + 1))
        } else if b == 0x10 {
            match <FuncIdx as Parse>::spec_parse(s, pos + 1) {
                Ok((f, end)) => Ok((ControlInstructionV::Call(f), end)),
                Err(e) => Err(e),
            }
        } else if b == 0x11 {
            match <TypeIdx as Parse>::spec_parse(s, pos + 1) {
                Ok((t, mid)) => match <TableIdx as Parse>::spec_parse(s, mid) {
                    Ok((tb, end)) => Ok((ControlInstructionV::CallIndirect(t, tb), end)),
                    Err(e) => Err(e),
                },
                Err(e) => Err(e),
            }
        } else {
            Err((ErrorKind::UnrecognizedOpcode, pos))
        }
    }
}

/// Executable counterpart of [`spec_until`].
pub fn parse_until(s: &[u8], pos: usize, allow_else: bool) -> (r: Result<
    ((Vec<Instruction>, u8), usize),
    DecodeError,
>)
    ensures
        ({
            let sp = spec_until(s@, pos as int, allow_else);
            match (r, sp) {
                (Ok(((v, t), end)), Ok(((sv, st), send))) => seq_instr_view(v@) == sv && t == st
                    && end as int == send && pos < end <= s@.len(),
                (Err(e), Err((k, off))) => e.kind == k && e.offset as int == off,
                _ => false,
            }
        }),
    decreases s@.len() - pos, 2int,
{
    if pos >= s.len() {
        return Err(DecodeError { kind: ErrorKind::Truncated, offset: pos });
    }
    let b = s[pos];
    if b == 0x0B {
        return Ok(((Vec::new(), 0x0B), pos + 1));
    }
    if allow_else && b == 0x05 {
        return Ok(((Vec::new(), 0x05), pos + 1));
    }
    match parse_instr(s, pos) {
        Ok((i, mid)) => match parse_until(s, mid, allow_else) {
            Ok(((rest, t), end)) => {
                let ghost prev = rest@;
                let mut out = rest;
                out.insert(0, i);
                proof {
                    assert(out@ =~= seq![i] + prev);
                    lemma_seq_instr_view_cons(i, prev);
                    assert(step_pos(mid as int, pos as int, s@.len() as int) == mid as int);
                }
                Ok(((out, t), end))
            },
            Err(e) => Err(e),
        },
        Err(e) => Err(e),
    }
}

/// Executable counterpart of [`spec_instr`].
pub fn parse_instr(s: &[u8], pos: usize) -> (r: Result<(Instruction, usize), DecodeError>)
    ensures
        ({
            let sp = spec_instr(s@, pos as int);
            match (r, sp) {
                (Ok((v, end)), Ok((sv, send))) => instr_view(v) == sv && end as int == send && pos
                    < end <= s@.len(),
                (Err(e), Err((k, off))) => e.kind == k && e.offset as int == off,
                _ => false,
            }
        }),
    decreases s@.len() - pos, 1int,
{
    if pos >= s.len() {
        return Err(DecodeError { kind: ErrorKind::Truncated, offset: pos });
    }
    let b = s[pos];
    if b <= 0x04 || (0x0C <= b && b <= 0x11) {
        match parse_control(s, pos) {
            Ok((c, end)) => Ok((Instruction::Control(c), end)),
            Err(e) => Err(e),
        }
    } else if 0xD0 <= b && b <= 0xD2 {
        match parse_reference(s, pos) {
            Ok((v, end)) => Ok((Instruction::Reference(v), end)),
            Err(e) => Err(e),
        }
    } else if 0x1A <= b && b <= 0x1C {
        match parse_parametric(s, pos) {
            Ok((v, end)) => Ok((Instruction::Parametric(v), end)),
            Err(e) => Err(e),
        }
    } else if 0x20 <= b && b <= 0x24 {
        match parse_variable(s, pos) {
            Ok((v, end)) => Ok((Instruction::Variable(v), end)),
            Err(e) => Err(e),
        }
    } else if b == 0x25 || b == 0x26 {
        match parse_table(s, pos) {
            Ok((v, end)) => Ok((Instruction::Table(v), end)),
            Err(e) => Err(e),
        }
    } else if 0x28 <= b && b <= 0x40 {
        match parse_memory(s, pos) {
            Ok((v, end)) => Ok((Instruction::Memory(v), end)),
            Err(e) => Err(e),
        }
    } else if 0x41 <= b && b <= 0xC2 {
        match parse_numeric(s, pos) {
            Ok((v, end)) => Ok((Instruction::Numeric(v), end)),
            Err(e) => Err(e),
        }
    } else if b == 0xFC {
        match u32::parse(s, pos + 1) {
            Ok((sub, p1)) => if sub <= 7 {
                match saturating_of(sub) {
                    Some(v) => Ok((Instruction::Saturating(v), p1)),
                    None => Err(DecodeError { kind: ErrorKind::UnrecognizedOpcode, offset: pos }),
                }
            } else if sub <= 11 {
                match parse_memory_prefixed(s, p1, sub, pos) {
                    Ok((v, end)) => Ok((Instruction::Memory(v), end)),
                    Err(e) => Err(e),
                }
            } else if sub <= 17 {
                match parse_table_prefixed(s, p1, sub, pos) {
                    Ok((v, end)) => Ok((Instruction::Table(v), end)),
                    Err(e) => Err(e),
                }
            } else {
                Err(DecodeError { kind: ErrorKind::UnrecognizedOpcode, offset: pos })
            },
            Err(e) => Err(e),
        }
    } else {
        Err(DecodeError { kind: ErrorKind::UnrecognizedOpcode, offset: pos })
    }
}

/// Executable counterpart of [`spec_control`].
pub fn parse_control(s: &[u8], pos: usize) -> (r: Result<(ControlInstruction, usize), DecodeError>)
    ensures
        ({
            let sp = spec_control(s@, pos as int);
            match (r, sp) {
                (Ok((v, end)), Ok((sv, send))) => control_view(v) == sv && end as int == send && pos
                    < end <= s@.len(),
                (Err(e), Err((k, off))) => e.kind == k && e.offset as int == off,
                _ => false,
            }
        }),
    decreases s@.len() - pos, 0int,
{
    if pos >= s.len() {
        return Err(DecodeError { kind: ErrorKind::Truncated, offset: pos });
    }
    let b = s[pos];
    if b == 0x00 {
        Ok((ControlInstruction::Unreachable, pos + 1))
    } else if b == 0x01 {
        Ok((ControlInstruction::Nop, pos + 1))
    } else if b == 0x02 || b == 0x03 {
        match control::BlockType::parse(s, pos + 1) {
            Ok((bt, p1)) => {
                proof {
                    assert(step_pos(p1 as int, pos as int, s@.len() as int) == p1 as int);
                }
                match parse_until(s, p1, false) {
                    Ok(((body, _t), p2)) => Ok(
                        (
                            if b == 0x02 {
                                ControlInstruction::Block(bt, Instructions(body))
                            } else {
                                ControlInstruction::Loop(bt, Instructions(body))
                            },
                            p2,
                        ),
                    ),
                    Err(e) => Err(e),
                }
            },
            Err(e) => Err(e),
        }
    } else if b == 0x04 {
        match control::BlockType::parse(s, pos + 1) {
            Ok((bt, p1)) => {
                proof {
                    assert(step_pos(p1 as int, pos as int, s@.len() as int) == p1 as int);
                }
                match parse_until(s, p1, true) {
                    Ok(((thenb, t), p2)) => if t == 0x0B {
                        Ok(
                            (
                                ControlInstruction::IfElse(
                                    bt,
                                    Instructions(thenb),
                                    Instructions(Vec::new()),
                                ),
                                p2,
                            ),
                        )
                    } else {
                        proof {
                            assert(step_pos(p2 as int, pos as int, s@.len() as int) == p2 as int);
                        }
                        match parse_until(s, p2, false) {
                            Ok(((elseb, _t2), p3)) => Ok(
                                (
                                    ControlInstruction::IfElse(
                                        bt,
                                        Instructions(thenb),
                                        Instructions(elseb),
                                    ),
                                    p3,
                                ),
                            ),
                            Err(e) => Err(e),
                        }
                    },
                    Err(e) => Err(e),
                }
            },
            Err(e) => Err(e),
        }
    } else if b == 0x0C {
        match LabelIdx::parse(s, pos + 1) {
            Ok((l, end)) => Ok((ControlInstruction::Br(l), end)),
            Err(e) => Err(e),
        }
    } else if b == 0x0D {
        match LabelIdx::parse(s, pos + 1) {
            Ok((l, end)) => Ok((ControlInstruction::BrIf(l), end)),
            Err(e) => Err(e),
        }
    } else if b == 0x0E {
        match <Vec<LabelIdx>>::parse(s, pos + 1) {
            Ok((table, mid)) => match LabelIdx::parse(s, mid) {
                Ok((default, end)) => Ok((ControlInstruction::BrTable { table, default }, end)),
                Err(e) => Err(e),
            },
            Err(e) => Err(e),
        }
    } else if b == 0x0F {
        Ok((ControlInstruction::Return, pos + 1))
    } else if b == 0x10 {
        match FuncIdx::parse(s, pos + 1) {
            Ok((f, end)) => Ok((ControlInstruction::Call(f), end)),
            Err(e) => Err(e),
        }
    } else if b == 0x11 {
        match TypeIdx::parse(s, pos + 1) {
            Ok((t, mid)) => match TableIdx::parse(s, mid) {
                Ok((tb, end)) => Ok((ControlInstruction::CallIndirect(t, tb), end)),
                Err(e) => Err(e),
            },
            Err(e) => Err(e),
        }
    } else {
        Err(DecodeError { kind: ErrorKind::UnrecognizedOpcode, offset: pos })
    }
}

/// An expression body: the instruction models up to an `0x0B` terminator.
pub open spec fn spec_expression(s: Seq<u8>, pos: int) -> Result<
    (Seq<InstructionV>, int),
    (ErrorKind, int),
> {
    match spec_until(s, pos, false) {
        Ok(((body, _t), end)) => Ok((body, end)),
        Err(e) => Err(e),
    }
}

impl Parse for Instruction {
    open spec fn spec_parse(s: Seq<u8>, pos: int) -> Result<(InstructionV, int), (ErrorKind, int)> {
        spec_instr(s, pos)
    }

    fn parse(s: &[u8], pos: usize) -> (r: Result<(Instruction, usize), DecodeError>) {
        parse_instr(s, pos)
    }
}

impl Parse for Instructions {
    /// A `0x0B`-terminated instruction sequence; the terminator is
    /// consumed and discarded.
    open spec fn spec_parse(s: Seq<u8>, pos: int) -> Result<
        (Seq<InstructionV>, int),
        (ErrorKind, int),
    > {
        spec_expression(s, pos)
    }

    fn parse(s: &[u8], pos: usize) -> (r: Result<(Instructions, usize), DecodeError>) {
        match parse_until(s, pos, false) {
            Ok(((body, _t), end)) => Ok((Instructions(body), end)),
            Err(e) => Err(e),
        }
    }
}

impl Parse for Expression {
    /// A `0x0B`-terminated instruction sequence; the terminator is
    /// consumed and discarded.
    open spec fn spec_parse(s: Seq<u8>, pos: int) -> Result<
        (Seq<InstructionV>, int),
        (ErrorKind, int),
    > {
        spec_expression(s, pos)
    }

    fn parse(s: &[u8], pos: usize) -> (r: Result<(Expression, usize), DecodeError>) {
        match parse_until(s, pos, false) {
            Ok(((body, _t), end)) => Ok((Expression(body), end)),
            Err(e) => Err(e),
        }
    }
}

} // verus!
