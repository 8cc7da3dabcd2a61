//! The element section's entries: the eight element segment forms.

use vstd::prelude::*;

use crate::instructions::{Expression, InstructionV};
use crate::modules::indices::{FuncIdx, TableIdx};
use crate::types::RefType;
use crate::values::{DecodeError, ErrorKind, Parse};

verus! {

/// The kind of an index-listing element segment, a single `0x00` byte.
#[derive(Debug, Clone, Copy, PartialEq, Eq)]
pub enum ElementKind {
    FuncRef,
}

impl DeepView for ElementKind {
    type V = ElementKind;

    open spec fn deep_view(&self) -> ElementKind {
        *self
    }
}

impl Parse for ElementKind {
    open spec fn spec_parse(s: Seq<u8>, pos: int) -> Result<(ElementKind, int), (ErrorKind, int)> {
        if pos < 0 || pos >= s.len() {
            Err((ErrorKind::Truncated, pos))
        } else if s[pos] == 0x00 {
            Ok((ElementKind::FuncRef, pos + 1))
        } else {
            Err((ErrorKind::UnexpectedByte, pos))
        }
    }

    fn parse(s: &[u8], pos: usize) -> (r: Result<(ElementKind, usize), DecodeError>) {
        if pos >= s.len() {
            Err(DecodeError { kind: ErrorKind::Truncated, offset: pos })
        } else if s[pos] == 0x00 {
            Ok((ElementKind::FuncRef, pos + 1))
        } else {
            Err(DecodeError { kind: ErrorKind::UnexpectedByte, offset: pos })
        }
    }
}

/// An element segment, selected by a leading discriminant byte in `0..=7`:
/// active, passive or declarative, listing function indices or
/// expressions.
#[derive(Debug, PartialEq, Eq)]
pub enum Elem {
    ActiveIndex(Expression, Vec<FuncIdx>),
    PassiveIndex(ElementKind, Vec<FuncIdx>),
    ActiveExplicitIndex(TableIdx, Expression, ElementKind, Vec<FuncIdx>),
    DeclarativeIndex(ElementKind, Vec<FuncIdx>),
    ActiveExpression(Expression, Vec<Expression>),
    PassiveExpression(RefType, Vec<Expression>),
    ActiveExplicitExpression(TableIdx, Expression, RefType, Vec<Expression>),
    DeclarativeExpression(RefType, Vec<Expression>),
}

/// The mathematical model of an [`Elem`].
pub enum ElemV {
    ActiveIndex(Seq<InstructionV>, Seq<FuncIdx>),
    PassiveIndex(ElementKind, Seq<FuncIdx>),
    ActiveExplicitIndex(TableIdx, Seq<InstructionV>, ElementKind, Seq<FuncIdx>),
    DeclarativeIndex(ElementKind, Seq<FuncIdx>),
    ActiveExpression(Seq<InstructionV>, Seq<Seq<InstructionV>>),
    PassiveExpression(RefType, Seq<Seq<InstructionV>>),
    ActiveExplicitExpression(TableIdx, Seq<InstructionV>, RefType, Seq<Seq<InstructionV>>),
    DeclarativeExpression(RefType, Seq<Seq<InstructionV>>),
}

impl DeepView for Elem {
    type V = ElemV;

    open spec fn deep_view(&self) -> ElemV {
        match self {
            Elem::ActiveIndex(e, fs) => ElemV::ActiveIndex(e.deep_view(), fs.deep_view()),
            Elem::PassiveIndex(k, fs) => ElemV::PassiveIndex(*k, fs.deep_view()),
            Elem::ActiveExplicitIndex(t, e, k, fs) => ElemV::ActiveExplicitIndex(
                *t,
                e.deep_view(),
                *k,
                fs.deep_view(),
            ),
            Elem::DeclarativeIndex(k, fs) => ElemV::DeclarativeIndex(*k, fs.deep_view()),
            Elem::ActiveExpression(e, es) => ElemV::ActiveExpression(e.deep_view(), es.deep_view()),
            Elem::PassiveExpression(t, es) => ElemV::PassiveExpression(*t, es.deep_view()),
            Elem::ActiveExplicitExpression(t, e, rt, es) => ElemV::ActiveExplicitExpression(
                *t,
                e.deep_view(),
                *rt,
                es.deep_view(),
            ),
            Elem::DeclarativeExpression(t, es) => ElemV::DeclarativeExpression(*t, es.deep_view()),
        }
    }
}

impl Parse for Elem {
    /// A discriminant byte in `0..=7` selects the variant, whose fields
    /// follow in declared order; any other discriminant is
    /// `UnexpectedByte` at its own offset.
    open spec fn spec_parse(s: Seq<u8>, pos: int) -> Result<(ElemV, int), (ErrorKind, int)> {
        if pos < 0 || pos >= s.len() {
            Err((ErrorKind::Truncated, pos))
        } else if s[pos] == 0x00 {
            match <Expression as Parse>::spec_parse(s, pos + 1) {
                Ok((e, p1)) => match <Vec<FuncIdx> as Parse>::spec_parse(s, p1) {
                    Ok((fs, end)) => Ok((ElemV::ActiveIndex(e, fs), end)),
                    Err(er) => Err(er),
                },
                Err(er) => Err(er),
            }
        } else if s[pos] == 0x01 {
            match <ElementKind as Parse>::spec_parse(s, pos + 1) {
                Ok((k, p1)) => match <Vec<FuncIdx> as Parse>::spec_parse(s, p1) {
                    Ok((fs, end)) => Ok((ElemV::PassiveIndex(k, fs), end)),
                    Err(er) => Err(er),
                },
                Err(er) => Err(er),
            }
        } else if s[pos] == 0x02 {
            match <TableIdx as Parse>::spec_parse(s, pos + 1) {
                Ok((t, p1)) => match <Expression as Parse>::spec_parse(s, p1) {
                    Ok((e, p2)) => match <ElementKind as Parse>::spec_parse(s, p2) {
                        Ok((k, p3)) => match <Vec<FuncIdx> as Parse>::spec_parse(s, p3) {
                            Ok((fs, end)) => Ok((ElemV::ActiveExplicitIndex(t, e, k, fs), end)),
                            Err(er) => Err(er),
                        },
                        Err(er) => Err(er),
                    },
                    Err(er) => Err(er),
                },
                Err(er) => Err(er),
            }
        } else if s[pos] == 0x03 {
            match <ElementKind as Parse>::spec_parse(s, pos + 1) {
                Ok((k, p1)) => match <Vec<FuncIdx> as Parse>::spec_parse(s, p1) {
                    Ok((fs, end)) => Ok((ElemV::DeclarativeIndex(k, fs), end)),
                    Err(er) => Err(er),
                },
                Err(er) => Err(er),
            }
        } else if s[pos] == 0x04 {
            match <Expression as Parse>::spec_parse(s, pos + 1) {
                Ok((e, p1)) => match <Vec<Expression> as Parse>::spec_parse(s, p1) {
                    Ok((es, end)) => Ok((ElemV::ActiveExpression(e, es), end)),
                    Err(er) => Err(er),
                },
                Err(er) => Err(er),
            }
        } else if s[pos] == 0x05 {
            match <RefType as Parse>::spec_parse(s, pos + 1) {
                Ok((t, p1)) => match <Vec<Expression> as Parse>::spec_parse(s, p1) {
                    Ok((es, end)) => Ok((ElemV::PassiveExpression(t, es), end)),
                    Err(er) => Err(er),
                },
                Err(er) => Err(er),
            }
        } else if s[pos] == 0x06 {
            match <TableIdx as Parse>::spec_parse(s, pos + 1) {
                Ok((t, p1)) => match <Expression as Parse>::spec_parse(s, p1) {
                    Ok((e, p2)) => match <RefType as Parse>::spec_parse(s, p2) {
                        Ok((rt, p3)) => match <Vec<Expression> as Parse>::spec_parse(s, p3) {
                            Ok((es, end)) => Ok(
                                (ElemV::ActiveExplicitExpression(t, e, rt, es), end),
                            ),
                            Err(er) => Err(er),
                        },
                        Err(er) => Err(er),
                    },
                    Err(er) => Err(er),
                },
                Err(er) => Err(er),
            }
        } else if s[pos] == 0x07 {
            match <RefType as Parse>::spec_parse(s, pos + 1) {
                Ok((t, p1)) => match <Vec<Expression> as Parse>::spec_parse(s, p1) {
                    Ok((es, end)) => Ok((ElemV::DeclarativeExpression(t, es), end)),
                    Err(er) => Err(er),
                },
                Err(er) => Err(er),
            }
        } else {
            Err((ErrorKind::UnexpectedByte, pos))
        }
    }

    fn parse(s: &[u8], pos: usize) -> (r: Result<(Elem, usize), DecodeError>) {
        if pos >= s.len() {
            return Err(DecodeError { kind: ErrorKind::Truncated, offset: pos });
        }
        if s[pos] == 0x00 {
            match Expression::parse(s, pos + 1) {
                Ok((e, p1)) => match <Vec<FuncIdx>>::parse(s, p1) {
                    Ok((fs, end)) => Ok((Elem::ActiveIndex(e, fs), end)),
                    Err(er) => Err(er),
                },
                Err(er) => Err(er),
            }
        } else if s[pos] == 0x01 {
            match ElementKind::parse(s, pos + 1) {
                Ok((k, p1)) => match <Vec<FuncIdx>>::parse(s, p1) {
                    Ok((fs, end)) => Ok((Elem::PassiveIndex(k, fs), end)),
                    Err(er) => Err(er),
                },
                Err(er) => Err(er),
            }
        } else if s[pos] == 0x02 {
            match TableIdx::parse(s, pos + 1) {
                Ok((t, p1)) => match Expression::parse(s, p1) {
                    Ok((e, p2)) => match ElementKind::parse(s, p2) {
                        Ok((k, p3)) => match <Vec<FuncIdx>>::parse(s, p3) {
                            Ok((fs, end)) => Ok((Elem::ActiveExplicitIndex(t, e, k, fs), end)),
                            Err(er) => Err(er),
                        },
                        Err(er) => Err(er),
                    },
                    Err(er) => Err(er),
                },
                Err(er) => Err(er),
            }
        } else if s[pos] == 0x03 {
            match ElementKind::parse(s, pos + 1) {
                Ok((k, p1)) => match <Vec<FuncIdx>>::parse(s, p1) {
                    Ok((fs, end)) => Ok((Elem::DeclarativeIndex(k, fs), end)),
                    Err(er) => Err(er),
                },
                Err(er) => Err(er),
            }
        } else if s[pos] == 0x04 {
            match Expression::parse(s, pos + 1) {
                Ok((e, p1)) => match <Vec<Expression>>::parse(s, p1) {
                    Ok((es, end)) => Ok((Elem::ActiveExpression(e, es), end)),
                    Err(er) => Err(er),
                },
                Err(er) => Err(er),
            }
        } else if s[pos] == 0x05 {
            match RefType::parse(s, pos + 1) {
                Ok((t, p1)) => match <Vec<Expression>>::parse(s, p1) {
                    Ok((es, end)) => Ok((Elem::PassiveExpression(t, es), end)),
                    Err(er) => Err(er),
                },
                Err(er) => Err(er),
            }
        } else if s[pos] == 0x06 {
            match TableIdx::parse(s, pos + 1) {
                Ok((t, p1)) => match Expression::parse(s, p1) {
                    Ok((e, p2)) => match RefType::parse(s, p2) {
                        Ok((rt, p3)) => match <Vec<Expression>>::parse(s, p3) {
                            Ok((es, end)) => Ok(
                                (Elem::ActiveExplicitExpression(t, e, rt, es), end),
                            ),
                            Err(er) => Err(er),
                        },
                        Err(er) => Err(er),
                    },
                    Err(er) => Err(er),
                },
                Err(er) => Err(er),
            }
        } else if s[pos] == 0x07 {
            match RefType::parse(s, pos + 1) {
                Ok((t, p1)) => match <Vec<Expression>>::parse(s, p1) {
                    Ok((es, end)) => Ok((Elem::DeclarativeExpression(t, es), end)),
                    Err(er) => Err(er),
                },
                Err(er) => Err(er),
            }
        } else {
            Err(DecodeError { kind: ErrorKind::UnexpectedByte, offset: pos })
        }
    }
}

} // verus!
