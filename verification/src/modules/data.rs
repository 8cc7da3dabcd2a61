//! The data section's entries: active and passive data segments.

use vstd::prelude::*;

use crate::instructions::{Expression, InstructionV};
use crate::modules::indices::MemIdx;
use crate::values::{DecodeError, ErrorKind, Parse};

verus! {

/// A data segment, selected by a leading discriminant byte in `0..=2`.
#[derive(Debug, PartialEq, Eq)]
pub enum Data {
    Active(Expression, Vec<u8>),
    Passive(Vec<u8>),
    ActiveExplicit(MemIdx, Expression, Vec<u8>),
}

/// The mathematical model of a [`Data`].
pub enum DataV {
    Active(Seq<InstructionV>, Seq<u8>),
    Passive(Seq<u8>),
    ActiveExplicit(MemIdx, Seq<InstructionV>, Seq<u8>),
}

impl DeepView for Data {
    type V = DataV;

    open spec fn deep_view(&self) -> DataV {
        match self {
            Data::Active(e, b) => DataV::Active(e.deep_view(), b.deep_view()),
            Data::Passive(b) => DataV::Passive(b.deep_view()),
            Data::ActiveExplicit(m, e, b) => DataV::ActiveExplicit(
                *m,
                e.deep_view(),
                b.deep_view(),
            ),
        }
    }
}

impl Parse for Data {
    /// A discriminant byte in `0..=2` selects the variant; any other
    /// discriminant is `UnexpectedByte` at its own offset.
    open spec fn spec_parse(s: Seq<u8>, pos: int) -> Result<(DataV, int), (ErrorKind, int)> {
        if pos < 0 || pos >= s.len() {
            Err((ErrorKind::Truncated, pos))
        } else if s[pos] == 0x00 {
            match <Expression as Parse>::spec_parse(s, pos + 1) {
                Ok((e, mid)) => match <Vec<u8> as Parse>::spec_parse(s, mid) {
                    Ok((b, end)) => Ok((DataV::Active(e, b), end)),
                    Err(er) => Err(er),
                },
                Err(er) => Err(er),
            }
        } else if s[pos] == 0x01 {
            match <Vec<u8> as Parse>::spec_parse(s, pos + 1) {
                Ok((b, end)) => Ok((DataV::Passive(b), end)),
                Err(er) => Err(er),
            }
        } else if s[pos] == 0x02 {
            match <MemIdx as Parse>::spec_parse(s, pos + 1) {
                Ok((m, p1)) => match <Expression as Parse>::spec_parse(s, p1) {
                    Ok((e, p2)) => match <Vec<u8> as Parse>::spec_parse(s, p2) {
                        Ok((b, end)) => Ok((DataV::ActiveExplicit(m, e, b), end)),
                        Err(er) => Err(er),
                    },
                    Err(er) => Err(er),
                },
                Err(er) => Err(er),
            }
        } else {
            Err((ErrorKind::UnexpectedByte, pos))
        }
    }

    fn parse(s: &[u8], pos: usize) -> (r: Result<(Data, usize), DecodeError>) {
        if pos >= s.len() {
            return Err(DecodeError { kind: ErrorKind::Truncated, offset: pos });
        }
        if s[pos] == 0x00 {
            match Expression::parse(s, pos + 1) {
                Ok((e, mid)) => match <Vec<u8>>::parse(s, mid) {
                    Ok((b, end)) => Ok((Data::Active(e, b), end)),
                    Err(er) => Err(er),
                },
                Err(er) => Err(er),
            }
        } else if s[pos] == 0x01 {
            match <Vec<u8>>::parse(s, pos + 1) {
                Ok((b, end)) => Ok((Data::Passive(b), end)),
                Err(er) => Err(er),
            }
        } else if s[pos] == 0x02 {
            match MemIdx::parse(s, pos + 1) {
                Ok((m, p1)) => match Expression::parse(s, p1) {
                    Ok((e, p2)) => match <Vec<u8>>::parse(s, p2) {
                        Ok((b, end)) => Ok((Data::ActiveExplicit(m, e, b), end)),
                        Err(er) => Err(er),
                    },
                    Err(er) => Err(er),
                },
                Err(er) => Err(er),
            }
        } else {
            Err(DecodeError { kind: ErrorKind::UnexpectedByte, offset: pos })
        }
    }
}

} // verus!
