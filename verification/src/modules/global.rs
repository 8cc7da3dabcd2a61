//! The global section's entries: a global's type and its initializer
//! expression.

use vstd::prelude::*;

use crate::instructions::{Expression, InstructionV};
use crate::types::GlobalType;
use crate::values::{DecodeError, ErrorKind, Parse};

verus! {

/// A global: its type, then its initializer expression.
#[derive(Debug, PartialEq, Eq)]
pub struct Global {
    pub global_type: GlobalType,
    pub expression: Expression,
}

/// The mathematical model of a [`Global`].
pub struct GlobalV {
    pub global_type: GlobalType,
    pub expression: Seq<InstructionV>,
}

impl DeepView for Global {
    type V = GlobalV;

    open spec fn deep_view(&self) -> GlobalV {
        GlobalV { global_type: self.global_type, expression: self.expression.deep_view() }
    }
}

impl Parse for Global {
    open spec fn spec_parse(s: Seq<u8>, pos: int) -> Result<(GlobalV, int), (ErrorKind, int)> {
        match <GlobalType as Parse>::spec_parse(s, pos) {
            Ok((global_type, mid)) => match <Expression as Parse>::spec_parse(s, mid) {
                Ok((expression, end)) => Ok((GlobalV { global_type, expression }, end)),
                Err(e) => Err(e),
            },
            Err(e) => Err(e),
        }
    }

    fn parse(s: &[u8], pos: usize) -> (r: Result<(Global, usize), DecodeError>) {
        match GlobalType::parse(s, pos) {
            Ok((global_type, mid)) => match Expression::parse(s, mid) {
                Ok((expression, end)) => Ok((Global { global_type, expression }, end)),
                Err(e) => Err(e),
            },
            Err(e) => Err(e),
        }
    }
}

} // verus!
