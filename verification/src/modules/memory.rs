//! The memory section's entries.

use vstd::prelude::*;

use crate::types::MemType;
use crate::values::{DecodeError, ErrorKind, Parse};

verus! {

/// A memory: its memory type.
#[derive(Debug, Clone, Copy, PartialEq, Eq)]
pub struct Memory {
    pub memory_type: MemType,
}

impl DeepView for Memory {
    type V = Memory;

    open spec fn deep_view(&self) -> Memory {
        *self
    }
}

impl Parse for Memory {
    open spec fn spec_parse(s: Seq<u8>, pos: int) -> Result<(Memory, int), (ErrorKind, int)> {
        match <MemType as Parse>::spec_parse(s, pos) {
            Ok((memory_type, end)) => Ok((Memory { memory_type }, end)),
            Err(e) => Err(e),
        }
    }

    fn parse(s: &[u8], pos: usize) -> (r: Result<(Memory, usize), DecodeError>) {
        match MemType::parse(s, pos) {
            Ok((memory_type, end)) => Ok((Memory { memory_type }, end)),
            Err(e) => Err(e),
        }
    }
}

} // verus!
