//! The index spaces: nominally distinct wrappers over a raw 32-bit count.
//!
//! Every index decodes identically, as an unsigned LEB128 `u32`; the
//! wrappers exist so that an index into one space can never stand where an
//! index into another is expected. No bounds against the indexed space are
//! checked at decode time.

use vstd::prelude::*;

use crate::values::{DecodeError, ErrorKind, Parse};

verus! {

/// An index into the function index space.
#[derive(Debug, Clone, Copy, PartialEq, Eq)]
pub struct FuncIdx(pub u32);

impl DeepView for FuncIdx {
    type V = FuncIdx;

    open spec fn deep_view(&self) -> FuncIdx {
        *self
    }
}

impl Parse for FuncIdx {
    open spec fn spec_parse(s: Seq<u8>, pos: int) -> Result<(FuncIdx, int), (ErrorKind, int)> {
        match <u32 as Parse>::spec_parse(s, pos) {
            Ok((v, end)) => Ok((FuncIdx(v), end)),
            Err(e) => Err(e),
        }
    }

    fn parse(s: &[u8], pos: usize) -> (r: Result<(FuncIdx, usize), DecodeError>) {
        match u32::parse(s, pos) {
            Ok((v, end)) => Ok((FuncIdx(v), end)),
            Err(e) => Err(e),
        }
    }
}

/// An index into the type index space.
#[derive(Debug, Clone, Copy, PartialEq, Eq)]
pub struct TypeIdx(pub u32);

impl DeepView for TypeIdx {
    type V = TypeIdx;

    open spec fn deep_view(&self) -> TypeIdx {
        *self
    }
}

impl Parse for TypeIdx {
    open spec fn spec_parse(s: Seq<u8>, pos: int) -> Result<(TypeIdx, int), (ErrorKind, int)> {
        match <u32 as Parse>::spec_parse(s, pos) {
            Ok((v, end)) => Ok((TypeIdx(v), end)),
            Err(e) => Err(e),
        }
    }

    fn parse(s: &[u8], pos: usize) -> (r: Result<(TypeIdx, usize), DecodeError>) {
        match u32::parse(s, pos) {
            Ok((v, end)) => Ok((TypeIdx(v), end)),
            Err(e) => Err(e),
        }
    }
}

/// An index into the table index space.
#[derive(Debug, Clone, Copy, PartialEq, Eq)]
pub struct TableIdx(pub u32);

impl DeepView for TableIdx {
    type V = TableIdx;

    open spec fn deep_view(&self) -> TableIdx {
        *self
    }
}

impl Parse for TableIdx {
    open spec fn spec_parse(s: Seq<u8>, pos: int) -> Result<(TableIdx, int), (ErrorKind, int)> {
        match <u32 as Parse>::spec_parse(s, pos) {
            Ok((v, end)) => Ok((TableIdx(v), end)),
            Err(e) => Err(e),
        }
    }

    fn parse(s: &[u8], pos: usize) -> (r: Result<(TableIdx, usize), DecodeError>) {
        match u32::parse(s, pos) {
            Ok((v, end)) => Ok((TableIdx(v), end)),
            Err(e) => Err(e),
        }
    }
}

/// An index into the memory index space.
#[derive(Debug, Clone, Copy, PartialEq, Eq)]
pub struct MemIdx(pub u32);

impl DeepView for MemIdx {
    type V = MemIdx;

    open spec fn deep_view(&self) -> MemIdx {
        *self
    }
}

impl Parse for MemIdx {
    open spec fn spec_parse(s: Seq<u8>, pos: int) -> Result<(MemIdx, int), (ErrorKind, int)> {
        match <u32 as Parse>::spec_parse(s, pos) {
            Ok((v, end)) => Ok((MemIdx(v), end)),
            Err(e) => Err(e),
        }
    }

    fn parse(s: &[u8], pos: usize) -> (r: Result<(MemIdx, usize), DecodeError>) {
        match u32::parse(s, pos) {
            Ok((v, end)) => Ok((MemIdx(v), end)),
            Err(e) => Err(e),
        }
    }
}

/// An index into the global index space.
#[derive(Debug, Clone, Copy, PartialEq, Eq)]
pub struct GlobalIdx(pub u32);

impl DeepView for GlobalIdx {
    type V = GlobalIdx;

    open spec fn deep_view(&self) -> GlobalIdx {
        *self
    }
}

impl Parse for GlobalIdx {
    open spec fn spec_parse(s: Seq<u8>, pos: int) -> Result<(GlobalIdx, int), (ErrorKind, int)> {
        match <u32 as Parse>::spec_parse(s, pos) {
            Ok((v, end)) => Ok((GlobalIdx(v), end)),
            Err(e) => Err(e),
        }
    }

    fn parse(s: &[u8], pos: usize) -> (r: Result<(GlobalIdx, usize), DecodeError>) {
        match u32::parse(s, pos) {
            Ok((v, end)) => Ok((GlobalIdx(v), end)),
            Err(e) => Err(e),
        }
    }
}

/// An index into the element index space.
#[derive(Debug, Clone, Copy, PartialEq, Eq)]
pub struct ElemIdx(pub u32);

impl DeepView for ElemIdx {
    type V = ElemIdx;

    open spec fn deep_view(&self) -> ElemIdx {
        *self
    }
}

impl Parse for ElemIdx {
    open spec fn spec_parse(s: Seq<u8>, pos: int) -> Result<(ElemIdx, int), (ErrorKind, int)> {
        match <u32 as Parse>::spec_parse(s, pos) {
            Ok((v, end)) => Ok((ElemIdx(v), end)),
            Err(e) => Err(e),
        }
    }

    fn parse(s: &[u8], pos: usize) -> (r: Result<(ElemIdx, usize), DecodeError>) {
        match u32::parse(s, pos) {
            Ok((v, end)) => Ok((ElemIdx(v), end)),
            Err(e) => Err(e),
        }
    }
}

/// An index into the local index space.
#[derive(Debug, Clone, Copy, PartialEq, Eq)]
pub struct LocalIdx(pub u32);

impl DeepView for LocalIdx {
    type V = LocalIdx;

    open spec fn deep_view(&self) -> LocalIdx {
        *self
    }
}

impl Parse for LocalIdx {
    open spec fn spec_parse(s: Seq<u8>, pos: int) -> Result<(LocalIdx, int), (ErrorKind, int)> {
        match <u32 as Parse>::spec_parse(s, pos) {
            Ok((v, end)) => Ok((LocalIdx(v), end)),
            Err(e) => Err(e),
        }
    }

    fn parse(s: &[u8], pos: usize) -> (r: Result<(LocalIdx, usize), DecodeError>) {
        match u32::parse(s, pos) {
            Ok((v, end)) => Ok((LocalIdx(v), end)),
            Err(e) => Err(e),
        }
    }
}

/// An index into the label index space.
#[derive(Debug, Clone, Copy, PartialEq, Eq)]
pub struct LabelIdx(pub u32);

impl DeepView for LabelIdx {
    type V = LabelIdx;

    open spec fn deep_view(&self) -> LabelIdx {
        *self
    }
}

impl Parse for LabelIdx {
    open spec fn spec_parse(s: Seq<u8>, pos: int) -> Result<(LabelIdx, int), (ErrorKind, int)> {
        match <u32 as Parse>::spec_parse(s, pos) {
            Ok((v, end)) => Ok((LabelIdx(v), end)),
            Err(e) => Err(e),
        }
    }

    fn parse(s: &[u8], pos: usize) -> (r: Result<(LabelIdx, usize), DecodeError>) {
        match u32::parse(s, pos) {
            Ok((v, end)) => Ok((LabelIdx(v), end)),
            Err(e) => Err(e),
        }
    }
}

/// An index into the data index space.
#[derive(Debug, Clone, Copy, PartialEq, Eq)]
pub struct DataIdx(pub u32);

impl DeepView for DataIdx {
    type V = DataIdx;

    open spec fn deep_view(&self) -> DataIdx {
        *self
    }
}

impl Parse for DataIdx {
    open spec fn spec_parse(s: Seq<u8>, pos: int) -> Result<(DataIdx, int), (ErrorKind, int)> {
        match <u32 as Parse>::spec_parse(s, pos) {
            Ok((v, end)) => Ok((DataIdx(v), end)),
            Err(e) => Err(e),
        }
    }

    fn parse(s: &[u8], pos: usize) -> (r: Result<(DataIdx, usize), DecodeError>) {
        match u32::parse(s, pos) {
            Ok((v, end)) => Ok((DataIdx(v), end)),
            Err(e) => Err(e),
        }
    }
}

} // verus!
