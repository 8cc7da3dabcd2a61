//! The export section's entries: a name and what it exports.

use vstd::prelude::*;

use crate::modules::indices::{FuncIdx, GlobalIdx, MemIdx, TableIdx};
use crate::values::{DecodeError, ErrorKind, Name, Parse};

verus! {

/// What an export refers to, selected by a discriminant byte in `0..=3`.
#[derive(Debug, Clone, Copy, PartialEq, Eq)]
pub enum ExportDescriptor {
    Func(FuncIdx),
    Table(TableIdx),
    Mem(MemIdx),
    Global(GlobalIdx),
}

impl DeepView for ExportDescriptor {
    type V = ExportDescriptor;

    open spec fn deep_view(&self) -> ExportDescriptor {
        *self
    }
}

impl Parse for ExportDescriptor {
    /// A discriminant byte in `0..=3` selects the index space; any other
    /// discriminant is `UnexpectedByte` at its own offset.
    open spec fn spec_parse(s: Seq<u8>, pos: int) -> Result<
        (ExportDescriptor, int),
        (ErrorKind, int),
    > {
        if pos < 0 || pos >= s.len() {
            Err((ErrorKind::Truncated, pos))
        } else if s[pos] == 0x00 {
            match <FuncIdx as Parse>::spec_parse(s, pos + 1) {
                Ok((x, end)) => Ok((ExportDescriptor::Func(x), end)),
                Err(e) => Err(e),
            }
        } else if s[pos] == 0x01 {
            match <TableIdx as Parse>::spec_parse(s, pos + 1) {
                Ok((x, end)) => Ok((ExportDescriptor::Table(x), end)),
                Err(e) => Err(e),
            }
        } else if s[pos] == 0x02 {
            match <MemIdx as Parse>::spec_parse(s, pos + 1) {
                Ok((x, end)) => Ok((ExportDescriptor::Mem(x), end)),
                Err(e) => Err(e),
            }
        } else if s[pos] == 0x03 {
            match <GlobalIdx as Parse>::spec_parse(s, pos + 1) {
                Ok((x, end)) => Ok((ExportDescriptor::Global(x), end)),
                Err(e) => Err(e),
            }
        } else {
            Err((ErrorKind::UnexpectedByte, pos))
        }
    }

    fn parse(s: &[u8], pos: usize) -> (r: Result<(ExportDescriptor, usize), DecodeError>) {
        if pos >= s.len() {
            return Err(DecodeError { kind: ErrorKind::Truncated, offset: pos });
        }
        if s[pos] == 0x00 {
            match FuncIdx::parse(s, pos + 1) {
                Ok((x, end)) => Ok((ExportDescriptor::Func(x), end)),
                Err(e) => Err(e),
            }
        } else if s[pos] == 0x01 {
            match TableIdx::parse(s, pos + 1) {
                Ok((x, end)) => Ok((ExportDescriptor::Table(x), end)),
                Err(e) => Err(e),
            }
        } else if s[pos] == 0x02 {
            match MemIdx::parse(s, pos + 1) {
                Ok((x, end)) => Ok((ExportDescriptor::Mem(x), end)),
                Err(e) => Err(e),
            }
        } else if s[pos] == 0x03 {
            match GlobalIdx::parse(s, pos + 1) {
                Ok((x, end)) => Ok((ExportDescriptor::Global(x), end)),
                Err(e) => Err(e),
            }
        } else {
            Err(DecodeError { kind: ErrorKind::UnexpectedByte, offset: pos })
        }
    }
}

/// An export: its name, then its descriptor.
#[derive(Debug, Clone, PartialEq, Eq)]
pub struct Export {
    pub name: Name,
    pub descriptor: ExportDescriptor,
}

/// The mathematical model of an [`Export`].
pub struct ExportV {
    pub name: Seq<u8>,
    pub descriptor: ExportDescriptor,
}

impl DeepView for Export {
    type V = ExportV;

    open spec fn deep_view(&self) -> ExportV {
        ExportV { name: self.name.deep_view(), descriptor: self.descriptor }
    }
}

impl Parse for Export {
    open spec fn spec_parse(s: Seq<u8>, pos: int) -> Result<(ExportV, int), (ErrorKind, int)> {
        match <Name as Parse>::spec_parse(s, pos) {
            Ok((name, mid)) => match <ExportDescriptor as Parse>::spec_parse(s, mid) {
                Ok((descriptor, end)) => Ok((ExportV { name, descriptor }, end)),
                Err(e) => Err(e),
            },
            Err(e) => Err(e),
        }
    }

    fn parse(s: &[u8], pos: usize) -> (r: Result<(Export, usize), DecodeError>) {
        match Name::parse(s, pos) {
            Ok((name, mid)) => match ExportDescriptor::parse(s, mid) {
                Ok((descriptor, end)) => Ok((Export { name, descriptor }, end)),
                Err(e) => Err(e),
            },
            Err(e) => Err(e),
        }
    }
}

} // verus!
