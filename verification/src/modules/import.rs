//! The import section's entries: module and item names, and what is
//! imported.

use vstd::prelude::*;

use crate::modules::indices::TypeIdx;
use crate::types::{GlobalType, MemType, TableType};
use crate::values::{DecodeError, ErrorKind, Name, Parse};

verus! {

/// What an import provides, selected by a discriminant byte in `0..=3`.
#[derive(Debug, Clone, Copy, PartialEq, Eq)]
pub enum ImportDescriptor {
    Func(TypeIdx),
    Table(TableType),
    Mem(MemType),
    Global(GlobalType),
}

impl DeepView for ImportDescriptor {
    type V = ImportDescriptor;

    open spec fn deep_view(&self) -> ImportDescriptor {
        *self
    }
}

impl Parse for ImportDescriptor {
    /// A discriminant byte in `0..=3` selects the variant; any other
    /// discriminant is `UnexpectedByte` at its own offset.
    open spec fn spec_parse(s: Seq<u8>, pos: int) -> Result<
        (ImportDescriptor, int),
        (ErrorKind, int),
    > {
        if pos < 0 || pos >= s.len() {
            Err((ErrorKind::Truncated, pos))
        } else if s[pos] == 0x00 {
            match <TypeIdx as Parse>::spec_parse(s, pos + 1) {
                Ok((x, end)) => Ok((ImportDescriptor::Func(x), end)),
                Err(e) => Err(e),
            }
        } else if s[pos] == 0x01 {
            match <TableType as Parse>::spec_parse(s, pos + 1) {
                Ok((x, end)) => Ok((ImportDescriptor::Table(x), end)),
                Err(e) => Err(e),
            }
        } else if s[pos] == 0x02 {
            match <MemType as Parse>::spec_parse(s, pos + 1) {
                Ok((x, end)) => Ok((ImportDescriptor::Mem(x), end)),
                Err(e) => Err(e),
            }
        } else if s[pos] == 0x03 {
            match <GlobalType as Parse>::spec_parse(s, pos + 1) {
                Ok((x, end)) => Ok((ImportDescriptor::Global(x), end)),
                Err(e) => Err(e),
            }
        } else {
            Err((ErrorKind::UnexpectedByte, pos))
        }
    }

    fn parse(s: &[u8], pos: usize) -> (r: Result<(ImportDescriptor, usize), DecodeError>) {
        if pos >= s.len() {
            return Err(DecodeError { kind: ErrorKind::Truncated, offset: pos });
        }
        if s[pos] == 0x00 {
            match TypeIdx::parse(s, pos + 1) {
                Ok((x, end)) => Ok((ImportDescriptor::Func(x), end)),
                Err(e) => Err(e),
            }
        } else if s[pos] == 0x01 {
            match TableType::parse(s, pos + 1) {
                Ok((x, end)) => Ok((ImportDescriptor::Table(x), end)),
                Err(e) => Err(e),
            }
        } else if s[pos] == 0x02 {
            match MemType::parse(s, pos + 1) {
                Ok((x, end)) => Ok((ImportDescriptor::Mem(x), end)),
                Err(e) => Err(e),
            }
        } else if s[pos] == 0x03 {
            match GlobalType::parse(s, pos + 1) {
                Ok((x, end)) => Ok((ImportDescriptor::Global(x), end)),
                Err(e) => Err(e),
            }
        } else {
            Err(DecodeError { kind: ErrorKind::UnexpectedByte, offset: pos })
        }
    }
}

/// An import: the providing module's name, the item's name, then the
/// descriptor.
#[derive(Debug, Clone, PartialEq, Eq)]
pub struct Import {
    pub module: Name,
    pub name: Name,
    pub descriptor: ImportDescriptor,
}

/// The mathematical model of an [`Import`].
pub struct ImportV {
    pub module: Seq<u8>,
    pub name: Seq<u8>,
    pub descriptor: ImportDescriptor,
}

impl DeepView for Import {
    type V = ImportV;

    open spec fn deep_view(&self) -> ImportV {
        ImportV {
            module: self.module.deep_view(),
            name: self.name.deep_view(),
            descriptor: self.descriptor,
        }
    }
}

impl Parse for Import {
    open spec fn spec_parse(s: Seq<u8>, pos: int) -> Result<(ImportV, int), (ErrorKind, int)> {
        match <Name as Parse>::spec_parse(s, pos) {
            Ok((module, p1)) => match <Name as Parse>::spec_parse(s, p1) {
                Ok((name, p2)) => match <ImportDescriptor as Parse>::spec_parse(s, p2) {
                    Ok((descriptor, end)) => Ok((ImportV { module, name, descriptor }, end)),
                    Err(e) => Err(e),
                },
                Err(e) => Err(e),
            },
            Err(e) => Err(e),
        }
    }

    fn parse(s: &[u8], pos: usize) -> (r: Result<(Import, usize), DecodeError>) {
        match Name::parse(s, pos) {
            Ok((module, p1)) => match Name::parse(s, p1) {
                Ok((name, p2)) => match ImportDescriptor::parse(s, p2) {
                    Ok((descriptor, end)) => Ok((Import { module, name, descriptor }, end)),
                    Err(e) => Err(e),
                },
                Err(e) => Err(e),
            },
            Err(e) => Err(e),
        }
    }
}

} // verus!
