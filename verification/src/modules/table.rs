//! The table section's entries.

use vstd::prelude::*;

use crate::types::TableType;
use crate::values::{DecodeError, ErrorKind, Parse};

verus! {

/// A table: its table type.
#[derive(Debug, Clone, Copy, PartialEq, Eq)]
pub struct Table {
    pub table_type: TableType,
}

impl DeepView for Table {
    type V = Table;

    open spec fn deep_view(&self) -> Table {
        *self
    }
}

impl Parse for Table {
    open spec fn spec_parse(s: Seq<u8>, pos: int) -> Result<(Table, int), (ErrorKind, int)> {
        match <TableType as Parse>::spec_parse(s, pos) {
            Ok((table_type, end)) => Ok((Table { table_type }, end)),
            Err(e) => Err(e),
        }
    }

    fn parse(s: &[u8], pos: usize) -> (r: Result<(Table, usize), DecodeError>) {
        match TableType::parse(s, pos) {
            Ok((table_type, end)) => Ok((Table { table_type }, end)),
            Err(e) => Err(e),
        }
    }
}

} // verus!
