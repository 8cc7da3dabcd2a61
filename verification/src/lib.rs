//! A decoder for the WebAssembly binary format.
//!
//! A byte slice is turned into a structured [`modules::Module`]: magic and
//! version header, then a sequence of sections whose payloads are decoded
//! down to individual instructions, including nested control-flow bodies.
//! Every decoding function carries a contract that ties its result to a
//! mathematical description of the grammar, so that a successful decode is
//! proved to be exactly the value the format prescribes, and a failed one
//! is proved to report the documented error kind and byte offset.

use vstd::prelude::*;

pub mod instructions;
pub mod laws;
pub mod modules;
pub mod types;
pub mod values;

use crate::values::{DecodeError, ErrorKind, Parse};

verus! {

/// An expected LEB128-encoded `u32` of exactly the value `P`.
///
/// Carries no data: a decoded value of this type only records that the
/// expected constant was present in the input. Any other value decoded at
/// this position is `UnexpectedByte` at the varint's start.
pub struct Prefix<const P: u32>;

impl<const P: u32> DeepView for Prefix<P> {
    type V = Prefix<P>;

    open spec fn deep_view(&self) -> Prefix<P> {
        Prefix
    }
}

impl<const P: u32> Parse for Prefix<P> {
    open spec fn spec_parse(s: Seq<u8>, pos: int) -> Result<(Prefix<P>, int), (ErrorKind, int)> {
        match <u32 as Parse>::spec_parse(s, pos) {
            Ok((v, end)) => if v == P {
                Ok((Prefix, end))
            } else {
                Err((ErrorKind::UnexpectedByte, pos))
            },
            Err(e) => Err(e),
        }
    }

    fn parse(s: &[u8], pos: usize) -> (r: Result<(Prefix<P>, usize), DecodeError>) {
        match u32::parse(s, pos) {
            Ok((v, end)) => if v == P {
                Ok((Prefix, end))
            } else {
                Err(DecodeError { kind: ErrorKind::UnexpectedByte, offset: pos })
            },
            Err(e) => Err(e),
        }
    }
}

/// An expected single byte of exactly the value `P`.
///
/// Used for the reserved zero bytes of several memory instructions: a
/// mismatch is a hard `ReservedFieldMismatch` failure at the byte's own
/// offset, never a warning.
pub struct Suffix<const P: u8>;

impl<const P: u8> DeepView for Suffix<P> {
    type V = Suffix<P>;

    open spec fn deep_view(&self) -> Suffix<P> {
        Suffix
    }
}

impl<const P: u8> Parse for Suffix<P> {
    open spec fn spec_parse(s: Seq<u8>, pos: int) -> Result<(Suffix<P>, int), (ErrorKind, int)> {
        if pos < 0 || pos >= s.len() {
            Err((ErrorKind::Truncated, pos))
        } else if s[pos] != P {
            Err((ErrorKind::ReservedFieldMismatch, pos))
        } else {
            Ok((Suffix, pos + 1))
        }
    }

    fn parse(s: &[u8], pos: usize) -> (r: Result<(Suffix<P>, usize), DecodeError>) {
        if pos >= s.len() {
            Err(DecodeError { kind: ErrorKind::Truncated, offset: pos })
        } else if s[pos] != P {
            Err(DecodeError { kind: ErrorKind::ReservedFieldMismatch, offset: pos })
        } else {
            Ok((Suffix, pos + 1))
        }
    }
}

} // verus!
