//! Primitive decoding: errors, the [`Parse`] trait, LEB128 varints,
//! fixed-width little-endian reads, length-prefixed sequences, optional
//! values, and names.

use vstd::prelude::*;

verus! {

/// The kind of a decoding failure.
#[derive(Debug, Clone, Copy, PartialEq, Eq, Structural)]
pub enum ErrorKind {
    /// Fewer bytes remain than the current construct requires.
    Truncated,
    /// A tag or selector byte did not match any value accepted at this position.
    UnexpectedByte,
    /// No instruction family's accepted opcode set matched.
    UnrecognizedOpcode,
    /// A reserved byte required to equal a fixed constant did not.
    ReservedFieldMismatch,
    /// A structural contract was violated, e.g. a varint exceeding its width.
    Malformed,
}

/// A structured decoding failure: what went wrong, and at which byte offset.
#[derive(Debug, Clone, Copy, PartialEq, Eq, Structural)]
pub struct DecodeError {
    pub kind: ErrorKind,
    pub offset: usize,
}

/// Relates an executable decode result to its mathematical counterpart:
/// same success or failure, same decoded value (through its deep view),
/// same cursor, same error kind and offset.
pub open spec fn matches_spec<T: DeepView>(
    r: Result<(T, usize), DecodeError>,
    sp: Result<(T::V, int), (ErrorKind, int)>,
) -> bool {
    match (r, sp) {
        (Ok((v, end)), Ok((sv, send))) => v.deep_view() == sv && end as int == send,
        (Err(e), Err((k, off))) => e.kind == k && e.offset as int == off,
        _ => false,
    }
}

/// A type that can be decoded from a byte stream.
///
/// `spec_parse` is the mathematical decoding function over the whole input
/// and a cursor position; `parse` is its executable counterpart. The cursor
/// is threaded by value: nothing is mutated, so a failed speculative decode
/// can never leave a partial advance behind.
pub trait Parse: DeepView + Sized {
    /// What decoding `Self` at `pos` of `s` yields: the decoded value's
    /// mathematical model and the cursor just past it, or an error kind
    /// with the offset at which it occurred.
    spec fn spec_parse(s: Seq<u8>, pos: int) -> Result<(Self::V, int), (ErrorKind, int)>;

    /// Decode one `Self` from `s` starting at `pos`.
    fn parse(s: &[u8], pos: usize) -> (r: Result<(Self, usize), DecodeError>)
        ensures
            matches_spec(r, Self::spec_parse(s@, pos as int)),
            r matches Ok((_, end)) ==> pos <= end && (pos <= s@.len() ==> end <= s@.len()),
    ;
}

/// Decoding a single raw byte: the byte at the cursor, or `Truncated`.
pub open spec fn spec_parse_u8(s: Seq<u8>, pos: int) -> Result<(u8, int), (ErrorKind, int)> {
    if 0 <= pos < s.len() {
        Ok((s[pos], pos + 1))
    } else {
        Err((ErrorKind::Truncated, pos))
    }
}

impl Parse for u8 {
    open spec fn spec_parse(s: Seq<u8>, pos: int) -> Result<(u8, int), (ErrorKind, int)> {
        spec_parse_u8(s, pos)
    }

    fn parse(s: &[u8], pos: usize) -> (r: Result<(u8, usize), DecodeError>) {
        if pos < s.len() {
            Ok((s[pos], pos + 1))
        } else {
            Err(DecodeError { kind: ErrorKind::Truncated, offset: pos })
        }
    }
}

/// `128^n`: the number of values expressible in `n` LEB128 groups.
pub open spec fn pow128(n: nat) -> nat
    decreases n,
{
    if n == 0 {
        1
    } else {
        128 * pow128((n - 1) as nat)
    }
}

/// Unsigned LEB128: reads 7-bit groups while the continuation bit is set,
/// at most `max` groups. An encoding needing more groups is `Malformed`,
/// reported at `start`, the position where the varint began.
pub open spec fn spec_leb_raw(s: Seq<u8>, pos: int, max: nat, start: int) -> Result<
    (nat, int),
    (ErrorKind, int),
>
    decreases max,
{
    if pos < 0 || pos >= s.len() {
        Err((ErrorKind::Truncated, pos))
    } else {
        let b = s[pos];
        if b < 128 {
            Ok((b as nat, pos + 1))
        } else if max <= 1 {
            Err((ErrorKind::Malformed, start))
        } else {
            match spec_leb_raw(s, pos + 1, (max - 1) as nat, start) {
                Ok((v, end)) => Ok((((b - 128) + 128 * v) as nat, end)),
                Err(e) => Err(e),
            }
        }
    }
}

/// Signed LEB128: as [`spec_leb_raw`], but the final group is sign-extended
/// through its bit 6.
pub open spec fn spec_sleb_raw(s: Seq<u8>, pos: int, max: nat, start: int) -> Result<
    (int, int),
    (ErrorKind, int),
>
    decreases max,
{
    if pos < 0 || pos >= s.len() {
        Err((ErrorKind::Truncated, pos))
    } else {
        let b = s[pos];
        if b < 64 {
            Ok((b as int, pos + 1))
        } else if b < 128 {
            Ok((b - 128, pos + 1))
        } else if max <= 1 {
            Err((ErrorKind::Malformed, start))
        } else {
            match spec_sleb_raw(s, pos + 1, (max - 1) as nat, start) {
                Ok((v, end)) => Ok(((b - 128) + 128 * v, end)),
                Err(e) => Err(e),
            }
        }
    }
}

/// A successful unsigned varint read of at most `max` groups is below `128^max`.
pub proof fn lemma_leb_raw_bound(s: Seq<u8>, pos: int, max: nat, start: int)
    requires
        1 <= max,
    ensures
        spec_leb_raw(s, pos, max, start) matches Ok((v, end)) ==> v < pow128(max) && pos < end
            <= s.len(),
    decreases max,
{
    if 0 <= pos < s.len() {
        let b = s[pos];
        if b < 128 {
            assert(pow128(max) >= 128 * 1) by {
                lemma_pow128_at_least_one((max - 1) as nat);
            }
        } else if max > 1 {
            lemma_leb_raw_bound(s, pos + 1, (max - 1) as nat, start);
        }
    }
}

/// `128^n` is at least 1.
pub proof fn lemma_pow128_at_least_one(n: nat)
    ensures
        pow128(n) >= 1,
    decreases n,
{
    if n > 0 {
        lemma_pow128_at_least_one((n - 1) as nat);
    }
}

/// A successful signed varint read of at most `max` groups lies in
/// `[-128^max / 2, 128^max / 2)`.
pub proof fn lemma_sleb_raw_bound(s: Seq<u8>, pos: int, max: nat, start: int)
    requires
        1 <= max,
    ensures
        spec_sleb_raw(s, pos, max, start) matches Ok((v, end)) ==> -(pow128(max) as int) <= 2 * v
            < pow128(max) && pos < end <= s.len(),
    decreases max,
{
    if 0 <= pos < s.len() {
        let b = s[pos];
        if b < 128 {
            assert(pow128(max) >= 128 * 1) by {
                lemma_pow128_at_least_one((max - 1) as nat);
            }
        } else if max > 1 {
            lemma_sleb_raw_bound(s, pos + 1, (max - 1) as nat, start);
        }
    }
}

/// Executable unsigned LEB128 of at most `max` groups; `max <= 5` keeps the
/// accumulated value well under `u64`.
fn parse_leb_raw(s: &[u8], pos: usize, max: u8, start: usize) -> (r: Result<
    (u64, usize),
    DecodeError,
>)
    requires
        1 <= max <= 5,
    ensures
        ({
            let sp = spec_leb_raw(s@, pos as int, max as nat, start as int);
            match (r, sp) {
                (Ok((v, end)), Ok((sv, send))) => v == sv && end as int == send && pos < end
                    <= s@.len(),
                (Err(e), Err((k, off))) => e.kind == k && e.offset as int == off,
                _ => false,
            }
        }),
    decreases max,
{
    if pos >= s.len() {
        return Err(DecodeError { kind: ErrorKind::Truncated, offset: pos });
    }
    let b = s[pos];
    if b < 128 {
        Ok((b as u64, pos + 1))
    } else if max <= 1 {
        Err(DecodeError { kind: ErrorKind::Malformed, offset: start })
    } else {
        match parse_leb_raw(s, pos + 1, max - 1, start) {
            Ok((v, end)) => {
                proof {
                    lemma_leb_raw_bound(s@, pos + 1 as int, (max - 1) as nat, start as int);
                    assert(pow128(4) == 0x10000000) by {
                        reveal_with_fuel(pow128, 5);
                    }
                    assert(pow128((max - 1) as nat) <= pow128(4)) by {
                        lemma_pow128_increases((max - 1) as nat, 4);
                    }
                }
                Ok(((b - 128) as u64 + 128 * v, end))
            },
            Err(e) => Err(e),
        }
    }
}

/// `128^m <= 128^n` when `m <= n`.
pub proof fn lemma_pow128_increases(m: nat, n: nat)
    requires
        m <= n,
    ensures
        pow128(m) <= pow128(n),
    decreases n,
{
    if m < n {
        lemma_pow128_increases(m, (n - 1) as nat);
        lemma_pow128_at_least_one(m);
    }
}

/// Executable signed LEB128 of at most `max` groups; `max <= 10` keeps the
/// accumulated value well inside `i128`.
pub(crate) fn parse_sleb_raw(s: &[u8], pos: usize, max: u8, start: usize) -> (r: Result<
    (i128, usize),
    DecodeError,
>)
    requires
        1 <= max <= 10,
    ensures
        ({
            let sp = spec_sleb_raw(s@, pos as int, max as nat, start as int);
            match (r, sp) {
                (Ok((v, end)), Ok((sv, send))) => v as int == sv && end as int == send && pos < end
                    <= s@.len(),
                (Err(e), Err((k, off))) => e.kind == k && e.offset as int == off,
                _ => false,
            }
        }),
    decreases max,
{
    if pos >= s.len() {
        return Err(DecodeError { kind: ErrorKind::Truncated, offset: pos });
    }
    let b = s[pos];
    if b < 64 {
        Ok((b as i128, pos + 1))
    } else if b < 128 {
        Ok((b as i128 - 128, pos + 1))
    } else if max <= 1 {
        Err(DecodeError { kind: ErrorKind::Malformed, offset: start })
    } else {
        match parse_sleb_raw(s, pos + 1, max - 1, start) {
            Ok((v, end)) => {
                proof {
                    lemma_sleb_raw_bound(s@, pos + 1 as int, (max - 1) as nat, start as int);
                    assert(pow128(9) == 0x8000000000000000) by {
                        reveal_with_fuel(pow128, 10);
                    }
                    assert(pow128((max - 1) as nat) <= pow128(9)) by {
                        lemma_pow128_increases((max - 1) as nat, 9);
                    }
                }
                Ok((b as i128 - 128 + 128 * v, end))
            },
            Err(e) => Err(e),
        }
    }
}

impl Parse for u32 {
    /// Unsigned LEB128, at most 5 groups; a value needing more than 32
    /// significant bits is `Malformed` at the varint's start.
    open spec fn spec_parse(s: Seq<u8>, pos: int) -> Result<(u32, int), (ErrorKind, int)> {
        match spec_leb_raw(s, pos, 5, pos) {
            Ok((v, end)) => if v < 0x1_0000_0000 {
                Ok((v as u32, end))
            } else {
                Err((ErrorKind::Malformed, pos))
            },
            Err(e) => Err(e),
        }
    }

    fn parse(s: &[u8], pos: usize) -> (r: Result<(u32, usize), DecodeError>) {
        match parse_leb_raw(s, pos, 5, pos) {
            Ok((v, end)) => if v < 0x1_0000_0000 {
                Ok((v as u32, end))
            } else {
                Err(DecodeError { kind: ErrorKind::Malformed, offset: pos })
            },
            Err(e) => Err(e),
        }
    }
}

impl Parse for i32 {
    /// Signed LEB128, at most 5 groups; a value outside the 32-bit signed
    /// range is `Malformed` at the varint's start.
    open spec fn spec_parse(s: Seq<u8>, pos: int) -> Result<(i32, int), (ErrorKind, int)> {
        match spec_sleb_raw(s, pos, 5, pos) {
            Ok((v, end)) => if -0x8000_0000 <= v < 0x8000_0000 {
                Ok((v as i32, end))
            } else {
                Err((ErrorKind::Malformed, pos))
            },
            Err(e) => Err(e),
        }
    }

    fn parse(s: &[u8], pos: usize) -> (r: Result<(i32, usize), DecodeError>) {
        match parse_sleb_raw(s, pos, 5, pos) {
            Ok((v, end)) => if -0x8000_0000 <= v && v < 0x8000_0000 {
                Ok((v as i32, end))
            } else {
                Err(DecodeError { kind: ErrorKind::Malformed, offset: pos })
            },
            Err(e) => Err(e),
        }
    }
}

impl Parse for i64 {
    /// Signed LEB128, at most 10 groups; a value outside the 64-bit signed
    /// range is `Malformed` at the varint's start.
    open spec fn spec_parse(s: Seq<u8>, pos: int) -> Result<(i64, int), (ErrorKind, int)> {
        match spec_sleb_raw(s, pos, 10, pos) {
            Ok((v, end)) => if -0x8000_0000_0000_0000 <= v < 0x8000_0000_0000_0000 {
                Ok((v as i64, end))
            } else {
                Err((ErrorKind::Malformed, pos))
            },
            Err(e) => Err(e),
        }
    }

    fn parse(s: &[u8], pos: usize) -> (r: Result<(i64, usize), DecodeError>) {
        match parse_sleb_raw(s, pos, 10, pos) {
            Ok((v, end)) => if -0x8000_0000_0000_0000 <= v && v < 0x8000_0000_0000_0000 {
                Ok((v as i64, end))
            } else {
                Err(DecodeError { kind: ErrorKind::Malformed, offset: pos })
            },
            Err(e) => Err(e),
        }
    }
}

/// A fixed 4-byte little-endian read, yielding the 32-bit pattern.
pub open spec fn spec_parse_u32le(s: Seq<u8>, pos: int) -> Result<(u32, int), (ErrorKind, int)> {
    if 0 <= pos && pos + 4 <= s.len() {
        Ok(
            (
                (s[pos] + 0x100 * (s[pos + 1] + 0x100 * (s[pos + 2] + 0x100 * s[pos + 3]))) as u32,
                pos + 4,
            ),
        )
    } else {
        Err((ErrorKind::Truncated, pos))
    }
}

/// Executable 4-byte little-endian read.
pub fn parse_u32le(s: &[u8], pos: usize) -> (r: Result<(u32, usize), DecodeError>)
    ensures
        ({
            let sp = spec_parse_u32le(s@, pos as int);
            match (r, sp) {
                (Ok((v, end)), Ok((sv, send))) => v == sv && end as int == send && pos < end
                    <= s@.len(),
                (Err(e), Err((k, off))) => e.kind == k && e.offset as int == off,
                _ => false,
            }
        }),
{
    if pos < s.len() && s.len() - pos >= 4 {
        let v = s[pos] as u32 + 0x100 * (s[pos + 1] as u32 + 0x100 * (s[pos + 2] as u32 + 0x100 * (
        s[pos + 3] as u32)));
        Ok((v, pos + 4))
    } else {
        Err(DecodeError { kind: ErrorKind::Truncated, offset: pos })
    }
}

/// A fixed 8-byte little-endian read, yielding the 64-bit pattern.
pub open spec fn spec_parse_u64le(s: Seq<u8>, pos: int) -> Result<(u64, int), (ErrorKind, int)> {
    if 0 <= pos && pos + 8 <= s.len() {
        Ok(
            (
                (s[pos] + 0x100 * (s[pos + 1] + 0x100 * (s[pos + 2] + 0x100 * (s[pos + 3] + 0x100 *
                (s[pos + 4] + 0x100 * (s[pos + 5] + 0x100 * (s[pos + 6] + 0x100 * s[pos
                    + 7]))))))) as u64,
                pos + 8,
            ),
        )
    } else {
        Err((ErrorKind::Truncated, pos))
    }
}

/// Executable 8-byte little-endian read.
pub fn parse_u64le(s: &[u8], pos: usize) -> (r: Result<(u64, usize), DecodeError>)
    ensures
        ({
            let sp = spec_parse_u64le(s@, pos as int);
            match (r, sp) {
                (Ok((v, end)), Ok((sv, send))) => v == sv && end as int == send && pos < end
                    <= s@.len(),
                (Err(e), Err((k, off))) => e.kind == k && e.offset as int == off,
                _ => false,
            }
        }),
{
    if pos < s.len() && s.len() - pos >= 8 {
        let v = s[pos] as u64 + 0x100 * (s[pos + 1] as u64 + 0x100 * (s[pos + 2] as u64 + 0x100 * (
        s[pos + 3] as u64 + 0x100 * (s[pos + 4] as u64 + 0x100 * (s[pos + 5] as u64 + 0x100 * (s[pos
            + 6] as u64 + 0x100 * (s[pos + 7] as u64)))))));
        Ok((v, pos + 8))
    } else {
        Err(DecodeError { kind: ErrorKind::Truncated, offset: pos })
    }
}

/// Prefixes a sequence onto the success value of a decode result.
pub open spec fn prepend_items<V>(prefix: Seq<V>, r: Result<(Seq<V>, int), (ErrorKind, int)>)
    -> Result<(Seq<V>, int), (ErrorKind, int)> {
    match r {
        Ok((rest, end)) => Ok((prefix + rest, end)),
        Err(e) => Err(e),
    }
}

/// Exactly `n` values of `T`, decoded one after another in encountered
/// order; the first failing element's error propagates unchanged.
pub open spec fn spec_parse_items<T: Parse>(s: Seq<u8>, pos: int, n: nat) -> Result<
    (Seq<T::V>, int),
    (ErrorKind, int),
>
    decreases n,
{
    if n == 0 {
        Ok((Seq::empty(), pos))
    } else {
        match T::spec_parse(s, pos) {
            Ok((v, mid)) => match spec_parse_items::<T>(s, mid, (n - 1) as nat) {
                Ok((rest, end)) => Ok((seq![v] + rest, end)),
                Err(e) => Err(e),
            },
            Err(e) => Err(e),
        }
    }
}

/// Decodes exactly `n` values of `T`, threading the cursor through each.
pub fn parse_items<T: Parse>(s: &[u8], pos: usize, n: u32) -> (r: Result<(Vec<T>, usize), DecodeError>)
    requires
        pos <= s@.len(),
    ensures
        matches_spec(r, spec_parse_items::<T>(s@, pos as int, n as nat)),
        r matches Ok((_, end)) ==> pos <= end <= s@.len(),
{
    let ghost full = spec_parse_items::<T>(s@, pos as int, n as nat);
    let mut out: Vec<T> = Vec::new();
    let mut cur: usize = pos;
    let mut k: u32 = 0;
    while k < n
        invariant
            pos <= cur <= s@.len(),
            k <= n,
            full == spec_parse_items::<T>(s@, pos as int, n as nat),
            full == prepend_items(out.deep_view(), spec_parse_items::<T>(s@, cur as int, (n - k) as nat)),
        decreases n - k,
    {
        match T::parse(s, cur) {
            Ok((v, end)) => {
                proof {
                    let rest = spec_parse_items::<T>(s@, end as int, (n - k - 1) as nat);
                    let stepped = prepend_items(
                        out.deep_view() + seq![v.deep_view()],
                        rest,
                    );
                    match rest {
                        Ok((r2, _)) => {
                            assert(out.deep_view() + (seq![v.deep_view()] + r2) =~= (
                            out.deep_view() + seq![v.deep_view()]) + r2);
                        },
                        Err(_) => {},
                    }
                    assert(full == stepped);
                }
                let ghost prev = out.deep_view();
                out.push(v);
                proof {
                    assert(out.deep_view() =~= prev + seq![v.deep_view()]);
                }
                cur = end;
                k = k + 1;
            },
            Err(e) => {
                return Err(e);
            },
        }
    }
    Ok((out, cur))
}

impl<T: Parse> Parse for Vec<T> {
    /// A length-prefixed homogeneous sequence: a `u32` element count, then
    /// exactly that many elements. A count larger than the remaining input
    /// could possibly satisfy is not checked up front: decoding proceeds
    /// element by element, and the first element to run out of bytes
    /// reports its own `Truncated` failure.
    open spec fn spec_parse(s: Seq<u8>, pos: int) -> Result<(Seq<T::V>, int), (ErrorKind, int)> {
        match <u32 as Parse>::spec_parse(s, pos) {
            Ok((n, mid)) => spec_parse_items::<T>(s, mid, n as nat),
            Err(e) => Err(e),
        }
    }

    fn parse(s: &[u8], pos: usize) -> (r: Result<(Vec<T>, usize), DecodeError>) {
        match u32::parse(s, pos) {
            Ok((n, mid)) => parse_items::<T>(s, mid, n),
            Err(e) => Err(e),
        }
    }
}

impl<T: Parse> Parse for Option<T> {
    /// A speculative decode of `T`: on success the value with the cursor
    /// advanced, on any failure `None` with the cursor exactly where it was.
    open spec fn spec_parse(s: Seq<u8>, pos: int) -> Result<(Option<T::V>, int), (ErrorKind, int)> {
        match T::spec_parse(s, pos) {
            Ok((v, end)) => Ok((Some(v), end)),
            Err(_) => Ok((None, pos)),
        }
    }

    fn parse(s: &[u8], pos: usize) -> (r: Result<(Option<T>, usize), DecodeError>) {
        match T::parse(s, pos) {
            Ok((v, end)) => Ok((Some(v), end)),
            Err(_) => Ok((None, pos)),
        }
    }
}

/// A name: a length-prefixed byte sequence, stored verbatim without UTF-8
/// validation.
#[derive(Debug, Clone, PartialEq, Eq)]
pub struct Name(pub Vec<u8>);

impl DeepView for Name {
    type V = Seq<u8>;

    open spec fn deep_view(&self) -> Seq<u8> {
        self.0.deep_view()
    }
}

impl Parse for Name {
    /// Decoded exactly as a `Vec<u8>`.
    open spec fn spec_parse(s: Seq<u8>, pos: int) -> Result<(Seq<u8>, int), (ErrorKind, int)> {
        <Vec<u8> as Parse>::spec_parse(s, pos)
    }

    fn parse(s: &[u8], pos: usize) -> (r: Result<(Name, usize), DecodeError>) {
        match <Vec<u8>>::parse(s, pos) {
            Ok((v, end)) => Ok((Name(v), end)),
            Err(e) => Err(e),
        }
    }
}

/// The deep view of a byte vector is its ordinary view.
pub proof fn lemma_bytes_deep_view(v: Vec<u8>)
    ensures
        v.deep_view() == v@,
{
    assert(v.deep_view() =~= v@);
}

/// The unsigned LEB128 encoding of a value: 7 bits per byte, least
/// significant group first, continuation bit on every byte but the last.
pub open spec fn spec_encode_leb_u32(v: nat) -> Seq<u8>
    decreases v,
{
    if v < 128 {
        seq![v as u8]
    } else {
        seq![(v % 128 + 128) as u8] + spec_encode_leb_u32(v / 128)
    }
}

/// Encodes a `u32` as unsigned LEB128.
pub fn encode_leb128_u32(v: u32) -> (r: Vec<u8>)
    ensures
        r@ == spec_encode_leb_u32(v as nat),
    decreases v,
{
    if v < 128 {
        let mut out: Vec<u8> = Vec::new();
        out.push(v as u8);
        proof {
            assert(out@ =~= spec_encode_leb_u32(v as nat));
        }
        out
    } else {
        let mut rest = encode_leb128_u32(v / 128);
        let ghost prev = rest@;
        rest.insert(0, (v % 128 + 128) as u8);
        proof {
            assert(rest@ =~= seq![(v % 128 + 128) as u8] + prev);
        }
        rest
    }
}

/// A raw run of exactly `n` bytes, or `Truncated` at its start.
pub open spec fn spec_take_bytes(s: Seq<u8>, pos: int, n: int) -> Result<
    (Seq<u8>, int),
    (ErrorKind, int),
> {
    if 0 <= pos && 0 <= n && pos + n <= s.len() {
        Ok((s.subrange(pos, pos + n), pos + n))
    } else {
        Err((ErrorKind::Truncated, pos))
    }
}

/// Copies exactly `n` bytes out of `s` starting at `pos`.
pub fn take_bytes(s: &[u8], pos: usize, n: usize) -> (r: Result<(Vec<u8>, usize), DecodeError>)
    requires
        pos <= s@.len(),
    ensures
        ({
            let sp = spec_take_bytes(s@, pos as int, n as int);
            match (r, sp) {
                (Ok((v, end)), Ok((sv, send))) => v@ == sv && end as int == send && pos <= end
                    <= s@.len(),
                (Err(e), Err((k, off))) => e.kind == k && e.offset as int == off,
                _ => false,
            }
        }),
{
    if n > s.len() - pos {
        return Err(DecodeError { kind: ErrorKind::Truncated, offset: pos });
    }
    let stop: usize = pos + n;
    let mut v: Vec<u8> = Vec::new();
    let mut j: usize = pos;
    while j < stop
        invariant
            pos <= j <= stop,
            stop == pos + n <= s@.len(),
            v@ =~= s@.subrange(pos as int, j as int),
        decreases stop - j,
    {
        v.push(s[j]);
        j = j + 1;
        proof {
            assert(v@ =~= s@.subrange(pos as int, j as int));
        }
    }
    Ok((v, stop))
}

} // verus!
