//! Laws of the decoder, proved once and for all inputs: the LEB128
//! round trip and its overflow failure, truncation on exhausted input,
//! exact consumption by sequence decoding, the checkpoint-and-rewind
//! behaviour of optional decoding, and the input-determinism of the
//! whole decode.

use vstd::prelude::*;

use crate::instructions::control::BlockType;
use crate::instructions::{spec_expression, spec_instr};
use crate::modules::{spec_module, spec_section, Magic, ModuleV, Version};
use crate::types::{FuncType, Limit, Mutability, NumType, RefType, ValueType};
use crate::values::{
    pow128, spec_encode_leb_u32, spec_leb_raw, spec_parse_items, ErrorKind, Name, Parse,
};

verus! {

/// An encoding is never empty, and an encoding of a value below `128^k`
/// takes at most `k` bytes.
pub proof fn lemma_encode_len_upper(v: nat, k: nat)
    requires
        1 <= k,
        v < pow128(k),
    ensures
        1 <= spec_encode_leb_u32(v).len() <= k,
    decreases k,
{
    if v >= 128 {
        assert(pow128(k) == 128 * pow128((k - 1) as nat));
        assert(v / 128 < pow128((k - 1) as nat));
        if k == 1 {
            assert(pow128(0) == 1);
        }
        lemma_encode_len_upper(v / 128, (k - 1) as nat);
    }
}

/// An encoding of a value of at least `128^k` takes more than `k` bytes.
pub proof fn lemma_encode_len_lower(v: nat, k: nat)
    requires
        pow128(k) <= v,
    ensures
        spec_encode_leb_u32(v).len() >= k + 1,
    decreases k,
{
    if k > 0 {
        assert(pow128(k) == 128 * pow128((k - 1) as nat));
        crate::values::lemma_pow128_at_least_one((k - 1) as nat);
        assert(v >= 128);
        assert(v / 128 >= pow128((k - 1) as nat));
        lemma_encode_len_lower(v / 128, (k - 1) as nat);
    }
}

/// Reading a varint from a buffer that carries an encoding of `v` at the
/// cursor, with enough groups allowed, yields exactly `v` and stops just
/// past the encoding.
pub proof fn lemma_leb_raw_of_encoding(v: nat, s: Seq<u8>, pos: int, max: nat, start: int)
    requires
        0 <= pos,
        pos + spec_encode_leb_u32(v).len() <= s.len(),
        s.subrange(pos, pos + spec_encode_leb_u32(v).len() as int) == spec_encode_leb_u32(v),
        spec_encode_leb_u32(v).len() <= max,
    ensures
        spec_leb_raw(s, pos, max, start) == Ok::<(nat, int), (ErrorKind, int)>(
            (v, pos + spec_encode_leb_u32(v).len()),
        ),
    decreases v,
{
    let enc = spec_encode_leb_u32(v);
    assert(s[pos] == enc[0]);
    if v < 128 {
    } else {
        let enc2 = spec_encode_leb_u32(v / 128);
        assert(s.subrange(pos + 1, pos + 1 + enc2.len() as int) =~= enc2) by {
            assert forall|i: int| 0 <= i < enc2.len() implies s.subrange(
                pos + 1,
                pos + 1 + enc2.len() as int,
            )[i] == enc2[i] by {
                assert(s.subrange(pos, pos + enc.len() as int)[i + 1] == enc[i + 1]);
            }
        }
        lemma_leb_raw_of_encoding(v / 128, s, pos + 1, (max - 1) as nat, start);
        assert(v % 128 + 128 * (v / 128) == v);
    }
}

/// Reading a varint from a buffer that carries an encoding longer than
/// the allowed group count fails with `Malformed` at the varint's start.
pub proof fn lemma_leb_raw_of_long_encoding(v: nat, s: Seq<u8>, pos: int, max: nat, start: int)
    requires
        1 <= max,
        0 <= pos,
        pos + spec_encode_leb_u32(v).len() <= s.len(),
        s.subrange(pos, pos + spec_encode_leb_u32(v).len() as int) == spec_encode_leb_u32(v),
        spec_encode_leb_u32(v).len() > max,
    ensures
        spec_leb_raw(s, pos, max, start) == Err::<(nat, int), (ErrorKind, int)>(
            (ErrorKind::Malformed, start),
        ),
    decreases v,
{
    let enc = spec_encode_leb_u32(v);
    assert(s[pos] == enc[0]);
    assert(v >= 128);
    if max > 1 {
        let enc2 = spec_encode_leb_u32(v / 128);
        assert(s.subrange(pos + 1, pos + 1 + enc2.len() as int) =~= enc2) by {
            assert forall|i: int| 0 <= i < enc2.len() implies s.subrange(
                pos + 1,
                pos + 1 + enc2.len() as int,
            )[i] == enc2[i] by {
                assert(s.subrange(pos, pos + enc.len() as int)[i + 1] == enc[i + 1]);
            }
        }
        lemma_leb_raw_of_long_encoding(v / 128, s, pos + 1, (max - 1) as nat, start);
    }
}

/// Round trip: decoding the unsigned LEB128 encoding of any `u32` yields
/// the value unchanged, consuming exactly the encoding.
pub proof fn lemma_u32_round_trip(v: u32)
    ensures
        <u32 as Parse>::spec_parse(spec_encode_leb_u32(v as nat), 0) == Ok::<
            (u32, int),
            (ErrorKind, int),
        >((v, spec_encode_leb_u32(v as nat).len() as int)),
{
    let enc = spec_encode_leb_u32(v as nat);
    assert(pow128(5) == 0x800000000) by {
        reveal_with_fuel(pow128, 6);
    }
    lemma_encode_len_upper(v as nat, 5);
    assert(enc.subrange(0, enc.len() as int) =~= enc);
    lemma_leb_raw_of_encoding(v as nat, enc, 0, 5, 0);
}

/// Overflow: a value needing more than 32 significant bits decodes from
/// its own encoding to `Malformed` at the varint's start.
pub proof fn lemma_u32_overflow(v: nat)
    requires
        0x1_0000_0000 <= v,
    ensures
        <u32 as Parse>::spec_parse(spec_encode_leb_u32(v), 0) == Err::<
            (u32, int),
            (ErrorKind, int),
        >((ErrorKind::Malformed, 0)),
{
    let enc = spec_encode_leb_u32(v);
    assert(pow128(5) == 0x800000000) by {
        reveal_with_fuel(pow128, 6);
    }
    assert(enc.subrange(0, enc.len() as int) =~= enc);
    if v < pow128(5) {
        lemma_encode_len_upper(v, 5);
        lemma_leb_raw_of_encoding(v, enc, 0, 5, 0);
    } else {
        lemma_encode_len_lower(v, 5);
        lemma_leb_raw_of_long_encoding(v, enc, 0, 5, 0);
    }
}

/// With no byte remaining at the cursor, every construct of the grammar
/// fails with `Truncated` at the cursor, and never panics: a decoder
/// needing any byte at all reports the exhausted input first.
pub proof fn lemma_truncated_at_end(s: Seq<u8>, pos: int)
    requires
        s.len() <= pos,
    ensures
        <u8 as Parse>::spec_parse(s, pos) == Err::<(u8, int), (ErrorKind, int)>(
            (ErrorKind::Truncated, pos),
        ),
        <u32 as Parse>::spec_parse(s, pos)->Err_0 == (ErrorKind::Truncated, pos),
        <i32 as Parse>::spec_parse(s, pos)->Err_0 == (ErrorKind::Truncated, pos),
        <i64 as Parse>::spec_parse(s, pos)->Err_0 == (ErrorKind::Truncated, pos),
        <Name as Parse>::spec_parse(s, pos)->Err_0 == (ErrorKind::Truncated, pos),
        <NumType as Parse>::spec_parse(s, pos)->Err_0 == (ErrorKind::Truncated, pos),
        <RefType as Parse>::spec_parse(s, pos)->Err_0 == (ErrorKind::Truncated, pos),
        <ValueType as Parse>::spec_parse(s, pos)->Err_0 == (ErrorKind::Truncated, pos),
        <BlockType as Parse>::spec_parse(s, pos)->Err_0 == (ErrorKind::Truncated, pos),
        <FuncType as Parse>::spec_parse(s, pos)->Err_0 == (ErrorKind::Truncated, pos),
        <Limit as Parse>::spec_parse(s, pos)->Err_0 == (ErrorKind::Truncated, pos),
        <Mutability as Parse>::spec_parse(s, pos)->Err_0 == (ErrorKind::Truncated, pos),
        <Magic as Parse>::spec_parse(s, pos)->Err_0 == (ErrorKind::Truncated, pos),
        <Version as Parse>::spec_parse(s, pos)->Err_0 == (ErrorKind::Truncated, pos),
        spec_instr(s, pos)->Err_0 == (ErrorKind::Truncated, pos),
        spec_expression(s, pos)->Err_0 == (ErrorKind::Truncated, pos),
        spec_section(s, pos)->Err_0 == (ErrorKind::Truncated, pos),
{
}

/// A length-prefixed sequence of any element type also fails with
/// `Truncated` at an exhausted cursor: its count varint needs a byte.
pub proof fn lemma_truncated_vec_at_end<T: Parse>(s: Seq<u8>, pos: int)
    requires
        s.len() <= pos,
    ensures
        <Vec<T> as Parse>::spec_parse(s, pos)->Err_0 == (ErrorKind::Truncated, pos),
{
}

/// A whole module needs at least its 4-byte magic: shorter input is
/// `Truncated` at offset 0, whatever the bytes hold.
pub proof fn lemma_module_truncated_magic(s: Seq<u8>)
    requires
        s.len() < 4,
    ensures
        spec_module(s, 0) == Err::<(ModuleV, int), (ErrorKind, int)>((ErrorKind::Truncated, 0)),
{
}

/// A module that starts with the magic but ends before its 4-byte version
/// field is `Truncated` at offset 4.
pub proof fn lemma_module_truncated_version(s: Seq<u8>)
    requires
        4 <= s.len() < 8,
        s[0] == 0x00 && s[1] == 0x61 && s[2] == 0x73 && s[3] == 0x6D,
    ensures
        spec_module(s, 0) == Err::<(ModuleV, int), (ErrorKind, int)>((ErrorKind::Truncated, 4)),
{
}

/// Decoding a count of `n` elements yields exactly `n` of them, each
/// decoded where its predecessor ended, and leaves the cursor immediately
/// after the last one: the sequence consumes exactly the bytes its
/// elements span.
pub proof fn lemma_items_consume_exactly<T: Parse>(s: Seq<u8>, pos: int, n: nat)
    requires
        spec_parse_items::<T>(s, pos, n) is Ok,
    ensures
        ({
            let (items, end) = spec_parse_items::<T>(s, pos, n)->Ok_0;
            &&& items.len() == n
            &&& n == 0 ==> end == pos
            &&& n >= 1 ==> {
                &&& spec_parse_items::<T>(s, pos, (n - 1) as nat) is Ok
                &&& {
                    let (front, mid) = spec_parse_items::<T>(s, pos, (n - 1) as nat)->Ok_0;
                    &&& front == items.take(n - 1)
                    &&& T::spec_parse(s, mid) == Ok::<(T::V, int), (ErrorKind, int)>(
                        (items.last(), end),
                    )
                }
            }
        }),
    decreases n,
{
    if n >= 1 {
        let (v, m1) = T::spec_parse(s, pos)->Ok_0;
        let (rest, end) = spec_parse_items::<T>(s, m1, (n - 1) as nat)->Ok_0;
        let items = spec_parse_items::<T>(s, pos, n)->Ok_0.0;
        assert(items == seq![v] + rest);
        lemma_items_consume_exactly::<T>(s, m1, (n - 1) as nat);
        if n == 1 {
            assert(items.take(0) =~= Seq::<T::V>::empty());
        } else {
            let (front2, mid) = spec_parse_items::<T>(s, m1, (n - 2) as nat)->Ok_0;
            assert(spec_parse_items::<T>(s, pos, (n - 1) as nat) == Ok::<
                (Seq<T::V>, int),
                (ErrorKind, int),
            >((seq![v] + front2, mid)));
            assert(seq![v] + front2 =~= items.take(n - 1)) by {
                assert(front2 == rest.take(n - 2));
            }
            assert(items.last() == rest.last());
        }
    }
}

/// Checkpoint and rewind: an optional decode whose inner decode fails
/// yields `None` with the cursor byte-for-byte identical to its
/// pre-attempt position.
pub proof fn lemma_optional_rewind<T: Parse>(s: Seq<u8>, pos: int)
    requires
        T::spec_parse(s, pos) is Err,
    ensures
        <Option<T> as Parse>::spec_parse(s, pos) == Ok::<(Option<T::V>, int), (ErrorKind, int)>(
            (None, pos),
        ),
{
}

/// Decoding depends on the input bytes alone: equal inputs yield equal
/// outcomes, so re-decoding the same malformed input always yields the
/// same error kind and offset. Together with each decoder's contract,
/// which pins its result to these functions of the input, the executable
/// decoders inherit the same determinism.
pub proof fn lemma_decode_deterministic(s1: Seq<u8>, s2: Seq<u8>)
    requires
        s1 == s2,
    ensures
        spec_module(s1, 0) == spec_module(s2, 0),
{
}

} // verus!
