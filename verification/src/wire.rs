//! Little-endian serialization helpers shared by the event encoders and the
//! device-descriptor encoder.
//!
//! Every multi-byte integer on either wire format is written least-significant
//! byte first; signed fields are written as their two's-complement bit
//! patterns. The spec functions here reuse the byte-level specifications from
//! `vstd::bytes`.

use vstd::prelude::*;

verus! {

use vstd::bytes::*;

/// Bytes of an `i16`, little-endian, two's complement.
pub open spec fn spec_i16_to_le_bytes(x: i16) -> Seq<u8> {
    spec_u16_to_le_bytes(x as u16)
}

/// Bytes of an `i32`, little-endian, two's complement.
pub open spec fn spec_i32_to_le_bytes(x: i32) -> Seq<u8> {
    spec_u32_to_le_bytes(x as u32)
}

/// Bytes of an `i64`, little-endian, two's complement.
pub open spec fn spec_i64_to_le_bytes(x: i64) -> Seq<u8> {
    spec_u64_to_le_bytes(x as u64)
}

/// Bytes of a sequence of `u16` values, each little-endian, in order.
pub open spec fn spec_u16s_to_le_bytes(s: Seq<u16>) -> Seq<u8>
    decreases s.len(),
{
    if s.len() == 0 {
        Seq::empty()
    } else {
        spec_u16s_to_le_bytes(s.drop_last()) + spec_u16_to_le_bytes(s.last())
    }
}

pub proof fn lemma_u16s_to_le_bytes_len(s: Seq<u16>)
    ensures
        spec_u16s_to_le_bytes(s).len() == 2 * s.len(),
    decreases s.len(),
{
    lemma_auto_spec_u16_to_from_le_bytes();
    if s.len() > 0 {
        lemma_u16s_to_le_bytes_len(s.drop_last());
    }
}

pub fn push_u8(buf: &mut Vec<u8>, x: u8)
    ensures
        final(buf)@ == old(buf)@ + seq![x],
{
    buf.push(x);
    proof {
        assert(buf@ =~= old(buf)@ + seq![x]);
    }
}

pub fn push_u16_le(buf: &mut Vec<u8>, x: u16)
    ensures
        final(buf)@ == old(buf)@ + spec_u16_to_le_bytes(x),
{
    let mut b = u16_to_le_bytes(x);
    buf.append(&mut b);
}

pub fn push_u32_le(buf: &mut Vec<u8>, x: u32)
    ensures
        final(buf)@ == old(buf)@ + spec_u32_to_le_bytes(x),
{
    let mut b = u32_to_le_bytes(x);
    buf.append(&mut b);
}

pub fn push_u64_le(buf: &mut Vec<u8>, x: u64)
    ensures
        final(buf)@ == old(buf)@ + spec_u64_to_le_bytes(x),
{
    let mut b = u64_to_le_bytes(x);
    buf.append(&mut b);
}

pub fn push_i16_le(buf: &mut Vec<u8>, x: i16)
    ensures
        final(buf)@ == old(buf)@ + spec_i16_to_le_bytes(x),
{
    push_u16_le(buf, #[verifier::truncate] (x as u16));
}

pub fn push_i32_le(buf: &mut Vec<u8>, x: i32)
    ensures
        final(buf)@ == old(buf)@ + spec_i32_to_le_bytes(x),
{
    push_u32_le(buf, #[verifier::truncate] (x as u32));
}

pub fn push_i64_le(buf: &mut Vec<u8>, x: i64)
    ensures
        final(buf)@ == old(buf)@ + spec_i64_to_le_bytes(x),
{
    push_u64_le(buf, #[verifier::truncate] (x as u64));
}

pub fn push_u16s_le(buf: &mut Vec<u8>, s: &Vec<u16>)
    ensures
        final(buf)@ == old(buf)@ + spec_u16s_to_le_bytes(s@),
{
    let ghost buf0 = buf@;
    let mut i: usize = 0;
    while i < s.len()
        invariant
            i <= s@.len(),
            buf@ == buf0 + spec_u16s_to_le_bytes(s@.take(i as int)),
        decreases s@.len() - i,
    {
        push_u16_le(buf, s[i]);
        proof {
            assert(s@.take(i + 1).drop_last() =~= s@.take(i as int));
            assert(s@.take(i + 1).last() == s@[i as int]);
        }
        i = i + 1;
    }
    proof {
        assert(s@.take(s@.len() as int) =~= s@);
    }
}

} // verus!
