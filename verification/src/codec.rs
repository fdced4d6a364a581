//! Little-endian framing primitives shared by every encoder in the crate:
//! fixed-width `u32`/`u64` fields and length-prefixed byte strings.

use vstd::prelude::*;

verus! {

/// The four bytes of `x`, least significant first.
pub open spec fn le32(x: u32) -> Seq<u8> {
    seq![
        (x & 0xff) as u8,
        ((x >> 8) & 0xff) as u8,
        ((x >> 16) & 0xff) as u8,
        ((x >> 24) & 0xff) as u8,
    ]
}

/// The eight bytes of `x`, least significant first.
pub open spec fn le64(x: u64) -> Seq<u8> {
    seq![
        (x & 0xff) as u8,
        ((x >> 8) & 0xff) as u8,
        ((x >> 16) & 0xff) as u8,
        ((x >> 24) & 0xff) as u8,
        ((x >> 32) & 0xff) as u8,
        ((x >> 40) & 0xff) as u8,
        ((x >> 48) & 0xff) as u8,
        ((x >> 56) & 0xff) as u8,
    ]
}

/// The `u32` whose little-endian bytes are `b`.
pub open spec fn dec32(b: Seq<u8>) -> u32
    recommends
        b.len() == 4,
{
    (b[0] as u32) | ((b[1] as u32) << 8) | ((b[2] as u32) << 16) | ((b[3] as u32) << 24)
}

/// The `u64` whose little-endian bytes are `b`.
pub open spec fn dec64(b: Seq<u8>) -> u64
    recommends
        b.len() == 8,
{
    (b[0] as u64) | ((b[1] as u64) << 8) | ((b[2] as u64) << 16) | ((b[3] as u64) << 24)
        | ((b[4] as u64) << 32) | ((b[5] as u64) << 40) | ((b[6] as u64) << 48)
        | ((b[7] as u64) << 56)
}

/// A byte string framed by its length: a `u32` little-endian count, then the
/// bytes themselves.  Meaningful when `b.len() <= u32::MAX`.
pub open spec fn enc_bytes(b: Seq<u8>) -> Seq<u8> {
    le32(b.len() as u32) + b
}

/// Reading back the four little-endian bytes of a `u32` restores it.
pub proof fn lemma_le32_dec32(x: u32)
    ensures
        dec32(le32(x)) == x,
{
    assert(((x & 0xff) as u8 as u32) | ((((x >> 8) & 0xff) as u8 as u32) << 8)
        | ((((x >> 16) & 0xff) as u8 as u32) << 16) | ((((x >> 24) & 0xff) as u8 as u32) << 24)
        == x) by (bit_vector);
}

/// Four bytes are exactly the little-endian form of the `u32` they denote.
pub proof fn lemma_dec32_le32(b: Seq<u8>)
    requires
        b.len() == 4,
    ensures
        le32(dec32(b)) == b,
{
    let b0 = b[0];
    let b1 = b[1];
    let b2 = b[2];
    let b3 = b[3];
    let x = (b0 as u32) | ((b1 as u32) << 8) | ((b2 as u32) << 16) | ((b3 as u32) << 24);
    assert((x & 0xff) as u8 == b0 && ((x >> 8) & 0xff) as u8 == b1 && ((x >> 16) & 0xff) as u8
        == b2 && ((x >> 24) & 0xff) as u8 == b3) by (bit_vector)
        requires
            x == (b0 as u32) | ((b1 as u32) << 8) | ((b2 as u32) << 16) | ((b3 as u32) << 24),
    ;
    assert(le32(dec32(b)) =~= b);
}

/// Reading back the eight little-endian bytes of a `u64` restores it.
pub proof fn lemma_le64_dec64(x: u64)
    ensures
        dec64(le64(x)) == x,
{
    assert(((x & 0xff) as u8 as u64) | ((((x >> 8) & 0xff) as u8 as u64) << 8)
        | ((((x >> 16) & 0xff) as u8 as u64) << 16) | ((((x >> 24) & 0xff) as u8 as u64) << 24)
        | ((((x >> 32) & 0xff) as u8 as u64) << 32) | ((((x >> 40) & 0xff) as u8 as u64) << 40)
        | ((((x >> 48) & 0xff) as u8 as u64) << 48) | ((((x >> 56) & 0xff) as u8 as u64) << 56)
        == x) by (bit_vector);
}

/// Eight bytes are exactly the little-endian form of the `u64` they denote.
pub proof fn lemma_dec64_le64(b: Seq<u8>)
    requires
        b.len() == 8,
    ensures
        le64(dec64(b)) == b,
{
    let b0 = b[0];
    let b1 = b[1];
    let b2 = b[2];
    let b3 = b[3];
    let b4 = b[4];
    let b5 = b[5];
    let b6 = b[6];
    let b7 = b[7];
    let x = (b0 as u64) | ((b1 as u64) << 8) | ((b2 as u64) << 16) | ((b3 as u64) << 24)
        | ((b4 as u64) << 32) | ((b5 as u64) << 40) | ((b6 as u64) << 48) | ((b7 as u64) << 56);
    assert((x & 0xff) as u8 == b0 && ((x >> 8) & 0xff) as u8 == b1 && ((x >> 16) & 0xff) as u8
        == b2 && ((x >> 24) & 0xff) as u8 == b3 && ((x >> 32) & 0xff) as u8 == b4 && ((x >> 40)
        & 0xff) as u8 == b5 && ((x >> 48) & 0xff) as u8 == b6 && ((x >> 56) & 0xff) as u8 == b7)
        by (bit_vector)
        requires
            x == (b0 as u64) | ((b1 as u64) << 8) | ((b2 as u64) << 16) | ((b3 as u64) << 24)
                | ((b4 as u64) << 32) | ((b5 as u64) << 40) | ((b6 as u64) << 48) | ((b7
                as u64) << 56),
    ;
    assert(le64(dec64(b)) =~= b);
}

/// Appends the four little-endian bytes of `x` to `out`.
pub fn write_u32_le(out: &mut Vec<u8>, x: u32)
    ensures
        final(out)@ == old(out)@ + le32(x),
{
    proof {
        assert(x & 0xff < 256 && (x >> 8) & 0xff < 256 && (x >> 16) & 0xff < 256 && (x >> 24)
            & 0xff < 256) by (bit_vector);
    }
    out.push((x & 0xff) as u8);
    out.push(((x >> 8) & 0xff) as u8);
    out.push(((x >> 16) & 0xff) as u8);
    out.push(((x >> 24) & 0xff) as u8);
    assert(out@ =~= old(out)@ + le32(x));
}

/// Appends the eight little-endian bytes of `x` to `out`.
pub fn write_u64_le(out: &mut Vec<u8>, x: u64)
    ensures
        final(out)@ == old(out)@ + le64(x),
{
    proof {
        assert(x & 0xff < 256 && (x >> 8) & 0xff < 256 && (x >> 16) & 0xff < 256 && (x >> 24)
            & 0xff < 256 && (x >> 32) & 0xff < 256 && (x >> 40) & 0xff < 256 && (x >> 48) & 0xff
            < 256 && (x >> 56) & 0xff < 256) by (bit_vector);
    }
    out.push((x & 0xff) as u8);
    out.push(((x >> 8) & 0xff) as u8);
    out.push(((x >> 16) & 0xff) as u8);
    out.push(((x >> 24) & 0xff) as u8);
    out.push(((x >> 32) & 0xff) as u8);
    out.push(((x >> 40) & 0xff) as u8);
    out.push(((x >> 48) & 0xff) as u8);
    out.push(((x >> 56) & 0xff) as u8);
    assert(out@ =~= old(out)@ + le64(x));
}

/// Appends all of `b` to `out`.
pub fn write_bytes(out: &mut Vec<u8>, b: &[u8])
    ensures
        final(out)@ == old(out)@ + b@,
{
    let mut i: usize = 0;
    while i < b.len()
        invariant
            i <= b@.len(),
            out@ == old(out)@ + b@.subrange(0, i as int),
        decreases b@.len() - i,
    {
        out.push(b[i]);
        assert(b@.subrange(0, i + 1) =~= b@.subrange(0, i as int).push(b@[i as int]));
        i = i + 1;
    }
    assert(b@.subrange(0, b@.len() as int) =~= b@);
}

/// Appends `b` framed by its length, as `enc_bytes` describes.
pub fn write_len_prefixed(out: &mut Vec<u8>, b: &[u8])
    requires
        b@.len() <= u32::MAX,
    ensures
        final(out)@ == old(out)@ + enc_bytes(b@),
{
    write_u32_le(out, b.len() as u32);
    write_bytes(out, b);
}

/// Reads the `u32` stored little-endian at `pos`.
pub fn read_u32_le(data: &Vec<u8>, pos: usize) -> (r: u32)
    requires
        pos + 4 <= data@.len(),
    ensures
        r == dec32(data@.subrange(pos as int, pos + 4)),
{
    let n = data.len();
    assert(pos + 4 <= n);
    let r = (data[pos] as u32) | ((data[pos + 1] as u32) << 8) | ((data[pos + 2] as u32) << 16)
        | ((data[pos + 3] as u32) << 24);
    proof {
        let s = data@.subrange(pos as int, pos + 4);
        assert(s[0] == data@[pos as int] && s[1] == data@[pos + 1] && s[2] == data@[pos + 2]
            && s[3] == data@[pos + 3]);
    }
    r
}

/// Reads the `u64` stored little-endian at `pos`.
pub fn read_u64_le(data: &Vec<u8>, pos: usize) -> (r: u64)
    requires
        pos + 8 <= data@.len(),
    ensures
        r == dec64(data@.subrange(pos as int, pos + 8)),
{
    let n = data.len();
    assert(pos + 8 <= n);
    let r = (data[pos] as u64) | ((data[pos + 1] as u64) << 8) | ((data[pos + 2] as u64) << 16)
        | ((data[pos + 3] as u64) << 24) | ((data[pos + 4] as u64) << 32) | ((data[pos
        + 5] as u64) << 40) | ((data[pos + 6] as u64) << 48) | ((data[pos + 7] as u64) << 56);
    proof {
        let s = data@.subrange(pos as int, pos + 8);
        assert(s[0] == data@[pos as int] && s[1] == data@[pos + 1] && s[2] == data@[pos + 2]
            && s[3] == data@[pos + 3] && s[4] == data@[pos + 4] && s[5] == data@[pos + 5]
            && s[6] == data@[pos + 6] && s[7] == data@[pos + 7]);
    }
    r
}

/// Copies `count` bytes of `data` starting at `start`.
pub fn read_range(data: &Vec<u8>, start: usize, count: usize) -> (r: Vec<u8>)
    requires
        start + count <= data@.len(),
    ensures
        r@ == data@.subrange(start as int, start + count),
{
    let n = data.len();
    let mut r: Vec<u8> = Vec::new();
    let mut i: usize = 0;
    while i < count
        invariant
            start + count <= n == data@.len(),
            i <= count,
            r@ == data@.subrange(start as int, start + i),
        decreases count - i,
    {
        r.push(data[start + i]);
        assert(data@.subrange(start as int, start + i + 1) =~= data@.subrange(
            start as int,
            start + i,
        ).push(data@[start + i]));
        i = i + 1;
    }
    r
}

} // verus!
