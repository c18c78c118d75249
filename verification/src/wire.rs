//! Little-endian wire encoding primitives shared by the request decoder and
//! the reply encoder, and the layout of a reply frame.
//!
//! Every message on the FUSE character device is a self-delimited frame.
//! Outbound frames start with a 16-byte header `{u32 len, i32 error,
//! u64 unique}`; `len` counts the whole frame.  All multi-byte fields are
//! little-endian (the host order on the supported architectures).

use vstd::bytes::{
    lemma_auto_spec_u16_to_from_le_bytes, lemma_auto_spec_u32_to_from_le_bytes,
    lemma_auto_spec_u64_to_from_le_bytes, spec_u16_to_le_bytes, spec_u32_from_le_bytes,
    spec_u32_to_le_bytes, spec_u64_from_le_bytes, spec_u64_to_le_bytes, u16_to_le_bytes,
    u32_from_le_bytes, u32_to_le_bytes, u64_from_le_bytes, u64_to_le_bytes,
};
use vstd::prelude::*;
use vstd::slice::slice_subrange;

verus! {

/// The value of a signed 32-bit field as it appears on the wire
/// (two's complement).
pub open spec fn wire_i32(x: i32) -> u32 {
    if x >= 0 {
        x as u32
    } else {
        (x + 0x1_0000_0000) as u32
    }
}

/// The value of a signed 64-bit field as it appears on the wire
/// (two's complement).
pub open spec fn wire_i64(x: i64) -> u64 {
    if x >= 0 {
        x as u64
    } else {
        (x + 0x1_0000_0000_0000_0000) as u64
    }
}

/// The unsigned 32-bit value read little-endian at offset `i` of `s`.
pub open spec fn le32(s: Seq<u8>, i: int) -> u32 {
    spec_u32_from_le_bytes(s.subrange(i, i + 4))
}

/// The unsigned 64-bit value read little-endian at offset `i` of `s`.
pub open spec fn le64(s: Seq<u8>, i: int) -> u64 {
    spec_u64_from_le_bytes(s.subrange(i, i + 8))
}

/// The lengths of the little-endian encodings.
pub proof fn lemma_le_lens()
    ensures
        forall|x: u16| (#[trigger] spec_u16_to_le_bytes(x)).len() == 2,
        forall|x: u32| (#[trigger] spec_u32_to_le_bytes(x)).len() == 4,
        forall|x: u64| (#[trigger] spec_u64_to_le_bytes(x)).len() == 8,
{
    lemma_auto_spec_u16_to_from_le_bytes();
    lemma_auto_spec_u32_to_from_le_bytes();
    lemma_auto_spec_u64_to_from_le_bytes();
}

/// Appends the bytes of `src` to `out`.
pub fn push_bytes(out: &mut Vec<u8>, src: &[u8])
    ensures
        final(out)@ == old(out)@ + src@,
{
    out.extend_from_slice(src);
    proof {
        assert(out@ =~= old(out)@ + src@);
    }
}

/// Appends a `u16` little-endian.
pub fn put_u16(out: &mut Vec<u8>, x: u16)
    ensures
        final(out)@ == old(out)@ + spec_u16_to_le_bytes(x),
{
    let b = u16_to_le_bytes(x);
    push_bytes(out, b.as_slice());
}

/// Appends a `u32` little-endian.
pub fn put_u32(out: &mut Vec<u8>, x: u32)
    ensures
        final(out)@ == old(out)@ + spec_u32_to_le_bytes(x),
{
    let b = u32_to_le_bytes(x);
    push_bytes(out, b.as_slice());
}

/// Appends a `u64` little-endian.
pub fn put_u64(out: &mut Vec<u8>, x: u64)
    ensures
        final(out)@ == old(out)@ + spec_u64_to_le_bytes(x),
{
    let b = u64_to_le_bytes(x);
    push_bytes(out, b.as_slice());
}

/// Appends an `i32` little-endian, two's complement.
pub fn put_i32(out: &mut Vec<u8>, x: i32)
    ensures
        final(out)@ == old(out)@ + spec_u32_to_le_bytes(wire_i32(x)),
{
    let w: u32 = if x >= 0 {
        x as u32
    } else {
        let y: i64 = x as i64 + 0x1_0000_0000i64;
        y as u32
    };
    assert(w == wire_i32(x));
    put_u32(out, w);
}

/// Appends an `i64` little-endian, two's complement.
pub fn put_i64(out: &mut Vec<u8>, x: i64)
    ensures
        final(out)@ == old(out)@ + spec_u64_to_le_bytes(wire_i64(x)),
{
    let w: u64 = if x >= 0 {
        x as u64
    } else {
        let half: u64 = 0x8000_0000_0000_0000;
        let y: i64 = x + 0x7fff_ffff_ffff_ffffi64 + 1;
        (y as u64) + half
    };
    proof {
        assert(w == wire_i64(x));
    }
    put_u64(out, w);
}

/// Reads the `u32` stored little-endian at `off`.
pub fn get_u32(buf: &[u8], off: usize) -> (r: u32)
    requires
        off + 4 <= buf@.len(),
        buf@.len() <= usize::MAX,
    ensures
        r == le32(buf@, off as int),
{
    u32_from_le_bytes(slice_subrange(buf, off, off + 4))
}

/// Reads the `u64` stored little-endian at `off`.
pub fn get_u64(buf: &[u8], off: usize) -> (r: u64)
    requires
        off + 8 <= buf@.len(),
        buf@.len() <= usize::MAX,
    ensures
        r == le64(buf@, off as int),
{
    u64_from_le_bytes(slice_subrange(buf, off, off + 8))
}

/// The concatenation of a sequence of byte strings.
pub open spec fn concat_bytes(d: Seq<Seq<u8>>) -> Seq<u8>
    decreases d.len(),
{
    if d.len() == 0 {
        Seq::empty()
    } else {
        concat_bytes(d.drop_last()) + d.last()
    }
}

/// The summed length of a sequence of byte strings.
pub open spec fn total_len(d: Seq<Seq<u8>>) -> int
    decreases d.len(),
{
    if d.len() == 0 {
        0int
    } else {
        total_len(d.drop_last()) + d.last().len()
    }
}

/// Concatenating byte strings yields their summed length.
pub proof fn lemma_concat_bytes_len(d: Seq<Seq<u8>>)
    ensures
        concat_bytes(d).len() == total_len(d),
    decreases d.len(),
{
    if d.len() > 0 {
        lemma_concat_bytes_len(d.drop_last());
    }
}

/// Extending a prefix by one byte string extends its concatenation.
pub proof fn lemma_concat_take_step(d: Seq<Seq<u8>>, i: int)
    requires
        0 <= i < d.len(),
    ensures
        concat_bytes(d.take(i + 1)) == concat_bytes(d.take(i)) + d[i],
        total_len(d.take(i + 1)) == total_len(d.take(i)) + d[i].len(),
{
    assert(d.take(i + 1).drop_last() =~= d.take(i));
    assert(d.take(i + 1).last() == d[i]);
}

/// The summed length of a prefix never exceeds that of the whole.
pub proof fn lemma_total_len_mono(d: Seq<Seq<u8>>, i: int)
    requires
        0 <= i <= d.len(),
    ensures
        total_len(d.take(i)) <= total_len(d),
    decreases d.len() - i,
{
    if i == d.len() {
        assert(d.take(i) =~= d);
    } else {
        lemma_concat_take_step(d, i);
        lemma_total_len_mono(d, i + 1);
    }
}

/// The byte layout of one outbound frame: a 16-byte header
/// `{len, error, unique}` followed by the payload, where `len` counts the
/// whole frame.
pub open spec fn frame_bytes(unique: u64, error: i32, payload: Seq<u8>) -> Seq<u8>
    recommends
        16 + payload.len() <= u32::MAX,
{
    spec_u32_to_le_bytes((16 + payload.len()) as u32) + spec_u32_to_le_bytes(wire_i32(error))
        + spec_u64_to_le_bytes(unique) + payload
}

/// A frame is 16 bytes of header plus its payload.
pub proof fn lemma_frame_bytes_len(unique: u64, error: i32, payload: Seq<u8>)
    ensures
        frame_bytes(unique, error, payload).len() == 16 + payload.len(),
{
    lemma_le_lens();
}

/// Framing is invertible: reading the header fields of a frame gives
/// back the values it was built from, the length field counts the whole
/// frame, and the bytes after the header are exactly the payload.
pub proof fn lemma_frame_round_trip(unique: u64, error: i32, payload: Seq<u8>)
    requires
        16 + payload.len() <= u32::MAX,
    ensures
        ({
            let f = frame_bytes(unique, error, payload);
            &&& f.len() == 16 + payload.len()
            &&& le32(f, 0) == 16 + payload.len()
            &&& le32(f, 4) == wire_i32(error)
            &&& le64(f, 8) == unique
            &&& f.subrange(16, f.len() as int) == payload
        }),
{
    lemma_auto_spec_u32_to_from_le_bytes();
    lemma_auto_spec_u64_to_from_le_bytes();
    lemma_le_lens();
    let f = frame_bytes(unique, error, payload);
    assert(f.subrange(0, 4) =~= spec_u32_to_le_bytes((16 + payload.len()) as u32));
    assert(f.subrange(4, 8) =~= spec_u32_to_le_bytes(wire_i32(error)));
    assert(f.subrange(8, 16) =~= spec_u64_to_le_bytes(unique));
    assert(f.subrange(16, f.len() as int) =~= payload);
}

} // verus!
