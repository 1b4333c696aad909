//! Per-frame instance records and their packed byte form.
//!
//! The GPU consumes instance data as tightly packed little-endian 32-bit
//! words: two for the position, two for the size, three for the color.
//! The library stores each scalar as the raw bit pattern of the host's
//! 32-bit float channel (`f32::to_bits` on the host side), so the packing
//! below is exact word-for-word and byte-for-byte.

use vstd::prelude::*;

verus! {

/// An RGB color; each field is the IEEE-754 bit pattern of one channel.
#[derive(Clone, Copy, Debug, PartialEq, Eq, Structural)]
pub struct Color(pub u32, pub u32, pub u32);

/// A 2D point in normalized screen coordinates; each field is the
/// IEEE-754 bit pattern of one coordinate.
#[derive(Clone, Copy, Debug, PartialEq, Eq, Structural)]
pub struct ScreenPosition(pub u32, pub u32);

/// One rectangle to draw: center position, half-extent, fill color.
/// The full set is replaced wholesale every frame; a record has no
/// identity beyond its array position.
#[derive(Clone, Copy, Debug, PartialEq, Eq, Structural)]
pub struct RectangleInstance {
    pub position: ScreenPosition,
    pub size: ScreenPosition,
    pub color: Color,
}

/// Bytes of one packed instance record: 7 words of 4 bytes.
pub const INSTANCE_STRIDE: usize = 28;

/// The four little-endian bytes of a 32-bit word.
pub open spec fn u32_le_bytes(x: u32) -> Seq<u8> {
    seq![
        (x & 0xff) as u8,
        ((x >> 8) & 0xff) as u8,
        ((x >> 16) & 0xff) as u8,
        ((x >> 24) & 0xff) as u8,
    ]
}

/// The 28 packed bytes of one instance record, in upload order:
/// position, size, color, each channel as a little-endian word.
pub open spec fn instance_bytes(r: RectangleInstance) -> Seq<u8> {
    u32_le_bytes(r.position.0) + u32_le_bytes(r.position.1) + u32_le_bytes(r.size.0)
        + u32_le_bytes(r.size.1) + u32_le_bytes(r.color.0) + u32_le_bytes(r.color.1)
        + u32_le_bytes(r.color.2)
}

/// The packed bytes of a whole instance set, records in input order.
pub open spec fn instances_bytes(rs: Seq<RectangleInstance>) -> Seq<u8>
    decreases rs.len(),
{
    if rs.len() == 0 {
        Seq::empty()
    } else {
        instances_bytes(rs.drop_last()) + instance_bytes(rs.last())
    }
}

/// A packed instance set is exactly `INSTANCE_STRIDE` bytes per record.
pub proof fn lemma_instances_bytes_len(rs: Seq<RectangleInstance>)
    ensures
        instances_bytes(rs).len() == INSTANCE_STRIDE * rs.len(),
    decreases rs.len(),
{
    if rs.len() > 0 {
        lemma_instances_bytes_len(rs.drop_last());
    }
}

/// The packed buffer lays records out verbatim in input order: record
/// `k` occupies exactly the bytes `[STRIDE * k, STRIDE * (k + 1))`.
pub proof fn lemma_instances_bytes_layout(rs: Seq<RectangleInstance>, k: int)
    requires
        0 <= k < rs.len(),
    ensures
        instances_bytes(rs).subrange(
            INSTANCE_STRIDE * k,
            INSTANCE_STRIDE * (k + 1),
        ) == instance_bytes(rs[k]),
    decreases rs.len(),
{
    let pre = rs.drop_last();
    lemma_instances_bytes_len(pre);
    lemma_instances_bytes_len(rs);
    if k == rs.len() - 1 {
        assert(instances_bytes(rs).subrange(
            INSTANCE_STRIDE * k,
            INSTANCE_STRIDE * (k + 1),
        ) =~= instance_bytes(rs[k]));
    } else {
        lemma_instances_bytes_layout(pre, k);
        assert(instances_bytes(rs).subrange(
            INSTANCE_STRIDE * k,
            INSTANCE_STRIDE * (k + 1),
        ) =~= instances_bytes(pre).subrange(
            INSTANCE_STRIDE * k,
            INSTANCE_STRIDE * (k + 1),
        ));
        assert(pre[k] == rs[k]);
    }
}

/// Appends the four little-endian bytes of `x`.
pub(crate) fn push_u32_le(out: &mut Vec<u8>, x: u32)
    ensures
        final(out)@ == old(out)@ + u32_le_bytes(x),
{
    out.push((x & 0xff) as u8);
    out.push(((x >> 8) & 0xff) as u8);
    out.push(((x >> 16) & 0xff) as u8);
    out.push(((x >> 24) & 0xff) as u8);
    assert(out@ =~= old(out)@ + u32_le_bytes(x));
}

/// Appends the 28 packed bytes of one record.
fn push_instance(out: &mut Vec<u8>, r: &RectangleInstance)
    ensures
        final(out)@ == old(out)@ + instance_bytes(*r),
{
    push_u32_le(out, r.position.0);
    push_u32_le(out, r.position.1);
    push_u32_le(out, r.size.0);
    push_u32_le(out, r.size.1);
    push_u32_le(out, r.color.0);
    push_u32_le(out, r.color.1);
    push_u32_le(out, r.color.2);
    assert(out@ =~= old(out)@ + instance_bytes(*r));
}

/// Packs an instance set verbatim, in input order, for upload.
pub fn pack_instances(instances: &Vec<RectangleInstance>) -> (r: Vec<u8>)
    ensures
        r@ == instances_bytes(instances@),
        r@.len() == INSTANCE_STRIDE * instances@.len(),
{
    let mut out: Vec<u8> = Vec::new();
    let mut i: usize = 0;
    while i < instances.len()
        invariant
            i <= instances.len(),
            out@ == instances_bytes(instances@.subrange(0, i as int)),
        decreases instances.len() - i,
    {
        push_instance(&mut out, &instances[i]);
        proof {
            let pre = instances@.subrange(0, i as int);
            let post = instances@.subrange(0, i + 1 as int);
            assert(post.drop_last() =~= pre);
            assert(post.last() == instances@[i as int]);
        }
        i = i + 1;
    }
    proof {
        assert(instances@.subrange(0, instances@.len() as int) =~= instances@);
        lemma_instances_bytes_len(instances@);
    }
    out
}

} // verus!
