//! Bit fields of memory-mapped register words.
//!
//! A field is named by the offset of its lowest bit and by a mask of its
//! width (`1`, `3` or `7`). Writing one field leaves every bit outside it as
//! it was, as a read-modify-write of the register does.
use vstd::prelude::*;

verus! {

/// The field of `w` that starts at bit `off` and is selected by `mask`.
pub open spec fn field16(w: u16, off: u16, mask: u16) -> u16 {
    (w >> off) & mask
}

/// `w` with the field at bit `off` (selected by `mask`) replaced by `v`.
pub open spec fn with_field16(w: u16, off: u16, mask: u16, v: u16) -> u16 {
    (w & !(mask << off)) | ((v & mask) << off)
}

/// The field of `w` that starts at bit `off` and is selected by `mask`.
pub open spec fn field32(w: u32, off: u32, mask: u32) -> u32 {
    (w >> off) & mask
}

/// `w` with the field at bit `off` (selected by `mask`) replaced by `v`.
pub open spec fn with_field32(w: u32, off: u32, mask: u32, v: u32) -> u32 {
    (w & !(mask << off)) | ((v & mask) << off)
}

/// Writes `v` into the field of `w` at bit `off`.
pub(crate) fn set_field16(w: u16, off: u16, mask: u16, v: u16) -> (r: u16)
    requires
        off < 16,
    ensures
        r == with_field16(w, off, mask, v),
{
    (w & !(mask << off)) | ((v & mask) << off)
}

/// Writes `v` into the field of `w` at bit `off`.
pub(crate) fn set_field32(w: u32, off: u32, mask: u32, v: u32) -> (r: u32)
    requires
        off < 32,
    ensures
        r == with_field32(w, off, mask, v),
{
    (w & !(mask << off)) | ((v & mask) << off)
}

/// Reading back a field that was just written gives the written value.
pub proof fn lemma_with_field16(w: u16, off: u16, mask: u16, v: u16)
    requires
        off + 3 <= 16,
        mask == 1 || mask == 3 || mask == 7,
        v <= mask,
    ensures
        field16(with_field16(w, off, mask, v), off, mask) == v,
{
    assert(field16(with_field16(w, off, mask, v), off, mask) == v) by (bit_vector)
        requires
            off + 3 <= 16,
            mask == 1 || mask == 3 || mask == 7,
            v <= mask,
    ;
}

/// Reading back a field that was just written gives the written value.
pub proof fn lemma_with_field32(w: u32, off: u32, mask: u32, v: u32)
    requires
        off + 3 <= 32,
        mask == 1 || mask == 3 || mask == 7,
        v <= mask,
    ensures
        field32(with_field32(w, off, mask, v), off, mask) == v,
{
    assert(field32(with_field32(w, off, mask, v), off, mask) == v) by (bit_vector)
        requires
            off + 3 <= 32,
            mask == 1 || mask == 3 || mask == 7,
            v <= mask,
    ;
}

/// Writing one field leaves a field that lies wholly above or below it as it was.
pub proof fn lemma_disjoint_field16(w: u16, off: u16, mask: u16, v: u16, off2: u16, mask2: u16)
    requires
        off < 16,
        off2 < 16,
        (mask == 1 && off + 1 <= off2) || (mask == 3 && off + 2 <= off2) || (mask == 7 && off + 3
            <= off2) || (mask2 == 1 && off2 + 1 <= off) || (mask2 == 3 && off2 + 2 <= off) || (mask2
            == 7 && off2 + 3 <= off),
    ensures
        field16(with_field16(w, off, mask, v), off2, mask2) == field16(w, off2, mask2),
{
    assert(field16(with_field16(w, off, mask, v), off2, mask2) == field16(w, off2, mask2))
        by (bit_vector)
        requires
            off < 16,
            off2 < 16,
            (mask == 1 && off + 1 <= off2) || (mask == 3 && off + 2 <= off2) || (mask == 7 && off
                + 3 <= off2) || (mask2 == 1 && off2 + 1 <= off) || (mask2 == 3 && off2 + 2 <= off)
                || (mask2 == 7 && off2 + 3 <= off),
    ;
}

/// Writing one field leaves a field that lies wholly above or below it as it was.
pub proof fn lemma_disjoint_field32(w: u32, off: u32, mask: u32, v: u32, off2: u32, mask2: u32)
    requires
        off < 32,
        off2 < 32,
        (mask == 1 && off + 1 <= off2) || (mask == 3 && off + 2 <= off2) || (mask == 7 && off + 3
            <= off2) || (mask2 == 1 && off2 + 1 <= off) || (mask2 == 3 && off2 + 2 <= off) || (mask2
            == 7 && off2 + 3 <= off),
    ensures
        field32(with_field32(w, off, mask, v), off2, mask2) == field32(w, off2, mask2),
{
    assert(field32(with_field32(w, off, mask, v), off2, mask2) == field32(w, off2, mask2))
        by (bit_vector)
        requires
            off < 32,
            off2 < 32,
            (mask == 1 && off + 1 <= off2) || (mask == 3 && off + 2 <= off2) || (mask == 7 && off
                + 3 <= off2) || (mask2 == 1 && off2 + 1 <= off) || (mask2 == 3 && off2 + 2 <= off)
                || (mask2 == 7 && off2 + 3 <= off),
    ;
}

} // verus!
