//! Frame data: kernel buffer handles, per-plane buffer records, frame
//! metadata, and the bit-exact reconstruction of the 64-bit format modifier
//! from the two 32-bit halves the wire protocol delivers.

use vstd::prelude::*;

verus! {

/// An owned kernel buffer handle. Constructed from the raw integer exactly
/// once, at the event-delivery boundary; moved (never copied) afterwards, so
/// that exactly one owner can close or hand off the underlying resource.
pub struct BufferHandle {
    raw: i32,
}

impl BufferHandle {
    /// The raw handle value this owner wraps.
    pub closed spec fn raw_value(&self) -> i32 {
        self.raw
    }

    /// Wrap a raw handle received from the server, taking ownership of it.
    pub fn from_raw(raw: i32) -> (h: BufferHandle)
        ensures
            h.raw_value() == raw,
    {
        BufferHandle { raw }
    }

    /// Give up ownership, yielding the raw value so the caller can close it
    /// or import it into a consumer.
    pub fn into_raw(self) -> (r: i32)
        ensures
            r == self.raw_value(),
    {
        self.raw
    }

    /// Read the raw value without giving up ownership.
    pub fn as_raw(&self) -> (r: i32)
        ensures
            r == self.raw_value(),
    {
        self.raw
    }
}

/// One plane of a captured frame: the delivered handle together with the
/// plane index and the layout the server declared for it.
pub struct PlaneBuffer {
    pub index: u32,
    pub handle: BufferHandle,
    pub offset: u32,
    pub stride: u32,
    pub size: u32,
}

/// Metadata announced for a frame, with the format modifier already
/// reconstructed into its 64-bit form.
#[derive(Clone, Copy, PartialEq, Eq, Structural, Debug)]
pub struct FrameMetadata {
    pub width: u32,
    pub height: u32,
    pub offset_x: u32,
    pub offset_y: u32,
    pub format: u32,
    pub modifier: u64,
    pub num_objects: u32,
    pub buffer_flags: u32,
    pub flags: u32,
}

/// The 64-bit format modifier as a function of the two 32-bit halves: the
/// high half in bits 32..64, the low half in bits 0..32, both unsigned.
pub open spec fn modifier_of(mod_high: u32, mod_low: u32) -> u64 {
    ((mod_high as u64) << 32u64) | (mod_low as u64)
}

/// Reconstruct the 64-bit format modifier from its two halves.
pub fn format_modifier(mod_high: u32, mod_low: u32) -> (m: u64)
    ensures
        m == modifier_of(mod_high, mod_low),
        m == mod_high * 0x1_0000_0000u64 + mod_low,
{
    proof {
        lemma_modifier_exact(mod_high, mod_low);
    }
    ((mod_high as u64) << 32u64) | (mod_low as u64)
}

/// The reconstruction is bit-exact: it equals the high half scaled by 2^32
/// plus the low half, with no sign extension and no truncation.
pub proof fn lemma_modifier_exact(mod_high: u32, mod_low: u32)
    ensures
        modifier_of(mod_high, mod_low) == mod_high * 0x1_0000_0000u64 + mod_low,
{
    assert(((mod_high as u64) << 32u64) | (mod_low as u64) == (mod_high as u64)
        * 0x1_0000_0000u64 + (mod_low as u64)) by (bit_vector);
}

/// A successfully captured frame: its metadata and the plane buffers in the
/// order the server delivered them, ownership of every handle included.
pub struct CapturedFrame {
    pub meta: FrameMetadata,
    pub buffers: Vec<PlaneBuffer>,
}

/// Spec-level value of a captured frame, with the buffer list as a sequence.
#[verifier::ext_equal]
pub struct FrameView {
    pub meta: FrameMetadata,
    pub buffers: Seq<PlaneBuffer>,
}

impl View for CapturedFrame {
    type V = FrameView;

    open spec fn view(&self) -> FrameView {
        FrameView { meta: self.meta, buffers: self.buffers@ }
    }
}

} // verus!
