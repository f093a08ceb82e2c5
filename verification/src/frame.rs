//! Sizing the buffer of a frame transfer.
//!
//! The SDK writes a frame into a buffer of the caller and trusts the length
//! it is told.  It does not check the length against the frame: too short a
//! buffer is overrun.  So the length is computed here, from the region of
//! interest that the camera reports, and a transfer is planned only for a
//! buffer that holds the whole frame.

use vstd::prelude::*;
use crate::enums::ASIImageType;

verus! {

/// The bytes one pixel takes.  The end tag is no encoding and takes none.
pub open spec fn spec_bytes_per_pixel(image_type: ASIImageType) -> nat {
    match image_type {
        ASIImageType::Raw8 => 1,
        ASIImageType::Rgb24 => 3,
        ASIImageType::Raw16 => 2,
        ASIImageType::Y8 => 1,
        ASIImageType::End => 0,
    }
}

/// The bytes one frame takes: width times height times the bytes of a
/// pixel, the dimensions being those after binning.  A dimension that is
/// not positive leaves nothing to transfer.
pub open spec fn spec_frame_size(width: i32, height: i32, image_type: ASIImageType) -> nat {
    if width > 0 && height > 0 {
        (width * height * spec_bytes_per_pixel(image_type)) as nat
    } else {
        0
    }
}

/// Whether a buffer of `len` bytes may be handed to the SDK for one frame:
/// it holds the frame, and its length can be told in the SDK's wide type.
pub open spec fn spec_holds_frame(len: nat, width: i32, height: i32, image_type: ASIImageType)
    -> bool {
    spec_frame_size(width, height, image_type) <= len <= i64::MAX
}

pub fn bytes_per_pixel(image_type: ASIImageType) -> (n: u64)
    ensures
        n == spec_bytes_per_pixel(image_type),
{
    match image_type {
        ASIImageType::Raw8 => 1,
        ASIImageType::Rgb24 => 3,
        ASIImageType::Raw16 => 2,
        ASIImageType::Y8 => 1,
        ASIImageType::End => 0,
    }
}

/// The size of the buffer to allocate for one frame.
pub fn frame_size(width: i32, height: i32, image_type: ASIImageType) -> (n: u64)
    ensures
        n == spec_frame_size(width, height, image_type),
{
    if width > 0 && height > 0 {
        let w = width as u64;
        let h = height as u64;
        assert(w * h <= 0x7fff_ffff * 0x7fff_ffff) by (nonlinear_arith)
            requires
                0 < w <= 0x7fff_ffff,
                0 < h <= 0x7fff_ffff,
        ;
        let pixels = w * h;
        let each = bytes_per_pixel(image_type);
        assert(pixels * each <= 0x7fff_ffff * 0x7fff_ffff * 3) by (nonlinear_arith)
            requires
                pixels <= 0x7fff_ffff * 0x7fff_ffff,
                each <= 3,
        ;
        assert(pixels * each == width * height * spec_bytes_per_pixel(image_type))
            by (nonlinear_arith)
            requires
                pixels == width * height,
                each == spec_bytes_per_pixel(image_type),
        ;
        pixels * each
    } else {
        0
    }
}

/// Whether a buffer of `len` bytes may be handed to `transfer_len`.
pub fn holds_frame(len: usize, width: i32, height: i32, image_type: ASIImageType) -> (b: bool)
    ensures
        b == spec_holds_frame(len as nat, width, height, image_type),
{
    frame_size(width, height, image_type) <= len as u64 && len as u64 <= 0x7fff_ffff_ffff_ffff
}

/// The length to tell the SDK for a transfer into `buffer`.  A buffer that
/// does not hold the frame is not accepted.
pub fn transfer_len(buffer: &[u8], width: i32, height: i32, image_type: ASIImageType) -> (len: i64)
    requires
        spec_holds_frame(buffer@.len(), width, height, image_type),
    ensures
        len == buffer@.len(),
        len >= spec_frame_size(width, height, image_type),
{
    buffer.len() as i64
}

/// Plans a transfer into `buffer`: the length to tell the SDK, or nothing if
/// the buffer does not hold the frame.
pub fn plan_transfer(buffer: &[u8], width: i32, height: i32, image_type: ASIImageType) -> (len:
    Option<i64>)
    ensures
        len is Some <==> spec_holds_frame(buffer@.len(), width, height, image_type),
        len matches Some(n) ==> n == buffer@.len(),
{
    if holds_frame(buffer.len(), width, height, image_type) {
        Some(transfer_len(buffer, width, height, image_type))
    } else {
        None
    }
}

} // verus!
