//! When an uploaded image is large enough to deserve a half-width preview.

use vstd::prelude::*;

verus! {

/// File size, in bytes, from which a preview is generated.
pub const MIN_FILE_SIZE_BYTES: usize = 1_000_000;

/// Width or height, in pixels, from which a preview is generated.
pub const MIN_DIMENSION_PX: u32 = 2048;

/// Whether an image of this size and these dimensions needs a half-width version.
pub open spec fn half_width_needed(file_size: int, width: int, height: int) -> bool {
    file_size >= 1_000_000 || width >= 2048 || height >= 2048
}

/// Decides whether an image needs a half-width version: it does as soon as
/// the file or either dimension reaches its threshold.
pub fn needs_half_width(file_size: usize, width: u32, height: u32) -> (needed: bool)
    ensures
        needed == half_width_needed(file_size as int, width as int, height as int),
{
    file_size >= MIN_FILE_SIZE_BYTES || width >= MIN_DIMENSION_PX || height >= MIN_DIMENSION_PX
}

} // verus!
