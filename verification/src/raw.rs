//! The grayscale image format's pixel encoding: a nibble-packing transform
//! applied per pixel byte. Decoding whole images lives with the caller.

use vstd::prelude::*;

verus! {

/// The nibble-packing transform on one encoded pixel value.
pub open spec fn spec_reduce_precision(value: u32) -> u32 {
    (((value >> 4 & 0xf000000 | value & 0xf00000) >> 4 | value & 0xf000) >> 4 | value & 0xf0) >> 4
}

/// Pack the four nibbles of interest of an encoded pixel value.
pub fn reduce_precision(value: u32) -> (r: u32)
    ensures
        r == spec_reduce_precision(value),
{
    (((value >> 4 & 0xf000000 | value & 0xf00000) >> 4 | value & 0xf000) >> 4 | value & 0xf0) >> 4
}

} // verus!
