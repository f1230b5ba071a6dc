//! Packed executable version numbers, as the host encodes them.

use vstd::prelude::*;

verus! {

/// The host's packed encoding of a runtime version: the major number in the
/// top byte, the minor number in the next byte, the build number in the next
/// twelve bits, and the sub-version in the low four bits. Each field is
/// masked to its width before packing.
pub open spec fn exe_version(major: u32, minor: u32, build: u32, sub: u32) -> u32 {
    ((major & 0xFF) << 24) | ((minor & 0xFF) << 16) | ((build & 0xFFF) << 4) | (sub & 0xF)
}

/// Packs a runtime version number the way the host encodes it. When every
/// field is within its width, the result is exactly the weighted sum of the
/// fields, so distinct in-range versions pack to distinct numbers.
pub fn make_exe_version(major: u32, minor: u32, build: u32, sub: u32) -> (v: u32)
    ensures
        v == exe_version(major, minor, build, sub),
        major < 0x100 && minor < 0x100 && build < 0x1000 && sub < 0x10 ==> v == major * 0x1000000
            + minor * 0x10000 + build * 0x10 + sub,
{
    proof {
        assert(major < 0x100 && minor < 0x100 && build < 0x1000 && sub < 0x10
            ==> exe_version(major, minor, build, sub) == major * 0x1000000 + minor * 0x10000
            + build * 0x10 + sub) by (bit_vector);
    }
    ((major & 0xFF) << 24) | ((minor & 0xFF) << 16) | ((build & 0xFFF) << 4) | (sub & 0xF)
}

} // verus!
