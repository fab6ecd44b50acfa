//! 64-bit Solaris: the major number is the upper half of the device number,
//! the minor number the lower half.

use vstd::prelude::*;

verus! {

/// Number of major device bits.
pub const L_BITSMAJOR: u32 = 32;

/// Number of minor device bits.
pub const L_BITSMINOR: u32 = 32;

/// Largest major number.
pub const L_MAXMAJ: u64 = 0xffff_ffff;

/// Largest minor number.
pub const L_MAXMIN: u64 = 0xffff_ffff;

/// The device number that packs `major` and `minor`.
pub open spec fn spec_makedev(major: u32, minor: u32) -> u64 {
    ((major as u64) << 32) | ((minor as u64) & 0xffff_ffff)
}

/// The major number packed in `dev`.
pub open spec fn spec_major(dev: u64) -> u32 {
    (dev >> 32) as u32
}

/// The minor number packed in `dev`.
pub open spec fn spec_minor(dev: u64) -> u32 {
    (dev & 0xffff_ffff) as u32
}

/// Packs a major and a minor number into a device number.
pub fn makedev(major: u32, minor: u32) -> (dev: u64)
    ensures
        dev == spec_makedev(major, minor),
        spec_major(dev) == major,
        spec_minor(dev) == minor,
{
    proof {
        lemma_unpack_makedev(major, minor);
    }
    ((major as u64) << L_BITSMINOR) | ((minor as u64) & L_MAXMIN)
}

/// Extracts the major number of a device number.
pub fn major(dev: u64) -> (m: u32)
    ensures
        m == spec_major(dev),
{
    assert((dev >> 32) <= 0xffff_ffff) by (bit_vector);
    (dev >> L_BITSMAJOR) as u32
}

/// Extracts the minor number of a device number.
pub fn minor(dev: u64) -> (m: u32)
    ensures
        m == spec_minor(dev),
{
    assert((dev & 0xffff_ffff) <= 0xffff_ffff) by (bit_vector);
    (dev & L_MAXMIN) as u32
}

/// Unpacking a packed pair gives the pair back.
pub proof fn lemma_unpack_makedev(major: u32, minor: u32)
    ensures
        spec_major(spec_makedev(major, minor)) == major,
        spec_minor(spec_makedev(major, minor)) == minor,
{
    assert(spec_major(spec_makedev(major, minor)) == major) by (bit_vector);
    assert(spec_minor(spec_makedev(major, minor)) == minor) by (bit_vector);
}

/// Packing the two numbers of a device number gives the device number back.
pub proof fn lemma_makedev_unpack(dev: u64)
    ensures
        spec_makedev(spec_major(dev), spec_minor(dev)) == dev,
{
    assert(spec_makedev(spec_major(dev), spec_minor(dev)) == dev) by (bit_vector);
}

} // verus!
