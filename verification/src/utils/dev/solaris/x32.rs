//! 32-bit Solaris (SVR4): 14 major device bits above 18 minor device bits.

use vstd::prelude::*;

verus! {

/// Number of SVR4 major device bits.
pub const L_BITSMAJOR: u32 = 14;

/// Number of SVR4 minor device bits.
pub const L_BITSMINOR: u32 = 18;

/// Largest SVR4 major number.
pub const L_MAXMAJ: u32 = 0x3fff;

/// Largest SVR4 minor number.
pub const L_MAXMIN: u32 = 0x3ffff;

/// The device number that packs `major` and `minor`.
pub open spec fn spec_makedev(major: u32, minor: u32) -> u32 {
    (major << 18) | (minor & 0x3ffff)
}

/// What `major` reads from `dev`: everything above its low 14 bits.
pub open spec fn spec_major(dev: u32) -> u32 {
    dev >> 14
}

/// The minor number packed in `dev`.
pub open spec fn spec_minor(dev: u32) -> u32 {
    dev & 0x3ffff
}

/// Packs a major and a minor number into a device number. Bits of the major
/// number above the 14th and of the minor number above the 18th are dropped.
pub fn makedev(major: u32, minor: u32) -> (dev: u32)
    ensures
        dev == spec_makedev(major, minor),
        spec_minor(dev) == minor & 0x3ffff,
{
    assert(spec_minor(spec_makedev(major, minor)) == minor & 0x3ffff) by (bit_vector);
    (major << L_BITSMINOR) | (minor & L_MAXMIN)
}

/// Shifts the low `L_BITSMAJOR` bits out of a device number. The shift is by
/// the count of major bits, not of minor bits, so the result still carries the
/// top four bits of the minor number below the major number.
pub fn major(dev: u32) -> (m: u32)
    ensures
        m == spec_major(dev),
        m >> 4 == dev >> 18,
{
    assert((dev >> 14) >> 4 == dev >> 18) by (bit_vector);
    dev >> L_BITSMAJOR
}

/// Extracts the minor number of a device number.
pub fn minor(dev: u32) -> (m: u32)
    ensures
        m == spec_minor(dev),
        m <= 0x3ffff,
{
    assert((dev & 0x3ffff) <= 0x3ffff) by (bit_vector);
    dev & L_MAXMIN
}

} // verus!
