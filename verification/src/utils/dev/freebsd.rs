//! FreeBSD's 64-bit device numbers.
//!
//! The major number has 32 bits. Its low byte sits in bits 8..16 of the device
//! number and its upper 24 bits in bits 40..64. The minor number has 32 bits.
//! Its low byte sits in bits 0..8, its second byte in bits 32..40 and its upper
//! 16 bits in bits 16..32.

use vstd::prelude::*;

verus! {

/// The device number that packs `major` and `minor`.
pub open spec fn spec_makedev(major: u64, minor: u64) -> u64 {
    ((major & 0xffffff00) << 32) | ((major & 0x000000ff) << 8) | ((minor & 0xff00) << 24) | (minor
        & 0xffff00ff)
}

/// The major number packed in `dev`.
pub open spec fn spec_major(dev: u64) -> u64 {
    ((dev >> 32) & 0xffffff00) | ((dev >> 8) & 0xff)
}

/// The minor number packed in `dev`.
pub open spec fn spec_minor(dev: u64) -> u64 {
    ((dev >> 24) & 0xff00) | (dev & 0xffff00ff)
}

/// Packs a major and a minor number into a device number. Bits of either
/// number above the 32nd are dropped.
pub fn makedev(major: u64, minor: u64) -> (dev: u64)
    ensures
        dev == spec_makedev(major, minor),
{
    ((major & 0xffffff00) << 32) | ((major & 0x000000ff) << 8) | ((minor & 0xff00) << 24) | (minor
        & 0xffff00ff)
}

/// Extracts the major number of a device number.
pub fn major(dev: u64) -> (m: u64)
    ensures
        m == spec_major(dev),
        m <= 0xffff_ffff,
{
    let m: u64 = ((dev >> 32) & 0xffffff00) | ((dev >> 8) & 0xff);
    assert(spec_major(dev) <= 0xffff_ffff) by (bit_vector);
    m
}

/// Extracts the minor number of a device number.
pub fn minor(dev: u64) -> (m: u64)
    ensures
        m == spec_minor(dev),
        m <= 0xffff_ffff,
{
    let m: u64 = ((dev >> 24) & 0xff00) | (dev & 0xffff00ff);
    assert(spec_minor(dev) <= 0xffff_ffff) by (bit_vector);
    m
}

/// Unpacking a packed pair gives the pair back, for numbers of at most 32 bits.
pub proof fn lemma_unpack_makedev(major: u64, minor: u64)
    requires
        major <= 0xffff_ffff,
        minor <= 0xffff_ffff,
    ensures
        spec_major(spec_makedev(major, minor)) == major,
        spec_minor(spec_makedev(major, minor)) == minor,
{
    assert(spec_major(spec_makedev(major, minor)) == major) by (bit_vector)
        requires
            major <= 0xffff_ffff,
            minor <= 0xffff_ffff,
    ;
    assert(spec_minor(spec_makedev(major, minor)) == minor) by (bit_vector)
        requires
            major <= 0xffff_ffff,
            minor <= 0xffff_ffff,
    ;
}

/// Packing the two numbers of a device number gives the device number back.
pub proof fn lemma_makedev_unpack(dev: u64)
    ensures
        spec_makedev(spec_major(dev), spec_minor(dev)) == dev,
{
    assert(spec_makedev(spec_major(dev), spec_minor(dev)) == dev) by (bit_vector);
}

} // verus!
