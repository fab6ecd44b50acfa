//! Linux device numbers, packed and unpacked by the `nix` crate.
//!
//! The major number has 32 bits: its low 12 bits sit in bits 8..20 of the
//! device number and its upper 20 bits in bits 44..64. The minor number has 32
//! bits: its low byte sits in bits 0..8 and its upper 24 bits in bits 20..44.

use vstd::prelude::*;

verus! {

/// The device number that packs `major` and `minor`.
pub open spec fn spec_makedev(major: u64, minor: u64) -> u64 {
    ((major & 0xffff_f000) << 32) | ((major & 0x0000_0fff) << 8) | ((minor & 0xffff_ff00) << 12) | (
    minor & 0x0000_00ff)
}

/// The major number packed in `dev`.
pub open spec fn spec_major(dev: u64) -> u64 {
    ((dev >> 32) & 0xffff_f000) | ((dev >> 8) & 0x0000_0fff)
}

/// The minor number packed in `dev`.
pub open spec fn spec_minor(dev: u64) -> u64 {
    ((dev >> 12) & 0xffff_ff00) | (dev & 0x0000_00ff)
}

/// `nix::sys::stat::makedev` on a Linux target: the four masked and shifted
/// parts of the two numbers, or-ed together. Not proved here.
pub assume_specification[ nix::sys::stat::makedev ](major: u64, minor: u64) -> (dev:
    nix::libc::dev_t)
    ensures
        dev == spec_makedev(major, minor),
;

/// `nix::sys::stat::major` on a Linux target: the two parts of the major
/// number, shifted back and or-ed together. Not proved here.
pub assume_specification[ nix::sys::stat::major ](dev: nix::libc::dev_t) -> (m: u64)
    ensures
        m == spec_major(dev),
;

/// `nix::sys::stat::minor` on a Linux target: the two parts of the minor
/// number, shifted back and or-ed together. Not proved here.
pub assume_specification[ nix::sys::stat::minor ](dev: nix::libc::dev_t) -> (m: u64)
    ensures
        m == spec_minor(dev),
;

/// Packs a major and a minor number into a device number. Bits of either
/// number above the 32nd are dropped.
pub fn makedev(major: u64, minor: u64) -> (dev: u64)
    ensures
        dev == spec_makedev(major, minor),
        major <= 0xffff_ffff && minor <= 0xffff_ffff ==> spec_major(dev) == major && spec_minor(dev)
            == minor,
{
    proof {
        if major <= 0xffff_ffff && minor <= 0xffff_ffff {
            lemma_unpack_makedev(major, minor);
        }
    }
    nix::sys::stat::makedev(major, minor)
}

/// Extracts the major number of a device number.
pub fn major(dev: u64) -> (m: u64)
    ensures
        m == spec_major(dev),
        m <= 0xffff_ffff,
{
    assert(spec_major(dev) <= 0xffff_ffff) by (bit_vector);
    nix::sys::stat::major(dev)
}

/// Extracts the minor number of a device number.
pub fn minor(dev: u64) -> (m: u64)
    ensures
        m == spec_minor(dev),
        m <= 0xffff_ffff,
{
    assert(spec_minor(dev) <= 0xffff_ffff) by (bit_vector);
    nix::sys::stat::minor(dev)
}

/// Unpacking a packed pair gives the pair back, for numbers of at most 32 bits.
pub proof fn lemma_unpack_makedev(major: u64, minor: u64)
    requires
        major <= 0xffff_ffff,
        minor <= 0xffff_ffff,
    ensures
        spec_major(spec_makedev(major, minor)) == major,
        spec_minor(spec_makedev(major, minor)) == minor,
{
    assert(spec_major(spec_makedev(major, minor)) == major) by (bit_vector)
        requires
            major <= 0xffff_ffff,
            minor <= 0xffff_ffff,
    ;
    assert(spec_minor(spec_makedev(major, minor)) == minor) by (bit_vector)
        requires
            major <= 0xffff_ffff,
            minor <= 0xffff_ffff,
    ;
}

/// Packing the two numbers of a device number gives the device number back.
pub proof fn lemma_makedev_unpack(dev: u64)
    ensures
        spec_makedev(spec_major(dev), spec_minor(dev)) == dev,
{
    assert(spec_makedev(spec_major(dev), spec_minor(dev)) == dev) by (bit_vector);
}

} // verus!
