//! Solaris device numbers. The layout depends on the width of a pointer:
//! `x64` is the layout of 64-bit Solaris, `x32` the SVR4 layout of 32-bit
//! Solaris.

pub mod x32;
pub mod x64;
