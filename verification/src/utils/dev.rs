//! Packing and unpacking of device numbers, one module per platform layout.

pub mod freebsd;
pub mod linux;
pub mod solaris;
