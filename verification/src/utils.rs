//! Small helpers shared by the rest of the harness.

pub mod dev;
