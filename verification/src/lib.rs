//! Core of a POSIX filesystem conformance harness: the catalogue of test
//! cases, the pool of identities they borrow, the per-test sandbox state, the
//! rules for switching the process identity and file-creation mask, the two
//! execution lanes, and the scheduler that decides what runs next.
//!
//! Nothing in here touches the operating system. Every operation either
//! computes a value or hands back a list of steps for the caller to perform.

pub mod config;
pub mod context;
pub mod features;
pub mod file_type;
pub mod flags;
pub mod identity;
pub mod lanes;
pub mod names;
pub mod pool;
pub mod runner;
pub mod umask;
pub mod utils;
