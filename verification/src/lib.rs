//! Building blocks of a memcpy/memset micro-benchmark for x86-64: the
//! feature table derived from `cpuid`, the selection of an implementation by
//! name, portable byte routines, buffer suppliers and timing statistics.

pub mod detect;
pub mod text;
pub mod memops;
pub mod supply;
pub mod bench;
pub mod timing;
