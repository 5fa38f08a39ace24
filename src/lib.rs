//! Owned, validated zero-copy archives over byte containers whose contents
//! stay put between accesses.

pub mod mmap;
pub mod owned;
pub mod stable;
